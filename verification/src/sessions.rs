use vstd::prelude::*;

use crate::errors::ErrorCode;
use crate::settings::{lookup_setting, Settings};
use crate::users::UserManager;

verus! {

/// The process-wide session state: it owns the shared `UserManager` (and
/// would own cluster topology, which is outside this core).
#[derive(Debug)]
pub struct SessionManager {
    pub user_manager: UserManager,
}

impl SessionManager {
    pub fn create(user_manager: UserManager) -> (mgr: SessionManager)
        ensures
            mgr.user_manager == user_manager,
    {
        SessionManager { user_manager }
    }

    pub fn get_user_manager(&self) -> (mgr: &UserManager)
        ensures
            *mgr == self.user_manager,
    {
        &self.user_manager
    }

    pub fn get_user_manager_mut(&mut self) -> (mgr: &mut UserManager)
        ensures
            *mgr == old(self).user_manager,
            *final(self) == (SessionManager { user_manager: *final(mgr) }),
    {
        &mut self.user_manager
    }
}

/// The per-query shared bundle: a unique id for tracing correlation, the
/// query's validated settings store, and the handle to the session manager
/// that exposes the shared `UserManager`.
#[derive(Debug)]
pub struct Context {
    pub id: u64,
    pub settings: Settings,
    pub sessions: SessionManager,
}

impl Context {
    pub fn create(id: u64, settings: Settings, sessions: SessionManager) -> (ctx: Context)
        ensures
            ctx.id == id,
            ctx.settings == settings,
            ctx.sessions == sessions,
    {
        Context { id, settings, sessions }
    }

    /// A fresh per-query context: default settings and a reachable, empty
    /// privilege store.
    pub fn try_create(id: u64) -> (outcome: Result<Context, ErrorCode>)
        ensures
            outcome matches Ok(ctx) && {
                &&& ctx.id == id
                &&& ctx.sessions.user_manager.reachable
                &&& ctx.sessions.user_manager.users@.len() == 0
                &&& ctx.settings.entries@.len() == 2
                &&& lookup_setting(ctx.settings.entries@, "max_threads"@) == Some(8u64)
                &&& lookup_setting(ctx.settings.entries@, "max_block_size"@) == Some(10000u64)
            },
    {
        Ok(
            Context {
                id,
                settings: Settings::create(),
                sessions: SessionManager::create(UserManager::create()),
            },
        )
    }

    pub fn get_id(&self) -> (id: u64)
        ensures
            id == self.id,
    {
        self.id
    }

    pub fn get_settings(&self) -> (settings: &Settings)
        ensures
            *settings == self.settings,
    {
        &self.settings
    }

    pub fn get_settings_mut(&mut self) -> (settings: &mut Settings)
        ensures
            *settings == old(self).settings,
            *final(self) == (Context {
                id: old(self).id,
                settings: *final(settings),
                sessions: old(self).sessions,
            }),
    {
        &mut self.settings
    }

    pub fn get_sessions_manager(&self) -> (sessions: &SessionManager)
        ensures
            *sessions == self.sessions,
    {
        &self.sessions
    }

    pub fn get_sessions_manager_mut(&mut self) -> (sessions: &mut SessionManager)
        ensures
            *sessions == old(self).sessions,
            *final(self) == (Context {
                id: old(self).id,
                settings: old(self).settings,
                sessions: *final(sessions),
            }),
    {
        &mut self.sessions
    }
}

} // verus!
