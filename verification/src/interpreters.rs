use vstd::prelude::*;

use crate::data::BlockView;
use crate::errors::ErrorCode;
use crate::plans::{GrantPrivilegePlan, PlanNode};
use crate::sessions::Context;
use crate::streams::DataBlockStream;
use crate::users::{grant_result, lookup_user};

verus! {

/// The stable diagnostic identifier of the privilege-grant interpreter.
pub open spec fn grant_privilege_interpreter_name() -> Seq<char> {
    "GrantPrivilegeInterpreter"@
}

/// What `GrantPrivilegeInterpreter::execute` guarantees, relating the
/// context before and after the call to its outcome.
///
/// On success the grant is fully applied to the privilege store before the
/// stream is handed back, atomically for the plan's (name, host) key, and
/// the stream is empty, completes immediately, and carries the plan's
/// declared schema. On failure the failure is surfaced unchanged and the
/// context — the privilege store included — is untouched: no partial
/// privilege state is recorded.
pub open spec fn grant_execute_post(
    plan: GrantPrivilegePlan,
    pre: Context,
    post: Context,
    outcome: Result<DataBlockStream, ErrorCode>,
) -> bool {
    match outcome {
        Ok(stream) => {
            &&& pre.sessions.user_manager.reachable
            &&& lookup_user(pre.sessions.user_manager.users@, plan.name@, plan.hostname@) is Some
            &&& post.sessions.user_manager.users@ == grant_result(
                pre.sessions.user_manager.users@,
                plan.name@,
                plan.hostname@,
                plan.priv_types,
            )
            &&& post.sessions.user_manager.reachable == pre.sessions.user_manager.reachable
            &&& post.settings == pre.settings
            &&& post.id == pre.id
            &&& stream.well_formed()
            &&& stream.schema@ == plan.schema_view()
            &&& stream.remaining() =~= Seq::<BlockView>::empty()
            &&& stream.terminal is None
        },
        Err(e) => {
            &&& post.sessions.user_manager.users@ == pre.sessions.user_manager.users@
            &&& post.sessions.user_manager.reachable == pre.sessions.user_manager.reachable
            &&& post.settings == pre.settings
            &&& post.id == pre.id
            &&& match e {
                ErrorCode::StoreUnreachable => !pre.sessions.user_manager.reachable,
                ErrorCode::UnknownUser => pre.sessions.user_manager.reachable && lookup_user(
                    pre.sessions.user_manager.users@,
                    plan.name@,
                    plan.hostname@,
                ) is None,
                _ => false,
            }
        },
    }
}

/// The execution strategy for a privilege-grant statement: its sole side
/// effect is one `set_user_privileges` call into the shared `UserManager`,
/// and its result stream yields zero blocks.
#[derive(Debug)]
pub struct GrantPrivilegeInterpreter {
    pub plan: GrantPrivilegePlan,
}

impl GrantPrivilegeInterpreter {
    pub fn try_create(plan: GrantPrivilegePlan) -> (outcome: Result<
        GrantPrivilegeInterpreter,
        ErrorCode,
    >)
        ensures
            outcome matches Ok(interpreter) && interpreter.plan == plan,
    {
        Ok(GrantPrivilegeInterpreter { plan })
    }

    /// The stable, non-empty identifier used for diagnostics and tracing.
    pub fn name(&self) -> (name: &'static str)
        ensures
            name@ == grant_privilege_interpreter_name(),
    {
        "GrantPrivilegeInterpreter"
    }

    /// Apply the plan's privilege grant to the shared store, then hand back
    /// an empty stream carrying the plan's declared schema. Any upstream
    /// input is ignored: a grant consumes no rows.
    pub fn execute(&self, ctx: &mut Context, input: Option<DataBlockStream>) -> (outcome: Result<
        DataBlockStream,
        ErrorCode,
    >)
        ensures
            grant_execute_post(self.plan, *old(ctx), *final(ctx), outcome),
    {
        let _ = input;
        match ctx.sessions.user_manager.set_user_privileges(
            &self.plan.name,
            &self.plan.hostname,
            self.plan.priv_types,
        ) {
            Ok(()) => Ok(DataBlockStream::create(self.plan.schema(), Vec::new())),
            Err(e) => Err(e),
        }
    }
}

/// The per-statement-kind execution strategies, dispatched over the plan's
/// tag.
#[derive(Debug)]
pub enum Interpreter {
    GrantPrivilege(GrantPrivilegeInterpreter),
}

impl Interpreter {
    /// The stable diagnostic identifier of this interpreter.
    pub open spec fn spec_name(self) -> Seq<char> {
        match self {
            Interpreter::GrantPrivilege(_) => grant_privilege_interpreter_name(),
        }
    }

    /// `name` is a pure function of the statement kind: repeated calls on
    /// one interpreter return the same identifier.
    pub fn name(&self) -> (name: &'static str)
        ensures
            name@ == self.spec_name(),
    {
        match self {
            Interpreter::GrantPrivilege(interpreter) => interpreter.name(),
        }
    }

    /// Turn the plan this interpreter was built for into a result stream,
    /// performing any administrative side effect first.
    pub fn execute(&self, ctx: &mut Context, input: Option<DataBlockStream>) -> (outcome: Result<
        DataBlockStream,
        ErrorCode,
    >)
        ensures
            match self {
                Interpreter::GrantPrivilege(interpreter) => grant_execute_post(
                    interpreter.plan,
                    *old(ctx),
                    *final(ctx),
                    outcome,
                ),
            },
    {
        match self {
            Interpreter::GrantPrivilege(interpreter) => interpreter.execute(ctx, input),
        }
    }
}

/// The one registration point mapping each plan kind to its interpreter.
pub struct InterpreterFactory {}

impl InterpreterFactory {
    pub fn get(plan: PlanNode) -> (outcome: Result<Interpreter, ErrorCode>)
        ensures
            match plan {
                PlanNode::GrantPrivilege(grant_plan) => outcome matches Ok(interpreter)
                    && interpreter == Interpreter::GrantPrivilege(
                    GrantPrivilegeInterpreter { plan: grant_plan },
                ),
            },
    {
        match plan {
            PlanNode::GrantPrivilege(grant_plan) => {
                match GrantPrivilegeInterpreter::try_create(grant_plan) {
                    Ok(interpreter) => Ok(Interpreter::GrantPrivilege(interpreter)),
                    Err(e) => Err(e),
                }
            }
        }
    }
}

/// For every supported plan kind, the interpreter the factory dispatches to
/// carries a non-empty diagnostic name; `name()` pins its result to that
/// identifier, so repeated calls are stable.
pub proof fn lemma_interpreter_name_nonempty(interpreter: Interpreter)
    ensures
        interpreter.spec_name().len() > 0,
{
    reveal_strlit("GrantPrivilegeInterpreter");
}

/// A grant is owed success: when the store is reachable and the principal
/// is known, `execute` cannot fail.
pub proof fn lemma_grant_execute_succeeds(
    plan: GrantPrivilegePlan,
    pre: Context,
    post: Context,
    outcome: Result<DataBlockStream, ErrorCode>,
)
    requires
        grant_execute_post(plan, pre, post, outcome),
        pre.sessions.user_manager.reachable,
        lookup_user(pre.sessions.user_manager.users@, plan.name@, plan.hostname@) is Some,
    ensures
        outcome is Ok,
{
}

/// Privilege-grant invariant over the `execute` contract: after a grant for
/// (name, host, privileges) succeeds, a lookup of the key in the store
/// shows exactly that privilege set, and re-granting the identical set is
/// idempotent — the store is observably unchanged by the second grant.
pub proof fn lemma_grant_execute_invariant(
    plan: GrantPrivilegePlan,
    pre: Context,
    mid: Context,
    post: Context,
    first: Result<DataBlockStream, ErrorCode>,
    second: Result<DataBlockStream, ErrorCode>,
)
    requires
        grant_execute_post(plan, pre, mid, first),
        first is Ok,
        grant_execute_post(plan, mid, post, second),
        second is Ok,
    ensures
        lookup_user(mid.sessions.user_manager.users@, plan.name@, plan.hostname@) == Some(
            plan.priv_types,
        ),
        post.sessions.user_manager.users@ == mid.sessions.user_manager.users@,
{
    crate::users::lemma_grant_observed(
        pre.sessions.user_manager.users@,
        plan.name@,
        plan.hostname@,
        plan.priv_types,
    );
    crate::users::lemma_grant_idempotent(
        mid.sessions.user_manager.users@,
        plan.name@,
        plan.hostname@,
        plan.priv_types,
    );
}

/// Grants for two distinct (name, host) keys, run one after the other as a
/// scheduler would interleave two independent queries, both succeed and are
/// independently observable: each key shows exactly its own set.
pub proof fn lemma_grant_executes_independent(
    plan1: GrantPrivilegePlan,
    plan2: GrantPrivilegePlan,
    pre: Context,
    mid: Context,
    post: Context,
    first: Result<DataBlockStream, ErrorCode>,
    second: Result<DataBlockStream, ErrorCode>,
)
    requires
        !(plan1.name@ == plan2.name@ && plan1.hostname@ == plan2.hostname@),
        pre.sessions.user_manager.reachable,
        lookup_user(pre.sessions.user_manager.users@, plan1.name@, plan1.hostname@) is Some,
        lookup_user(pre.sessions.user_manager.users@, plan2.name@, plan2.hostname@) is Some,
        grant_execute_post(plan1, pre, mid, first),
        grant_execute_post(plan2, mid, post, second),
    ensures
        first is Ok,
        second is Ok,
        lookup_user(post.sessions.user_manager.users@, plan1.name@, plan1.hostname@) == Some(
            plan1.priv_types,
        ),
        lookup_user(post.sessions.user_manager.users@, plan2.name@, plan2.hostname@) == Some(
            plan2.priv_types,
        ),
{
    lemma_grant_execute_succeeds(plan1, pre, mid, first);
    crate::users::lemma_grant_preserves_other_keys(
        pre.sessions.user_manager.users@,
        plan1.name@,
        plan1.hostname@,
        plan1.priv_types,
        plan2.name@,
        plan2.hostname@,
    );
    lemma_grant_execute_succeeds(plan2, mid, post, second);
    crate::users::lemma_grant_observed(
        mid.sessions.user_manager.users@,
        plan2.name@,
        plan2.hostname@,
        plan2.priv_types,
    );
    crate::users::lemma_grant_preserves_other_keys(
        mid.sessions.user_manager.users@,
        plan2.name@,
        plan2.hostname@,
        plan2.priv_types,
        plan1.name@,
        plan1.hostname@,
    );
    crate::users::lemma_grant_observed(
        pre.sessions.user_manager.users@,
        plan1.name@,
        plan1.hostname@,
        plan1.priv_types,
    );
}

} // verus!
