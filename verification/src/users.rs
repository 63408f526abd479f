use vstd::prelude::*;

use crate::errors::ErrorCode;

verus! {

/// The closed set of privilege kinds a principal can hold.
#[derive(Clone, Copy, Debug, PartialEq, Eq, Structural)]
pub enum PrivilegeType {
    Create,
    Select,
    Insert,
    Update,
}

/// A set of granted privilege kinds, kept as a bit mask over
/// `PrivilegeType`.
#[derive(Clone, Copy, Debug, PartialEq, Eq, Structural)]
pub struct UserPrivilege {
    pub bits: u64,
}

/// The mask bit of one privilege kind.
pub open spec fn privilege_mask(t: PrivilegeType) -> u64 {
    match t {
        PrivilegeType::Create => 1u64,
        PrivilegeType::Select => 2u64,
        PrivilegeType::Insert => 4u64,
        PrivilegeType::Update => 8u64,
    }
}

impl UserPrivilege {
    /// No privilege kind granted.
    pub fn empty() -> (p: UserPrivilege)
        ensures
            p.bits == 0u64,
    {
        UserPrivilege { bits: 0u64 }
    }

    fn mask_of(t: PrivilegeType) -> (mask: u64)
        ensures
            mask == privilege_mask(t),
    {
        match t {
            PrivilegeType::Create => 1u64,
            PrivilegeType::Select => 2u64,
            PrivilegeType::Insert => 4u64,
            PrivilegeType::Update => 8u64,
        }
    }

    /// The set with one more privilege kind granted.
    pub fn with_privilege(self, t: PrivilegeType) -> (p: UserPrivilege)
        ensures
            p.bits == self.bits | privilege_mask(t),
    {
        UserPrivilege { bits: self.bits | Self::mask_of(t) }
    }

    /// Whether the set grants the privilege kind.
    pub fn has_privilege(self, t: PrivilegeType) -> (granted: bool)
        ensures
            granted == ((self.bits & privilege_mask(t)) != 0u64),
    {
        (self.bits & Self::mask_of(t)) != 0u64
    }
}

/// Granting a kind makes the set grant it.
pub proof fn lemma_with_privilege_grants(bits: u64, t: PrivilegeType)
    ensures
        (bits | privilege_mask(t)) & privilege_mask(t) != 0u64,
{
    let mask = privilege_mask(t);
    assert(mask != 0u64);
    assert((bits | mask) & mask == mask) by (bit_vector);
}

/// Granting one kind leaves every other kind as it was.
pub proof fn lemma_with_privilege_preserves_others(bits: u64, t1: PrivilegeType, t2: PrivilegeType)
    requires
        t1 != t2,
    ensures
        ((bits | privilege_mask(t1)) & privilege_mask(t2) != 0u64) == (bits & privilege_mask(t2)
            != 0u64),
{
    let m1 = privilege_mask(t1);
    let m2 = privilege_mask(t2);
    assert(m1 == 1u64 || m1 == 2u64 || m1 == 4u64 || m1 == 8u64);
    assert(m2 == 1u64 || m2 == 2u64 || m2 == 4u64 || m2 == 8u64);
    assert(m1 != m2);
    assert((m1 == 1u64 || m1 == 2u64 || m1 == 4u64 || m1 == 8u64) && (m2 == 1u64 || m2 == 2u64
        || m2 == 4u64 || m2 == 8u64) && m1 != m2 ==> (((bits | m1) & m2 != 0u64) == (bits & m2
        != 0u64))) by (bit_vector);
}

/// One stored principal: the (name, host pattern) key and its granted
/// privilege set.
#[derive(Debug)]
pub struct UserInfo {
    pub name: String,
    pub hostname: String,
    pub privileges: UserPrivilege,
}

impl Clone for UserInfo {
    fn clone(&self) -> (res: Self)
        ensures
            res == *self,
    {
        UserInfo {
            name: self.name.clone(),
            hostname: self.hostname.clone(),
            privileges: self.privileges,
        }
    }
}

/// Whether record `r` is stored under the key (name, host).
pub open spec fn user_key_is(r: UserInfo, name: Seq<char>, host: Seq<char>) -> bool {
    r.name@ == name && r.hostname@ == host
}

/// The privilege set stored for (name, host): that of the first record with
/// the key, or `None` when the principal is unknown.
pub open spec fn lookup_user(s: Seq<UserInfo>, name: Seq<char>, host: Seq<char>) -> Option<
    UserPrivilege,
>
    decreases s.len(),
{
    if s.len() <= 0 {
        None
    } else if user_key_is(s[0], name, host) {
        Some(s[0].privileges)
    } else {
        lookup_user(s.drop_first(), name, host)
    }
}

/// The store after a grant for (name, host): the first record with the key
/// carries exactly the granted set; everything else is untouched. A store
/// without the key is unchanged (the grant itself fails then).
pub open spec fn grant_result(
    s: Seq<UserInfo>,
    name: Seq<char>,
    host: Seq<char>,
    privileges: UserPrivilege,
) -> Seq<UserInfo>
    decreases s.len(),
{
    if s.len() <= 0 {
        s
    } else if user_key_is(s[0], name, host) {
        seq![UserInfo { name: s[0].name, hostname: s[0].hostname, privileges }] + s.drop_first()
    } else {
        seq![s[0]] + grant_result(s.drop_first(), name, host, privileges)
    }
}

/// A lookup skips any prefix free of the key, and a grant leaves such a
/// prefix untouched.
pub proof fn lemma_scan_past_prefix(
    s: Seq<UserInfo>,
    name: Seq<char>,
    host: Seq<char>,
    privileges: UserPrivilege,
    i: int,
)
    requires
        0 <= i <= s.len(),
        forall|k: int| 0 <= k < i ==> !user_key_is(#[trigger] s[k], name, host),
    ensures
        lookup_user(s, name, host) == lookup_user(s.skip(i), name, host),
        grant_result(s, name, host, privileges) =~= s.take(i) + grant_result(
            s.skip(i),
            name,
            host,
            privileges,
        ),
    decreases i,
{
    if i > 0 {
        lemma_scan_past_prefix(s.drop_first(), name, host, privileges, i - 1);
        assert(s.drop_first().skip(i - 1) =~= s.skip(i));
        assert(s.drop_first().take(i - 1) =~= s.take(i).drop_first());
        assert(seq![s[0]] + (s.take(i).drop_first() + grant_result(s.skip(i), name, host, privileges))
            =~= s.take(i) + grant_result(s.skip(i), name, host, privileges));
    } else {
        assert(s.skip(0) =~= s);
        assert(s.take(0) + grant_result(s, name, host, privileges) =~= grant_result(
            s,
            name,
            host,
            privileges,
        ));
    }
}

/// The authoritative principal-to-privilege store. `reachable` models the
/// transport to the store: when it is down every mutation and lookup fails
/// and nothing is recorded.
#[derive(Debug)]
pub struct UserManager {
    pub reachable: bool,
    pub users: Vec<UserInfo>,
}

impl UserManager {
    /// A reachable store with no principals.
    pub fn create() -> (mgr: UserManager)
        ensures
            mgr.reachable,
            mgr.users@ =~= Seq::<UserInfo>::empty(),
    {
        UserManager { reachable: true, users: Vec::new() }
    }

    /// A store whose transport is down: the simulated-unreachable double.
    pub fn create_unreachable() -> (mgr: UserManager)
        ensures
            !mgr.reachable,
            mgr.users@ =~= Seq::<UserInfo>::empty(),
    {
        UserManager { reachable: false, users: Vec::new() }
    }

    /// Scan for the key. `Some(i)` names the first record stored under it;
    /// `None` says no record carries it.
    fn find_user_index(&self, name: &String, hostname: &String) -> (found: Option<usize>)
        ensures
            match found {
                Some(i) => {
                    &&& i < self.users@.len()
                    &&& user_key_is(self.users@[i as int], name@, hostname@)
                    &&& forall|k: int|
                        0 <= k < i ==> !user_key_is(#[trigger] self.users@[k], name@, hostname@)
                },
                None => forall|k: int|
                    0 <= k < self.users@.len() ==> !user_key_is(
                        #[trigger] self.users@[k],
                        name@,
                        hostname@,
                    ),
            },
    {
        let mut i: usize = 0;
        while i < self.users.len()
            invariant
                i <= self.users@.len(),
                forall|k: int| 0 <= k < i ==> !user_key_is(#[trigger] self.users@[k], name@, hostname@),
            decreases self.users@.len() - i,
        {
            if self.users[i].name == *name && self.users[i].hostname == *hostname {
                return Some(i);
            }
            i = i + 1;
        }
        None
    }

    /// Register a principal with no privileges yet. Fails when the store is
    /// unreachable or the key is already taken; the store is unchanged on
    /// any failure.
    pub fn add_user(&mut self, name: &String, hostname: &String) -> (outcome: Result<(), ErrorCode>)
        ensures
            final(self).reachable == old(self).reachable,
            match outcome {
                Ok(()) => {
                    &&& old(self).reachable
                    &&& lookup_user(old(self).users@, name@, hostname@) is None
                    &&& final(self).users@ == old(self).users@.push(
                        UserInfo {
                            name: *name,
                            hostname: *hostname,
                            privileges: UserPrivilege { bits: 0u64 },
                        },
                    )
                },
                Err(e) => {
                    &&& final(self).users@ == old(self).users@
                    &&& match e {
                        ErrorCode::StoreUnreachable => !old(self).reachable,
                        ErrorCode::UserAlreadyExists => old(self).reachable && lookup_user(
                            old(self).users@,
                            name@,
                            hostname@,
                        ) is Some,
                        _ => false,
                    }
                },
            },
    {
        if !self.reachable {
            return Err(ErrorCode::StoreUnreachable);
        }
        match self.find_user_index(name, hostname) {
            Some(i) => {
                proof {
                    lemma_scan_past_prefix(
                        self.users@,
                        name@,
                        hostname@,
                        UserPrivilege { bits: 0u64 },
                        i as int,
                    );
                }
                Err(ErrorCode::UserAlreadyExists)
            }
            None => {
                proof {
                    lemma_scan_past_prefix(
                        self.users@,
                        name@,
                        hostname@,
                        UserPrivilege { bits: 0u64 },
                        self.users@.len() as int,
                    );
                }
                self.users.push(
                    UserInfo {
                        name: name.clone(),
                        hostname: hostname.clone(),
                        privileges: UserPrivilege { bits: 0u64 },
                    },
                );
                Ok(())
            }
        }
    }

    /// Query the privilege set stored for (name, host pattern). Fails when
    /// the store is unreachable or the principal is unknown.
    pub fn get_user_privileges(&self, name: &String, hostname: &String) -> (outcome: Result<
        UserPrivilege,
        ErrorCode,
    >)
        ensures
            match outcome {
                Ok(p) => self.reachable && lookup_user(self.users@, name@, hostname@) == Some(p),
                Err(e) => match e {
                    ErrorCode::StoreUnreachable => !self.reachable,
                    ErrorCode::UnknownUser => self.reachable && lookup_user(
                        self.users@,
                        name@,
                        hostname@,
                    ) is None,
                    _ => false,
                },
            },
    {
        if !self.reachable {
            return Err(ErrorCode::StoreUnreachable);
        }
        match self.find_user_index(name, hostname) {
            Some(i) => {
                proof {
                    lemma_scan_past_prefix(
                        self.users@,
                        name@,
                        hostname@,
                        UserPrivilege { bits: 0u64 },
                        i as int,
                    );
                }
                Ok(self.users[i].privileges)
            }
            None => {
                proof {
                    lemma_scan_past_prefix(
                        self.users@,
                        name@,
                        hostname@,
                        UserPrivilege { bits: 0u64 },
                        self.users@.len() as int,
                    );
                }
                Err(ErrorCode::UnknownUser)
            }
        }
    }

    /// Replace the stored privilege set for the matching principal: the
    /// sole side effect a privilege-management interpreter invokes. The
    /// update is atomic per (name, host) key — on success the store holds
    /// `grant_result` in full, and on any failure it is untouched, so a
    /// reader never observes a partially-applied update.
    pub fn set_user_privileges(
        &mut self,
        name: &String,
        hostname: &String,
        privileges: UserPrivilege,
    ) -> (outcome: Result<(), ErrorCode>)
        ensures
            final(self).reachable == old(self).reachable,
            match outcome {
                Ok(()) => {
                    &&& old(self).reachable
                    &&& lookup_user(old(self).users@, name@, hostname@) is Some
                    &&& final(self).users@ == grant_result(
                        old(self).users@,
                        name@,
                        hostname@,
                        privileges,
                    )
                },
                Err(e) => {
                    &&& final(self).users@ == old(self).users@
                    &&& match e {
                        ErrorCode::StoreUnreachable => !old(self).reachable,
                        ErrorCode::UnknownUser => old(self).reachable && lookup_user(
                            old(self).users@,
                            name@,
                            hostname@,
                        ) is None,
                        _ => false,
                    }
                },
            },
    {
        if !self.reachable {
            return Err(ErrorCode::StoreUnreachable);
        }
        match self.find_user_index(name, hostname) {
            Some(i) => {
                proof {
                    lemma_scan_past_prefix(self.users@, name@, hostname@, privileges, i as int);
                }
                let ghost prev = self.users@;
                let record = UserInfo {
                    name: self.users[i].name.clone(),
                    hostname: self.users[i].hostname.clone(),
                    privileges,
                };
                self.users[i] = record;
                proof {
                    assert(prev.skip(i as int).drop_first() =~= prev.skip(i as int + 1));
                    assert(self.users@ =~= prev.take(i as int) + (seq![
                        UserInfo {
                            name: prev[i as int].name,
                            hostname: prev[i as int].hostname,
                            privileges,
                        },
                    ] + prev.skip(i as int).drop_first()));
                }
                Ok(())
            }
            None => {
                proof {
                    lemma_scan_past_prefix(
                        self.users@,
                        name@,
                        hostname@,
                        privileges,
                        self.users@.len() as int,
                    );
                }
                Err(ErrorCode::UnknownUser)
            }
        }
    }
}

/// After a grant succeeds for (name, host, privileges), a lookup of the key
/// shows exactly that privilege set.
pub proof fn lemma_grant_observed(
    s: Seq<UserInfo>,
    name: Seq<char>,
    host: Seq<char>,
    privileges: UserPrivilege,
)
    requires
        lookup_user(s, name, host) is Some,
    ensures
        lookup_user(grant_result(s, name, host, privileges), name, host) == Some(privileges),
    decreases s.len(),
{
    if s.len() > 0 && !user_key_is(s[0], name, host) {
        lemma_grant_observed(s.drop_first(), name, host, privileges);
        assert((seq![s[0]] + grant_result(s.drop_first(), name, host, privileges)).drop_first()
            =~= grant_result(s.drop_first(), name, host, privileges));
    }
}

/// A grant for one key never disturbs what any other key shows: the update
/// is atomic per (name, host) and independent across principals.
pub proof fn lemma_grant_preserves_other_keys(
    s: Seq<UserInfo>,
    name: Seq<char>,
    host: Seq<char>,
    privileges: UserPrivilege,
    other_name: Seq<char>,
    other_host: Seq<char>,
)
    requires
        !(other_name == name && other_host == host),
    ensures
        lookup_user(grant_result(s, name, host, privileges), other_name, other_host) == lookup_user(
            s,
            other_name,
            other_host,
        ),
    decreases s.len(),
{
    if s.len() > 0 {
        if user_key_is(s[0], name, host) {
            let updated = UserInfo { name: s[0].name, hostname: s[0].hostname, privileges };
            assert(!user_key_is(updated, other_name, other_host));
            assert((seq![updated] + s.drop_first()).drop_first() =~= s.drop_first());
        } else {
            lemma_grant_preserves_other_keys(
                s.drop_first(),
                name,
                host,
                privileges,
                other_name,
                other_host,
            );
            assert((seq![s[0]] + grant_result(s.drop_first(), name, host, privileges)).drop_first()
                =~= grant_result(s.drop_first(), name, host, privileges));
        }
    }
}

/// Re-granting the privilege set a key already holds changes nothing
/// observable: the store is left exactly as it was.
pub proof fn lemma_grant_idempotent(
    s: Seq<UserInfo>,
    name: Seq<char>,
    host: Seq<char>,
    privileges: UserPrivilege,
)
    requires
        lookup_user(s, name, host) == Some(privileges),
    ensures
        grant_result(s, name, host, privileges) == s,
    decreases s.len(),
{
    if s.len() > 0 {
        if user_key_is(s[0], name, host) {
            assert(seq![UserInfo { name: s[0].name, hostname: s[0].hostname, privileges }]
                + s.drop_first() =~= s);
        } else {
            lemma_grant_idempotent(s.drop_first(), name, host, privileges);
            assert(seq![s[0]] + grant_result(s.drop_first(), name, host, privileges) =~= s);
        }
    }
}

/// Grants for two distinct (name, host) keys are independently observable:
/// after both, each key shows exactly its own granted set, with no
/// cross-interference.
pub proof fn lemma_grants_independent(
    s: Seq<UserInfo>,
    name1: Seq<char>,
    host1: Seq<char>,
    privileges1: UserPrivilege,
    name2: Seq<char>,
    host2: Seq<char>,
    privileges2: UserPrivilege,
)
    requires
        !(name1 == name2 && host1 == host2),
        lookup_user(s, name1, host1) is Some,
        lookup_user(s, name2, host2) is Some,
    ensures
        ({
            let after_both = grant_result(
                grant_result(s, name1, host1, privileges1),
                name2,
                host2,
                privileges2,
            );
            &&& lookup_user(after_both, name1, host1) == Some(privileges1)
            &&& lookup_user(after_both, name2, host2) == Some(privileges2)
        }),
{
    let after_first = grant_result(s, name1, host1, privileges1);
    lemma_grant_observed(s, name1, host1, privileges1);
    lemma_grant_preserves_other_keys(s, name1, host1, privileges1, name2, host2);
    lemma_grant_observed(after_first, name2, host2, privileges2);
    lemma_grant_preserves_other_keys(after_first, name2, host2, privileges2, name1, host1);
}

} // verus!
