use vstd::prelude::*;

verus! {

/// The engine's build identifier, reported by diagnostics endpoints.
/// It is never empty.
pub fn fuse_commit_version() -> (version: String)
    ensures
        version@.len() > 0,
{
    proof {
        reveal_strlit("v0.4.70-nightly");
    }
    String::from_str("v0.4.70-nightly")
}

} // verus!
