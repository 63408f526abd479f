use fusequery::configs::fuse_commit_version;

#[test]
fn test_fuse_commit_version() {
    let v = fuse_commit_version();
    assert!(v.len() > 0);
}
