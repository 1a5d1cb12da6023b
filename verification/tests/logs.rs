use git_lfs_cache::logs::dir;

#[test]
fn logs_directory_lies_below_the_product_directory() {
    assert_eq!(dir("/repo/.git"), "/repo/.git/lfs-cache/logs");
    assert_eq!(dir("/repo/.git/"), "/repo/.git/lfs-cache/logs");
}
