use gobai::paths::path_join;

#[test]
fn join_adds_one_separator() {
    assert_eq!(path_join("/a/b", "c.toml"), "/a/b/c.toml");
    assert_eq!(path_join("/a/b/", "c.toml"), "/a/b/c.toml");
    assert_eq!(path_join("/", "c.toml"), "/c.toml");
    assert_eq!(path_join("", "c.toml"), "c.toml");
    assert_eq!(path_join("rel", "c.toml"), "rel/c.toml");
}
