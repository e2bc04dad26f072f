use infer_intf::paths::interface_path;

#[test]
fn replaces_the_source_extension() {
    assert_eq!(interface_path("foo.ml"), "foo.mli");
}

#[test]
fn replaces_only_the_last_extension() {
    assert_eq!(interface_path("x.tar.gz"), "x.tar.mli");
}

#[test]
fn appends_when_there_is_no_extension() {
    assert_eq!(interface_path("noext"), "noext.mli");
}

#[test]
fn a_dot_in_a_directory_is_not_an_extension() {
    assert_eq!(interface_path("dir.v/name"), "dir.v/name.mli");
}

#[test]
fn a_leading_dot_is_not_an_extension() {
    assert_eq!(interface_path(".bashrc"), ".bashrc.mli");
    assert_eq!(interface_path("dir/.hidden"), "dir/.hidden.mli");
}

#[test]
fn nested_paths_keep_their_directories() {
    assert_eq!(interface_path("a/b/c.ml"), "a/b/c.mli");
    assert_eq!(interface_path("/abs/path/foo.ml"), "/abs/path/foo.mli");
}
