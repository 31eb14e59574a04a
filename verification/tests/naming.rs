use appvarpack::naming::{output_file_name, output_path};

#[test]
fn deterministic_artifact_path() {
    assert_eq!(output_path("/tmp", "foo.png"), "/tmp/foo.8xg");
}

#[test]
fn strips_only_the_last_extension() {
    assert_eq!(output_file_name("foo.png"), "foo.8xg");
    assert_eq!(output_file_name("archive.tar.gz"), "archive.tar.8xg");
    assert_eq!(output_file_name("trailing."), "trailing.8xg");
}

#[test]
fn no_extension_keeps_whole_name() {
    assert_eq!(output_file_name("noext"), "noext.8xg");
}

#[test]
fn hidden_file_keeps_its_name() {
    assert_eq!(output_file_name(".config"), ".config.8xg");
}

#[test]
fn empty_name_falls_back() {
    assert_eq!(output_file_name(""), "image.8xg");
}
