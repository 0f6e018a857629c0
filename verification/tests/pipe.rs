use kopuz::pipe::name;

#[test]
fn a_pipe_name_is_kept_and_a_path_is_flattened_into_one() {
    assert_eq!(name(r"\\.\pipe\kopuz-test"), r"\\.\pipe\kopuz-test");
    assert_eq!(
        name(r"C:\Users\me\AppData\Local\kopuz\kopuzd.sock"),
        r"\\.\pipe\C--Users-me-AppData-Local-kopuz-kopuzd.sock"
    );
    assert_eq!(name("/tmp/kopuzd.sock"), r"\\.\pipe\tmp-kopuzd.sock");
}

#[test]
fn leading_separators_and_dashes_are_dropped() {
    assert_eq!(name("//-a:b"), r"\\.\pipe\a-b");
    assert_eq!(name(""), r"\\.\pipe\");
}
