use filewatcher::lockname::lock_dir;
use filewatcher::lockname::lock_path;
use filewatcher::lockname::sanitize;

#[test]
fn sanitize_keeps_alphanumerics() {
    assert_eq!(sanitize("abcXYZ019").as_str(), "abcXYZ019");
}

#[test]
fn sanitize_replaces_separators() {
    assert_eq!(sanitize("/tmp/x/data.txt").as_str(), "_tmp_x_data_txt");
    assert_eq!(sanitize("a/b.txt").as_str(), "a_b_txt");
}

#[test]
fn sanitize_replaces_punctuation_and_spaces() {
    assert_eq!(sanitize("log-*.txt").as_str(), "log___txt");
    assert_eq!(sanitize("a b\tc").as_str(), "a_b_c");
}

#[test]
fn sanitize_replaces_non_ascii() {
    assert_eq!(sanitize("caf\u{e9}").as_str(), "caf_");
}

#[test]
fn sanitize_empty() {
    assert_eq!(sanitize("").as_str(), "");
}

#[test]
fn sanitize_output_class_and_length() {
    let inputs = ["/tmp/x/data.txt", "log-*.txt", "", "weird\u{1F600}name", "..//.."];
    for input in inputs {
        let out = sanitize(input);
        assert_eq!(out.chars().count(), input.chars().count());
        for c in out.chars() {
            assert!(c.is_ascii_alphanumeric() || c == '_');
        }
    }
}

#[test]
fn sanitize_is_deterministic() {
    assert_eq!(sanitize("/tmp/x/data.txt"), sanitize("/tmp/x/data.txt"));
}

#[test]
fn lock_dir_under_home() {
    assert_eq!(lock_dir("/home/u").as_str(), "/home/u/filewatcher/");
}

#[test]
fn lock_path_is_dir_plus_sanitized_target() {
    assert_eq!(
        lock_path("/home/u", "/tmp/x/data.txt").as_str(),
        "/home/u/filewatcher/_tmp_x_data_txt"
    );
}

#[test]
fn same_target_same_lock_path() {
    let a = lock_path("/home/u", "/tmp/x/log-*.txt");
    let b = lock_path("/home/u", "/tmp/x/log-*.txt");
    assert_eq!(a, b);
}
