// Tests for the destination-name rules and the progress meter.

use lzma_tarball::names::{
    join_under_prefix, relative_to_root, strip_leading_separator, tar_name_valid,
};
use lzma_tarball::progress::progress_sample;

#[test]
fn one_leading_separator_is_stripped() {
    assert_eq!(strip_leading_separator("/etc/conf"), "etc/conf");
    assert_eq!(strip_leading_separator("etc/conf"), "etc/conf");
    assert_eq!(strip_leading_separator("/"), "");
    assert_eq!(strip_leading_separator(""), "");
    assert_eq!(strip_leading_separator("//x"), "/x");
}

#[test]
fn container_name_rules() {
    assert!(tar_name_valid("hello.txt"));
    assert!(tar_name_valid("a/b/c.bin"));
    assert!(tar_name_valid(".hidden"));
    assert!(tar_name_valid("a."));
    assert!(tar_name_valid("weird name with spaces"));

    assert!(!tar_name_valid(""));
    assert!(!tar_name_valid("/rooted"));
    assert!(!tar_name_valid("trailing/"));
    assert!(!tar_name_valid("a//b"));
    assert!(!tar_name_valid("a/../b"));
    assert!(!tar_name_valid(".."));
    assert!(!tar_name_valid("."));
    assert!(!tar_name_valid("./a"));
    assert!(!tar_name_valid("a/."));
    assert!(!tar_name_valid("back\\slash"));
    assert!(!tar_name_valid("nul\u{0}byte"));
}

#[test]
fn joining_and_relativizing_paths() {
    assert_eq!(join_under_prefix("pre", "sub/f.txt"), "pre/sub/f.txt");
    assert_eq!(join_under_prefix("", "f"), "/f");

    assert_eq!(
        relative_to_root("dir/sub/f.txt", "dir"),
        Some("sub/f.txt".to_string())
    );
    assert_eq!(relative_to_root("dir", "dir"), Some("".to_string()));
    assert_eq!(
        relative_to_root("dir/sub/f.txt", "dir/"),
        Some("sub/f.txt".to_string())
    );
    assert_eq!(relative_to_root("dirx/f", "dir"), None);
    assert_eq!(relative_to_root("di", "dir"), None);
    assert_eq!(relative_to_root("other/f", "dir"), None);
}

#[test]
fn progress_samples_follow_the_integer_formula() {
    // Below one whole second nothing is emitted.
    assert!(progress_sample(12345, 999).is_none());

    // At 2.5 elapsed seconds the throughput divides by the whole 2.
    let ev = progress_sample(5000, 2500).unwrap();
    assert_eq!(ev.bytes_processed, 5000);
    assert_eq!(ev.elapsed_seconds, 2);
    assert_eq!(ev.bytes_per_second, 2500);

    // Integer division reports throughput biased low just after a
    // second boundary.
    let ev = progress_sample(1000, 1999).unwrap();
    assert_eq!(ev.elapsed_seconds, 1);
    assert_eq!(ev.bytes_per_second, 1000);
}
