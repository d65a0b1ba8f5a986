use mcmd::download::{download_outcome, DownloadStatus};
use mcmd::init;
use mcmd::text::{fit_string, u32_string};

#[test]
fn fit_string_pads_to_width() {
    assert_eq!(fit_string("abc", 6), "abc   ");
}

#[test]
fn fit_string_truncates_to_width() {
    assert_eq!(fit_string("abcdef", 4), "abcd");
}

#[test]
fn fit_string_exact_width_unchanged() {
    assert_eq!(fit_string("abcd", 4), "abcd");
}

#[test]
fn fit_string_empty_gives_spaces() {
    assert_eq!(fit_string("", 3), "   ");
}

#[test]
fn u32_string_small_numbers() {
    assert_eq!(u32_string(0), "0");
    assert_eq!(u32_string(7), "7");
}

#[test]
fn u32_string_multi_digit() {
    assert_eq!(u32_string(432), "432");
    assert_eq!(u32_string(4294967295), "4294967295");
}

#[test]
fn init_builds_user_agent() {
    assert_eq!(init("mcmd", "0.1.0"), "OwczarekGit/mcmd/0.1.0");
}

// The idempotence scenario: the first download of a file writes it and
// reports Success; a second run finds it present, fetches nothing, and
// reports FileExists for the same name.
#[test]
fn download_twice_reports_success_then_file_exists() {
    let filename = String::from("a.jar");
    let first = download_outcome(&filename, false, true);
    match first {
        DownloadStatus::Success(name) => assert_eq!(name, "a.jar"),
        _ => panic!("first download should succeed"),
    }
    let second = download_outcome(&filename, true, false);
    match second {
        DownloadStatus::FileExists(name) => assert_eq!(name, "a.jar"),
        _ => panic!("second download should be skipped"),
    }
}

#[test]
fn failed_download_reports_error() {
    let filename = String::from("a.jar");
    let outcome = download_outcome(&filename, false, false);
    assert!(matches!(outcome, DownloadStatus::Error));
}
