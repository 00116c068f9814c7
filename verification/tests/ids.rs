use media_worker::ids::{to_file_name, to_job_id};

#[test]
fn should_create_a_stable_job_id() {
    assert_eq!(to_job_id("/tmp/My Clip 01.mov"), "tmp-my-clip-01-mov");
}

#[test]
fn should_extract_file_name_from_path() {
    assert_eq!(to_file_name("/tmp/input/video.mp4"), "video.mp4");
}

#[test]
fn a_path_without_letter_or_digit_gets_the_fallback_id() {
    assert_eq!(to_job_id(""), "job");
    assert_eq!(to_job_id("///"), "job");
    assert_eq!(to_job_id(" ._-"), "job");
    assert_eq!(to_job_id("\u{e9}\u{4e2d}"), "job");
}

#[test]
fn runs_of_other_characters_count_as_one_separator() {
    assert_eq!(to_job_id("a  b"), "a-b");
    assert_eq!(to_job_id("a.-_b"), "a-b");
    assert_eq!(to_job_id("--a--"), "a");
    assert_eq!(to_job_id("a/b/"), "a-b");
    assert_eq!(to_job_id("A"), "a");
    assert_eq!(to_job_id("Caf\u{e9} 9"), "caf-9");
    assert_eq!(to_job_id("x\u{e9}"), "x");
    assert_eq!(to_job_id("ABCxyz0189"), "abcxyz0189");
}

#[test]
fn the_job_id_of_a_job_id_is_itself() {
    for path in [
        "/tmp/My Clip 01.mov",
        "",
        "job",
        "a--b",
        "  spaced  out  ",
        "C:\\Videos\\Clip.MP4",
        "\u{4e2d}\u{6587}.mov",
    ] {
        let id = to_job_id(path);
        assert_eq!(to_job_id(&id), id);
        assert_eq!(to_job_id(path), id);
        assert!(!id.is_empty());
        assert!(!id.starts_with('-'));
        assert!(!id.ends_with('-'));
        assert!(!id.contains("--"));
        assert!(id.chars().all(|c| c.is_ascii_lowercase() || c.is_ascii_digit() || c == '-'));
    }
}

#[test]
fn the_file_name_is_what_follows_the_last_slash() {
    assert_eq!(to_file_name("video.mp4"), "video.mp4");
    assert_eq!(to_file_name("/tmp/input/"), "");
    assert_eq!(to_file_name(""), "");
    assert_eq!(to_file_name("/"), "");
    assert_eq!(to_file_name("a/b/c"), "c");
    assert_eq!(to_file_name("a\\b"), "a\\b");
    assert_eq!(to_file_name("/tmp/\u{e9}t\u{e9}.mov"), "\u{e9}t\u{e9}.mov");
}
