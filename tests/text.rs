use filescope::text::{candidate_summary, probe_type_text, starts_with_path, trim_text};

#[test]
fn extracts_type_after_path_prefix() {
    assert_eq!(
        probe_type_text("/tmp/x: PDF document, version 1.4", "/tmp/x"),
        "PDF document, version 1.4"
    );
}

#[test]
fn probe_text_without_colon_is_empty() {
    assert_eq!(probe_type_text("no separator here\n", "/tmp/y"), "");
}

#[test]
fn probe_text_is_trimmed() {
    assert_eq!(probe_type_text("/a/b:   ASCII text  \n", "/a/b"), "ASCII text");
}

#[test]
fn trims_unicode_white_space() {
    assert_eq!(trim_text("\u{3000}\t x y \u{a0}\n"), "x y");
    assert_eq!(trim_text("   "), "");
}

#[test]
fn keeps_only_lines_with_percentages() {
    let raw = "TrID/32 - File Identifier\n\
               Collecting data from file: x.exe\n  \
               45.5% (.EXE) Win32 Executable  \n\
               \n  \
               30.1% (.DLL) Win32 Dynamic Link Library\n";
    assert_eq!(
        candidate_summary(raw),
        "45.5% (.EXE) Win32 Executable,\n30.1% (.DLL) Win32 Dynamic Link Library"
    );
}

#[test]
fn single_candidate_has_no_comma() {
    assert_eq!(candidate_summary("a\n 99% b \r\nc"), "99% b");
}

#[test]
fn no_candidates_gives_empty_summary() {
    assert_eq!(candidate_summary("nothing\nhere\n"), "");
    assert_eq!(candidate_summary(""), "");
}

#[test]
fn path_with_colon_is_removed_whole() {
    assert_eq!(probe_type_text("a:b: x", "a:b"), "x");
    assert_eq!(
        probe_type_text("/up/c:d.bin: data, kind: raw\n", "/up/c:d.bin"),
        "data, kind: raw"
    );
}

#[test]
fn type_text_keeps_later_colons() {
    assert_eq!(probe_type_text("/p: ELF, BuildID[sha1]=ab: x", "/p"), "ELF, BuildID[sha1]=ab: x");
}

#[test]
fn other_prefix_falls_back_to_first_colon() {
    assert_eq!(probe_type_text("/elsewhere: text", "/p"), "text");
}

#[test]
fn path_prefix_detection() {
    assert!(starts_with_path("a:b: x", "a:b"));
    assert!(!starts_with_path("a:b x", "a:b"));
    assert!(!starts_with_path("a:", "a:"));
    assert!(!starts_with_path("ab: x", "a:b"));
}
