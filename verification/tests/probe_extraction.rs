use shrink_ray::error::Error;
use shrink_ray::image;
use shrink_ray::shrink::ToolKind;
use shrink_ray::supervisor::ExitInfo;
use shrink_ray::transaction::probe_outcome;
use shrink_ray::video;

fn ok_exit() -> ExitInfo {
    ExitInfo { success: true, code: Some(0) }
}

#[test]
fn image_comment_line_is_extracted() {
    let out = "Image: in.png\n  Format: PNG\n  Comment: shrink-ray/1.2.0\n  Geometry: 4x4\n";
    assert_eq!(image::extract_comment(out), Some(String::from("shrink-ray/1.2.0")));
}

#[test]
fn image_comment_only_first_line_counts() {
    let out = "Comment: first/0.1.0\nComment: second/0.2.0\n";
    assert_eq!(image::extract_comment(out), Some(String::from("first/0.1.0")));
}

#[test]
fn image_without_comment_gives_none() {
    let out = "Image: in.png\n  Format: PNG\n";
    assert_eq!(image::extract_comment(out), None);
}

#[test]
fn image_comment_at_end_of_text() {
    assert_eq!(image::extract_comment("Comment: x/1.0.0"), Some(String::from("x/1.0.0")));
}

#[test]
fn video_comment_tag_is_extracted() {
    let out = "Input #0\n  Metadata:\n    COMMENT         : shrink-ray/1.2.0\n  Duration: 1s\n";
    assert_eq!(video::extract_comment(out), Some(String::from("shrink-ray/1.2.0")));
}

#[test]
fn video_without_tag_gives_none() {
    assert_eq!(video::extract_comment("Input #0\n  Duration: 1s\n"), None);
}

#[test]
fn video_tag_without_colon_gives_none() {
    assert_eq!(video::extract_comment("COMMENT\nrest: x\n"), None);
}

#[test]
fn pass_log_file_name() {
    assert_eq!(video::full_log_file_name("a/b"), "a/b-0.log");
    assert_eq!(video::full_log_file_name(""), "-0.log");
}

#[test]
fn probe_on_failed_probe_is_invocation_error() {
    let exit = ExitInfo { success: false, code: Some(1) };
    match probe_outcome(ToolKind::Image, exit, "whatever") {
        Err(Error::Invocation(k, x)) => {
            assert_eq!(k, ToolKind::Image);
            assert!(!x.success);
        }
        _ => panic!("a failed probe must be an invocation error"),
    }
}

#[test]
fn probe_finds_embedded_marker() {
    let out = "  Comment: shrink-ray/1.2.0\n";
    match probe_outcome(ToolKind::Image, ok_exit(), out) {
        Ok(Some(c)) => assert_eq!(c.version, "1.2.0"),
        _ => panic!("the marker must be recognised"),
    }
}

#[test]
fn probe_treats_foreign_comment_as_no_marker() {
    let out = "  Comment: someone-else/9.9.9\n";
    assert!(matches!(probe_outcome(ToolKind::Image, ok_exit(), out), Ok(None)));
}

#[test]
fn probe_treats_bad_version_as_no_marker() {
    let out = "  Comment: shrink-ray/not.a.version\n";
    assert!(matches!(probe_outcome(ToolKind::Image, ok_exit(), out), Ok(None)));
}

#[test]
fn probe_on_video_probe() {
    let out = "    COMMENT         : shrink-ray/2.0.0\n";
    match probe_outcome(ToolKind::Video, ok_exit(), out) {
        Ok(Some(c)) => assert_eq!(c.version, "2.0.0"),
        _ => panic!("the marker must be recognised"),
    }
}
