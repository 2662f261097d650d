use shrink_ray::comment::Comment;
use shrink_ray::comment::CommentParseError;
use shrink_ray::comment::format_marker;
use shrink_ray::comment::parse_marker;

#[test]
fn round_trip_default() {
    let c = Comment::default();
    assert_eq!(c.version, "1.2.0");
    let text = c.format();
    assert_eq!(text, "shrink-ray/1.2.0");
    let back = Comment::parse(text.as_str()).unwrap();
    assert_eq!(back, c);
}

#[test]
fn round_trip_arbitrary_product() {
    let text = format_marker("Squeeze-It", "0.4.7");
    assert_eq!(text, "Squeeze-It/0.4.7");
    let back = parse_marker("Squeeze-It", text.as_str()).unwrap();
    assert_eq!(back.version, "0.4.7");
}

#[test]
fn prefix_is_case_insensitive() {
    let c = Comment::parse("SHRINK-RAY/1.2.0").unwrap();
    assert_eq!(c.version, "1.2.0");
    let c = Comment::parse("Shrink-Ray/3.0.1").unwrap();
    assert_eq!(c.version, "3.0.1");
}

#[test]
fn wrong_prefix_is_not_a_marker() {
    assert!(matches!(
        Comment::parse("other-tool/1.2.0"),
        Err(CommentParseError::NotShrinkRay)
    ));
    assert!(matches!(Comment::parse(""), Err(CommentParseError::NotShrinkRay)));
    assert!(matches!(Comment::parse("shrink-ray"), Err(CommentParseError::NotShrinkRay)));
}

#[test]
fn bad_version_is_reported_as_such() {
    assert!(matches!(
        Comment::parse("shrink-ray/banana"),
        Err(CommentParseError::NotVersion)
    ));
    assert!(matches!(Comment::parse("shrink-ray/1.0"), Err(CommentParseError::NotVersion)));
    assert!(matches!(
        Comment::parse("shrink-ray/1.0.01"),
        Err(CommentParseError::NotVersion)
    ));
}

#[test]
fn prerelease_and_build_parse() {
    let c = Comment::parse("shrink-ray/1.2.3-alpha.1+build.5").unwrap();
    assert_eq!(c.version, "1.2.3-alpha.1+build.5");
}

#[test]
fn comments_compare_by_version() {
    let a = Comment { version: String::from("1.0.0") };
    let b = Comment { version: String::from("1.0.0") };
    let c = Comment { version: String::from("2.0.0") };
    assert_eq!(a, b);
    assert!(a != c);
}
