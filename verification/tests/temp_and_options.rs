use shrink_ray::options::OutputOptions;
use shrink_ray::temp;

#[test]
fn candidate_shape() {
    let p = temp::file("dir/name.mp4", Some(".jpg"));
    assert!(p.starts_with("dir/name-"), "got {}", p);
    assert!(p.ends_with(".jpg"), "got {}", p);
    assert_eq!(p.len(), "dir/name-".len() + 8 + ".jpg".len());
    let suffix = &p["dir/name-".len()..p.len() - ".jpg".len()];
    assert!(suffix.chars().all(|c| c.is_ascii_lowercase() || c.is_ascii_digit()));
}

#[test]
fn candidate_without_ending() {
    let p = temp::file("name.mp4", None);
    assert!(p.starts_with("name-"), "got {}", p);
    assert_eq!(p.len(), "name-".len() + 8);
}

#[test]
fn candidates_are_distinct() {
    let a = temp::file("dir/name.mp4", Some(".jpg"));
    let b = temp::file("dir/name.mp4", Some(".jpg"));
    assert_ne!(a, b);
}

#[test]
fn explicit_file_wins() {
    let o = OutputOptions { file: Some(String::from("out/exact.jpg")), dir: None };
    assert!(!o.should_replace());
    assert_eq!(o.get("some/in.png", "jpg"), "out/exact.jpg");
}

#[test]
fn explicit_dir_names_by_input() {
    let o = OutputOptions { file: None, dir: Some(String::from("out")) };
    assert!(!o.should_replace());
    assert_eq!(o.get("some/in.png", "jpg"), "out/in.jpg");
    assert_eq!(o.get("some/in.png", "webm"), "out/in.webm");
}

#[test]
fn no_output_options_mean_replace_in_place() {
    let o = OutputOptions { file: None, dir: None };
    assert!(o.should_replace());
    let p = o.get("some/in.png", "jpg");
    assert!(p.starts_with("some/in-"), "got {}", p);
    assert!(p.ends_with(".jpg"), "got {}", p);
}
