use upload_form::media::MediaPattern;
use upload_form::text::{find_char, fold_char, range_same_ignoring_case, string_chars};

fn some(s: &str) -> Option<String> {
    Some(s.to_string())
}

fn image() -> MediaPattern {
    MediaPattern::AnySubtype("image".to_string())
}

fn png() -> MediaPattern {
    MediaPattern::Exact("image".to_string(), "png".to_string())
}

#[test]
fn any_takes_everything() {
    assert!(MediaPattern::Any.accepts(&None));
    assert!(MediaPattern::Any.accepts(&some("image/jpeg")));
    assert!(MediaPattern::Any.accepts(&some("")));
    assert!(MediaPattern::Any.accepts(&some("not a media type")));
}

#[test]
fn any_subtype_takes_its_top_level_type() {
    assert!(image().accepts(&some("image/jpeg")));
    assert!(image().accepts(&some("image/png")));
    assert!(image().accepts(&some("image/svg+xml")));
    assert!(!image().accepts(&some("text/plain")));
    assert!(!image().accepts(&some("images/png")));
    assert!(!image().accepts(&some("imag/png")));
    assert!(!image().accepts(&None));
}

#[test]
fn exact_takes_one_media_type() {
    assert!(png().accepts(&some("image/png")));
    assert!(!png().accepts(&some("image/jpeg")));
    assert!(!png().accepts(&some("text/png")));
    assert!(!png().accepts(&some("image/pngx")));
    assert!(!png().accepts(&None));
}

#[test]
fn case_of_ascii_letters_is_ignored() {
    assert!(image().accepts(&some("IMAGE/JPEG")));
    assert!(image().accepts(&some("Image/Png")));
    assert!(png().accepts(&some("IMAGE/PNG")));
    assert!(MediaPattern::Exact("IMAGE".to_string(), "Png".to_string()).accepts(&some("image/png")));
}

#[test]
fn parameters_are_ignored() {
    assert!(image().accepts(&some("image/jpeg; q=0.8")));
    assert!(png().accepts(&some("image/png;charset=binary")));
    assert!(!png().accepts(&some("image/jpeg; alt=image/png")));
    assert!(!image().accepts(&some("text/plain; image/png")));
}

#[test]
fn values_without_two_halves_match_no_typed_pattern() {
    for value in ["", "image", "image/", "/png", "/", ";image/png", "image;/png"] {
        assert!(!image().accepts(&some(value)), "{}", value);
        assert!(!png().accepts(&some(value)), "{}", value);
    }
}

#[test]
fn subtype_reaches_to_the_first_semicolon() {
    assert!(!png().accepts(&some("image/png ; q=1")));
    assert!(image().accepts(&some("image/png ; q=1")));
    assert!(MediaPattern::Exact("a".to_string(), "b/c".to_string()).accepts(&some("a/b/c")));
}

#[test]
fn characters_of_a_string_come_in_order() {
    assert_eq!(string_chars("aé/z"), vec!['a', 'é', '/', 'z']);
    assert_eq!(string_chars(""), Vec::<char>::new());
}

#[test]
fn capitals_fold_onto_small_letters() {
    assert_eq!(fold_char('A'), 'a' as u32);
    assert_eq!(fold_char('Z'), 'z' as u32);
    assert_eq!(fold_char('a'), 'a' as u32);
    assert_eq!(fold_char('@'), '@' as u32);
    assert_eq!(fold_char('['), '[' as u32);
    assert_eq!(fold_char('É'), 'É' as u32);
}

#[test]
fn first_position_of_a_character_is_found() {
    let v = string_chars("a/b/c");
    assert_eq!(find_char(&v, 5, '/'), Some(1));
    assert_eq!(find_char(&v, 1, '/'), None);
    assert_eq!(find_char(&v, 2, '/'), Some(1));
    assert_eq!(find_char(&v, 5, 'x'), None);
    assert_eq!(find_char(&v, 0, 'a'), None);
}

#[test]
fn ranges_are_compared_without_case() {
    let v = string_chars("xxImAgExx");
    let w = string_chars("image");
    assert!(range_same_ignoring_case(&v, 2, 7, &w));
    assert!(!range_same_ignoring_case(&v, 2, 6, &w));
    assert!(!range_same_ignoring_case(&v, 1, 6, &w));
    assert!(range_same_ignoring_case(&v, 3, 3, &Vec::new()));
}
