use upload_form::form::{enforce, screen, EnforcedForm};
use upload_form::media::MediaPattern;
use upload_form::part::{FieldOccurrence, RawPart};
use upload_form::rejection::Rejection;
use upload_form::schema::{FieldKind, FieldSchema, FieldSpec};

fn part(name: &str, content_type: Option<&str>, bytes: &[u8]) -> RawPart {
    RawPart {
        name: name.to_string(),
        content_type: content_type.map(|s| s.to_string()),
        bytes: bytes.to_vec(),
    }
}

fn schema() -> FieldSchema {
    FieldSchema::new(vec![
        FieldSpec {
            name: "doc".to_string(),
            kind: FieldKind::Text,
            max_size: 4,
            pattern: MediaPattern::Exact("text".to_string(), "plain".to_string()),
        },
        FieldSpec {
            name: "blob".to_string(),
            kind: FieldKind::Binary,
            max_size: 2,
            pattern: MediaPattern::Any,
        },
    ])
    .unwrap()
}

fn name(s: &str) -> String {
    s.to_string()
}

#[test]
fn first_value_is_single_and_later_ones_make_multiple() {
    let one = FieldOccurrence::Single(1);
    assert_eq!(one.count(), 1);
    let two = one.push(2);
    assert_eq!(two, FieldOccurrence::Multiple(vec![1, 2]));
    assert_eq!(two.count(), 2);
    let three = two.push(3);
    assert_eq!(three, FieldOccurrence::Multiple(vec![1, 2, 3]));
    assert_eq!(three.count(), 3);
}

#[test]
fn empty_form_holds_nothing() {
    let form = EnforcedForm::new();
    assert_eq!(form.get(&name("doc")), None);
}

#[test]
fn form_groups_parts_by_name_in_order_of_arrival() {
    let mut form = EnforcedForm::new();
    form.insert(part("a", None, b"1"));
    form.insert(part("b", None, b"2"));
    form.insert(part("a", Some("x/y"), b"3"));
    form.insert(part("a", None, b"4"));
    assert_eq!(
        form.get(&name("a")),
        Some(&FieldOccurrence::Multiple(vec![
            part("a", None, b"1"),
            part("a", Some("x/y"), b"3"),
            part("a", None, b"4"),
        ]))
    );
    assert_eq!(form.get(&name("b")), Some(&FieldOccurrence::Single(part("b", None, b"2"))));
    assert_eq!(form.get(&name("c")), None);
}

#[test]
fn accepted_part_has_no_verdict() {
    assert_eq!(screen(&schema(), &part("doc", Some("text/plain"), b"abcd")), None);
    assert_eq!(screen(&schema(), &part("blob", None, b"")), None);
    assert_eq!(screen(&schema(), &part("blob", Some("image/png"), b"ab")), None);
}

#[test]
fn unknown_name_is_turned_down() {
    assert_eq!(
        screen(&schema(), &part("extra", Some("text/plain"), b"")),
        Some(Rejection::UnknownField(name("extra")))
    );
    assert_eq!(
        screen(&schema(), &part("Doc", Some("text/plain"), b"")),
        Some(Rejection::UnknownField(name("Doc")))
    );
}

#[test]
fn payload_over_the_limit_is_turned_down() {
    assert_eq!(
        screen(&schema(), &part("doc", Some("text/plain"), b"abcde")),
        Some(Rejection::FieldTooLarge(name("doc")))
    );
    assert_eq!(
        screen(&schema(), &part("blob", None, b"abc")),
        Some(Rejection::FieldTooLarge(name("blob")))
    );
}

#[test]
fn content_type_off_the_pattern_is_turned_down() {
    assert_eq!(
        screen(&schema(), &part("doc", Some("text/html; charset=utf-8"), b"ab")),
        Some(Rejection::ContentTypeMismatch(name("doc"), name("text/html; charset=utf-8")))
    );
    assert_eq!(
        screen(&schema(), &part("doc", None, b"ab")),
        Some(Rejection::ContentTypeMismatch(name("doc"), String::new()))
    );
}

#[test]
fn size_is_checked_before_the_content_type() {
    assert_eq!(
        screen(&schema(), &part("doc", Some("text/html"), b"abcde")),
        Some(Rejection::FieldTooLarge(name("doc")))
    );
}

#[test]
fn enforcement_groups_the_accepted_parts() {
    let parts = vec![
        part("blob", None, b"1"),
        part("doc", Some("text/plain"), b"2"),
        part("blob", Some("a/b"), b"3"),
    ];
    let form = enforce(&schema(), parts).unwrap();
    assert_eq!(
        form.get(&name("blob")),
        Some(&FieldOccurrence::Multiple(vec![part("blob", None, b"1"), part("blob", Some("a/b"), b"3")]))
    );
    assert_eq!(
        form.get(&name("doc")),
        Some(&FieldOccurrence::Single(part("doc", Some("text/plain"), b"2")))
    );
}

#[test]
fn declared_field_without_parts_is_absent() {
    let form = enforce(&schema(), vec![part("blob", None, b"1")]).unwrap();
    assert_eq!(form.get(&name("doc")), None);
    let form = enforce(&schema(), vec![]).unwrap();
    assert_eq!(form.get(&name("doc")), None);
    assert_eq!(form.get(&name("blob")), None);
}

#[test]
fn enforcement_fails_on_the_first_offending_part() {
    let parts = vec![
        part("blob", None, b"1"),
        part("blob", None, b"123"),
        part("extra", None, b""),
    ];
    assert_eq!(enforce(&schema(), parts).err(), Some(Rejection::FieldTooLarge(name("blob"))));
    let parts = vec![
        part("extra", None, b""),
        part("blob", None, b"123"),
    ];
    assert_eq!(enforce(&schema(), parts).err(), Some(Rejection::UnknownField(name("extra"))));
}
