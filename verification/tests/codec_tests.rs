use wiki_search::codec::{decode_page, encode_page, DecodeError, FieldValue};
use wiki_search::page::{RenamedWikiPage, WikiPage};
use wiki_search::transformers::{bool_from_int, bool_to_int};

fn sample_page() -> WikiPage {
    WikiPage {
        id: 7,
        path: "/docs/setup".to_string(),
        hash: "abc123".to_string(),
        title: "Setup".to_string(),
        description: "How to set things up".to_string(),
        is_private: false,
        is_published: true,
        content: "Install it.\nRun it.".to_string(),
        content_type: "markdown".to_string(),
        created_at: "2023-01-01T00:00:00Z".to_string(),
        updated_at: "2023-02-01T00:00:00Z".to_string(),
        editor_key: "markdown".to_string(),
        locale_code: "en".to_string(),
        author_id: 3,
        creator_id: 4,
    }
}

fn text(v: &str) -> FieldValue {
    FieldValue::Text(v.to_string())
}

fn base_record() -> Vec<(String, FieldValue)> {
    vec![
        ("id".to_string(), FieldValue::UInt(7)),
        ("path".to_string(), text("/docs/setup")),
        ("hash".to_string(), text("abc123")),
        ("title".to_string(), text("Setup")),
        ("description".to_string(), text("How to set things up")),
        ("isPrivate".to_string(), FieldValue::UInt(0)),
        ("isPublished".to_string(), FieldValue::UInt(1)),
        ("content".to_string(), text("Install it.\nRun it.")),
        ("contentType".to_string(), text("markdown")),
        ("createdAt".to_string(), text("2023-01-01T00:00:00Z")),
        ("updatedAt".to_string(), text("2023-02-01T00:00:00Z")),
        ("editorKey".to_string(), text("markdown")),
        ("localeCode".to_string(), text("en")),
        ("authorId".to_string(), FieldValue::UInt(3)),
        ("creatorId".to_string(), FieldValue::UInt(4)),
    ]
}

fn assert_pages_equal(a: &WikiPage, b: &WikiPage) {
    assert_eq!(a.id, b.id);
    assert_eq!(a.path, b.path);
    assert_eq!(a.hash, b.hash);
    assert_eq!(a.title, b.title);
    assert_eq!(a.description, b.description);
    assert_eq!(a.is_private, b.is_private);
    assert_eq!(a.is_published, b.is_published);
    assert_eq!(a.content, b.content);
    assert_eq!(a.content_type, b.content_type);
    assert_eq!(a.created_at, b.created_at);
    assert_eq!(a.updated_at, b.updated_at);
    assert_eq!(a.editor_key, b.editor_key);
    assert_eq!(a.locale_code, b.locale_code);
    assert_eq!(a.author_id, b.author_id);
    assert_eq!(a.creator_id, b.creator_id);
}

#[test]
fn round_trip_through_canonical_shape() {
    let page = sample_page();
    let record = encode_page(&page);
    let decoded = decode_page(&record).expect("canonical record must decode");
    assert_pages_equal(&page, &decoded);
}

#[test]
fn round_trip_keeps_true_flags() {
    let mut page = sample_page();
    page.is_private = true;
    page.is_published = false;
    let record = encode_page(&page);
    let decoded = decode_page(&record).expect("canonical record must decode");
    assert_pages_equal(&page, &decoded);
}

#[test]
fn renamed_record_uses_destination_path_and_hash() {
    let mut record = base_record();
    record.push(("destinationPath".to_string(), text("/docs/new")));
    record.push(("destinationLocaleCode".to_string(), text("de")));
    record.push(("destinationHash".to_string(), text("def456")));
    let decoded = decode_page(&record).expect("renamed record must decode");
    assert_eq!(decoded.path, "/docs/new");
    assert_eq!(decoded.hash, "def456");
    // the migration-only locale is dropped; the source locale stays
    assert_eq!(decoded.locale_code, "en");
    assert_eq!(decoded.id, 7);
}

#[test]
fn partial_destination_fields_fall_back_to_canonical_shape() {
    let mut record = base_record();
    record.push(("destinationPath".to_string(), text("/docs/new")));
    // destinationLocaleCode and destinationHash are missing: not a renamed
    // record, so the canonical shape wins and the stale path stays
    let decoded = decode_page(&record).expect("canonical record must decode");
    assert_eq!(decoded.path, "/docs/setup");
    assert_eq!(decoded.hash, "abc123");
}

#[test]
fn missing_field_is_reported() {
    let record: Vec<(String, FieldValue)> = base_record()
        .into_iter()
        .filter(|(k, _)| k != "title")
        .collect();
    match decode_page(&record) {
        Err(DecodeError::MissingField(f)) => assert_eq!(f, "title"),
        _ => panic!("expected a missing-field error"),
    }
}

#[test]
fn wrong_type_is_reported() {
    let mut record = base_record();
    record[1] = ("path".to_string(), FieldValue::UInt(9));
    match decode_page(&record) {
        Err(DecodeError::WrongType(f)) => assert_eq!(f, "path"),
        _ => panic!("expected a wrong-type error"),
    }
}

#[test]
fn boolean_fields_accept_bools_and_integers() {
    let mut record = base_record();
    record[5] = ("isPrivate".to_string(), FieldValue::Flag(true));
    record[6] = ("isPublished".to_string(), FieldValue::UInt(5));
    let decoded = decode_page(&record).expect("record must decode");
    assert!(decoded.is_private);
    assert!(decoded.is_published);
}

#[test]
fn first_occurrence_of_a_field_wins() {
    let mut record = base_record();
    record.push(("title".to_string(), text("Shadowed")));
    let decoded = decode_page(&record).expect("record must decode");
    assert_eq!(decoded.title, "Setup");
}

#[test]
fn unknown_fields_are_ignored() {
    let mut record = base_record();
    record.push(("rating".to_string(), FieldValue::UInt(99)));
    let decoded = decode_page(&record).expect("record must decode");
    assert_eq!(decoded.id, 7);
}

#[test]
fn int_bool_conversions() {
    assert!(!bool_from_int(0));
    assert!(bool_from_int(1));
    assert!(bool_from_int(7));
    assert_eq!(bool_to_int(true), 1);
    assert_eq!(bool_to_int(false), 0);
}

#[test]
fn renamed_conversion_substitutes_destination() {
    let renamed = RenamedWikiPage {
        id: 1,
        path: "/old".to_string(),
        hash: "h1".to_string(),
        title: "t".to_string(),
        description: "d".to_string(),
        is_private: false,
        is_published: true,
        content: "c".to_string(),
        content_type: "markdown".to_string(),
        created_at: "now".to_string(),
        updated_at: "now".to_string(),
        editor_key: "markdown".to_string(),
        locale_code: "en".to_string(),
        author_id: 2,
        creator_id: 2,
        destination_path: "/new".to_string(),
        destination_locale_code: "fr".to_string(),
        destination_hash: "h2".to_string(),
    };
    let page = WikiPage::from(renamed);
    assert_eq!(page.path, "/new");
    assert_eq!(page.hash, "h2");
    assert_eq!(page.locale_code, "en");
}
