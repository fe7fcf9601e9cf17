use wiki_search::codec::FieldValue;
use wiki_search::page::WikiPage;
use wiki_search::sync::{
    activation_result, delete_filter, filterable_attributes, operation_error_message,
    plan_deletion, plan_upsert, CreateIndexOutcome, SyncAction,
};

fn record(path: &str, is_private: u64, is_published: u64) -> Vec<(String, FieldValue)> {
    vec![
        ("id".to_string(), FieldValue::UInt(11)),
        ("path".to_string(), FieldValue::Text(path.to_string())),
        ("hash".to_string(), FieldValue::Text("h".to_string())),
        ("title".to_string(), FieldValue::Text("t".to_string())),
        ("description".to_string(), FieldValue::Text("d".to_string())),
        ("isPrivate".to_string(), FieldValue::UInt(is_private)),
        ("isPublished".to_string(), FieldValue::UInt(is_published)),
        ("content".to_string(), FieldValue::Text("c".to_string())),
        ("contentType".to_string(), FieldValue::Text("markdown".to_string())),
        ("createdAt".to_string(), FieldValue::Text("now".to_string())),
        ("updatedAt".to_string(), FieldValue::Text("now".to_string())),
        ("editorKey".to_string(), FieldValue::Text("markdown".to_string())),
        ("localeCode".to_string(), FieldValue::Text("en".to_string())),
        ("authorId".to_string(), FieldValue::UInt(1)),
        ("creatorId".to_string(), FieldValue::UInt(1)),
    ]
}

#[test]
fn only_published_public_pages_are_indexable() {
    let page = WikiPage {
        id: 1,
        path: "/a".to_string(),
        hash: "h".to_string(),
        title: "t".to_string(),
        description: "d".to_string(),
        is_private: false,
        is_published: true,
        content: "c".to_string(),
        content_type: "markdown".to_string(),
        created_at: "now".to_string(),
        updated_at: "now".to_string(),
        editor_key: "markdown".to_string(),
        locale_code: "en".to_string(),
        author_id: 1,
        creator_id: 1,
    };
    assert!(page.is_indexable());
    let mut unpublished = WikiPage { is_published: false, ..page };
    assert!(!unpublished.is_indexable());
    unpublished.is_published = true;
    unpublished.is_private = true;
    assert!(!unpublished.is_indexable());
}

#[test]
fn unpublished_page_is_skipped_everywhere() {
    let fields = record("/docs/a", 0, 0);
    assert!(matches!(plan_upsert(&fields), Ok(SyncAction::Skip)));
    assert!(matches!(plan_deletion(&fields), Ok(SyncAction::Skip)));
}

#[test]
fn private_page_is_skipped_everywhere() {
    let fields = record("/docs/a", 1, 1);
    assert!(matches!(plan_upsert(&fields), Ok(SyncAction::Skip)));
    assert!(matches!(plan_deletion(&fields), Ok(SyncAction::Skip)));
}

#[test]
fn eligible_page_is_upserted() {
    let fields = record("/docs/a", 0, 1);
    match plan_upsert(&fields) {
        Ok(SyncAction::Upsert(page)) => {
            assert_eq!(page.id, 11);
            assert_eq!(page.path, "/docs/a");
        }
        _ => panic!("expected an upsert"),
    }
}

#[test]
fn repeated_planning_gives_the_same_upsert() {
    let fields = record("/docs/a", 0, 1);
    let first = plan_upsert(&fields);
    let second = plan_upsert(&fields);
    match (first, second) {
        (Ok(SyncAction::Upsert(a)), Ok(SyncAction::Upsert(b))) => {
            assert_eq!(a.id, b.id);
            assert_eq!(a.path, b.path);
            assert_eq!(a.hash, b.hash);
        }
        _ => panic!("expected two identical upserts"),
    }
}

#[test]
fn deletion_filters_by_path_not_id() {
    let fields = record("/docs/old", 0, 1);
    match plan_deletion(&fields) {
        Ok(SyncAction::DeleteByPath(path)) => {
            assert_eq!(path, "/docs/old");
            assert_eq!(delete_filter(&path), "path = /docs/old");
        }
        _ => panic!("expected a delete by path"),
    }
}

#[test]
fn decode_failure_is_surfaced() {
    let fields = vec![("id".to_string(), FieldValue::UInt(1))];
    assert!(plan_upsert(&fields).is_err());
    assert!(plan_deletion(&fields).is_err());
}

#[test]
fn activation_tolerates_existing_index() {
    // a first activation creates the index, a second finds it present:
    // neither is an error
    assert!(activation_result(CreateIndexOutcome::Created).is_ok());
    assert!(activation_result(CreateIndexOutcome::AlreadyExists).is_ok());
}

#[test]
fn activation_surfaces_other_failures() {
    match activation_result(CreateIndexOutcome::Failed("quota exceeded".to_string())) {
        Err(message) => assert_eq!(message, "Error creating index: quota exceeded"),
        Ok(()) => panic!("expected an error"),
    }
}

#[test]
fn filterable_attributes_cover_delete_and_lookup() {
    let fields = filterable_attributes();
    assert_eq!(
        fields,
        vec!["path".to_string(), "hash".to_string(), "id".to_string()]
    );
}

#[test]
fn operation_errors_carry_prefix_and_cause() {
    let message = operation_error_message("Error executing query", "connection refused");
    assert_eq!(message, "Error executing query: connection refused");
}
