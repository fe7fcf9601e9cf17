//! Sync planning: maps wiki lifecycle events onto index operations.
//!
//! Each event payload is decoded and held to the publication rule;
//! only then is an index operation planned. A page the rule rejects is
//! skipped, never an error. The caller performs the planned operation
//! against the search engine and reports failures with the messages built
//! here.

use vstd::prelude::*;

use crate::codec::{decode_page, spec_decode, DecodeError, FieldValue};
use crate::page::{PageView, WikiPage};

verus! {

/// The index operation that one lifecycle event requires: nothing (the publication rule
/// rejected the page), an upsert of the full document keyed by id, or a
/// delete of every document at an exact path.
#[derive(Debug)]
pub enum SyncAction {
    Skip,
    Upsert(WikiPage),
    DeleteByPath(String),
}

/// Plans a created or updated event: decode, publication rule, then upsert. The upsert
/// replaces any existing document with the same id, so repeating the event
/// is safe. Decode failure is the only error; an ineligible page is a skip.
pub fn plan_upsert(fields: &Vec<(String, FieldValue)>) -> (r: Result<SyncAction, DecodeError>)
    ensures
        match r {
            Result::Ok(a) => spec_decode(fields@) matches Result::Ok(p) && (if p.indexable() {
                a matches SyncAction::Upsert(pg) && pg@ == p
            } else {
                a is Skip
            }),
            Result::Err(e) => spec_decode(fields@) matches Result::Err(ev) && ev == e@,
        },
{
    match decode_page(fields) {
        Result::Ok(p) => {
            if p.is_indexable() {
                Result::Ok(SyncAction::Upsert(p))
            } else {
                Result::Ok(SyncAction::Skip)
            }
        },
        Result::Err(e) => Result::Err(e),
    }
}

/// Plans a deleted event: decode, publication rule, then delete by the page's current
/// path (not its id), so that stale renamed copies can be removed by their
/// last-known location.
pub fn plan_deletion(fields: &Vec<(String, FieldValue)>) -> (r: Result<SyncAction, DecodeError>)
    ensures
        match r {
            Result::Ok(a) => spec_decode(fields@) matches Result::Ok(p) && (if p.indexable() {
                a matches SyncAction::DeleteByPath(pth) && pth@ == p.path
            } else {
                a is Skip
            }),
            Result::Err(e) => spec_decode(fields@) matches Result::Err(ev) && ev == e@,
        },
{
    match decode_page(fields) {
        Result::Ok(p) => {
            if p.is_indexable() {
                Result::Ok(SyncAction::DeleteByPath(p.path))
            } else {
                Result::Ok(SyncAction::Skip)
            }
        },
        Result::Err(e) => Result::Err(e),
    }
}

/// The filter expression of a delete: an exact match on the path.
pub fn delete_filter(path: &String) -> (r: String)
    ensures
        r@ == "path = "@ + path@,
{
    let r = String::from_str("path = ").concat(path.as_str());
    r
}

/// The message of a failed collaborator operation: the operation-identifying
/// prefix, then the underlying cause.
pub fn operation_error_message(operation: &str, cause: &str) -> (r: String)
    ensures
        r@ == operation@ + ": "@ + cause@,
{
    let mut m = operation.to_owned();
    m.append(": ");
    m.append(cause);
    proof {
        assert(m@ =~= operation@ + ": "@ + cause@);
    }
    m
}

/// What creating the index reported: newly created, already present, or a
/// failure with its cause.
#[derive(Debug)]
pub enum CreateIndexOutcome {
    Created,
    AlreadyExists,
    Failed(String),
}

/// Resolves activation from the index-creation outcome: an index that
/// already exists is success, so activation is idempotent; any other
/// failure is surfaced with the operation-identifying prefix.
pub fn activation_result(outcome: CreateIndexOutcome) -> (r: Result<(), String>)
    ensures
        r is Ok <==> !(outcome is Failed),
        outcome matches CreateIndexOutcome::Failed(c) ==> r matches Result::Err(m) && m@
            == "Error creating index"@ + ": "@ + c@,
{
    match outcome {
        CreateIndexOutcome::Created => Result::Ok(()),
        CreateIndexOutcome::AlreadyExists => Result::Ok(()),
        CreateIndexOutcome::Failed(c) => Result::Err(
            operation_error_message("Error creating index", c.as_str()),
        ),
    }
}

/// The fields declared filterable at activation, so that delete-by-filter
/// and hash lookups work.
pub fn filterable_attributes() -> (r: Vec<String>)
    ensures
        r@.len() == 3,
        r@[0]@ == "path"@,
        r@[1]@ == "hash"@,
        r@[2]@ == "id"@,
{
    let mut v: Vec<String> = Vec::new();
    v.push(String::from_str("path"));
    v.push(String::from_str("hash"));
    v.push(String::from_str("id"));
    v
}

/// Model of the engine's document store: documents keyed by their unique
/// id, which is the index's primary key.
pub open spec fn apply_upsert(index: Map<u64, PageView>, p: PageView) -> Map<u64, PageView> {
    index.insert(p.id, p)
}

/// Delete-by-filter with an exact path match: removes every document whose
/// path is `path` and touches nothing else.
pub open spec fn apply_delete_by_path(index: Map<u64, PageView>, path: Seq<char>) -> Map<
    u64,
    PageView,
> {
    Map::<u64, PageView>::new(
        |k: u64| index.dom().contains(k) && index[k].path != path,
        |k: u64| index[k],
    )
}

/// The effect of a planned action on the index model: a skip touches
/// nothing.
pub open spec fn apply_action(index: Map<u64, PageView>, a: SyncAction) -> Map<u64, PageView> {
    match a {
        SyncAction::Skip => index,
        SyncAction::Upsert(p) => apply_upsert(index, p@),
        SyncAction::DeleteByPath(pth) => apply_delete_by_path(index, pth@),
    }
}

/// A planned skip leaves the index model untouched: a page the publication
/// rule rejects causes no index operation at all.
pub proof fn lemma_skip_no_effect(index: Map<u64, PageView>)
    ensures
        apply_action(index, SyncAction::Skip) == index,
{
}

/// Upserting the same page twice leaves the index exactly as one upsert
/// does, with exactly that page stored under its id: repeating a created or
/// updated event is safe.
pub proof fn lemma_upsert_idempotent(index: Map<u64, PageView>, p: PageView)
    ensures
        apply_upsert(apply_upsert(index, p), p) == apply_upsert(index, p),
        apply_upsert(index, p).dom().contains(p.id),
        apply_upsert(index, p)[p.id] == p,
{
    assert(apply_upsert(apply_upsert(index, p), p) =~= apply_upsert(index, p));
}

/// Deleting a path that no stored document has leaves the index unchanged:
/// repeating a delete after the document is gone succeeds as a no-op.
pub proof fn lemma_delete_absent(index: Map<u64, PageView>, path: Seq<char>)
    requires
        forall|k: u64| index.dom().contains(k) ==> (#[trigger] index[k]).path != path,
    ensures
        apply_delete_by_path(index, path) == index,
{
    assert(apply_delete_by_path(index, path) =~= index);
}

/// Deleting the same path twice is the same as deleting it once.
pub proof fn lemma_delete_idempotent(index: Map<u64, PageView>, path: Seq<char>)
    ensures
        apply_delete_by_path(apply_delete_by_path(index, path), path) == apply_delete_by_path(
            index,
            path,
        ),
{
    assert(apply_delete_by_path(apply_delete_by_path(index, path), path) =~= apply_delete_by_path(
        index,
        path,
    ));
}

} // verus!
