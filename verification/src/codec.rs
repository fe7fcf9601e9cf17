//! Schema-tolerant page record decoding, and canonical encoding.
//!
//! A wire record is a list of named fields. Decoding first tries to read the
//! record as a renamed page (the migration shape), and falls back to the
//! canonical page shape; when both fail, the canonical-shape error is
//! reported, so that migration-shape noise never reaches callers.

use vstd::prelude::*;

use crate::page::{PageView, RenamedWikiPage, WikiPage};
use crate::transformers::{bool_from_int, bool_to_int};

verus! {

/// One field value of a wire record. Boolean fields may arrive either as
/// true/false or as integers (any nonzero integer reads as true).
#[derive(Debug)]
pub enum FieldValue {
    UInt(u64),
    Text(String),
    Flag(bool),
}

/// Mathematical model of a field value.
#[verifier::ext_equal]
pub enum ValueView {
    UInt(u64),
    Text(Seq<char>),
    Flag(bool),
}

impl View for FieldValue {
    type V = ValueView;

    open spec fn view(&self) -> ValueView {
        match self {
            FieldValue::UInt(n) => ValueView::UInt(*n),
            FieldValue::Text(s) => ValueView::Text(s@),
            FieldValue::Flag(b) => ValueView::Flag(*b),
        }
    }
}

/// Why a record failed to decode, naming the offending field.
#[derive(Debug)]
pub enum DecodeError {
    MissingField(String),
    WrongType(String),
}

/// Mathematical model of a decode error.
#[verifier::ext_equal]
pub enum DecodeErrorView {
    MissingField(Seq<char>),
    WrongType(Seq<char>),
}

impl View for DecodeError {
    type V = DecodeErrorView;

    open spec fn view(&self) -> DecodeErrorView {
        match self {
            DecodeError::MissingField(f) => DecodeErrorView::MissingField(f@),
            DecodeError::WrongType(f) => DecodeErrorView::WrongType(f@),
        }
    }
}

/// The value of the first field named `key`, if any. Later duplicates of a
/// name are ignored.
pub open spec fn lookup(fs: Seq<(String, FieldValue)>, key: Seq<char>) -> Option<ValueView>
    decreases fs.len(),
{
    if fs.len() == 0 {
        Option::None
    } else if fs[0].0@ == key {
        Option::Some(fs[0].1@)
    } else {
        lookup(fs.drop_first(), key)
    }
}

/// Reading a required text field.
pub open spec fn text_field(fs: Seq<(String, FieldValue)>, key: Seq<char>) -> Result<
    Seq<char>,
    DecodeErrorView,
> {
    match lookup(fs, key) {
        Option::None => Result::Err(DecodeErrorView::MissingField(key)),
        Option::Some(v) => match v {
            ValueView::Text(s) => Result::Ok(s),
            _ => Result::Err(DecodeErrorView::WrongType(key)),
        },
    }
}

/// Reading a required unsigned integer field.
pub open spec fn uint_field(fs: Seq<(String, FieldValue)>, key: Seq<char>) -> Result<
    u64,
    DecodeErrorView,
> {
    match lookup(fs, key) {
        Option::None => Result::Err(DecodeErrorView::MissingField(key)),
        Option::Some(v) => match v {
            ValueView::UInt(n) => Result::Ok(n),
            _ => Result::Err(DecodeErrorView::WrongType(key)),
        },
    }
}

/// Reading a required boolean field: either a boolean, or an integer where
/// any nonzero value reads as true.
pub open spec fn flag_field(fs: Seq<(String, FieldValue)>, key: Seq<char>) -> Result<
    bool,
    DecodeErrorView,
> {
    match lookup(fs, key) {
        Option::None => Result::Err(DecodeErrorView::MissingField(key)),
        Option::Some(v) => match v {
            ValueView::Flag(b) => Result::Ok(b),
            ValueView::UInt(n) => Result::Ok(n != 0),
            ValueView::Text(_) => Result::Err(DecodeErrorView::WrongType(key)),
        },
    }
}

/// Decoding a record as the canonical page shape: the fields are read in
/// canonical order and the first failure is the error. Unknown fields are
/// ignored.
pub open spec fn plain_result(fs: Seq<(String, FieldValue)>) -> Result<
    PageView,
    DecodeErrorView,
> {
    if uint_field(fs, "id"@) is Err {
        Result::Err(uint_field(fs, "id"@)->Err_0)
    } else if text_field(fs, "path"@) is Err {
        Result::Err(text_field(fs, "path"@)->Err_0)
    } else if text_field(fs, "hash"@) is Err {
        Result::Err(text_field(fs, "hash"@)->Err_0)
    } else if text_field(fs, "title"@) is Err {
        Result::Err(text_field(fs, "title"@)->Err_0)
    } else if text_field(fs, "description"@) is Err {
        Result::Err(text_field(fs, "description"@)->Err_0)
    } else if flag_field(fs, "isPrivate"@) is Err {
        Result::Err(flag_field(fs, "isPrivate"@)->Err_0)
    } else if flag_field(fs, "isPublished"@) is Err {
        Result::Err(flag_field(fs, "isPublished"@)->Err_0)
    } else if text_field(fs, "content"@) is Err {
        Result::Err(text_field(fs, "content"@)->Err_0)
    } else if text_field(fs, "contentType"@) is Err {
        Result::Err(text_field(fs, "contentType"@)->Err_0)
    } else if text_field(fs, "createdAt"@) is Err {
        Result::Err(text_field(fs, "createdAt"@)->Err_0)
    } else if text_field(fs, "updatedAt"@) is Err {
        Result::Err(text_field(fs, "updatedAt"@)->Err_0)
    } else if text_field(fs, "editorKey"@) is Err {
        Result::Err(text_field(fs, "editorKey"@)->Err_0)
    } else if text_field(fs, "localeCode"@) is Err {
        Result::Err(text_field(fs, "localeCode"@)->Err_0)
    } else if uint_field(fs, "authorId"@) is Err {
        Result::Err(uint_field(fs, "authorId"@)->Err_0)
    } else if uint_field(fs, "creatorId"@) is Err {
        Result::Err(uint_field(fs, "creatorId"@)->Err_0)
    } else {
        Result::Ok(
            PageView {
                id: uint_field(fs, "id"@)->Ok_0,
                path: text_field(fs, "path"@)->Ok_0,
                hash: text_field(fs, "hash"@)->Ok_0,
                title: text_field(fs, "title"@)->Ok_0,
                description: text_field(fs, "description"@)->Ok_0,
                is_private: flag_field(fs, "isPrivate"@)->Ok_0,
                is_published: flag_field(fs, "isPublished"@)->Ok_0,
                content: text_field(fs, "content"@)->Ok_0,
                content_type: text_field(fs, "contentType"@)->Ok_0,
                created_at: text_field(fs, "createdAt"@)->Ok_0,
                updated_at: text_field(fs, "updatedAt"@)->Ok_0,
                editor_key: text_field(fs, "editorKey"@)->Ok_0,
                locale_code: text_field(fs, "localeCode"@)->Ok_0,
                author_id: uint_field(fs, "authorId"@)->Ok_0,
                creator_id: uint_field(fs, "creatorId"@)->Ok_0,
            },
        )
    }
}

/// Whether the record reads as the renamed (migration) shape: the canonical
/// fields plus all three destination fields.
pub open spec fn renamed_ok(fs: Seq<(String, FieldValue)>) -> bool {
    &&& plain_result(fs) is Ok
    &&& text_field(fs, "destinationPath"@) is Ok
    &&& text_field(fs, "destinationLocaleCode"@) is Ok
    &&& text_field(fs, "destinationHash"@) is Ok
}

/// The canonical page of a renamed record: the destination path and hash
/// replace the stale ones, and the migration-only fields are dropped.
pub open spec fn renamed_value(fs: Seq<(String, FieldValue)>) -> PageView {
    PageView {
        path: text_field(fs, "destinationPath"@)->Ok_0,
        hash: text_field(fs, "destinationHash"@)->Ok_0,
        ..plain_result(fs)->Ok_0
    }
}

/// The full decoding rule: the renamed shape is tried first; otherwise the
/// canonical shape decides, and its error is the one reported.
pub open spec fn spec_decode(fs: Seq<(String, FieldValue)>) -> Result<PageView, DecodeErrorView> {
    if renamed_ok(fs) {
        Result::Ok(renamed_value(fs))
    } else {
        plain_result(fs)
    }
}

/// Looks up the first field with the given name.
fn lookup_field<'a>(fields: &'a Vec<(String, FieldValue)>, key: &String) -> (r: Option<
    &'a FieldValue,
>)
    ensures
        match r {
            Option::Some(v) => lookup(fields@, key@) == Option::Some(v@),
            Option::None => lookup(fields@, key@) is None,
        },
{
    let mut i: usize = 0;
    proof {
        assert(fields@.skip(0) =~= fields@);
    }
    while i < fields.len()
        invariant
            i <= fields.len(),
            lookup(fields@, key@) == lookup(fields@.skip(i as int), key@),
        decreases fields.len() - i,
    {
        proof {
            assert(fields@.skip(i as int)[0] == fields@[i as int]);
        }
        if fields[i].0 == *key {
            return Option::Some(&fields[i].1);
        }
        proof {
            assert(fields@.skip(i as int).drop_first() =~= fields@.skip(i as int + 1));
        }
        i += 1;
    }
    proof {
        assert(fields@.skip(fields@.len() as int) =~= Seq::<(String, FieldValue)>::empty());
    }
    Option::None
}

/// Reads a required text field of a record.
fn get_text(fields: &Vec<(String, FieldValue)>, key: &String) -> (r: Result<String, DecodeError>)
    ensures
        match r {
            Result::Ok(s) => text_field(fields@, key@) matches Result::Ok(t) && t == s@,
            Result::Err(e) => text_field(fields@, key@) matches Result::Err(ev) && ev == e@,
        },
{
    match lookup_field(fields, key) {
        Option::None => Result::Err(DecodeError::MissingField(key.as_str().to_owned())),
        Option::Some(v) => match v {
            FieldValue::Text(s) => Result::Ok(s.as_str().to_owned()),
            _ => Result::Err(DecodeError::WrongType(key.as_str().to_owned())),
        },
    }
}

/// Reads a required unsigned integer field of a record.
fn get_uint(fields: &Vec<(String, FieldValue)>, key: &String) -> (r: Result<u64, DecodeError>)
    ensures
        match r {
            Result::Ok(n) => uint_field(fields@, key@) == Result::<u64, DecodeErrorView>::Ok(n),
            Result::Err(e) => uint_field(fields@, key@) matches Result::Err(ev) && ev == e@,
        },
{
    match lookup_field(fields, key) {
        Option::None => Result::Err(DecodeError::MissingField(key.as_str().to_owned())),
        Option::Some(v) => match v {
            FieldValue::UInt(n) => Result::Ok(*n),
            _ => Result::Err(DecodeError::WrongType(key.as_str().to_owned())),
        },
    }
}

/// Reads a required boolean field of a record, accepting 0/1 integers.
fn get_flag(fields: &Vec<(String, FieldValue)>, key: &String) -> (r: Result<bool, DecodeError>)
    ensures
        match r {
            Result::Ok(b) => flag_field(fields@, key@) == Result::<bool, DecodeErrorView>::Ok(b),
            Result::Err(e) => flag_field(fields@, key@) matches Result::Err(ev) && ev == e@,
        },
{
    match lookup_field(fields, key) {
        Option::None => Result::Err(DecodeError::MissingField(key.as_str().to_owned())),
        Option::Some(v) => match v {
            FieldValue::Flag(b) => Result::Ok(*b),
            FieldValue::UInt(n) => Result::Ok(bool_from_int(*n)),
            FieldValue::Text(_) => Result::Err(DecodeError::WrongType(key.as_str().to_owned())),
        },
    }
}

/// Decodes a record as the canonical page shape.
fn decode_plain(fields: &Vec<(String, FieldValue)>) -> (r: Result<WikiPage, DecodeError>)
    ensures
        match r {
            Result::Ok(p) => plain_result(fields@) matches Result::Ok(pv) && pv == p@,
            Result::Err(e) => plain_result(fields@) matches Result::Err(ev) && ev == e@,
        },
{
    let id = match get_uint(fields, &String::from_str("id")) {
        Result::Ok(v) => v,
        Result::Err(e) => { return Result::Err(e) },
    };
    let path = match get_text(fields, &String::from_str("path")) {
        Result::Ok(v) => v,
        Result::Err(e) => { return Result::Err(e) },
    };
    let hash = match get_text(fields, &String::from_str("hash")) {
        Result::Ok(v) => v,
        Result::Err(e) => { return Result::Err(e) },
    };
    let title = match get_text(fields, &String::from_str("title")) {
        Result::Ok(v) => v,
        Result::Err(e) => { return Result::Err(e) },
    };
    let description = match get_text(fields, &String::from_str("description")) {
        Result::Ok(v) => v,
        Result::Err(e) => { return Result::Err(e) },
    };
    let is_private = match get_flag(fields, &String::from_str("isPrivate")) {
        Result::Ok(v) => v,
        Result::Err(e) => { return Result::Err(e) },
    };
    let is_published = match get_flag(fields, &String::from_str("isPublished")) {
        Result::Ok(v) => v,
        Result::Err(e) => { return Result::Err(e) },
    };
    let content = match get_text(fields, &String::from_str("content")) {
        Result::Ok(v) => v,
        Result::Err(e) => { return Result::Err(e) },
    };
    let content_type = match get_text(fields, &String::from_str("contentType")) {
        Result::Ok(v) => v,
        Result::Err(e) => { return Result::Err(e) },
    };
    let created_at = match get_text(fields, &String::from_str("createdAt")) {
        Result::Ok(v) => v,
        Result::Err(e) => { return Result::Err(e) },
    };
    let updated_at = match get_text(fields, &String::from_str("updatedAt")) {
        Result::Ok(v) => v,
        Result::Err(e) => { return Result::Err(e) },
    };
    let editor_key = match get_text(fields, &String::from_str("editorKey")) {
        Result::Ok(v) => v,
        Result::Err(e) => { return Result::Err(e) },
    };
    let locale_code = match get_text(fields, &String::from_str("localeCode")) {
        Result::Ok(v) => v,
        Result::Err(e) => { return Result::Err(e) },
    };
    let author_id = match get_uint(fields, &String::from_str("authorId")) {
        Result::Ok(v) => v,
        Result::Err(e) => { return Result::Err(e) },
    };
    let creator_id = match get_uint(fields, &String::from_str("creatorId")) {
        Result::Ok(v) => v,
        Result::Err(e) => { return Result::Err(e) },
    };
    let page = WikiPage {
        id,
        path,
        hash,
        title,
        description,
        is_private,
        is_published,
        content,
        content_type,
        created_at,
        updated_at,
        editor_key,
        locale_code,
        author_id,
        creator_id,
    };
    proof {
        assert(plain_result(fields@)->Ok_0 =~= page@);
    }
    Result::Ok(page)
}

/// Decodes an arbitrary record into a canonical page, trying the renamed
/// (migration) shape first and falling back to the canonical shape; when
/// both fail, the canonical-shape error is the one returned.
pub fn decode_page(fields: &Vec<(String, FieldValue)>) -> (r: Result<WikiPage, DecodeError>)
    ensures
        match r {
            Result::Ok(p) => spec_decode(fields@) matches Result::Ok(pv) && pv == p@,
            Result::Err(e) => spec_decode(fields@) matches Result::Err(ev) && ev == e@,
        },
{
    match decode_plain(fields) {
        Result::Ok(p) => {
            let dp = get_text(fields, &String::from_str("destinationPath"));
            let dl = get_text(fields, &String::from_str("destinationLocaleCode"));
            let dh = get_text(fields, &String::from_str("destinationHash"));
            match (dp, dl, dh) {
                (Result::Ok(dpv), Result::Ok(dlv), Result::Ok(dhv)) => {
                    let renamed = RenamedWikiPage {
                        id: p.id,
                        path: p.path,
                        hash: p.hash,
                        title: p.title,
                        description: p.description,
                        is_private: p.is_private,
                        is_published: p.is_published,
                        content: p.content,
                        content_type: p.content_type,
                        created_at: p.created_at,
                        updated_at: p.updated_at,
                        editor_key: p.editor_key,
                        locale_code: p.locale_code,
                        author_id: p.author_id,
                        creator_id: p.creator_id,
                        destination_path: dpv,
                        destination_locale_code: dlv,
                        destination_hash: dhv,
                    };
                    let page = WikiPage::from(renamed);
                    proof {
                        assert(renamed_ok(fields@));
                        assert(renamed_value(fields@) =~= page@);
                    }
                    Result::Ok(page)
                },
                _ => {
                    proof {
                        assert(!renamed_ok(fields@));
                    }
                    Result::Ok(p)
                },
            }
        },
        Result::Err(e) => {
            proof {
                assert(!renamed_ok(fields@));
            }
            Result::Err(e)
        },
    }
}

/// How `lookup` behaves when one field is appended: an earlier field with
/// the same name still wins.
pub proof fn lemma_lookup_push_one(
    fs: Seq<(String, FieldValue)>,
    pr: (String, FieldValue),
    key: Seq<char>,
)
    ensures
        lookup(fs.push(pr), key) == (if lookup(fs, key) is Some {
            lookup(fs, key)
        } else if pr.0@ == key {
            Option::Some(pr.1@)
        } else {
            Option::<ValueView>::None
        }),
    decreases fs.len(),
{
    if fs.len() == 0 {
        assert(fs.push(pr)[0] == pr);
        assert(fs.push(pr).drop_first() =~= Seq::<(String, FieldValue)>::empty());
        assert(lookup(Seq::<(String, FieldValue)>::empty(), key) is None);
    } else {
        assert(fs.push(pr)[0] == fs[0]);
        assert(fs.push(pr).drop_first() =~= fs.drop_first().push(pr));
        lemma_lookup_push_one(fs.drop_first(), pr, key);
    }
}

/// The same, for every field name at once.
pub proof fn lemma_lookup_push(fs: Seq<(String, FieldValue)>, pr: (String, FieldValue))
    ensures
        forall|key: Seq<char>|
            #[trigger] lookup(fs.push(pr), key) == (if lookup(fs, key) is Some {
                lookup(fs, key)
            } else if pr.0@ == key {
                Option::Some(pr.1@)
            } else {
                Option::<ValueView>::None
            }),
{
    assert forall|key: Seq<char>|
        #[trigger] lookup(fs.push(pr), key) == (if lookup(fs, key) is Some {
            lookup(fs, key)
        } else if pr.0@ == key {
            Option::Some(pr.1@)
        } else {
            Option::<ValueView>::None
        }) by {
        lemma_lookup_push_one(fs, pr, key);
    }
}

/// What a canonically encoded record of page `p` looks like to `lookup`:
/// each canonical field holds the page's value (booleans as 0/1 integers)
/// and no destination field is present.
pub open spec fn encodes(fs: Seq<(String, FieldValue)>, p: PageView) -> bool {
    &&& lookup(fs, "id"@) == Option::Some(ValueView::UInt(p.id))
    &&& lookup(fs, "path"@) == Option::Some(ValueView::Text(p.path))
    &&& lookup(fs, "hash"@) == Option::Some(ValueView::Text(p.hash))
    &&& lookup(fs, "title"@) == Option::Some(ValueView::Text(p.title))
    &&& lookup(fs, "description"@) == Option::Some(ValueView::Text(p.description))
    &&& lookup(fs, "isPrivate"@) == Option::Some(
        ValueView::UInt(
            if p.is_private {
                1u64
            } else {
                0u64
            },
        ),
    )
    &&& lookup(fs, "isPublished"@) == Option::Some(
        ValueView::UInt(
            if p.is_published {
                1u64
            } else {
                0u64
            },
        ),
    )
    &&& lookup(fs, "content"@) == Option::Some(ValueView::Text(p.content))
    &&& lookup(fs, "contentType"@) == Option::Some(ValueView::Text(p.content_type))
    &&& lookup(fs, "createdAt"@) == Option::Some(ValueView::Text(p.created_at))
    &&& lookup(fs, "updatedAt"@) == Option::Some(ValueView::Text(p.updated_at))
    &&& lookup(fs, "editorKey"@) == Option::Some(ValueView::Text(p.editor_key))
    &&& lookup(fs, "localeCode"@) == Option::Some(ValueView::Text(p.locale_code))
    &&& lookup(fs, "authorId"@) == Option::Some(ValueView::UInt(p.author_id))
    &&& lookup(fs, "creatorId"@) == Option::Some(ValueView::UInt(p.creator_id))
    &&& lookup(fs, "destinationPath"@) is None
    &&& lookup(fs, "destinationLocaleCode"@) is None
    &&& lookup(fs, "destinationHash"@) is None
}

/// Round trip: decoding a canonically encoded page gives the page back.
/// The renamed shape cannot fire, since an encoded record carries no
/// destination field, and every canonical field reads back unchanged.
pub proof fn lemma_round_trip(fs: Seq<(String, FieldValue)>, p: PageView)
    requires
        encodes(fs, p),
    ensures
        spec_decode(fs) == Result::<PageView, DecodeErrorView>::Ok(p),
{
    assert(plain_result(fs)->Ok_0 =~= p);
}

/// A record in the renamed (migration) shape decodes to a page indexed
/// under the destination path and hash, never the stale ones.
pub proof fn lemma_renamed_decode(fs: Seq<(String, FieldValue)>)
    requires
        renamed_ok(fs),
    ensures
        spec_decode(fs) is Ok,
        spec_decode(fs)->Ok_0.path == text_field(fs, "destinationPath"@)->Ok_0,
        spec_decode(fs)->Ok_0.hash == text_field(fs, "destinationHash"@)->Ok_0,
{
}

/// Encodes a page as a canonical wire record: the fifteen canonical fields
/// in order, booleans as 0/1 integers, and nothing else.
pub fn encode_page(page: &WikiPage) -> (r: Vec<(String, FieldValue)>)
    ensures
        encodes(r@, page@),
        r@.len() == 15,
{
    let mut v: Vec<(String, FieldValue)> = Vec::new();
    let ghost s0 = v@;
    v.push((String::from_str("id"), FieldValue::UInt(page.id)));
    let ghost s1 = v@;
    v.push((String::from_str("path"), FieldValue::Text(page.path.as_str().to_owned())));
    let ghost s2 = v@;
    v.push((String::from_str("hash"), FieldValue::Text(page.hash.as_str().to_owned())));
    let ghost s3 = v@;
    v.push((String::from_str("title"), FieldValue::Text(page.title.as_str().to_owned())));
    let ghost s4 = v@;
    v.push(
        (String::from_str("description"), FieldValue::Text(page.description.as_str().to_owned())),
    );
    let ghost s5 = v@;
    v.push((String::from_str("isPrivate"), FieldValue::UInt(bool_to_int(page.is_private))));
    let ghost s6 = v@;
    v.push((String::from_str("isPublished"), FieldValue::UInt(bool_to_int(page.is_published))));
    let ghost s7 = v@;
    v.push((String::from_str("content"), FieldValue::Text(page.content.as_str().to_owned())));
    let ghost s8 = v@;
    v.push(
        (String::from_str("contentType"), FieldValue::Text(page.content_type.as_str().to_owned())),
    );
    let ghost s9 = v@;
    v.push((String::from_str("createdAt"), FieldValue::Text(page.created_at.as_str().to_owned())));
    let ghost s10 = v@;
    v.push((String::from_str("updatedAt"), FieldValue::Text(page.updated_at.as_str().to_owned())));
    let ghost s11 = v@;
    v.push((String::from_str("editorKey"), FieldValue::Text(page.editor_key.as_str().to_owned())));
    let ghost s12 = v@;
    v.push(
        (String::from_str("localeCode"), FieldValue::Text(page.locale_code.as_str().to_owned())),
    );
    let ghost s13 = v@;
    v.push((String::from_str("authorId"), FieldValue::UInt(page.author_id)));
    let ghost s14 = v@;
    v.push((String::from_str("creatorId"), FieldValue::UInt(page.creator_id)));
    proof {
        lemma_lookup_push(s0, s1[0]);
        lemma_lookup_push(s1, s2[1]);
        lemma_lookup_push(s2, s3[2]);
        lemma_lookup_push(s3, s4[3]);
        lemma_lookup_push(s4, s5[4]);
        lemma_lookup_push(s5, s6[5]);
        lemma_lookup_push(s6, s7[6]);
        lemma_lookup_push(s7, s8[7]);
        lemma_lookup_push(s8, s9[8]);
        lemma_lookup_push(s9, s10[9]);
        lemma_lookup_push(s10, s11[10]);
        lemma_lookup_push(s11, s12[11]);
        lemma_lookup_push(s12, s13[12]);
        lemma_lookup_push(s13, s14[13]);
        lemma_lookup_push(s14, v@[14]);
        assert(s1 =~= s0.push(s1[0]));
        assert(s2 =~= s1.push(s2[1]));
        assert(s3 =~= s2.push(s3[2]));
        assert(s4 =~= s3.push(s4[3]));
        assert(s5 =~= s4.push(s5[4]));
        assert(s6 =~= s5.push(s6[5]));
        assert(s7 =~= s6.push(s7[6]));
        assert(s8 =~= s7.push(s8[7]));
        assert(s9 =~= s8.push(s9[8]));
        assert(s10 =~= s9.push(s10[9]));
        assert(s11 =~= s10.push(s11[10]));
        assert(s12 =~= s11.push(s12[11]));
        assert(s13 =~= s12.push(s13[12]));
        assert(s14 =~= s13.push(s14[13]));
        assert(v@ =~= s14.push(v@[14]));
        reveal_strlit("id");
        reveal_strlit("path");
        reveal_strlit("hash");
        reveal_strlit("title");
        reveal_strlit("description");
        reveal_strlit("isPrivate");
        reveal_strlit("isPublished");
        reveal_strlit("content");
        reveal_strlit("contentType");
        reveal_strlit("createdAt");
        reveal_strlit("updatedAt");
        reveal_strlit("editorKey");
        reveal_strlit("localeCode");
        reveal_strlit("authorId");
        reveal_strlit("creatorId");
        reveal_strlit("destinationPath");
        reveal_strlit("destinationLocaleCode");
        reveal_strlit("destinationHash");
        assert("id"@.len() == 2);
        assert("path"@.len() == 4);
        assert("hash"@.len() == 4);
        assert("title"@.len() == 5);
        assert("description"@.len() == 11);
        assert("isPrivate"@.len() == 9);
        assert("isPublished"@.len() == 11);
        assert("content"@.len() == 7);
        assert("contentType"@.len() == 11);
        assert("createdAt"@.len() == 9);
        assert("updatedAt"@.len() == 9);
        assert("editorKey"@.len() == 9);
        assert("localeCode"@.len() == 10);
        assert("authorId"@.len() == 8);
        assert("creatorId"@.len() == 9);
        assert("destinationPath"@.len() == 15);
        assert("destinationLocaleCode"@.len() == 21);
        assert("destinationHash"@.len() == 15);
        assert("path"@ != "hash"@) by {
            assert("path"@[0] == 'p' && "hash"@[0] == 'h');
        }
        assert("description"@ != "isPublished"@) by {
            assert("description"@[0] == 'd' && "isPublished"@[0] == 'i');
        }
        assert("description"@ != "contentType"@) by {
            assert("description"@[0] == 'd' && "contentType"@[0] == 'c');
        }
        assert("isPublished"@ != "contentType"@) by {
            assert("isPublished"@[0] == 'i' && "contentType"@[0] == 'c');
        }
        assert("isPrivate"@ != "createdAt"@) by {
            assert("isPrivate"@[0] == 'i' && "createdAt"@[0] == 'c');
        }
        assert("isPrivate"@ != "updatedAt"@) by {
            assert("isPrivate"@[0] == 'i' && "updatedAt"@[0] == 'u');
        }
        assert("isPrivate"@ != "editorKey"@) by {
            assert("isPrivate"@[0] == 'i' && "editorKey"@[0] == 'e');
        }
        assert("isPrivate"@ != "creatorId"@) by {
            assert("isPrivate"@[0] == 'i' && "creatorId"@[0] == 'c');
        }
        assert("createdAt"@ != "updatedAt"@) by {
            assert("createdAt"@[0] == 'c' && "updatedAt"@[0] == 'u');
        }
        assert("createdAt"@ != "editorKey"@) by {
            assert("createdAt"@[0] == 'c' && "editorKey"@[0] == 'e');
        }
        assert("createdAt"@ != "creatorId"@) by {
            assert("createdAt"@[5] == 'e' && "creatorId"@[5] == 'o');
        }
        assert("updatedAt"@ != "editorKey"@) by {
            assert("updatedAt"@[0] == 'u' && "editorKey"@[0] == 'e');
        }
        assert("updatedAt"@ != "creatorId"@) by {
            assert("updatedAt"@[0] == 'u' && "creatorId"@[0] == 'c');
        }
        assert("editorKey"@ != "creatorId"@) by {
            assert("editorKey"@[0] == 'e' && "creatorId"@[0] == 'c');
        }
        assert("destinationPath"@ != "destinationHash"@) by {
            assert("destinationPath"@[11] == 'P' && "destinationHash"@[11] == 'H');
        }
    }
    v
}

} // verus!
