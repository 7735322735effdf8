use vstd::prelude::*;

use crate::listing::views;

verus! {

broadcast use vstd::std_specs::vec::axiom_vec_index_decreases;

/// A JSON document, as far as image extraction reads it: objects keep their
/// keys in document order, and scalars other than strings are not told apart.
#[derive(Debug)]
pub enum JsonValue {
    Null,
    Bool(bool),
    Number,
    String(String),
    Array(Vec<JsonValue>),
    Object(Vec<(String, JsonValue)>),
}

/// The deepest nesting of arrays and objects that image extraction walks.
pub const MAX_NESTING: usize = 128;

pub open spec fn image_key() -> Seq<char> {
    seq!['i', 'm', 'a', 'g', 'e']
}

/// The image references of a document, in traversal order: an `image` key
/// whose value is a string gives that string; other object values and all
/// array elements are searched in turn.
pub open spec fn images_in(v: JsonValue) -> Seq<Seq<char>>
    decreases v,
{
    match v {
        JsonValue::Array(items) => images_in_items(items@),
        JsonValue::Object(fields) => images_in_fields(fields@),
        _ => Seq::empty(),
    }
}

pub open spec fn images_in_items(items: Seq<JsonValue>) -> Seq<Seq<char>>
    decreases items,
{
    if items.len() == 0 {
        Seq::empty()
    } else {
        images_in_items(items.drop_last()) + images_in(items.last())
    }
}

pub open spec fn images_in_field(f: (String, JsonValue)) -> Seq<Seq<char>>
    decreases f,
{
    if f.0@ == image_key() {
        match f.1 {
            JsonValue::String(s) => seq![s@],
            _ => Seq::empty(),
        }
    } else {
        images_in(f.1)
    }
}

pub open spec fn images_in_fields(fields: Seq<(String, JsonValue)>) -> Seq<Seq<char>>
    decreases fields,
{
    if fields.len() == 0 {
        Seq::empty()
    } else {
        images_in_fields(fields.drop_last()) + images_in_field(fields.last())
    }
}

/// The document's arrays and objects nest no deeper than `budget` along
/// the paths that extraction walks.
pub open spec fn nests_within(v: JsonValue, budget: nat) -> bool
    decreases v,
{
    match v {
        JsonValue::Array(items) => budget > 0 && items_nest_within(items@, (budget - 1) as nat),
        JsonValue::Object(fields) => budget > 0 && fields_nest_within(fields@, (budget - 1) as nat),
        _ => true,
    }
}

pub open spec fn items_nest_within(items: Seq<JsonValue>, budget: nat) -> bool
    decreases items,
{
    if items.len() == 0 {
        true
    } else {
        items_nest_within(items.drop_last(), budget) && nests_within(items.last(), budget)
    }
}

pub open spec fn field_nests_within(f: (String, JsonValue), budget: nat) -> bool
    decreases f,
{
    f.0@ == image_key() || nests_within(f.1, budget)
}

pub open spec fn fields_nest_within(fields: Seq<(String, JsonValue)>, budget: nat) -> bool
    decreases fields,
{
    if fields.len() == 0 {
        true
    } else {
        fields_nest_within(fields.drop_last(), budget) && field_nests_within(fields.last(), budget)
    }
}

/// Why an admission request could not be evaluated.
#[derive(Debug, Clone, Copy, PartialEq, Eq, Structural)]
pub enum ValidationError {
    /// The document nests deeper than extraction walks.
    ExtractionTooDeep,
    /// The admission backend could not be reached or failed.
    Internal,
}

/// Appends the images of `v` to `images`; false, with `images` in an
/// unspecified state, when `v` nests deeper than `budget`.
fn collect_images(v: &JsonValue, budget: usize, images: &mut Vec<String>) -> (ok: bool)
    ensures
        ok == nests_within(*v, budget as nat),
        ok ==> views(final(images)@) == views(old(images)@) + images_in(*v),
    decreases budget,
{
    match v {
        JsonValue::Array(items) => {
            if budget == 0 {
                return false;
            }
            let ghost start = views(images@);
            let mut i: usize = 0;
            while i < items.len()
                invariant
                    0 <= i <= items@.len(),
                    budget > 0,
                    *v == JsonValue::Array(*items),
                    items_nest_within(items@.subrange(0, i as int), (budget - 1) as nat),
                    views(images@) == start + images_in_items(items@.subrange(0, i as int)),
                decreases items@.len() - i,
            {
                let ghost prev = items@.subrange(0, i as int);
                let ghost next = items@.subrange(0, i + 1);
                assert(next.drop_last() =~= prev);
                assert(next.last() == items@[i as int]);
                if !collect_images(&items[i], budget - 1, images) {
                    proof {
                        lemma_items_prefix(items@, (budget - 1) as nat, i as int);
                    }
                    return false;
                }
                i = i + 1;
            }
            assert(items@.subrange(0, items@.len() as int) =~= items@);
            true
        },
        JsonValue::Object(fields) => {
            if budget == 0 {
                return false;
            }
            let ghost start = views(images@);
            let mut i: usize = 0;
            while i < fields.len()
                invariant
                    0 <= i <= fields@.len(),
                    budget > 0,
                    *v == JsonValue::Object(*fields),
                    fields_nest_within(fields@.subrange(0, i as int), (budget - 1) as nat),
                    views(images@) == start + images_in_fields(fields@.subrange(0, i as int)),
                decreases fields@.len() - i,
            {
                let ghost prev = fields@.subrange(0, i as int);
                let ghost next = fields@.subrange(0, i + 1);
                assert(next.drop_last() =~= prev);
                assert(next.last() == fields@[i as int]);
                let ghost f = fields@[i as int];
                assert(images_in_fields(next) == images_in_fields(prev) + images_in_field(f));
                assert(fields_nest_within(next, (budget - 1) as nat) == (fields_nest_within(
                    prev,
                    (budget - 1) as nat,
                ) && field_nests_within(f, (budget - 1) as nat)));
                let key = &fields[i].0;
                let value = &fields[i].1;
                assert(*key == f.0 && *value == f.1);
                let image = "image".to_owned();
                proof {
                    reveal_strlit("image");
                    assert(image@ =~= image_key());
                }
                if *key == image {
                    match value {
                        JsonValue::String(s) => {
                            let ghost before = views(images@);
                            images.push(s.clone());
                            assert(views(images@) =~= before.push(s@));
                            assert(images_in_field(f) == seq![s@]);
                        },
                        _ => {},
                    }
                } else {
                    if !collect_images(value, budget - 1, images) {
                        proof {
                            lemma_fields_prefix(fields@, (budget - 1) as nat, i as int);
                        }
                        return false;
                    }
                }
                i = i + 1;
            }
            assert(fields@.subrange(0, fields@.len() as int) =~= fields@);
            true
        },
        _ => true,
    }
}

proof fn lemma_items_prefix(items: Seq<JsonValue>, budget: nat, i: int)
    requires
        0 <= i < items.len(),
        !nests_within(items[i], budget),
    ensures
        !items_nest_within(items, budget),
    decreases items.len(),
{
    if i == items.len() - 1 {
    } else {
        assert(items.drop_last()[i] == items[i]);
        lemma_items_prefix(items.drop_last(), budget, i);
    }
}

proof fn lemma_fields_prefix(fields: Seq<(String, JsonValue)>, budget: nat, i: int)
    requires
        0 <= i < fields.len(),
        !field_nests_within(fields[i], budget),
    ensures
        !fields_nest_within(fields, budget),
    decreases fields.len(),
{
    if i == fields.len() - 1 {
    } else {
        assert(fields.drop_last()[i] == fields[i]);
        lemma_fields_prefix(fields.drop_last(), budget, i);
    }
}

/// The image references of a document, in traversal order; documents that
/// nest deeper than `MAX_NESTING` are refused rather than walked.
pub fn extract_images(blob: &JsonValue) -> (r: Result<Vec<String>, ValidationError>)
    ensures
        r is Ok <==> nests_within(*blob, MAX_NESTING as nat),
        r is Err ==> r == Err::<Vec<String>, ValidationError>(ValidationError::ExtractionTooDeep),
        r matches Ok(images) ==> views(images@) == images_in(*blob),
{
    let mut images: Vec<String> = Vec::new();
    if collect_images(blob, MAX_NESTING, &mut images) {
        assert(views(Seq::<String>::empty()) =~= Seq::<Seq<char>>::empty());
        assert(Seq::<Seq<char>>::empty() + images_in(*blob) =~= images_in(*blob));
        Ok(images)
    } else {
        Err(ValidationError::ExtractionTooDeep)
    }
}

/// The part of an admission request that the policy is evaluated on.
#[derive(Debug)]
pub struct AdmissionRequest {
    pub uid: String,
    pub namespace: String,
    pub operation: String,
    pub object: JsonValue,
}

/// What is sent to the admission backend for evaluation.
#[derive(Debug, Clone, PartialEq, Eq)]
pub struct AdmissionQuery {
    pub images: Vec<String>,
    pub namespace: String,
    pub operation: String,
    pub host_names: Vec<String>,
}

/// Outcome status of an admission decision.
#[derive(Debug, Clone, PartialEq, Eq)]
pub struct Status {
    pub status: String,
    pub message: Option<String>,
    pub code: Option<i32>,
}

/// The answer to an admission request.
#[derive(Debug, Clone, PartialEq, Eq)]
pub struct AdmissionResponse {
    pub uid: String,
    pub allowed: bool,
    pub status: Option<Status>,
}

fn copy_strings(s: &Vec<String>) -> (r: Vec<String>)
    ensures
        views(r@) == views(s@),
{
    let mut r: Vec<String> = Vec::new();
    let mut i: usize = 0;
    while i < s.len()
        invariant
            0 <= i <= s@.len(),
            views(r@) == views(s@.subrange(0, i as int)),
        decreases s@.len() - i,
    {
        let ghost before = views(r@);
        r.push(s[i].clone());
        assert(views(r@) =~= before.push(s@[i as int]@));
        i = i + 1;
        assert(views(s@.subrange(0, i as int)) =~= views(s@.subrange(0, i - 1)).push(
            s@[i - 1]@,
        ));
    }
    assert(s@.subrange(0, s@.len() as int) =~= s@);
    r
}

/// The query for the admission backend: the images found in the request's
/// object, with its namespace and operation and the registry's host names.
pub fn admission_query(req: &AdmissionRequest, host_names: &Vec<String>) -> (r: Result<
    AdmissionQuery,
    ValidationError,
>)
    ensures
        r is Ok <==> nests_within(req.object, MAX_NESTING as nat),
        r is Err ==> r == Err::<AdmissionQuery, ValidationError>(
            ValidationError::ExtractionTooDeep,
        ),
        r matches Ok(q) ==> {
            &&& views(q.images@) == images_in(req.object)
            &&& q.namespace@ == req.namespace@
            &&& q.operation@ == req.operation@
            &&& views(q.host_names@) == views(host_names@)
        },
{
    let images = match extract_images(&req.object) {
        Ok(images) => images,
        Err(e) => {
            return Err(e);
        },
    };
    Ok(
        AdmissionQuery {
            images,
            namespace: req.namespace.clone(),
            operation: req.operation.clone(),
            host_names: copy_strings(host_names),
        },
    )
}

/// The status text of an allowed request.
pub open spec fn success_text() -> Seq<char> {
    seq!['S', 'u', 'c', 'c', 'e', 's', 's']
}

/// The status text of a refused request.
pub open spec fn failure_text() -> Seq<char> {
    seq!['F', 'a', 'i', 'l', 'u', 'r', 'e']
}

/// The admission response for the backend's decision on request `uid`: an
/// allowed request has status `Success` and no message; a refused one has
/// status `Failure` and the backend's reason as its message.
pub fn admission_response(uid: &String, is_allowed: bool, reason: &String) -> (r:
    AdmissionResponse)
    ensures
        r.uid@ == uid@,
        r.allowed == is_allowed,
        r.status matches Some(st) && st.code is None && (if is_allowed {
            st.status@ == success_text() && st.message is None
        } else {
            st.status@ == failure_text() && (st.message matches Some(m) && m@ == reason@)
        }),
{
    proof {
        reveal_strlit("Success");
        reveal_strlit("Failure");
    }
    let st = if is_allowed {
        let text = "Success".to_owned();
        assert(text@ =~= success_text());
        Status { status: text, message: None, code: None }
    } else {
        let text = "Failure".to_owned();
        assert(text@ =~= failure_text());
        Status { status: text, message: Some(reason.clone()), code: None }
    };
    AdmissionResponse { uid: uid.clone(), allowed: is_allowed, status: Some(st) }
}

} // verus!
