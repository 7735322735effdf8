use vstd::prelude::*;

use crate::error::{BackendError, StorageDriverError};
use crate::text::join_with;

verus! {

/// The views of a sequence of strings.
pub open spec fn views(s: Seq<String>) -> Seq<Seq<char>> {
    s.map_values(|x: String| x@)
}

/// Every message of a stream arrived without error.
pub open spec fn all_delivered<T>(s: Seq<Result<T, BackendError>>) -> bool {
    forall|i: int| 0 <= i < s.len() ==> (#[trigger] s[i]) is Ok
}

/// The strings a stream delivered, in order.
pub open spec fn delivered_strings(s: Seq<Result<String, BackendError>>) -> Seq<Seq<char>> {
    s.map_values(|r: Result<String, BackendError>| r->Ok_0@)
}

/// The cursor and bound of one listing call.
#[derive(Debug, Clone, PartialEq, Eq)]
pub struct ListingRequest {
    /// At most this many results.
    pub limit: u32,
    /// Results start after this key; empty for the beginning.
    pub start_after: String,
}

/// The request for a listing: without a bound the listing is unbounded, and
/// without a cursor it starts at the beginning.
pub fn listing_request(start_value: Option<&str>, num_results: Option<u32>) -> (r: ListingRequest)
    ensures
        r.limit == (match num_results {
            Some(n) => n,
            None => u32::MAX,
        }),
        r.start_after@ == (match start_value {
            Some(s) => s@,
            None => Seq::<char>::empty(),
        }),
{
    let limit = match num_results {
        Some(n) => n,
        None => u32::MAX,
    };
    let start_after = match start_value {
        Some(s) => s.to_owned(),
        None => String::new(),
    };
    ListingRequest { limit, start_after }
}

/// The tags that a tag-listing stream delivered, in the order delivered; any
/// failure of the stream fails the whole listing and nothing is returned.
pub fn collect_tags(messages: &Vec<Result<String, BackendError>>) -> (r: Result<
    Vec<String>,
    StorageDriverError,
>)
    ensures
        r is Ok <==> all_delivered(messages@),
        r is Err ==> r == Err::<Vec<String>, StorageDriverError>(StorageDriverError::Internal),
        r matches Ok(tags) ==> views(tags@) == delivered_strings(messages@),
{
    let mut tags: Vec<String> = Vec::new();
    let mut i: usize = 0;
    while i < messages.len()
        invariant
            0 <= i <= messages@.len(),
            all_delivered(messages@.subrange(0, i as int)),
            views(tags@) == delivered_strings(messages@.subrange(0, i as int)),
        decreases messages@.len() - i,
    {
        let ghost prev = messages@.subrange(0, i as int);
        let ghost next = messages@.subrange(0, i + 1);
        let ghost old_tags = tags@;
        proof {
            lemma_extend_delivered(messages@, i as int);
        }
        match &messages[i] {
            Ok(t) => {
                tags.push(t.clone());
                assert(views(tags@) =~= views(old_tags).push(t@));
            },
            Err(_) => {
                return Err(StorageDriverError::Internal);
            },
        }
        i = i + 1;
    }
    assert(messages@.subrange(0, messages@.len() as int) =~= messages@);
    Ok(tags)
}

proof fn lemma_extend_delivered(s: Seq<Result<String, BackendError>>, i: int)
    requires
        0 <= i < s.len(),
    ensures
        delivered_strings(s.subrange(0, i + 1)) == delivered_strings(s.subrange(0, i)).push(
            s[i]->Ok_0@,
        ),
        all_delivered(s.subrange(0, i)) && s[i] is Ok ==> all_delivered(s.subrange(0, i + 1)),
{
    assert(delivered_strings(s.subrange(0, i + 1)) =~= delivered_strings(s.subrange(0, i)).push(
        s[i]->Ok_0@,
    ));
    if all_delivered(s.subrange(0, i)) && s[i] is Ok {
        assert forall|k: int| 0 <= k < i + 1 implies (#[trigger] s.subrange(0, i + 1)[k]) is Ok by {
            if k < i {
                assert(s.subrange(0, i + 1)[k] == s.subrange(0, i)[k]);
            }
        }
    }
}

proof fn lemma_push_contains(s: Seq<Seq<char>>, v: Seq<char>, x: Seq<char>)
    ensures
        s.push(v).contains(x) <==> s.contains(x) || x == v,
{
    if s.contains(x) {
        let k = choose|k: int| 0 <= k < s.len() && s[k] == x;
        assert(s.push(v)[k] == x);
    }
    if x == v {
        assert(s.push(v)[s.len() as int] == x);
    }
    if s.push(v).contains(x) {
        let k = choose|k: int| 0 <= k < s.push(v).len() && s.push(v)[k] == x;
        if k < s.len() {
            assert(s[k] == x);
        }
    }
}

/// Whether `s` holds a string whose view is `x`.
fn contains_string(s: &Vec<String>, x: &String) -> (r: bool)
    ensures
        r == views(s@).contains(x@),
{
    let mut i: usize = 0;
    while i < s.len()
        invariant
            0 <= i <= s@.len(),
            forall|k: int| 0 <= k < i ==> s@[k]@ != x@,
        decreases s@.len() - i,
    {
        if s[i] == *x {
            assert(views(s@)[i as int] == x@);
            return true;
        }
        i = i + 1;
    }
    proof {
        if views(s@).contains(x@) {
            let k = choose|k: int| 0 <= k < views(s@).len() && views(s@)[k] == x@;
            assert(s@[k]@ == x@);
        }
    }
    false
}

/// The repositories that a catalog stream delivered, each once; any failure
/// of the stream fails the whole listing and nothing is returned.
pub fn collect_catalog(messages: &Vec<Result<String, BackendError>>) -> (r: Result<
    Vec<String>,
    StorageDriverError,
>)
    ensures
        r is Ok <==> all_delivered(messages@),
        r is Err ==> r == Err::<Vec<String>, StorageDriverError>(StorageDriverError::Internal),
        r matches Ok(repos) ==> views(repos@).no_duplicates() && (forall|x: Seq<char>|
            views(repos@).contains(x) <==> delivered_strings(messages@).contains(x)),
{
    let mut repos: Vec<String> = Vec::new();
    let mut i: usize = 0;
    while i < messages.len()
        invariant
            0 <= i <= messages@.len(),
            all_delivered(messages@.subrange(0, i as int)),
            views(repos@).no_duplicates(),
            forall|x: Seq<char>|
                views(repos@).contains(x) <==> delivered_strings(
                    messages@.subrange(0, i as int),
                ).contains(x),
        decreases messages@.len() - i,
    {
        let ghost prev = messages@.subrange(0, i as int);
        let ghost next = messages@.subrange(0, i + 1);
        let ghost old_repos = repos@;
        proof {
            lemma_extend_delivered(messages@, i as int);
        }
        match &messages[i] {
            Ok(name) => {
                if !contains_string(&repos, name) {
                    repos.push(name.clone());
                    assert(views(repos@) =~= views(old_repos).push(name@));
                    assert forall|a: int, b: int|
                        0 <= a < views(repos@).len() && 0 <= b < views(repos@).len() && a
                            != b implies views(repos@)[a] != views(repos@)[b] by {
                        if a == views(old_repos).len() as int {
                            assert(views(old_repos).contains(views(old_repos)[b]));
                        } else if b == views(old_repos).len() as int {
                            assert(views(old_repos).contains(views(old_repos)[a]));
                        }
                    }
                }
                assert forall|x: Seq<char>|
                    views(repos@).contains(x) <==> delivered_strings(next).contains(x) by {
                    lemma_push_contains(delivered_strings(prev), name@, x);
                    if views(repos@) != views(old_repos) {
                        lemma_push_contains(views(old_repos), name@, x);
                    }
                }
            },
            Err(_) => {
                return Err(StorageDriverError::Internal);
            },
        }
        i = i + 1;
    }
    assert(messages@.subrange(0, messages@.len() as int) =~= messages@);
    Ok(repos)
}

/// A point in time: seconds and nanoseconds since the Unix epoch.
#[derive(Debug, Clone, Copy, PartialEq, Eq, Structural)]
pub struct Timestamp {
    pub seconds: i64,
    pub nanos: u32,
}

/// One message of a manifest-history stream: a digest and, if the backend
/// stored one, when it was written.
#[derive(Debug, Clone, PartialEq, Eq)]
pub struct HistoryMessage {
    pub digest: String,
    pub date: Option<Timestamp>,
}

/// One entry of a manifest history.
#[derive(Debug, Clone, PartialEq, Eq)]
pub struct HistoryEntry {
    pub digest: String,
    pub date: Timestamp,
}

/// The digests a `repo:tag` pointed to, in the order the backend delivered them.
#[derive(Debug, Clone, PartialEq, Eq)]
pub struct ManifestHistory {
    pub tag: String,
    pub history: Vec<HistoryEntry>,
}

/// The epoch, which stands for a missing timestamp.
pub open spec fn epoch() -> Timestamp {
    Timestamp { seconds: 0, nanos: 0 }
}

/// The date recorded for a message: its own, or the epoch when it has none.
pub open spec fn recorded_date(d: Option<Timestamp>) -> Timestamp {
    match d {
        Some(t) => t,
        None => epoch(),
    }
}

/// The history entry a message becomes.
pub open spec fn entry_matches(e: HistoryEntry, m: HistoryMessage) -> bool {
    e.digest@ == m.digest@ && e.date == recorded_date(m.date)
}

/// Builds the history of `repo:reference` from the messages of the history
/// stream; entries without a timestamp are dated at the epoch, and any failure
/// of the stream fails the whole call.
pub fn collect_history(
    repo: &str,
    reference: &str,
    messages: &Vec<Result<HistoryMessage, BackendError>>,
) -> (r: Result<ManifestHistory, StorageDriverError>)
    ensures
        r is Ok <==> all_delivered(messages@),
        r is Err ==> r == Err::<ManifestHistory, StorageDriverError>(StorageDriverError::Internal),
        r matches Ok(h) ==> {
            &&& h.tag@ == repo@ + seq![':'] + reference@
            &&& h.history@.len() == messages@.len()
            &&& forall|k: int|
                0 <= k < messages@.len() ==> entry_matches(
                    #[trigger] h.history@[k],
                    messages@[k]->Ok_0,
                )
        },
{
    let mut history: Vec<HistoryEntry> = Vec::new();
    let mut i: usize = 0;
    while i < messages.len()
        invariant
            0 <= i <= messages@.len(),
            history@.len() == i,
            forall|k: int| 0 <= k < i ==> (#[trigger] messages@[k]) is Ok,
            forall|k: int|
                0 <= k < i ==> entry_matches(#[trigger] history@[k], messages@[k]->Ok_0),
        decreases messages@.len() - i,
    {
        match &messages[i] {
            Ok(m) => {
                let date = match m.date {
                    Some(t) => t,
                    None => Timestamp { seconds: 0, nanos: 0 },
                };
                history.push(HistoryEntry { digest: m.digest.clone(), date });
            },
            Err(_) => {
                return Err(StorageDriverError::Internal);
            },
        }
        i = i + 1;
    }
    let tag = join_with(repo, ':', reference);
    Ok(ManifestHistory { tag, history })
}

} // verus!
