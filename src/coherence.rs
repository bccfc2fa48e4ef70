//! What a lookup guarantees about cached data and its records, proved over
//! the steps of `fetch::transition`.
use vstd::prelude::*;
use crate::fetch::{
    conditional_request, is_error_status, transition, validator_ok, Action, Event, GetError, Phase,
    Request,
};
use crate::header::{header_text_of, is_header_value};
use crate::record::CacheRecord;

verus! {

/// Actions that create content or change the metadata store.
pub open spec fn writes(a: Action) -> bool {
    ||| a is CreateContent
    ||| a is BeginUpsert
    ||| a is CopyBody
    ||| a is Commit
}

/// A header value that reads as text can be sent back as a header value, so
/// validators taken from responses always make a valid conditional request.
pub proof fn lemma_readable_header_is_sendable(v: Seq<u8>)
    requires
        header_text_of(v).is_some(),
    ensures
        is_header_value(header_text_of(v).unwrap()),
{
    let t = header_text_of(v).unwrap();
    assert forall|i: int| 0 <= i < t.len() implies crate::header::is_header_char(#[trigger] t[i]) by {
        assert(crate::header::is_visible_ascii(v[i]));
        assert(t[i] == v[i] as char);
    }
}

/// When a record is found, the request sent carries its Last-Modified as
/// `If-Modified-Since` and its ETag as `If-None-Match`, exactly, and neither
/// header when the record has no validator.
pub proof fn lemma_conditional_headers(
    key: String,
    record: CacheRecord,
    t: Seq<char>,
    post: Phase,
    act: Action,
)
    requires
        validator_ok(record.last_modified),
        validator_ok(record.etag),
        transition(key, Phase::LookingUp, Event::LookedUp(Ok(record)), t, post, act),
    ensures
        act == (Action::Send {
            request: Request {
                url: key,
                if_modified_since: record.last_modified,
                if_none_match: record.etag,
            },
        }),
        post == (Phase::Revalidating { cached: record }),
{
}

/// New content is recorded with the validators of the response that brought
/// it, so the next lookup of the URL sends those.
pub proof fn lemma_recorded_validators(
    key: String,
    pre: Phase,
    status: u16,
    last_modified: Option<String>,
    etag: Option<String>,
    t1: Seq<char>,
    mid: Phase,
    a1: Action,
    t2: Seq<char>,
    post: Phase,
    a2: Action,
)
    requires
        pre is Revalidating || pre is Downloading,
        status != 304,
        !is_error_status(status),
        transition(
            key,
            pre,
            Event::Received { status, last_modified, etag },
            t1,
            mid,
            a1,
        ),
        transition(key, mid, Event::Succeeded, t2, post, a2),
    ensures
        a1 is CreateContent,
        a2 is BeginUpsert,
        a2->BeginUpsert_key == key,
        a2->BeginUpsert_record.path == a1->CreateContent_path,
        a2->BeginUpsert_record.last_modified == last_modified,
        a2->BeginUpsert_record.etag == etag,
{
}

/// If revalidation fails, by a transport error or an error status, the
/// cached copy is served and nothing is written.
pub proof fn lemma_fallback_on_failure(
    key: String,
    cached: CacheRecord,
    ev: Event,
    t: Seq<char>,
    post: Phase,
    act: Action,
)
    requires
        ev is Unreachable || (ev is Received && is_error_status(ev->Received_status)),
        transition(key, Phase::Revalidating { cached }, ev, t, post, act),
    ensures
        act == (Action::OpenContent { path: cached.path }),
        post == (Phase::Served { path: cached.path }),
        !writes(act),
{
}

/// A download serves the content whose record it committed; a later lookup
/// that finds that record and is told it is not modified serves the same
/// content again, and creates and records nothing.
pub proof fn lemma_idempotent_revalidation(
    key: String,
    record: CacheRecord,
    t0: Seq<char>,
    post0: Phase,
    a0: Action,
    t1: Seq<char>,
    post1: Phase,
    a1: Action,
    last_modified: Option<String>,
    etag: Option<String>,
    t2: Seq<char>,
    post2: Phase,
    a2: Action,
)
    requires
        validator_ok(record.last_modified),
        validator_ok(record.etag),
        transition(key, Phase::Committing { record }, Event::Succeeded, t0, post0, a0),
        transition(key, Phase::LookingUp, Event::LookedUp(Ok(record)), t1, post1, a1),
        transition(key, post1, Event::Received { status: 304, last_modified, etag }, t2, post2, a2),
    ensures
        a0 == (Action::OpenContent { path: record.path }),
        a1 == (Action::Send { request: conditional_request(key, record) }),
        a2 == (Action::OpenContent { path: record.path }),
        post2 == (Phase::Served { path: record.path }),
        !writes(a1),
        !writes(a2),
{
}

/// A record becomes durable only by a commit, and a commit is asked for only
/// once the whole body has been copied.
pub proof fn lemma_commit_follows_copy(
    key: String,
    pre: Phase,
    ev: Event,
    t: Seq<char>,
    post: Phase,
    act: Action,
)
    requires
        transition(key, pre, ev, t, post, act),
        act is Commit,
    ensures
        pre is Copying,
        ev is Succeeded,
{
}

/// If copying the body fails, the open transaction is rolled back and the
/// lookup fails: its record is never committed.
pub proof fn lemma_interrupted_copy_rolls_back(
    key: String,
    record: CacheRecord,
    t: Seq<char>,
    post: Phase,
    act: Action,
)
    requires
        transition(key, Phase::Copying { record }, Event::Failed, t, post, act),
    ensures
        act == (Action::Abandon { error: GetError::Storage }),
        post == Phase::Failed,
        forall|ev: Event| !crate::fetch::accepts(post, ev),
{
}

/// A lookup asks for, requests and records its URL under one key: URLs that
/// differ only in their fragment share a row.
pub proof fn lemma_one_row_per_url(
    key: String,
    pre: Phase,
    ev: Event,
    t: Seq<char>,
    post: Phase,
    act: Action,
)
    requires
        transition(key, pre, ev, t, post, act),
    ensures
        act is BeginUpsert ==> act->BeginUpsert_key == key,
        act is Send ==> act->Send_request.url == key,
        !(act is Lookup),
{
}

} // verus!
