//! The decisions of one cache lookup, as a state machine.
//!
//! A `Fetch` is started for a URL and then driven by whoever performs the
//! outside work: each `Action` it hands out is carried out (a store lookup, an
//! HTTP request, a file operation, a transaction step), and the outcome comes
//! back as an `Event`. The machine never touches the network, the disk or the
//! store itself; it decides whether cached data is trusted, when a conditional
//! request is sent, and in which order new content and its record are made
//! durable.
use vstd::prelude::*;
use crate::header::{header_value_ok, is_header_value, optional_header_text, optional_text_of};
use crate::key::{cache_key, key_of};
use crate::record::{CacheRecord, LookupError};
use crate::token::{content_path, content_path_of, is_token, random_token};

verus! {

/// A GET request, conditional when it carries validators.
#[derive(Clone, Debug, PartialEq, Eq)]
pub struct Request {
    /// The URL to fetch, without fragment.
    pub url: String,
    /// The value to send as `If-Modified-Since`, if any.
    pub if_modified_since: Option<String>,
    /// The value to send as `If-None-Match`, if any.
    pub if_none_match: Option<String>,
}

/// Why a lookup failed.
#[derive(Clone, Copy, Debug, PartialEq, Eq)]
pub enum GetError {
    /// A stored validator cannot be sent as a header value.
    BadValidator,
    /// Nothing is cached, and the request could not be sent or answered.
    Unreachable,
    /// Nothing is cached, and the server answered with an error status.
    Status { code: u16 },
    /// A content file could not be created, written or opened.
    Storage,
    /// The metadata store could not record or commit the new record.
    Store,
}

/// The outcome of the last action, handed back to the machine.
#[derive(Debug, PartialEq, Eq)]
pub enum Event {
    /// The store lookup of the key finished.
    LookedUp(Result<CacheRecord, LookupError>),
    /// The server answered; the validators are the text of the response's
    /// `Last-Modified` and `ETag` headers, where present and readable.
    Received { status: u16, last_modified: Option<String>, etag: Option<String> },
    /// The request could not be sent, or no answer came.
    Unreachable,
    /// The content file could not be created because its name is taken.
    NameTaken,
    /// The last action succeeded.
    Succeeded,
    /// The last action failed.
    Failed,
}

/// What the driver is asked to do next.
#[derive(Clone, Debug, PartialEq, Eq)]
pub enum Action {
    /// Look up the record stored under `key`; answer with `LookedUp`.
    Lookup { key: String },
    /// Send the request; answer with `Received` or `Unreachable`.
    Send { request: Request },
    /// Create the content file at `path` (relative to the cache root, its
    /// directory made if missing), failing if it exists; answer with
    /// `Succeeded`, `NameTaken` or `Failed`.
    CreateContent { path: String },
    /// Begin a transaction that inserts or replaces the row of `key` with
    /// `record`, uncommitted; answer with `Succeeded` or `Failed`.
    BeginUpsert { key: String, record: CacheRecord },
    /// Copy the whole response body into the created file; answer with
    /// `Succeeded` or `Failed`.
    CopyBody,
    /// Commit the open transaction; answer with `Succeeded` or `Failed`.
    Commit,
    /// Open the content file at `path` and return it. The lookup is over.
    OpenContent { path: String },
    /// Roll back the open transaction and fail with `error`. The lookup is over.
    Abandon { error: GetError },
    /// Fail with `error`. The lookup is over.
    Fail { error: GetError },
}

/// Where a lookup stands.
#[derive(Clone, Debug, PartialEq, Eq)]
pub enum Phase {
    /// Waiting for the store lookup.
    LookingUp,
    /// A record was found; waiting for the answer to the conditional request.
    Revalidating { cached: CacheRecord },
    /// No record was found; waiting for the answer to the plain request.
    Downloading,
    /// New content arrived; waiting for the content file at `path`.
    Creating { path: String, last_modified: Option<String>, etag: Option<String> },
    /// Waiting for the transaction that records `record` to begin.
    Beginning { record: CacheRecord },
    /// The transaction is open; waiting for the body to be copied.
    Copying { record: CacheRecord },
    /// The body is stored; waiting for the commit.
    Committing { record: CacheRecord },
    /// Finished: the content at `path` is served.
    Served { path: String },
    /// Finished with an error.
    Failed,
}

/// One lookup of a URL in the cache.
#[derive(Debug)]
pub struct Fetch {
    /// The URL without fragment: the key of its record, and the URL requested.
    pub key: String,
    /// Where the lookup stands.
    pub phase: Phase,
}

/// A stored validator that can be sent as a header value, or none.
pub open spec fn validator_ok(v: Option<String>) -> bool {
    match v {
        Some(s) => is_header_value(s@),
        None => true,
    }
}

/// The request that asks whether the copy described by `record` is still
/// current.
pub open spec fn conditional_request(key: String, record: CacheRecord) -> Request {
    Request { url: key, if_modified_since: record.last_modified, if_none_match: record.etag }
}

/// The request for a URL that nothing is cached for.
pub open spec fn plain_request(key: String) -> Request {
    Request { url: key, if_modified_since: None, if_none_match: None }
}

/// An HTTP status in the client-error or server-error range.
pub open spec fn is_error_status(status: u16) -> bool {
    400 <= status && status <= 599
}

/// Statuses on which a revalidation keeps the cached copy: not modified, or
/// an error.
pub open spec fn keeps_cached(status: u16) -> bool {
    status == 304 || is_error_status(status)
}

/// The lookup ends by serving the content at `path`.
pub open spec fn serves(path: String, post: Phase, act: Action) -> bool {
    post == (Phase::Served { path }) && act == (Action::OpenContent { path })
}

/// The lookup ends with `error`.
pub open spec fn fails(error: GetError, post: Phase, act: Action) -> bool {
    post == Phase::Failed && act == (Action::Fail { error })
}

/// New content with these validators goes to a fresh content file named
/// `token`.
pub open spec fn creates(
    token: Seq<char>,
    last_modified: Option<String>,
    etag: Option<String>,
    post: Phase,
    act: Action,
) -> bool {
    match post {
        Phase::Creating { path, last_modified: lm, etag: et } => {
            &&& path@ == content_path_of(token)
            &&& lm == last_modified
            &&& et == etag
            &&& act == (Action::CreateContent { path })
        },
        _ => false,
    }
}

/// The events that answer the action a phase waits on.
pub open spec fn accepts(pre: Phase, ev: Event) -> bool {
    match pre {
        Phase::LookingUp => ev is LookedUp,
        Phase::Revalidating { .. } | Phase::Downloading => ev is Received || ev is Unreachable,
        Phase::Creating { .. } => ev is Succeeded || ev is NameTaken || ev is Failed,
        Phase::Beginning { .. } | Phase::Copying { .. } | Phase::Committing { .. } => ev is Succeeded
            || ev is Failed,
        Phase::Served { .. } | Phase::Failed => false,
    }
}

/// One step of a lookup for `key`: in phase `pre`, event `ev` leads to phase
/// `post` and action `act`; `token` names a content file where one is needed.
pub open spec fn transition(
    key: String,
    pre: Phase,
    ev: Event,
    token: Seq<char>,
    post: Phase,
    act: Action,
) -> bool {
    match pre {
        Phase::LookingUp => match ev {
            Event::LookedUp(Ok(record)) => if validator_ok(record.last_modified) && validator_ok(
                record.etag,
            ) {
                &&& post == (Phase::Revalidating { cached: record })
                &&& act == (Action::Send { request: conditional_request(key, record) })
            } else {
                fails(GetError::BadValidator, post, act)
            },
            Event::LookedUp(Err(_)) => {
                &&& post == Phase::Downloading
                &&& act == (Action::Send { request: plain_request(key) })
            },
            _ => false,
        },
        Phase::Revalidating { cached } => match ev {
            Event::Unreachable => serves(cached.path, post, act),
            Event::Received { status, last_modified, etag } => if keeps_cached(status) {
                serves(cached.path, post, act)
            } else {
                creates(token, last_modified, etag, post, act)
            },
            _ => false,
        },
        Phase::Downloading => match ev {
            Event::Unreachable => fails(GetError::Unreachable, post, act),
            Event::Received { status, last_modified, etag } => if is_error_status(status) {
                fails(GetError::Status { code: status }, post, act)
            } else {
                creates(token, last_modified, etag, post, act)
            },
            _ => false,
        },
        Phase::Creating { path, last_modified, etag } => match ev {
            Event::Succeeded => {
                let record = CacheRecord { path, last_modified, etag };
                &&& post == (Phase::Beginning { record })
                &&& act == (Action::BeginUpsert { key, record })
            },
            Event::NameTaken => creates(token, last_modified, etag, post, act),
            Event::Failed => fails(GetError::Storage, post, act),
            _ => false,
        },
        Phase::Beginning { record } => match ev {
            Event::Succeeded => post == (Phase::Copying { record }) && act == Action::CopyBody,
            Event::Failed => fails(GetError::Store, post, act),
            _ => false,
        },
        Phase::Copying { record } => match ev {
            Event::Succeeded => post == (Phase::Committing { record }) && act == Action::Commit,
            Event::Failed => post == Phase::Failed && act == (Action::Abandon {
                error: GetError::Storage,
            }),
            _ => false,
        },
        Phase::Committing { record } => match ev {
            Event::Succeeded => serves(record.path, post, act),
            Event::Failed => fails(GetError::Store, post, act),
            _ => false,
        },
        Phase::Served { .. } | Phase::Failed => false,
    }
}

} // verus!

verus! {

/// Tells whether an optional stored validator can be sent as a header value.
pub fn validator_sendable(v: &Option<String>) -> (r: bool)
    ensures
        r == validator_ok(*v),
{
    match v {
        Some(s) => header_value_ok(s.as_str()),
        None => true,
    }
}

/// Tells whether an HTTP status is in the client-error or server-error range.
pub fn status_is_error(status: u16) -> (r: bool)
    ensures
        r == is_error_status(status),
{
    400 <= status && status <= 599
}

/// Moves to a fresh content file named `token` for new content with these
/// validators.
fn create_content(
    token: &String,
    last_modified: Option<String>,
    etag: Option<String>,
) -> (r: (Phase, Action))
    ensures
        creates(token@, last_modified, etag, r.0, r.1),
{
    let path = content_path(token.as_str());
    (Phase::Creating { path: path.clone(), last_modified, etag }, Action::CreateContent { path })
}

/// Takes one step of a lookup for `key`: from phase `pre`, on event `ev`, to
/// the next phase and the action to carry out. `token` names the content file
/// to create where new content has arrived.
pub fn advance(key: &String, pre: Phase, ev: Event, token: &String) -> (r: (Phase, Action))
    requires
        accepts(pre, ev),
    ensures
        transition(*key, pre, ev, token@, r.0, r.1),
{
    match pre {
        Phase::LookingUp => match ev {
            Event::LookedUp(Ok(record)) => {
                if validator_sendable(&record.last_modified) && validator_sendable(&record.etag) {
                    let request = Request {
                        url: key.clone(),
                        if_modified_since: crate::record::copy_text(&record.last_modified),
                        if_none_match: crate::record::copy_text(&record.etag),
                    };
                    (Phase::Revalidating { cached: record }, Action::Send { request })
                } else {
                    (Phase::Failed, Action::Fail { error: GetError::BadValidator })
                }
            },
            _ => {
                let request = Request { url: key.clone(), if_modified_since: None, if_none_match: None };
                (Phase::Downloading, Action::Send { request })
            },
        },
        Phase::Revalidating { cached } => match ev {
            Event::Received { status, last_modified, etag } => {
                if status == 304 || status_is_error(status) {
                    let path = cached.path;
                    (Phase::Served { path: path.clone() }, Action::OpenContent { path })
                } else {
                    create_content(token, last_modified, etag)
                }
            },
            _ => {
                let path = cached.path;
                (Phase::Served { path: path.clone() }, Action::OpenContent { path })
            },
        },
        Phase::Downloading => match ev {
            Event::Received { status, last_modified, etag } => {
                if status_is_error(status) {
                    (Phase::Failed, Action::Fail { error: GetError::Status { code: status } })
                } else {
                    create_content(token, last_modified, etag)
                }
            },
            _ => (Phase::Failed, Action::Fail { error: GetError::Unreachable }),
        },
        Phase::Creating { path, last_modified, etag } => match ev {
            Event::Succeeded => {
                let record = CacheRecord { path, last_modified, etag };
                let stored = record.copied();
                (Phase::Beginning { record }, Action::BeginUpsert { key: key.clone(), record: stored })
            },
            Event::NameTaken => create_content(token, last_modified, etag),
            _ => (Phase::Failed, Action::Fail { error: GetError::Storage }),
        },
        Phase::Beginning { record } => match ev {
            Event::Succeeded => (Phase::Copying { record }, Action::CopyBody),
            _ => (Phase::Failed, Action::Fail { error: GetError::Store }),
        },
        Phase::Copying { record } => match ev {
            Event::Succeeded => (Phase::Committing { record }, Action::Commit),
            _ => (Phase::Failed, Action::Abandon { error: GetError::Storage }),
        },
        Phase::Committing { record } => match ev {
            Event::Succeeded => {
                let path = record.path;
                (Phase::Served { path: path.clone() }, Action::OpenContent { path })
            },
            _ => (Phase::Failed, Action::Fail { error: GetError::Store }),
        },
        // A finished lookup accepts no event.
        Phase::Served { path } => (Phase::Served { path }, Action::Fail { error: GetError::Store }),
        Phase::Failed => (Phase::Failed, Action::Fail { error: GetError::Store }),
    }
}

impl Fetch {
    /// Starts the lookup of `url`: its record is looked up under the URL
    /// without fragment.
    pub fn start(url: &str) -> (r: (Fetch, Action))
        ensures
            r.0.key@ == key_of(url@),
            r.0.phase == Phase::LookingUp,
            r.1 == (Action::Lookup { key: r.0.key }),
    {
        let key = cache_key(url);
        let action = Action::Lookup { key: key.clone() };
        (Fetch { key, phase: Phase::LookingUp }, action)
    }

    /// Whether the lookup is over: the last action was to serve a file or to
    /// fail.
    pub open spec fn finished(&self) -> bool {
        self.phase is Served || self.phase is Failed
    }

    /// Tells whether the lookup is over.
    pub fn is_finished(&self) -> (r: bool)
        ensures
            r == self.finished(),
    {
        match self.phase {
            Phase::Served { .. } | Phase::Failed => true,
            _ => false,
        }
    }

    /// Tells whether `ev` answers the action that the lookup waits on.
    pub fn expects(&self, ev: &Event) -> (r: bool)
        ensures
            r == accepts(self.phase, *ev),
    {
        match self.phase {
            Phase::LookingUp => match ev {
                Event::LookedUp(_) => true,
                _ => false,
            },
            Phase::Revalidating { .. } | Phase::Downloading => match ev {
                Event::Received { .. } | Event::Unreachable => true,
                _ => false,
            },
            Phase::Creating { .. } => match ev {
                Event::Succeeded | Event::NameTaken | Event::Failed => true,
                _ => false,
            },
            Phase::Beginning { .. } | Phase::Copying { .. } | Phase::Committing { .. } => match ev {
                Event::Succeeded | Event::Failed => true,
                _ => false,
            },
            Phase::Served { .. } | Phase::Failed => false,
        }
    }

    /// Hands the outcome of the last action to the lookup and returns the
    /// next action. Where new content arrived, a fresh random name is drawn
    /// for its file.
    pub fn step(&mut self, ev: Event) -> (a: Action)
        requires
            accepts(old(self).phase, ev),
        ensures
            final(self).key == old(self).key,
            exists|t: Seq<char>|
                is_token(t) && transition(old(self).key, old(self).phase, ev, t, final(self).phase, a),
    {
        let token = random_token();
        let mut pre = Phase::Failed;
        core::mem::swap(&mut pre, &mut self.phase);
        let (post, action) = advance(&self.key, pre, ev, &token);
        self.phase = post;
        action
    }
}

/// The event for a server's answer: its status, and its `Last-Modified` and
/// `ETag` headers read as text (an unreadable value counts as absent).
pub fn response_event(status: u16, last_modified: Option<&[u8]>, etag: Option<&[u8]>) -> (r: Event)
    ensures
        r is Received,
        r->Received_status == status,
        r->Received_last_modified.is_some() == optional_text_of(last_modified).is_some(),
        r->Received_last_modified.is_some() ==> r->Received_last_modified.unwrap()@ == optional_text_of(
            last_modified,
        ).unwrap(),
        r->Received_etag.is_some() == optional_text_of(etag).is_some(),
        r->Received_etag.is_some() ==> r->Received_etag.unwrap()@ == optional_text_of(
            etag,
        ).unwrap(),
{
    Event::Received {
        status,
        last_modified: optional_header_text(last_modified),
        etag: optional_header_text(etag),
    }
}

} // verus!
