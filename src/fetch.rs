use vstd::prelude::*;
use crate::scope::{DetailKind, Page, Origin, ScopeError, Visibility, request_url, visibility_of};
use crate::table::{DetailList, Rows, list_kind, render, rows_match};

verus! {

/// The identity of a fetch: what to fetch, from where, for which freshness.
#[derive(Clone, Debug)]
pub struct FetchKey {
    pub kind: DetailKind,
    pub url: String,
    pub freshness: Option<i64>,
}

pub type KeyView = (DetailKind, Seq<char>, Option<i64>);

impl View for FetchKey {
    type V = KeyView;

    open spec fn view(&self) -> KeyView {
        (self.kind, self.url@, self.freshness)
    }
}

/// Why a fetch failed.
#[derive(Clone, Copy, Debug, PartialEq, Eq, Structural)]
pub enum FetchError {
    /// The request did not complete.
    Transport,
    /// The server answered with a status outside 200..=299.
    Status(u16),
    /// The body is not a list of records of the expected kind.
    Decode,
}

/// The outcome shown for the current key.
#[derive(Clone, Debug)]
pub enum FetchResult {
    Pending,
    Success(DetailList),
    Failure(FetchError),
}

/// The fetcher of one view: the last key it saw and the one outcome it holds.
#[derive(Clone, Debug)]
pub struct Fetcher {
    pub current: Option<FetchKey>,
    pub result: FetchResult,
}

pub struct FetcherModel {
    pub current: Option<KeyView>,
    pub result: FetchResult,
}

impl View for Fetcher {
    type V = FetcherModel;

    open spec fn view(&self) -> FetcherModel {
        FetcherModel {
            current: match self.current {
                Some(k) => Some(k@),
                None => None,
            },
            result: self.result,
        }
    }
}

/// The text shown in place of the table when a fetch failed.
pub const FAILURE_MESSAGE: &'static str = "Failed to fetch details from the API :/";

/// The text shown while a fetch is pending.
pub const LOADING_MESSAGE: &'static str = "Loading...";

/// The result kept for a response to a key of `kind`: a list of the other
/// kind does not have the expected shape, and counts as a decode failure.
pub open spec fn outcome_result(kind: DetailKind, o: Result<DetailList, FetchError>) -> FetchResult {
    match o {
        Ok(list) => if list_kind(list) == kind {
            FetchResult::Success(list)
        } else {
            FetchResult::Failure(FetchError::Decode)
        },
        Err(e) => FetchResult::Failure(e),
    }
}

/// The state after observing key `k`, and whether a fetch for it is issued:
/// a key that differs from the last one starts a fetch and drops the outcome.
pub open spec fn observe_next(m: FetcherModel, k: KeyView) -> (FetcherModel, bool) {
    if m.current == Some(k) {
        (m, false)
    } else {
        (FetcherModel { current: Some(k), result: FetchResult::Pending }, true)
    }
}

/// The state after the response for key `k` arrives: it is taken only where
/// `k` is the current key and its outcome is still pending.
pub open spec fn deliver_next(m: FetcherModel, k: KeyView, o: Result<DetailList, FetchError>) -> FetcherModel {
    if m.current == Some(k) && m.result is Pending {
        FetcherModel { current: m.current, result: outcome_result(k.0, o) }
    } else {
        m
    }
}

impl FetchKey {
    /// A copy of the key.
    pub fn duplicate(&self) -> (r: FetchKey)
        ensures
            r@ == self@,
    {
        FetchKey { kind: self.kind, url: self.url.clone(), freshness: self.freshness }
    }

    /// Key equality: all three parts equal.
    pub fn same(&self, other: &FetchKey) -> (r: bool)
        ensures
            r == (self@ == other@),
    {
        let fresh_eq = match (self.freshness, other.freshness) {
            (Some(a), Some(b)) => a == b,
            (None, None) => true,
            _ => false,
        };
        self.kind == other.kind && self.url == other.url && fresh_eq
    }
}

impl FetcherModel {
    /// A successful result is always a list of the current key's kind.
    pub open spec fn wf(&self) -> bool {
        self.result matches FetchResult::Success(list) ==> (self.current matches Some(k) && list_kind(list) == k.0)
    }
}

impl Fetcher {
    /// A fetcher that has seen no key yet.
    pub fn new() -> (r: Fetcher)
        ensures
            r@.wf(),
            r@.current is None,
            r@.result is Pending,
    {
        Fetcher { current: None, result: FetchResult::Pending }
    }

    /// Observes the key of the current render. Returns the key to fetch where
    /// it differs from the last one observed, and then forgets the old outcome.
    pub fn observe(&mut self, key: FetchKey) -> (r: Option<FetchKey>)
        ensures
            old(self)@.wf() ==> final(self)@.wf(),
            final(self)@ == observe_next(old(self)@, key@).0,
            observe_next(old(self)@, key@).1 ==> (r matches Some(k) && k@ == key@),
            !observe_next(old(self)@, key@).1 ==> r is None,
    {
        let unchanged = match &self.current {
            Some(c) => c.same(&key),
            None => false,
        };
        if unchanged {
            None
        } else {
            let issued = key.duplicate();
            self.current = Some(key);
            self.result = FetchResult::Pending;
            Some(issued)
        }
    }

    /// A response arrives for `key`. It is kept only if `key` is the current key
    /// and no outcome is held yet; a stale response is dropped. Returns whether
    /// it was kept.
    pub fn deliver(&mut self, key: &FetchKey, outcome: Result<DetailList, FetchError>) -> (r: bool)
        ensures
            old(self)@.wf() ==> final(self)@.wf(),
            final(self)@ == deliver_next(old(self)@, key@, outcome),
            r == (old(self)@.current == Some(key@) && old(self)@.result is Pending),
    {
        let is_current = match &self.current {
            Some(c) => c.same(key),
            None => false,
        };
        let pending = match &self.result {
            FetchResult::Pending => true,
            _ => false,
        };
        if is_current && pending {
            self.result = match outcome {
                Ok(list) => if list.kind() == key.kind {
                    FetchResult::Success(list)
                } else {
                    FetchResult::Failure(FetchError::Decode)
                },
                Err(e) => FetchResult::Failure(e),
            };
            true
        } else {
            false
        }
    }
}

/// What a view shows for its fetch.
#[derive(Clone, Debug)]
pub enum Presentation {
    Loading(String),
    Failed(String),
    Table(Rows),
}

/// What a view shows: the waiting text while pending, the fixed failure text
/// and no rows on failure, and the rows of the records on success.
pub fn present(result: &FetchResult, vis: Visibility) -> (r: Presentation)
    ensures
        match *result {
            FetchResult::Pending => r matches Presentation::Loading(s) && s@ == LOADING_MESSAGE@,
            FetchResult::Failure(_) => r matches Presentation::Failed(s) && s@ == FAILURE_MESSAGE@,
            FetchResult::Success(list) => r matches Presentation::Table(rows) && rows_match(rows, list, vis),
        },
{
    match result {
        FetchResult::Pending => Presentation::Loading(String::from_str(LOADING_MESSAGE)),
        FetchResult::Failure(_) => Presentation::Failed(String::from_str(FAILURE_MESSAGE)),
        FetchResult::Success(list) => Presentation::Table(render(list, vis)),
    }
}

impl Page {
    /// The fetch key of the page in its mode under the given freshness, with
    /// the columns of its table.
    pub fn fetch_key(&self, origin: &Origin, freshness: Option<i64>) -> (r: Result<(FetchKey, Visibility), ScopeError>)
        ensures
            match request_url(origin.base@, self.scope@, self.mode) {
                Some(u) => r matches Ok((k, vis)) && k@ == (self.mode, u, freshness)
                    && vis == visibility_of(self.scope@),
                None => r == Err::<(FetchKey, Visibility), ScopeError>(ScopeError::UrlConstruction),
            },
    {
        match self.request(origin) {
            Ok(req) => Ok((FetchKey { kind: self.mode, url: req.url, freshness }, req.visibility)),
            Err(e) => Err(e),
        }
    }
}

/// Race safety: after keys `k1` then `k2` (different) are observed, the
/// outcome shown is that of `k2`, whichever response comes last; before
/// `k2`'s response arrives, `k1`'s leaves the view pending.
pub proof fn lemma_latest_key_wins(
    m: FetcherModel,
    k1: KeyView,
    k2: KeyView,
    o1: Result<DetailList, FetchError>,
    o2: Result<DetailList, FetchError>,
)
    requires
        k1 != k2,
    ensures
        ({
            let s = observe_next(observe_next(m, k1).0, k2).0;
            &&& deliver_next(deliver_next(s, k2, o2), k1, o1).result == outcome_result(k2.0, o2)
            &&& deliver_next(deliver_next(s, k1, o1), k2, o2).result == outcome_result(k2.0, o2)
            &&& deliver_next(s, k1, o1).result is Pending
            &&& observe_next(observe_next(m, k1).0, k2).1
        }),
{
}

/// A change of the freshness alone makes a new key, which issues one fetch:
/// observing that key again issues none.
pub proof fn lemma_freshness_refetch(
    m: FetcherModel,
    kind: DetailKind,
    url: Seq<char>,
    t1: Option<i64>,
    t2: Option<i64>,
)
    requires
        t1 != t2,
        m.current == Some((kind, url, t1)),
    ensures
        (kind, url, t1) != (kind, url, t2),
        observe_next(m, (kind, url, t2)).1,
        observe_next(m, (kind, url, t2)).0.result is Pending,
        !observe_next(observe_next(m, (kind, url, t2)).0, (kind, url, t2)).1,
{
}

} // verus!
