use vstd::prelude::*;
use vstd::string::StringExecFns;

verus! {

/// The kind of record being browsed.
#[derive(Clone, Copy, Debug, PartialEq, Eq, Structural)]
pub enum DetailKind {
    Titles,
    Thumbnails,
}

/// The filter applied to the browsed records.
#[derive(Clone, Debug)]
pub enum RouteScope {
    Global,
    ByVideo(String),
    ByUser(String),
}

/// What a `RouteScope` holds, with its identifiers as character sequences.
pub enum ScopeView {
    Global,
    ByVideo(Seq<char>),
    ByUser(Seq<char>),
}

impl View for RouteScope {
    type V = ScopeView;

    open spec fn view(&self) -> ScopeView {
        match self {
            RouteScope::Global => ScopeView::Global,
            RouteScope::ByVideo(id) => ScopeView::ByVideo(id@),
            RouteScope::ByUser(id) => ScopeView::ByUser(id@),
        }
    }
}

/// Which identifier columns a table leaves out.
#[derive(Clone, Copy, Debug, PartialEq, Eq, Structural)]
pub struct Visibility {
    pub hide_video_id: bool,
    pub hide_user_id: bool,
}

/// The pages the router can show.
#[derive(Clone, Debug)]
pub enum Route {
    Home,
    Video { id: String },
    User { id: String },
    NotFound,
}

/// The search boxes of the page header.
#[derive(Clone, Copy, Debug, PartialEq, Eq, Structural)]
pub enum SearchField {
    Uuid,
    VideoId,
    UserId,
}

/// The values read once at startup from the page's own location.
#[derive(Clone, Debug)]
pub struct Origin {
    /// The API origin, such as `https://example.org`.
    pub base: String,
    /// The address of the site's icon, if the page declares one.
    pub logo_url: Option<String>,
}

/// A request address and the columns that go with it.
#[derive(Clone, Debug)]
pub struct ResolvedRequest {
    pub url: String,
    pub visibility: Visibility,
}

/// The one way resolving a scope can fail: the address cannot be built.
#[derive(Clone, Copy, Debug, PartialEq, Eq, Structural)]
pub enum ScopeError {
    UrlConstruction,
}

/// The page state: its scope, fixed while the page is shown, and the mode toggle.
#[derive(Clone, Debug)]
pub struct Page {
    pub scope: RouteScope,
    pub mode: DetailKind,
}

pub open spec fn kind_root(kind: DetailKind) -> Seq<char> {
    match kind {
        DetailKind::Titles => "/api/titles"@,
        DetailKind::Thumbnails => "/api/thumbnails"@,
    }
}

/// The path of the records of `kind` within `scope`: one of six templates.
pub open spec fn api_path(scope: ScopeView, kind: DetailKind) -> Seq<char> {
    match scope {
        ScopeView::Global => kind_root(kind),
        ScopeView::ByVideo(id) => kind_root(kind) + "/video_id/"@ + id,
        ScopeView::ByUser(id) => kind_root(kind) + "/user_id/"@ + id,
    }
}

pub open spec fn visibility_of(scope: ScopeView) -> Visibility {
    Visibility {
        hide_video_id: scope is ByVideo,
        hide_user_id: scope is ByUser,
    }
}

/// The address that resolving `path` against the origin `base` gives, if any.
pub uninterp spec fn joined_url(base: Seq<char>, path: Seq<char>) -> Option<Seq<char>>;

pub open spec fn seq_option(r: Option<String>) -> Option<Seq<char>> {
    match r {
        Some(s) => Some(s@),
        None => None,
    }
}

/// The address of the records of `kind` within `scope`, if it can be built.
pub open spec fn request_url(base: Seq<char>, scope: ScopeView, kind: DetailKind) -> Option<Seq<char>> {
    joined_url(base, api_path(scope, kind))
}

/// Relies on `url::Url::parse` (as `reqwest::Url`) to read the origin and on
/// `Url::join` to resolve the path against it; the result is the serialized URL.
/// The outcome depends on the two texts alone.
#[verifier::external_body]
fn join_url(base: &str, path: &str) -> (r: Option<String>)
    ensures
        seq_option(r) == joined_url(base@, path@),
{
    reqwest::Url::parse(base).and_then(|u| u.join(path)).ok().map(String::from)
}

/// The address of the server status, polled for freshness.
pub fn status_url(origin: &Origin) -> (r: Option<String>)
    ensures
        seq_option(r) == joined_url(origin.base@, "/api/status"@),
{
    join_url(origin.base.as_str(), "/api/status")
}

/// The path of the records of `kind` within `scope`.
pub fn api_path_of(scope: &RouteScope, kind: DetailKind) -> (r: String)
    ensures
        r@ == api_path(scope@, kind),
{
    let root = match kind {
        DetailKind::Titles => String::from_str("/api/titles"),
        DetailKind::Thumbnails => String::from_str("/api/thumbnails"),
    };
    match scope {
        RouteScope::Global => root,
        RouteScope::ByVideo(id) => root.concat("/video_id/").concat(id.as_str()),
        RouteScope::ByUser(id) => root.concat("/user_id/").concat(id.as_str()),
    }
}

/// The identifier columns shown for `scope`: a column is hidden where the
/// scope already fixes it.
pub fn visibility(scope: &RouteScope) -> (r: Visibility)
    ensures
        r == visibility_of(scope@),
{
    match scope {
        RouteScope::Global => Visibility { hide_video_id: false, hide_user_id: false },
        RouteScope::ByVideo(_) => Visibility { hide_video_id: true, hide_user_id: false },
        RouteScope::ByUser(_) => Visibility { hide_video_id: false, hide_user_id: true },
    }
}

/// Builds the resolved request from the outcome of joining the path to the
/// origin.
pub fn resolved_from(joined: Option<String>, scope: &RouteScope) -> (r: Result<ResolvedRequest, ScopeError>)
    ensures
        match joined {
            Some(u) => r matches Ok(req) && req.url@ == u@ && req.visibility == visibility_of(scope@),
            None => r == Err::<ResolvedRequest, ScopeError>(ScopeError::UrlConstruction),
        },
{
    match joined {
        Some(url) => Ok(ResolvedRequest { url, visibility: visibility(scope) }),
        None => Err(ScopeError::UrlConstruction),
    }
}

/// Resolves a scope and a kind to the request address and the column
/// visibility of its table.
pub fn resolve(origin: &Origin, scope: &RouteScope, kind: DetailKind) -> (r: Result<ResolvedRequest, ScopeError>)
    ensures
        match request_url(origin.base@, scope@, kind) {
            Some(u) => r matches Ok(req) && req.url@ == u && req.visibility == visibility_of(scope@),
            None => r == Err::<ResolvedRequest, ScopeError>(ScopeError::UrlConstruction),
        },
{
    let path = api_path_of(scope, kind);
    let joined = join_url(origin.base.as_str(), path.as_str());
    resolved_from(joined, scope)
}

/// Resolving the same scope and kind against the same origin always gives the
/// same address and the same columns.
pub proof fn lemma_resolve_idempotent(
    base1: Seq<char>,
    base2: Seq<char>,
    scope1: ScopeView,
    scope2: ScopeView,
    kind1: DetailKind,
    kind2: DetailKind,
)
    requires
        base1 == base2,
        scope1 == scope2,
        kind1 == kind2,
    ensures
        request_url(base1, scope1, kind1) == request_url(base2, scope2, kind2),
        api_path(scope1, kind1) == api_path(scope2, kind2),
        visibility_of(scope1) == visibility_of(scope2),
{
}

impl Route {
    /// The scope a route browses; the not-found page browses nothing.
    pub fn scope(&self) -> (r: Option<RouteScope>)
        ensures
            match self {
                Route::Home => r matches Some(s) && s@ == ScopeView::Global,
                Route::Video { id } => r matches Some(s) && s@ == ScopeView::ByVideo(id@),
                Route::User { id } => r matches Some(s) && s@ == ScopeView::ByUser(id@),
                Route::NotFound => r is None,
            },
    {
        match self {
            Route::Home => Some(RouteScope::Global),
            Route::Video { id } => Some(RouteScope::ByVideo(id.clone())),
            Route::User { id } => Some(RouteScope::ByUser(id.clone())),
            Route::NotFound => None,
        }
    }

    /// The route's variant name, used to tag the page content.
    pub fn name(&self) -> (r: &'static str)
        ensures
            r@ == match self {
                Route::Home => "Home"@,
                Route::Video { .. } => "Video"@,
                Route::User { .. } => "User"@,
                Route::NotFound => "NotFound"@,
            },
    {
        match self {
            Route::Home => "Home",
            Route::Video { .. } => "Video",
            Route::User { .. } => "User",
            Route::NotFound => "NotFound",
        }
    }
}

impl RouteScope {
    /// The route that shows this scope.
    pub fn route(&self) -> (r: Route)
        ensures
            r.scope_view() == Some(self@),
    {
        match self {
            RouteScope::Global => Route::Home,
            RouteScope::ByVideo(id) => Route::Video { id: id.clone() },
            RouteScope::ByUser(id) => Route::User { id: id.clone() },
        }
    }
}

impl Route {
    pub open spec fn scope_view(&self) -> Option<ScopeView> {
        match self {
            Route::Home => Some(ScopeView::Global),
            Route::Video { id } => Some(ScopeView::ByVideo(id@)),
            Route::User { id } => Some(ScopeView::ByUser(id@)),
            Route::NotFound => None,
        }
    }
}

/// Where a search from the header leads: a video or a user page, or the
/// not-found page for a submission identifier, which has no page yet.
pub fn search_route(field: SearchField, input: String) -> (r: Route)
    ensures
        r.scope_view() == match field {
            SearchField::Uuid => None,
            SearchField::VideoId => Some(ScopeView::ByVideo(input@)),
            SearchField::UserId => Some(ScopeView::ByUser(input@)),
        },
{
    match field {
        SearchField::Uuid => Route::NotFound,
        SearchField::VideoId => Route::Video { id: input },
        SearchField::UserId => Route::User { id: input },
    }
}

impl Page {
    /// A page for `scope`, browsing titles first.
    pub fn new(scope: RouteScope) -> (r: Page)
        ensures
            r.scope@ == scope@,
            r.mode == DetailKind::Titles,
    {
        Page { scope, mode: DetailKind::Titles }
    }

    /// The mode toggle: switches the kind of records browsed.
    pub fn set_mode(&mut self, mode: DetailKind)
        ensures
            final(self).mode == mode,
            final(self).scope@ == old(self).scope@,
    {
        self.mode = mode;
    }

    /// The request of the page in its current mode.
    pub fn request(&self, origin: &Origin) -> (r: Result<ResolvedRequest, ScopeError>)
        ensures
            match request_url(origin.base@, self.scope@, self.mode) {
                Some(u) => r matches Ok(req) && req.url@ == u && req.visibility == visibility_of(self.scope@),
                None => r == Err::<ResolvedRequest, ScopeError>(ScopeError::UrlConstruction),
            },
    {
        resolve(origin, &self.scope, self.mode)
    }
}

} // verus!
