use vstd::prelude::*;
use vstd::string::StringExecFns;
use crate::scope::{DetailKind, RouteScope, ScopeView, Visibility};

verus! {

/// A submitted alternate title.
#[derive(Clone, Debug)]
pub struct TitleRecord {
    pub uuid: String,
    pub video_id: String,
    pub user_id: String,
    pub title: String,
    /// Submission time, in milliseconds since the Unix epoch.
    pub time_submitted: i64,
    pub score: i64,
    pub votes: i64,
    pub unverified: bool,
    pub locked: bool,
    pub shadow_hidden: bool,
    /// Whether this is the video's original title.
    pub original: bool,
}

/// A submitted thumbnail.
#[derive(Clone, Debug)]
pub struct ThumbnailRecord {
    pub uuid: String,
    pub video_id: String,
    pub user_id: String,
    /// Submission time, in milliseconds since the Unix epoch.
    pub time_submitted: i64,
    /// The position in the video, in seconds, as its decimal text; absent
    /// where the video's own thumbnail is meant.
    pub timestamp: Option<String>,
    pub votes: i64,
    pub locked: bool,
    pub shadow_hidden: bool,
    /// Whether this is the video's original thumbnail.
    pub original: bool,
}

/// One result set: records of a single kind, in the server's order.
#[derive(Clone, Debug)]
pub enum DetailList {
    Titles(Vec<TitleRecord>),
    Thumbnails(Vec<ThumbnailRecord>),
}

pub open spec fn list_kind(l: DetailList) -> DetailKind {
    match l {
        DetailList::Titles(_) => DetailKind::Titles,
        DetailList::Thumbnails(_) => DetailKind::Thumbnails,
    }
}

impl DetailList {
    /// The kind of the records held.
    pub fn kind(&self) -> (r: DetailKind)
        ensures
            r == list_kind(*self),
    {
        match self {
            DetailList::Titles(_) => DetailKind::Titles,
            DetailList::Thumbnails(_) => DetailKind::Thumbnails,
        }
    }
}

/// An annotation appended to a displayed value.
#[derive(Clone, Copy, Debug, PartialEq, Eq, Structural)]
pub enum Badge {
    /// The score is too low for the entry to be displayed.
    TooLow,
    /// The submitter is not verified.
    Unverified,
    /// A moderator locked the entry.
    Locked,
    /// The entry is shadow-hidden.
    ShadowHidden,
    /// The entry is the video's original.
    Original,
}

/// A value with the badges shown after it.
#[derive(Clone, Debug)]
pub struct Cell {
    pub text: String,
    pub badges: Vec<Badge>,
}

/// An identifier with a link to the page of its scope.
#[derive(Clone, Debug)]
pub struct Link {
    pub text: String,
    pub target: RouteScope,
}

/// What the timestamp column of a thumbnail shows.
#[derive(Clone, Debug)]
pub enum Indicator {
    Timestamp(String),
    Original,
    Blank,
}

#[derive(Clone, Debug)]
pub struct TitleRow {
    pub submitted: String,
    pub video: Option<Link>,
    pub title: Cell,
    pub score: Cell,
    pub votes: String,
    pub uuid: String,
    pub user: Option<Link>,
}

#[derive(Clone, Debug)]
pub struct ThumbnailRow {
    pub submitted: String,
    pub video: Option<Link>,
    pub indicator: Indicator,
    pub score: Cell,
    pub uuid: String,
    pub user: Option<Link>,
}

/// The rows of one table.
#[derive(Clone, Debug)]
pub enum Rows {
    Titles(Vec<TitleRow>),
    Thumbnails(Vec<ThumbnailRow>),
}

pub open spec fn digit_char(d: nat) -> char {
    if d == 0 { '0' } else if d == 1 { '1' } else if d == 2 { '2' } else if d == 3 { '3' }
    else if d == 4 { '4' } else if d == 5 { '5' } else if d == 6 { '6' } else if d == 7 { '7' }
    else if d == 8 { '8' } else { '9' }
}

pub open spec fn natural_text(n: nat) -> Seq<char>
    decreases n,
{
    if n < 10 {
        seq![digit_char(n)]
    } else {
        natural_text(n / 10).push(digit_char(n % 10))
    }
}

/// The decimal text of an integer, with a leading minus sign when negative.
pub open spec fn decimal_text(n: int) -> Seq<char> {
    if n < 0 {
        seq!['-'] + natural_text((-n) as nat)
    } else {
        natural_text(n as nat)
    }
}

/// The date and time, as `YYYY-MM-DD HH:MM:SS` in UTC, of a millisecond epoch
/// value, or none where the value is out of the calendar's range.
pub uninterp spec fn calendar_text(millis: int) -> Option<Seq<char>>;

fn digit_str(d: u64) -> (r: &'static str)
    requires
        d < 10,
    ensures
        r@ == seq![digit_char(d as nat)],
{
    if d == 0 { proof { reveal_strlit("0"); } "0" }
    else if d == 1 { proof { reveal_strlit("1"); } "1" }
    else if d == 2 { proof { reveal_strlit("2"); } "2" }
    else if d == 3 { proof { reveal_strlit("3"); } "3" }
    else if d == 4 { proof { reveal_strlit("4"); } "4" }
    else if d == 5 { proof { reveal_strlit("5"); } "5" }
    else if d == 6 { proof { reveal_strlit("6"); } "6" }
    else if d == 7 { proof { reveal_strlit("7"); } "7" }
    else if d == 8 { proof { reveal_strlit("8"); } "8" }
    else { proof { reveal_strlit("9"); } "9" }
}

/// The decimal digits of `n`.
pub fn natural_string(n: u64) -> (r: String)
    ensures
        r@ == natural_text(n as nat),
    decreases n,
{
    if n < 10 {
        String::from_str(digit_str(n))
    } else {
        let head = natural_string(n / 10);
        head.concat(digit_str(n % 10))
    }
}

/// The decimal text of `n`, with a minus sign when negative.
pub fn int_text(n: i64) -> (r: String)
    ensures
        r@ == decimal_text(n as int),
{
    if n < 0 {
        let magnitude: u64 = (0i128 - n as i128) as u64;
        proof { reveal_strlit("-"); }
        String::from_str("-").concat(natural_string(magnitude).as_str())
    } else {
        natural_string(n as u64)
    }
}

/// Relies on `chrono::DateTime::from_timestamp_millis` and its `format` with
/// `%Y-%m-%d %H:%M:%S`; the first gives none out of range.
#[verifier::external_body]
pub(crate) fn calendar(millis: i64) -> (r: Option<String>)
    ensures
        match r {
            Some(s) => calendar_text(millis as int) == Some(s@),
            None => calendar_text(millis as int) is None,
        },
{
    chrono::DateTime::from_timestamp_millis(millis).map(|dt| dt.format("%Y-%m-%d %H:%M:%S").to_string())
}

/// The text of the submission time: the calendar text, or the raw number
/// where there is none.
pub open spec fn submitted_text(millis: int, calendar: Option<Seq<char>>) -> Seq<char> {
    match calendar {
        Some(s) => s,
        None => decimal_text(millis),
    }
}

/// Picks the submission-time text from the calendar text of `millis`, if there
/// is one.
pub fn submitted_from(millis: i64, calendar: Option<String>) -> (r: String)
    ensures
        r@ == submitted_text(millis as int, match calendar { Some(s) => Some(s@), None => None }),
{
    match calendar {
        Some(s) => s,
        None => int_text(millis),
    }
}

/// The submission-time text of `millis`.
pub fn format_submitted(millis: i64) -> (r: String)
    ensures
        r@ == submitted_text(millis as int, calendar_text(millis as int)),
{
    let c = calendar(millis);
    submitted_from(millis, c)
}

pub open spec fn flag_badge(on: bool, b: Badge) -> Seq<Badge> {
    if on { seq![b] } else { Seq::empty() }
}

/// The badges of a title's score, in display order.
pub open spec fn title_score_badges(t: TitleRecord) -> Seq<Badge> {
    flag_badge(t.score < 0, Badge::TooLow) + flag_badge(t.unverified, Badge::Unverified)
        + flag_badge(t.locked, Badge::Locked) + flag_badge(t.shadow_hidden, Badge::ShadowHidden)
}

/// The badges of a thumbnail's vote count, in display order.
pub open spec fn thumbnail_score_badges(t: ThumbnailRecord) -> Seq<Badge> {
    flag_badge(t.votes < 0, Badge::TooLow) + flag_badge(t.locked, Badge::Locked)
        + flag_badge(t.shadow_hidden, Badge::ShadowHidden)
}

fn push_if(v: &mut Vec<Badge>, on: bool, b: Badge)
    ensures
        final(v)@ == old(v)@ + flag_badge(on, b),
{
    if on {
        v.push(b);
    }
    assert(final(v)@ =~= old(v)@ + flag_badge(on, b));
}

/// The score cell of a title: the score, then its badges.
pub fn title_score(t: &TitleRecord) -> (r: Cell)
    ensures
        r.text@ == decimal_text(t.score as int),
        r.badges@ == title_score_badges(*t),
{
    let mut badges: Vec<Badge> = Vec::new();
    push_if(&mut badges, t.score < 0, Badge::TooLow);
    push_if(&mut badges, t.unverified, Badge::Unverified);
    push_if(&mut badges, t.locked, Badge::Locked);
    push_if(&mut badges, t.shadow_hidden, Badge::ShadowHidden);
    assert(badges@ =~= title_score_badges(*t));
    Cell { text: int_text(t.score), badges }
}

/// The score cell of a thumbnail: the vote count, then its badges.
pub fn thumbnail_score(t: &ThumbnailRecord) -> (r: Cell)
    ensures
        r.text@ == decimal_text(t.votes as int),
        r.badges@ == thumbnail_score_badges(*t),
{
    let mut badges: Vec<Badge> = Vec::new();
    push_if(&mut badges, t.votes < 0, Badge::TooLow);
    push_if(&mut badges, t.locked, Badge::Locked);
    push_if(&mut badges, t.shadow_hidden, Badge::ShadowHidden);
    assert(badges@ =~= thumbnail_score_badges(*t));
    Cell { text: int_text(t.votes), badges }
}

/// The timestamp column of a thumbnail: the timestamp where present, even a
/// zero one; else the original badge for an original thumbnail; else nothing.
pub fn thumbnail_indicator(t: &ThumbnailRecord) -> (r: Indicator)
    ensures
        match t.timestamp {
            Some(ts) => r matches Indicator::Timestamp(s) && s@ == ts@,
            None => if t.original { r is Original } else { r is Blank },
        },
{
    match &t.timestamp {
        Some(ts) => Indicator::Timestamp(ts.clone()),
        None => if t.original { Indicator::Original } else { Indicator::Blank },
    }
}

/// A link cell is absent where its column is hidden, else it shows `id` and
/// leads to `target`.
pub open spec fn link_matches(l: Option<Link>, hidden: bool, id: Seq<char>, target: ScopeView) -> bool {
    if hidden {
        l is None
    } else {
        l matches Some(k) && k.text@ == id && k.target@ == target
    }
}

fn video_link(id: &String, hidden: bool) -> (r: Option<Link>)
    ensures
        link_matches(r, hidden, id@, ScopeView::ByVideo(id@)),
{
    if hidden {
        None
    } else {
        Some(Link { text: id.clone(), target: RouteScope::ByVideo(id.clone()) })
    }
}

fn user_link(id: &String, hidden: bool) -> (r: Option<Link>)
    ensures
        link_matches(r, hidden, id@, ScopeView::ByUser(id@)),
{
    if hidden {
        None
    } else {
        Some(Link { text: id.clone(), target: RouteScope::ByUser(id.clone()) })
    }
}

/// The row of a title under the given column visibility.
pub open spec fn title_row_matches(r: TitleRow, t: TitleRecord, vis: Visibility) -> bool {
    &&& r.submitted@ == submitted_text(t.time_submitted as int, calendar_text(t.time_submitted as int))
    &&& link_matches(r.video, vis.hide_video_id, t.video_id@, ScopeView::ByVideo(t.video_id@))
    &&& r.title.text@ == t.title@
    &&& r.title.badges@ == flag_badge(t.original, Badge::Original)
    &&& r.score.text@ == decimal_text(t.score as int)
    &&& r.score.badges@ == title_score_badges(t)
    &&& r.votes@ == decimal_text(t.votes as int)
    &&& r.uuid@ == t.uuid@
    &&& link_matches(r.user, vis.hide_user_id, t.user_id@, ScopeView::ByUser(t.user_id@))
}

/// The row of a thumbnail under the given column visibility.
pub open spec fn thumbnail_row_matches(r: ThumbnailRow, t: ThumbnailRecord, vis: Visibility) -> bool {
    &&& r.submitted@ == submitted_text(t.time_submitted as int, calendar_text(t.time_submitted as int))
    &&& link_matches(r.video, vis.hide_video_id, t.video_id@, ScopeView::ByVideo(t.video_id@))
    &&& match t.timestamp {
        Some(ts) => r.indicator matches Indicator::Timestamp(s) && s@ == ts@,
        None => if t.original { r.indicator is Original } else { r.indicator is Blank },
    }
    &&& r.score.text@ == decimal_text(t.votes as int)
    &&& r.score.badges@ == thumbnail_score_badges(t)
    &&& r.uuid@ == t.uuid@
    &&& link_matches(r.user, vis.hide_user_id, t.user_id@, ScopeView::ByUser(t.user_id@))
}

/// The display row of one title.
pub fn title_row(t: &TitleRecord, vis: Visibility) -> (r: TitleRow)
    ensures
        title_row_matches(r, *t, vis),
{
    let mut title_badges: Vec<Badge> = Vec::new();
    push_if(&mut title_badges, t.original, Badge::Original);
    assert(title_badges@ =~= flag_badge(t.original, Badge::Original));
    TitleRow {
        submitted: format_submitted(t.time_submitted),
        video: video_link(&t.video_id, vis.hide_video_id),
        title: Cell { text: t.title.clone(), badges: title_badges },
        score: title_score(t),
        votes: int_text(t.votes),
        uuid: t.uuid.clone(),
        user: user_link(&t.user_id, vis.hide_user_id),
    }
}

/// The display row of one thumbnail.
pub fn thumbnail_row(t: &ThumbnailRecord, vis: Visibility) -> (r: ThumbnailRow)
    ensures
        thumbnail_row_matches(r, *t, vis),
{
    ThumbnailRow {
        submitted: format_submitted(t.time_submitted),
        video: video_link(&t.video_id, vis.hide_video_id),
        indicator: thumbnail_indicator(t),
        score: thumbnail_score(t),
        uuid: t.uuid.clone(),
        user: user_link(&t.user_id, vis.hide_user_id),
    }
}

/// The rows of a list of titles: one per record, in the input order.
pub fn title_rows(list: &Vec<TitleRecord>, vis: Visibility) -> (r: Vec<TitleRow>)
    ensures
        r@.len() == list@.len(),
        forall|i: int| 0 <= i < list@.len() ==> title_row_matches(#[trigger] r@[i], list@[i], vis),
{
    let mut rows: Vec<TitleRow> = Vec::new();
    let mut i: usize = 0;
    while i < list.len()
        invariant
            i <= list@.len(),
            rows@.len() == i,
            forall|j: int| 0 <= j < i ==> title_row_matches(#[trigger] rows@[j], list@[j], vis),
        decreases list@.len() - i,
    {
        rows.push(title_row(&list[i], vis));
        i = i + 1;
    }
    rows
}

/// The rows of a list of thumbnails: one per record, in the input order.
pub fn thumbnail_rows(list: &Vec<ThumbnailRecord>, vis: Visibility) -> (r: Vec<ThumbnailRow>)
    ensures
        r@.len() == list@.len(),
        forall|i: int| 0 <= i < list@.len() ==> thumbnail_row_matches(#[trigger] r@[i], list@[i], vis),
{
    let mut rows: Vec<ThumbnailRow> = Vec::new();
    let mut i: usize = 0;
    while i < list.len()
        invariant
            i <= list@.len(),
            rows@.len() == i,
            forall|j: int| 0 <= j < i ==> thumbnail_row_matches(#[trigger] rows@[j], list@[j], vis),
        decreases list@.len() - i,
    {
        rows.push(thumbnail_row(&list[i], vis));
        i = i + 1;
    }
    rows
}

/// The rows of a result set, of the same kind as the records.
pub open spec fn rows_match(r: Rows, list: DetailList, vis: Visibility) -> bool {
    match list {
        DetailList::Titles(ts) => r matches Rows::Titles(rs) && rs@.len() == ts@.len()
            && forall|i: int| 0 <= i < ts@.len() ==> title_row_matches(#[trigger] rs@[i], ts@[i], vis),
        DetailList::Thumbnails(ts) => r matches Rows::Thumbnails(rs) && rs@.len() == ts@.len()
            && forall|i: int| 0 <= i < ts@.len() ==> thumbnail_row_matches(#[trigger] rs@[i], ts@[i], vis),
    }
}

/// Renders a result set into table rows.
pub fn render(list: &DetailList, vis: Visibility) -> (r: Rows)
    ensures
        rows_match(r, *list, vis),
{
    match list {
        DetailList::Titles(ts) => Rows::Titles(title_rows(ts, vis)),
        DetailList::Thumbnails(ts) => Rows::Thumbnails(thumbnail_rows(ts, vis)),
    }
}

} // verus!
