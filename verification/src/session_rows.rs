//! The rows of the sessions screen that are visible, and a selection that
//! stays on its session when rows change.

use vstd::prelude::*;

use crate::app::{filter_query, App, AppView};
use crate::base::{duplicate_opt, lists, opt_view, reads, same_text, views, Duplicate};
use crate::chars::{lowercase, occurs_in, text_contains, text_lowercase};
use crate::sessions::{
    absolute, absolute_index, identity_key, key_text, recency, session_key, SessionMessageView,
    SessionMeta, SessionMetaView, SessionsPane, SessionsState, SessionsView,
};

verus! {

/// Rows of a first paint from the cache, at most. Such rows may come in any
/// order.
pub const SCAN_CACHE_FIRST_PAINT_LIMIT: usize = 101;

// Visible rows.

pub open spec fn holds_text(text: Option<Seq<char>>, query: Seq<char>) -> bool {
    match text {
        Some(text) => occurs_in(text_lowercase(text), query),
        None => false,
    }
}

/// Whether one of the messages says something.
pub open spec fn is_said(messages: Seq<SessionMessageView>, query: Seq<char>) -> bool {
    exists|i: int|
        0 <= i < messages.len() && occurs_in(
            text_lowercase((#[trigger] messages[i]).content),
            query,
        )
}

/// Whether a row answers a filter: by what it says, by what a search in the
/// sessions found, or by the messages that are loaded of it.
pub open spec fn answers(s: SessionsView, row: SessionMetaView, query: Seq<char>) -> bool {
    ||| holds_text(Some(row.session_id), query)
    ||| holds_text(row.title, query)
    ||| holds_text(row.summary, query)
    ||| holds_text(row.project_dir, query)
    ||| s.deep_search_query == Some(query) && s.deep_search_results.contains(row.key())
    ||| s.detail_key == Some(row.key()) && s.messages_loaded && is_said(s.messages, query)
}

/// The name of the scope that is looked at.
pub open spec fn scope_name(app: AppView) -> Seq<char> {
    if app.sessions.show_all_providers {
        "all"@
    } else {
        app.names.of(app.app_type)
    }
}

/// Whether the rows belong to the scope that is looked at.
pub open spec fn in_view(app: AppView) -> bool {
    match app.sessions.provider_id {
        Some(scope) => scope == scope_name(app),
        None => true,
    }
}

/// Whether a row is visible. A search that was made into a manifest is not
/// narrowed down further.
pub open spec fn row_visible(app: AppView, row: SessionMetaView) -> bool {
    &&& in_view(app)
    &&& match filter_query(app.filter.text) {
        None => true,
        Some(query) => app.sessions.shows_query(Some(query)) || answers(
            app.sessions,
            row,
            query,
        ),
    }
}

/// The places of the visible rows among the first `n`, in order.
pub open spec fn visible_among(app: AppView, n: int) -> Seq<usize>
    decreases n,
{
    if n <= 0 {
        Seq::empty()
    } else {
        let rest = visible_among(app, n - 1);
        if row_visible(app, app.sessions.rows[n - 1]) {
            rest.push((n - 1) as usize)
        } else {
            rest
        }
    }
}

/// The places of the visible rows, in order.
pub open spec fn visible(app: AppView) -> Seq<usize> {
    visible_among(app, app.sessions.rows.len() as int)
}

/// Places in a list of this length, in order.
pub open spec fn ascending_below(places: Seq<usize>, len: nat) -> bool {
    &&& forall|p: int| 0 <= p < places.len() ==> #[trigger] places[p] < len
    &&& forall|p: int, q: int|
        0 <= p < q < places.len() ==> #[trigger] places[p] < #[trigger] places[q]
}

proof fn lemma_visible(app: AppView, n: int)
    requires
        0 <= n <= app.sessions.rows.len(),
        app.sessions.rows.len() <= usize::MAX,
    ensures
        ascending_below(visible_among(app, n), n as nat),
    decreases n,
{
    if n > 0 {
        lemma_visible(app, n - 1);
    }
}

fn holds(text: &str, query: &str) -> (result: bool)
    ensures
        result == holds_text(Some(text@), query@),
{
    text_contains(lowercase(text).as_str(), query)
}

fn holds_opt(text: &Option<String>, query: &str) -> (result: bool)
    ensures
        result == holds_text(opt_view(*text), query@),
{
    match text {
        Some(text) => holds(text.as_str(), query),
        None => false,
    }
}

fn row_answers(s: &SessionsState, row: &SessionMeta, query: &String) -> (result: bool)
    ensures
        result == answers(s@, row@, query@),
{
    if holds(row.session_id.as_str(), query.as_str()) || holds_opt(&row.title, query.as_str())
        || holds_opt(&row.summary, query.as_str()) || holds_opt(&row.project_dir, query.as_str()) {
        return true;
    }
    let key = session_key(row);
    if reads(&s.deep_search_query, query) && lists(&s.deep_search_results, &key) {
        return true;
    }
    if !reads(&s.detail_key, &key) || !s.messages_loaded {
        return false;
    }
    let mut i: usize = 0;
    while i < s.messages.len()
        invariant
            i <= s.messages@.len(),
            s@.detail_key == Some(row@.key()),
            s.messages_loaded,
            forall|j: int|
                0 <= j < i ==> !occurs_in(
                    text_lowercase((#[trigger] s@.messages[j]).content),
                    query@,
                ),
        decreases s.messages@.len() - i,
    {
        assert(s@.messages[i as int] == s.messages@[i as int]@);
        if holds(s.messages[i].content.as_str(), query.as_str()) {
            assert(is_said(s@.messages, query@));
            return true;
        }
        i = i + 1;
    }
    false
}

/// The name of the scope that is looked at: an application, or all.
pub fn scope_of(app: &App) -> (scope: String)
    ensures
        scope@ == scope_name(app@),
{
    if app.sessions.show_all_providers {
        "all".to_owned()
    } else {
        app.names.of(&app.app_type).duplicate()
    }
}

/// The places of the visible rows, in order.
pub fn visible_session_rows(app: &App) -> (shown: Vec<usize>)
    ensures
        shown@ == visible(app@),
        ascending_below(shown@, app.sessions.rows@.len()),
{
    let in_scope = match &app.sessions.provider_id {
        Some(scope) => *scope == scope_of(app),
        None => true,
    };
    let query = app.filter.query_lower();
    let all = query.is_none() || app.sessions.materialized_query_is_current(&query);
    let mut shown: Vec<usize> = Vec::new();
    let mut i: usize = 0;
    while i < app.sessions.rows.len()
        invariant
            i <= app.sessions.rows@.len(),
            in_scope == in_view(app@),
            opt_view(query) == filter_query(app@.filter.text),
            all == (query is None || app@.sessions.shows_query(opt_view(query))),
            shown@ == visible_among(app@, i as int),
        decreases app.sessions.rows@.len() - i,
    {
        let row = &app.sessions.rows[i];
        assert(app@.sessions.rows[i as int] == row@);
        let row_shown = in_scope && (all || match &query {
            Some(query) => row_answers(&app.sessions, row, query),
            None => true,
        });
        if row_shown {
            shown.push(i);
        }
        i = i + 1;
    }
    proof {
        lemma_visible(app@, i as int);
    }
    shown
}

// Sessions told apart.

/// What tells a session apart, and when it was last used.
#[derive(Debug)]
pub struct SessionIdentity {
    pub provider_id: String,
    pub session_id: String,
    pub source_path: Option<String>,
    pub recency: i64,
}

#[verifier::ext_equal]
pub struct IdentityView {
    pub provider_id: Seq<char>,
    pub session_id: Seq<char>,
    pub source_path: Option<Seq<char>>,
    pub recency: i64,
}

impl View for SessionIdentity {
    type V = IdentityView;

    open spec fn view(&self) -> IdentityView {
        IdentityView {
            provider_id: self.provider_id@,
            session_id: self.session_id@,
            source_path: opt_view(self.source_path),
            recency: self.recency,
        }
    }
}

impl IdentityView {
    pub open spec fn of(row: SessionMetaView) -> IdentityView {
        IdentityView {
            provider_id: row.provider_id,
            session_id: row.session_id,
            source_path: row.source_path,
            recency: row.recency(),
        }
    }

    pub open spec fn is(self, row: SessionMetaView) -> bool {
        self.provider_id == row.provider_id && self.session_id == row.session_id
            && self.source_path == row.source_path
    }

    pub open spec fn key(self) -> Seq<char> {
        key_text(self.provider_id, self.session_id, self.source_path)
    }
}

impl SessionIdentity {
    pub fn capture(row: &SessionMeta) -> (identity: SessionIdentity)
        ensures
            identity@ == IdentityView::of(row@),
    {
        SessionIdentity {
            provider_id: row.provider_id.duplicate(),
            session_id: row.session_id.duplicate(),
            source_path: duplicate_opt(&row.source_path),
            recency: recency(row),
        }
    }

    pub fn matches(&self, row: &SessionMeta) -> (result: bool)
        ensures
            result == self@.is(row@),
    {
        self.provider_id == row.provider_id && self.session_id == row.session_id && same_text(
            &self.source_path,
            &row.source_path,
        )
    }

    pub fn key(&self) -> (key: String)
        ensures
            key@ == self@.key(),
    {
        identity_key(self.provider_id.as_str(), self.session_id.as_str(), &self.source_path)
    }
}

/// The session used last comes first.
pub open spec fn by_recency(rows: Seq<SessionMetaView>) -> bool {
    forall|i: int, j: int|
        0 <= i < j < rows.len() ==> (#[trigger] rows[i]).recency() >= (#[trigger] rows[j]).recency()
}

/// The row of a session whose time of use has not changed stands here first.
pub open spec fn stands_at(rows: Seq<SessionMetaView>, identity: IdentityView, at: int) -> bool {
    &&& 0 <= at < rows.len()
    &&& identity.is(rows[at]) && rows[at].recency() == identity.recency
    &&& forall|j: int|
        0 <= j < at ==> !(identity.is(#[trigger] rows[j]) && rows[j].recency()
            == identity.recency)
}

pub open spec fn stands(rows: Seq<SessionMetaView>, identity: IdentityView) -> bool {
    exists|at: int| stands_at(rows, identity, at)
}

/// The first of the visible rows that is the session's.
pub open spec fn first_shown(
    rows: Seq<SessionMetaView>,
    shown: Seq<usize>,
    identity: IdentityView,
    at: int,
) -> bool {
    &&& 0 <= at < shown.len()
    &&& identity.is(rows[shown[at] as int])
    &&& forall|j: int| 0 <= j < at ==> !identity.is(rows[#[trigger] shown[j] as int])
}

pub open spec fn is_shown(
    rows: Seq<SessionMetaView>,
    shown: Seq<usize>,
    identity: IdentityView,
) -> bool {
    exists|j: int| 0 <= j < shown.len() && identity.is(rows[#[trigger] shown[j] as int])
}

/// No two rows are the session's.
pub open spec fn listed_once(rows: Seq<SessionMetaView>, identity: IdentityView) -> bool {
    forall|i: int, j: int|
        0 <= i < rows.len() && 0 <= j < rows.len() && identity.is(#[trigger] rows[i])
            && identity.is(#[trigger] rows[j]) ==> i == j
}

/// Where a session is found among the visible rows.
///
/// What is found is the session. Rows that come by recency are searched for the
/// session at its time of use; where it is not there, a short list is searched
/// whole. A short list that holds the session once is searched so that it is
/// found in any order.
#[verifier::opaque]
pub open spec fn finds(
    rows: Seq<SessionMetaView>,
    shown: Seq<usize>,
    identity: IdentityView,
    result: Option<usize>,
) -> bool {
    &&& result matches Some(at) ==> at < shown.len() && identity.is(rows[shown[at as int] as int])
    &&& by_recency(rows) && stands(rows, identity) ==> match result {
        Some(at) => stands_at(rows, identity, shown[at as int] as int),
        None => forall|j: int| 0 <= j < shown.len() ==> !stands_at(rows, identity, #[trigger] shown[j] as int),
    }
    &&& by_recency(rows) && !stands(rows, identity) ==> match result {
        Some(at) => shown.len() <= SCAN_CACHE_FIRST_PAINT_LIMIT && first_shown(
            rows,
            shown,
            identity,
            at as int,
        ),
        None => shown.len() > SCAN_CACHE_FIRST_PAINT_LIMIT || !is_shown(rows, shown, identity),
    }
    &&& listed_once(rows, identity) && shown.len() <= SCAN_CACHE_FIRST_PAINT_LIMIT && is_shown(
        rows,
        shown,
        identity,
    ) ==> result is Some
}

/// The number of leading rows, from one on, that were used after a time, or at
/// it. Only of rows that come by recency does it say more than its bounds.
fn leading_rows(rows: &Vec<SessionMeta>, from: usize, time: i64, or_at: bool) -> (end: usize)
    requires
        from <= rows@.len(),
    ensures
        from <= end <= rows@.len(),
        by_recency(views(rows@)) ==> {
            &&& forall|i: int|
                from <= i < end ==> {
                    let at = (#[trigger] views(rows@)[i]).recency();
                    at > time || or_at && at == time
                }
            &&& forall|i: int|
                end <= i < rows@.len() ==> {
                    let at = (#[trigger] views(rows@)[i]).recency();
                    !(at > time || or_at && at == time)
                }
        },
{
    let ghost all = views(rows@);
    let mut low = from;
    let mut high = rows.len();
    while low < high
        invariant
            all == views(rows@),
            from <= low <= high <= rows@.len(),
            by_recency(all) ==> forall|i: int|
                from <= i < low ==> {
                    let at = (#[trigger] all[i]).recency();
                    at > time || or_at && at == time
                },
            by_recency(all) ==> forall|i: int|
                high <= i < rows@.len() ==> {
                    let at = (#[trigger] all[i]).recency();
                    !(at > time || or_at && at == time)
                },
        decreases high - low,
    {
        let middle = low + (high - low) / 2;
        let at = recency(&rows[middle]);
        assert(all[middle as int].recency() == at);
        if at > time || (or_at && at == time) {
            low = middle + 1;
        } else {
            high = middle;
        }
    }
    low
}

/// The place of a session among rows that come by recency. The search is
/// narrowed down to the rows of its time of use, so that it stays short in a
/// long list.
fn find_by_recency(rows: &Vec<SessionMeta>, identity: &SessionIdentity) -> (result: Option<usize>)
    ensures
        result matches Some(at) ==> at < rows@.len() && identity@.is(views(rows@)[at as int]),
        by_recency(views(rows@)) ==> match result {
            Some(at) => stands_at(views(rows@), identity@, at as int),
            None => !stands(views(rows@), identity@),
        },
{
    let ghost all = views(rows@);
    let start = leading_rows(rows, 0, identity.recency, false);
    let end = leading_rows(rows, start, identity.recency, true);
    let mut i = start;
    while i < end
        invariant
            all == views(rows@),
            start <= i <= end <= rows@.len(),
            by_recency(all) ==> forall|j: int|
                0 <= j < start ==> (#[trigger] all[j]).recency() > identity@.recency,
            by_recency(all) ==> forall|j: int|
                start <= j < end ==> (#[trigger] all[j]).recency() == identity@.recency,
            forall|j: int| start <= j < i ==> !identity@.is(#[trigger] all[j]),
        decreases end - i,
    {
        assert(all[i as int] == rows@[i as int]@);
        if identity.matches(&rows[i]) {
            assert(by_recency(all) ==> stands_at(all, identity@, i as int)) by {
                if by_recency(all) {
                    assert(all[i as int].recency() == identity@.recency);
                }
            }
            return Some(i);
        }
        i = i + 1;
    }
    assert(by_recency(all) ==> !stands(all, identity@)) by {
        if by_recency(all) && stands(all, identity@) {
            let at = choose|at: int| stands_at(all, identity@, at);
            assert(all[at].recency() == identity@.recency);
            assert(start <= at < end);
        }
    }
    None
}

/// The place of a number in an ascending list.
fn position_of(numbers: &Vec<usize>, number: usize) -> (result: Option<usize>)
    requires
        forall|p: int, q: int|
            0 <= p < q < numbers@.len() ==> #[trigger] numbers@[p] < #[trigger] numbers@[q],
    ensures
        match result {
            Some(at) => at < numbers@.len() && numbers@[at as int] == number,
            None => forall|p: int| 0 <= p < numbers@.len() ==> #[trigger] numbers@[p] != number,
        },
{
    let mut low: usize = 0;
    let mut high = numbers.len();
    while low < high
        invariant
            low <= high <= numbers@.len(),
            forall|p: int, q: int|
                0 <= p < q < numbers@.len() ==> #[trigger] numbers@[p] < #[trigger] numbers@[q],
            forall|p: int| 0 <= p < low ==> #[trigger] numbers@[p] < number,
            forall|p: int| high <= p < numbers@.len() ==> #[trigger] numbers@[p] > number,
        decreases high - low,
    {
        let middle = low + (high - low) / 2;
        if numbers[middle] == number {
            return Some(middle);
        } else if numbers[middle] < number {
            low = middle + 1;
        } else {
            high = middle;
        }
    }
    None
}

/// Finds a session among the visible rows.
pub fn find_session_identity(
    rows: &Vec<SessionMeta>,
    shown: &Vec<usize>,
    identity: &SessionIdentity,
) -> (result: Option<usize>)
    requires
        ascending_below(shown@, rows@.len()),
    ensures
        finds(views(rows@), shown@, identity@, result),
        result matches Some(at) ==> at < shown@.len(),
{
    reveal(finds);
    let ghost all = views(rows@);
    if let Some(row_index) = find_by_recency(rows, identity) {
        let result = position_of(shown, row_index);
        proof {
            if by_recency(all) {
                assert(stands_at(all, identity@, row_index as int));
                if result is None {
                    assert forall|j: int| 0 <= j < shown@.len() implies !stands_at(
                        all,
                        identity@,
                        #[trigger] shown@[j] as int,
                    ) by {
                        if stands_at(all, identity@, shown@[j] as int) {
                            assert(shown@[j] == row_index);
                        }
                    }
                }
            }
            if listed_once(all, identity@) && is_shown(all, shown@, identity@) {
                let j = choose|j: int|
                    0 <= j < shown@.len() && identity@.is(all[#[trigger] shown@[j] as int]);
                assert(all[shown@[j] as int] == all[row_index as int]);
                assert(shown@[j] == row_index);
            }
        }
        return result;
    }
    if shown.len() > SCAN_CACHE_FIRST_PAINT_LIMIT {
        return None;
    }
    let mut i: usize = 0;
    while i < shown.len()
        invariant
            i <= shown@.len(),
            shown@.len() <= SCAN_CACHE_FIRST_PAINT_LIMIT,
            all == views(rows@),
            by_recency(all) ==> !stands(all, identity@),
            forall|p: int| 0 <= p < shown@.len() ==> #[trigger] shown@[p] < rows@.len(),
            forall|j: int| 0 <= j < i ==> !identity@.is(all[#[trigger] shown@[j] as int]),
        decreases shown@.len() - i,
    {
        let row_index = shown[i];
        assert(all[row_index as int] == rows@[row_index as int]@);
        if identity.matches(&rows[row_index]) {
            reveal(finds);
            assert(first_shown(all, shown@, identity@, i as int));
            return Some(i);
        }
        i = i + 1;
    }
    None
}

// The selection.

/// What was selected before rows changed.
#[derive(Debug)]
pub struct SessionSelectionAnchor {
    pub identity: Option<SessionIdentity>,
    pub index: usize,
    pub had_detail: bool,
}

#[verifier::ext_equal]
pub struct AnchorView {
    pub identity: Option<IdentityView>,
    pub index: usize,
    pub had_detail: bool,
}

impl View for SessionSelectionAnchor {
    type V = AnchorView;

    open spec fn view(&self) -> AnchorView {
        AnchorView {
            identity: opt_view(self.identity),
            index: self.index,
            had_detail: self.had_detail,
        }
    }
}

/// What is selected.
pub open spec fn anchored(app: AppView) -> AnchorView {
    let s = app.sessions;
    AnchorView {
        identity: if s.selected_idx < visible(app).len() {
            Some(IdentityView::of(s.rows[visible(app)[s.selected_idx as int] as int]))
        } else {
            None
        },
        index: s.selected_idx,
        had_detail: s.detail_key is Some,
    }
}

/// A place in a list of this length: the one meant, or the last.
pub open spec fn clamped(index: usize, len: nat) -> usize {
    if len == 0 {
        0
    } else if index < len {
        index
    } else {
        (len - 1) as usize
    }
}

/// The place to select, where the session that was selected is found or not.
pub open spec fn place(
    identity: Option<IdentityView>,
    found: Option<usize>,
    index: usize,
    len: nat,
) -> usize {
    match (identity, found) {
        (Some(_), Some(at)) if len > 0 => at,
        _ => clamped(index, len),
    }
}

/// The session at the place to select.
pub open spec fn target(app: AppView, anchor: AnchorView, first: Option<usize>) -> Option<
    IdentityView,
> {
    let shown = visible(app);
    if shown.len() == 0 {
        None
    } else {
        let at = place(anchor.identity, first, anchor.index, shown.len());
        Some(IdentityView::of(app.sessions.rows[shown[at as int] as int]))
    }
}

pub open spec fn undetailed(app: AppView) -> AppView {
    AppView {
        sessions: SessionsView { pane: SessionsPane::List, ..app.sessions.without_detail() },
        ..app
    }
}

/// Whether another session is looked at than the one selected.
pub open spec fn detail_strays(app: AppView, anchor: AnchorView, first: Option<usize>) -> bool {
    let key = match target(app, anchor, first) {
        Some(identity) => Some(identity.key()),
        None => None,
    };
    app.sessions.detail_key is Some && app.sessions.detail_key != key
}

/// The selection is set to a place.
pub open spec fn selecting(s: SessionsView, index: usize) -> SessionsView {
    SessionsView {
        selected_idx: index,
        pagination: s.pagination.showing(s.total_rows(), absolute(s.page_index(), index)),
        ..s
    }
}

/// The selection once rows have changed. A session that is looked at without
/// being selected is looked at no more; since its messages count for the
/// filter, the selected one is then looked for again.
pub open spec fn restored(
    app: AppView,
    anchor: AnchorView,
    first: Option<usize>,
    second: Option<usize>,
) -> AppView {
    let index = place(anchor.identity, first, anchor.index, visible(app).len());
    if detail_strays(app, anchor, first) {
        let cleared = undetailed(app);
        let again = place(
            target(app, anchor, first),
            second,
            anchor.index,
            visible(cleared).len(),
        );
        AppView { sessions: selecting(cleared.sessions, again), ..cleared }
    } else if anchor.had_detail && app.sessions.detail_key is None {
        AppView {
            sessions: selecting(
                SessionsView { pane: SessionsPane::List, ..app.sessions },
                index,
            ),
            ..app
        }
    } else {
        AppView { sessions: selecting(app.sessions, index), ..app }
    }
}

pub open spec fn restores_by(
    before: AppView,
    anchor: AnchorView,
    first: Option<usize>,
    second: Option<usize>,
    after: AppView,
) -> bool {
    let rows = before.sessions.rows;
    &&& anchor.identity matches Some(identity) ==> finds(rows, visible(before), identity, first)
    &&& detail_strays(before, anchor, first) ==> (target(before, anchor, first) matches Some(
        identity,
    ) ==> finds(rows, visible(undetailed(before)), identity, second))
    &&& after == restored(before, anchor, first, second)
}

/// The selection stays on its session where that is found.
pub open spec fn restores(before: AppView, anchor: AnchorView, after: AppView) -> bool {
    exists|first: Option<usize>, second: Option<usize>|
        #[trigger] restores_by(before, anchor, first, second, after)
}

pub fn capture_session_selection(app: &App) -> (anchor: SessionSelectionAnchor)
    ensures
        anchor@ == anchored(app@),
{
    let shown = visible_session_rows(app);
    let identity = if app.sessions.selected_idx < shown.len() {
        let at = shown[app.sessions.selected_idx];
        assert(app@.sessions.rows[at as int] == app.sessions.rows@[at as int]@);
        Some(SessionIdentity::capture(&app.sessions.rows[at]))
    } else {
        None
    };
    SessionSelectionAnchor {
        identity,
        index: app.sessions.selected_idx,
        had_detail: app.sessions.detail_key.is_some(),
    }
}

/// Looks for a session among the visible rows.
fn find_visible(app: &App, shown: &Vec<usize>, identity: &Option<SessionIdentity>) -> (found:
    Option<usize>)
    requires
        ascending_below(shown@, app.sessions.rows@.len()),
    ensures
        match identity {
            Some(identity) => finds(app@.sessions.rows, shown@, identity@, found),
            None => found is None,
        },
        found matches Some(at) ==> at < shown@.len(),
{
    match identity {
        Some(identity) => find_session_identity(&app.sessions.rows, shown, identity),
        None => None,
    }
}

/// The place to select, where the session was found or not.
fn place_of(found: Option<usize>, index: usize, len: usize) -> (at: usize)
    ensures
        at == (match found {
            Some(at) if len > 0 => at,
            _ => clamped(index, len as nat),
        }),
{
    match found {
        Some(at) => if len > 0 {
            at
        } else {
            0
        },
        None => clamp_to(index, len),
    }
}

/// The session at the place to select.
fn target_of(app: &App, shown: &Vec<usize>, index: usize) -> (meant: Option<SessionIdentity>)
    requires
        ascending_below(shown@, app.sessions.rows@.len()),
        shown@.len() > 0 ==> index < shown@.len(),
    ensures
        opt_view(meant) == (if shown@.len() == 0 {
            None
        } else {
            Some(IdentityView::of(app@.sessions.rows[shown@[index as int] as int]))
        }),
{
    if shown.len() == 0 {
        None
    } else {
        let row = shown[index];
        assert(app@.sessions.rows[row as int] == app.sessions.rows@[row as int]@);
        Some(SessionIdentity::capture(&app.sessions.rows[row]))
    }
}

/// Sets the selection to a place.
fn select_place(sessions: &mut SessionsState, index: usize)
    ensures
        final(sessions)@ == selecting(old(sessions)@, index),
{
    sessions.selected_idx = index;
    let place = absolute_index(sessions.current_page(), index);
    let total_rows = sessions.logical_total_rows();
    sessions.pagination.show(total_rows, place);
}

fn clamp_to(index: usize, len: usize) -> (at: usize)
    ensures
        at == clamped(index, len as nat),
{
    if len == 0 {
        0
    } else if index < len {
        index
    } else {
        len - 1
    }
}

/// Looks at no session any more, and selects the one meant.
fn select_without_detail(app: &mut App, meant: &Option<SessionIdentity>, index: usize) -> (found:
    Option<usize>)
    ensures
        ({
            let cleared = undetailed(old(app)@);
            let again = place(opt_view(*meant), found, index, visible(cleared).len());
            &&& meant matches Some(identity) ==> finds(
                cleared.sessions.rows,
                visible(cleared),
                identity@,
                found,
            )
            &&& final(app)@ == (AppView {
                sessions: selecting(cleared.sessions, again),
                ..cleared
            })
        }),
{
    app.sessions.clear_detail();
    app.sessions.pane = SessionsPane::List;
    assert(app@ == undetailed(old(app)@));
    let shown = visible_session_rows(app);
    let found = find_visible(app, &shown, meant);
    let again = place_of(found, index, shown.len());
    select_place(&mut app.sessions, again);
    found
}

/// Selects a place; a detail that has gone leaves the list.
fn select_with_detail(app: &mut App, had_detail: bool, index: usize)
    ensures
        final(app)@ == (if had_detail && old(app)@.sessions.detail_key is None {
            AppView {
                sessions: selecting(
                    SessionsView { pane: SessionsPane::List, ..old(app)@.sessions },
                    index,
                ),
                ..old(app)@
            }
        } else {
            AppView { sessions: selecting(old(app)@.sessions, index), ..old(app)@ }
        }),
{
    if had_detail && app.sessions.detail_key.is_none() {
        app.sessions.pane = SessionsPane::List;
    }
    select_place(&mut app.sessions, index);
}

/// The session to select, its place, and whether another one is looked at.
fn selection_to_restore(app: &App, anchor: &SessionSelectionAnchor) -> (found: (
    Option<usize>,
    Option<SessionIdentity>,
    usize,
    bool,
))
    ensures
        anchor@.identity matches Some(identity) ==> finds(
            app@.sessions.rows,
            visible(app@),
            identity,
            found.0,
        ),
        opt_view(found.1) == target(app@, anchor@, found.0),
        found.2 == place(anchor@.identity, found.0, anchor@.index, visible(app@).len()),
        found.3 == detail_strays(app@, anchor@, found.0),
{
    let shown = visible_session_rows(app);
    let first = find_visible(app, &shown, &anchor.identity);
    let index = place_of(first, anchor.index, shown.len());
    let meant = target_of(app, &shown, index);
    let key = match &meant {
        Some(identity) => Some(identity.key()),
        None => None,
    };
    let strays = app.sessions.detail_key.is_some() && !same_text(&app.sessions.detail_key, &key);
    (first, meant, index, strays)
}

/// Brings the selection back to its session once rows have changed.
pub fn restore_session_selection(app: &mut App, anchor: SessionSelectionAnchor)
    ensures
        restores(old(app)@, anchor@, final(app)@),
{
    let (first, meant, index, strays) = selection_to_restore(app, &anchor);
    if strays {
        let second = select_without_detail(app, &meant, anchor.index);
        assert(restores_by(old(app)@, anchor@, first, second, app@));
    } else {
        select_with_detail(app, anchor.had_detail, index);
        assert(restores_by(old(app)@, anchor@, first, None, app@));
    }
}

/// Which rows are visible does not depend on what is selected.
proof fn lemma_selecting_keeps_visible(app: AppView, other: AppView, n: int)
    requires
        0 <= n <= app.sessions.rows.len(),
        other == (AppView {
            sessions: SessionsView {
                selected_idx: other.sessions.selected_idx,
                pagination: other.sessions.pagination,
                pane: other.sessions.pane,
                ..app.sessions
            },
            ..app
        }),
    ensures
        visible_among(other, n) == visible_among(app, n),
    decreases n,
{
    if n > 0 {
        lemma_selecting_keeps_visible(app, other, n - 1);
        assert(row_visible(other, other.sessions.rows[n - 1]) == row_visible(
            app,
            app.sessions.rows[n - 1],
        ));
    }
}

/// A session that is looked at is the one that is selected, whatever rows have
/// come and gone.
pub proof fn detail_belongs_to_selection(before: AppView, anchor: AnchorView, after: AppView)
    requires
        restores(before, anchor, after),
        before.sessions.rows.len() <= usize::MAX,
        after.sessions.detail_key is Some,
    ensures
        after.sessions.selected_idx < visible(after).len(),
        after.sessions.detail_key == Some(
            after.sessions.rows[visible(after)[after.sessions.selected_idx as int] as int].key(),
        ),
{
    reveal(finds);
    let (first, second) = choose|first: Option<usize>, second: Option<usize>| #[trigger]
        restores_by(before, anchor, first, second, after);
    lemma_selecting_keeps_visible(before, after, before.sessions.rows.len() as int);
}

/// A session is visible where it is looked for: in rows that come by recency it
/// was last used when it was known to be, or has no row of that time among few
/// rows; in few rows of any order it is listed once.
pub open spec fn within_sight(
    rows: Seq<SessionMetaView>,
    shown: Seq<usize>,
    identity: IdentityView,
) -> bool {
    let few = shown.len() <= SCAN_CACHE_FIRST_PAINT_LIMIT;
    ||| by_recency(rows) && exists|j: int|
        0 <= j < shown.len() && stands_at(rows, identity, #[trigger] shown[j] as int)
    ||| by_recency(rows) && few && !stands(rows, identity) && is_shown(rows, shown, identity)
    ||| few && listed_once(rows, identity) && is_shown(rows, shown, identity)
}

/// A selected session that is still visible stays selected, wherever it has
/// moved to, if it is the one looked at or none is.
pub proof fn selection_follows_its_session(before: AppView, anchor: AnchorView, after: AppView)
    requires
        restores(before, anchor, after),
        before.sessions.rows.len() <= usize::MAX,
        anchor.identity is Some,
        within_sight(before.sessions.rows, visible(before), anchor.identity->0),
        before.sessions.detail_key is None || before.sessions.detail_key == Some(
            anchor.identity->0.key(),
        ),
    ensures
        after.sessions.selected_idx < visible(after).len(),
        anchor.identity->0.is(
            after.sessions.rows[visible(after)[after.sessions.selected_idx as int] as int],
        ),
        after.sessions.detail_key == before.sessions.detail_key,
{
    reveal(finds);
    let (first, second) = choose|first: Option<usize>, second: Option<usize>| #[trigger]
        restores_by(before, anchor, first, second, after);
    let identity = anchor.identity->0;
    let at = first->0;
    assert(identity.is(before.sessions.rows[visible(before)[at as int] as int]));
    assert(target(before, anchor, first)->0.key() == identity.key());
    lemma_selecting_keeps_visible(before, after, before.sessions.rows.len() as int);
}

} // verus!
