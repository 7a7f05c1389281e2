//! What holds of the sessions screen, whatever the session worker reports and
//! in whatever order.

use vstd::prelude::*;

use crate::app::AppView;
use crate::base::views;
use crate::session_messages::{
    scan_published, session_received, wanted_search, ManifestPage, PublishedView, SessionMsg,
};
use crate::session_ops::{hidden, hides, is_current, without};
use crate::sessions::{
    BaseManifestView, ManifestReader, PageRequest, PageView, SessionMetaView, SessionPageToken,
    SessionsPane, SessionsView, PAGE_SIZE,
};

verus! {

/// A report that nothing waits for.
pub open spec fn is_stale(s: SessionsView, msg: SessionMsg) -> bool {
    match msg {
        SessionMsg::ScopeOpened { request_id, scope_epoch, .. } => s.scan_active != Some(request_id)
            || s.scope_epoch != scope_epoch,
        SessionMsg::ScanProvisional { request_id, .. } => s.scan_active != Some(request_id),
        SessionMsg::ManifestPublished { request_id, .. } => s.scan_active != Some(request_id),
        SessionMsg::PageLoaded { request_id, token, page, .. } => !s.awaits_page(
            request_id,
            token@,
            page,
        ),
        SessionMsg::ManifestLocated { request_id, scope_epoch, generation, .. } => !s.located(
            request_id,
            scope_epoch,
            generation@,
        ),
        SessionMsg::MessagesLoaded { request_id, key, .. } => !s.awaits_messages(request_id, key@),
        SessionMsg::DeleteFinished { request_id, .. } => !s.delete_active.contains(request_id),
        SessionMsg::ManifestsPurged { request_id, key, .. } => !is_current(
            s.purge_tombstones,
            request_id,
            key@,
        ),
        SessionMsg::QueryPublished { .. } => false,
    }
}

/// Reports that nothing waits for change nothing, be they results or failures.
/// A purge counts only once its deletion was acknowledged, and only while no
/// later deletion of the same session was.
pub proof fn stale_reports_change_nothing(before: AppView, msg: SessionMsg, after: AppView)
    requires
        session_received(before, msg, after),
        is_stale(before.sessions, msg),
    ensures
        after == before,
{
}

proof fn lemma_without_holds_none(rows: Seq<SessionMetaView>, gone: Set<Seq<char>>)
    ensures
        forall|i: int|
            0 <= i < without(rows, gone).len() ==> !gone.contains(
                (#[trigger] without(rows, gone)[i]).key(),
            ),
    decreases rows.len(),
{
    if rows.len() > 0 {
        lemma_without_holds_none(rows.drop_last(), gone);
        let rest = without(rows.drop_last(), gone);
        assert forall|i: int| 0 <= i < without(rows, gone).len() implies !gone.contains(
            (#[trigger] without(rows, gone)[i]).key(),
        ) by {
            if i < rest.len() {
                assert(without(rows, gone)[i] == rest[i]);
            }
        }
    }
}

/// A deleted session does not come back with any page, as long as manifests of
/// the scope may hold it.
pub proof fn deleted_sessions_stay_hidden(
    s: SessionsView,
    page: PageView,
    rows: Seq<SessionMetaView>,
    meant: usize,
    query: Option<Seq<char>>,
    key: Seq<char>,
)
    requires
        hides(s.purge_tombstones, s.provider_id, key),
    ensures
        forall|i: int|
            0 <= i < s.installed(page, rows, meant, query).rows.len() ==> (#[trigger] s.installed(
                page,
                rows,
                meant,
                query,
            ).rows[i]).key() != key,
{
    reveal(SessionsView::installed);
    lemma_without_holds_none(rows, s.gone());
}

/// The newest manifest that is known is never given up for an older one.
pub proof fn newest_manifest_is_kept(s: SessionsView, base: BaseManifestView)
    requires
        s.base_manifest is Some,
        s.in_scope(s.base_manifest->0.scope_epoch, s.base_manifest->0.scope),
    ensures
        s.with_base(base).base_manifest is Some,
        s.with_base(base).base_manifest->0.reader.build_epoch
            >= s.base_manifest->0.reader.build_epoch,
{
}

/// A refresh does not take away what a search found: the search is made anew.
pub proof fn refresh_keeps_search_results(
    app: AppView,
    request_id: u64,
    scope_epoch: u64,
    scope: Seq<char>,
    published: PublishedView,
    reader: ManifestReader,
)
    requires
        app.sessions.scan_active == Some(request_id),
        app.sessions.scope_epoch == scope_epoch,
        app.sessions.on_query_page(),
        wanted_search(app.sessions) is Some,
    ensures
        ({
            let after = scan_published(app, request_id, scope_epoch, scope, published, reader);
            &&& after.sessions.rows == app.sessions.rows
            &&& after.sessions.page == app.sessions.page
            &&& after.sessions.materialized_query == app.sessions.materialized_query
            &&& after.sessions.selected_idx == app.sessions.selected_idx
            &&& after.pending_deep_search == wanted_search(app.sessions)
        }),
{
}

// What comes of a page.

/// A session was deleted, and manifests of the scope looked at may still hold
/// it: a deletion of it is remembered that has not been settled in the scope.
pub open spec fn buried(s: SessionsView, key: Seq<char>) -> bool {
    exists|i: int|
        0 <= i < s.purge_tombstones.len() && (#[trigger] s.purge_tombstones[i]).key == key && !(
        s.provider_id matches Some(scope) && s.purge_tombstones[i].cleared.contains(scope))
}

/// The rows of a page that may be seen, in their order.
pub open spec fn seen_rows(s: SessionsView, rows: Seq<SessionMetaView>) -> Seq<SessionMetaView> {
    rows.filter(|row: SessionMetaView| !buried(s, row.key()))
}

pub(crate) proof fn lemma_seen_rows(s: SessionsView, rows: Seq<SessionMetaView>)
    ensures
        without(rows, hidden(s.purge_tombstones, s.provider_id)) == seen_rows(s, rows),
    decreases rows.len(),
{
    reveal(Seq::filter);
    if rows.len() > 0 {
        lemma_seen_rows(s, rows.drop_last());
        let key = rows.last().key();
        assert(hides(s.purge_tombstones, s.provider_id, key) == buried(s, key)) by {
            assert forall|i: int| 0 <= i < s.purge_tombstones.len() implies (
            #[trigger] s.purge_tombstones[i]).counts_in(s.provider_id) == !(
            s.provider_id matches Some(scope) && s.purge_tombstones[i].cleared.contains(
                scope,
            )) by {}
        }
    }
}

proof fn lemma_all_seen(s: SessionsView, rows: Seq<SessionMetaView>)
    requires
        forall|i: int| 0 <= i < rows.len() ==> !buried(s, (#[trigger] rows[i]).key()),
    ensures
        seen_rows(s, rows) == rows,
    decreases rows.len(),
{
    reveal(Seq::filter);
    if rows.len() > 0 {
        assert(rows.last() == rows[rows.len() - 1]);
        assert forall|i: int| 0 <= i < rows.drop_last().len() implies !buried(
            s,
            (#[trigger] rows.drop_last()[i]).key(),
        ) by {
            assert(rows.drop_last()[i] == rows[i]);
        }
        lemma_all_seen(s, rows.drop_last());
        assert(rows.drop_last().push(rows.last()) =~= rows);
    }
}

/// What it means that a page of a manifest comes to be shown: its rows are seen
/// but for deleted sessions; the row that was meant is selected, or the next
/// that is left; the place in the whole manifest follows; no page is waited for
/// any more; and the messages of a session that is not selected are put away.
pub open spec fn shows_page(
    before: SessionsView,
    page: PageView,
    rows: Seq<SessionMetaView>,
    meant: int,
    query: Option<Seq<char>>,
    after: SessionsView,
) -> bool {
    let upto = if meant < rows.len() {
        meant
    } else {
        rows.len() as int
    };
    let at = after.selected_idx;
    &&& after.rows == seen_rows(before, rows)
    &&& (forall|i: int| 0 <= i < rows.len() ==> !buried(before, (#[trigger] rows[i]).key()))
        ==> after.rows == rows
    &&& after.rows.len() == 0 ==> at == 0
    &&& after.rows.len() > 0 ==> at < after.rows.len()
    &&& seen_rows(before, rows.take(upto)).len() < after.rows.len() ==> at == seen_rows(
        before,
        rows.take(upto),
    ).len()
    &&& seen_rows(before, rows.take(upto)).len() >= after.rows.len() > 0 ==> at
        == after.rows.len() - 1
    &&& after.page == Some(page)
    &&& after.remote.active is None && after.remote.wanted is None
    &&& after.remote.seq == before.remote.seq
    &&& after.materialized_query == query
    &&& after.loaded_once
    &&& after.last_error is None
    &&& after.pagination.len == page.total_rows
    &&& page.total_rows == 0 ==> after.pagination.selected is None
    &&& page.total_rows > 0 && page.index * PAGE_SIZE + at <= usize::MAX ==> {
        &&& after.pagination.row_focused
        &&& after.pagination.selected == Some(
            if page.index * PAGE_SIZE + at < page.total_rows {
                (page.index * PAGE_SIZE + at) as usize
            } else {
                (page.total_rows - 1) as usize
            },
        )
    }
    &&& before.detail_key matches Some(key) ==> if at < after.rows.len()
        && after.rows[at as int].key() == key {
        &&& after.detail_key == before.detail_key
        &&& after.messages == before.messages
        &&& after.message_active == before.message_active
        &&& after.pane == before.pane
    } else {
        &&& after.detail_key is None
        &&& after.messages.len() == 0
        &&& !after.messages_loaded && !after.messages_loading
        &&& after.message_active is None
        &&& after.pane == SessionsPane::List
        &&& before.message_active is Some ==> after.message_cancel_pending
    }
    &&& before.detail_key is None ==> after.detail_key is None && after.pane == before.pane
    &&& after.provider_id == before.provider_id
    &&& after.scope_epoch == before.scope_epoch
    &&& after.scan_seq == before.scan_seq
    &&& after.base_manifest == before.base_manifest
    &&& after.purge_tombstones == before.purge_tombstones
    &&& after.query_tombstones == before.query_tombstones
    &&& after.delete_active == before.delete_active
    &&& after.deep_search_query == before.deep_search_query
}

pub(crate) proof fn lemma_installed(
    s: SessionsView,
    page: PageView,
    rows: Seq<SessionMetaView>,
    meant: usize,
    query: Option<Seq<char>>,
)
    ensures
        shows_page(s, page, rows, meant as int, query, s.installed(page, rows, meant, query)),
{
    reveal(SessionsView::installed);
    let upto = if meant < rows.len() {
        meant as int
    } else {
        rows.len() as int
    };
    lemma_seen_rows(s, rows);
    lemma_seen_rows(s, rows.take(upto));
    if forall|i: int| 0 <= i < rows.len() ==> !buried(s, (#[trigger] rows[i]).key()) {
        lemma_all_seen(s, rows);
    }
}

/// The page that was asked for is shown, and the request is over. A page of
/// another generation than the one that is browsed changes nothing, and a page
/// that could not be read leaves the rows as they are.
pub proof fn pages_asked_for_are_shown(
    before: AppView,
    request_id: u64,
    token: SessionPageToken,
    page: usize,
    result: Result<ManifestPage, String>,
    after: AppView,
)
    requires
        session_received(
            before,
            (SessionMsg::PageLoaded { request_id, token, page, result }),
            after,
        ),
        before.sessions.remote.active == Some(PageRequest { request_id, page }),
        before.sessions.page is Some,
        before.sessions.page->0.token == token@,
    ensures
        result matches Ok(loaded) ==> (loaded.generation@ == token.generation@ ==> {
            &&& after == (AppView { sessions: after.sessions, ..before })
            &&& shows_page(
                before.sessions,
                PageView { index: page, ..before.sessions.page->0 },
                views(loaded.rows@),
                match before.sessions.remote.wanted {
                    Some(wish) => wish.local as int,
                    None => 0,
                },
                before.sessions.materialized_query,
                after.sessions,
            )
        }),
        result matches Ok(loaded) ==> (loaded.generation@ != token.generation@ ==> after == before),
        result matches Err(error) ==> {
            &&& after.sessions.last_error == Some(error@)
            &&& after.sessions.remote.active is None && after.sessions.remote.wanted is None
            &&& after.sessions.rows == before.sessions.rows
            &&& after.sessions.page == before.sessions.page
            &&& after.sessions.selected_idx == before.sessions.selected_idx
            &&& after == (AppView { sessions: after.sessions, ..before })
        },
{
    if let Ok(loaded) = result {
        lemma_installed(
            before.sessions,
            PageView { index: page, ..before.sessions.page->0 },
            views(loaded.rows@),
            match before.sessions.remote.wanted {
                Some(wish) => wish.local,
                None => 0,
            },
            before.sessions.materialized_query,
        );
    }
}

} // verus!
