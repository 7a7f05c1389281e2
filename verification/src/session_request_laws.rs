//! Which sessions are listed, and what is asked for on their screen, field by
//! field.

use vstd::prelude::*;

use crate::app::AppView;
use crate::chars::{occurs_in, text_lowercase};
use crate::outbox::Link;
use crate::session_requests::{location_queued, page_queued, scan_queued, SessionReq};
use crate::session_rows::{row_visible, visible, visible_among, IdentityView};
use crate::sessions::{
    PageRequest, PendingManifestView, SessionMetaView, SessionsView,
};
use crate::skill_laws::{has_in_it, lemma_has_in_it};
use crate::text::{TextKey, ToastKind};
use crate::text_edit::trimmed;

verus! {

/// The scope that a screen lists.
pub open spec fn lists_scope(app: AppView, scope: Seq<char>) -> bool {
    scope == (if app.sessions.show_all_providers {
        "all"@
    } else {
        app.names.of(app.app_type)
    })
}

/// A text that may be missing has a query in it, the case of letters aside.
pub open spec fn mentions(text: Option<Seq<char>>, query: Seq<char>) -> bool {
    text matches Some(text) && has_in_it(text_lowercase(text), query)
}

/// A session is meant by a query: one of its texts mentions it, a search into
/// the sessions found it, or what is read of it does.
pub open spec fn session_meant(s: SessionsView, row: SessionMetaView, query: Seq<char>) -> bool {
    let key = row.provider_id + ":"@ + row.session_id + ":"@ + match row.source_path {
        Some(path) => path,
        None => seq![],
    };
    ||| mentions(Some(row.session_id), query)
    ||| mentions(row.title, query)
    ||| mentions(row.summary, query)
    ||| mentions(row.project_dir, query)
    ||| s.deep_search_query == Some(query) && s.deep_search_results.contains(key)
    ||| s.detail_key == Some(key) && s.messages_loaded && exists|i: int|
        0 <= i < s.messages.len() && has_in_it(
            text_lowercase((#[trigger] s.messages[i]).content),
            query,
        )
}

/// A session is to be listed: its scope is looked at, and where something is
/// typed the whole list answers that, or the session is meant by it.
pub open spec fn to_be_listed(app: AppView, row: SessionMetaView) -> bool {
    let typed = trimmed(app.filter.text);
    let query = text_lowercase(typed);
    &&& app.sessions.provider_id is None || lists_scope(app, app.sessions.provider_id->0)
    &&& typed.len() == 0 || app.sessions.materialized_query == Some(query) || session_meant(
        app.sessions,
        row,
        query,
    )
}

proof fn lemma_to_be_listed(app: AppView, row: SessionMetaView)
    ensures
        row_visible(app, row) == to_be_listed(app, row),
{
    let query = text_lowercase(trimmed(app.filter.text));
    lemma_has_in_it(text_lowercase(row.session_id), query);
    if row.title is Some {
        lemma_has_in_it(text_lowercase(row.title->0), query);
    }
    if row.summary is Some {
        lemma_has_in_it(text_lowercase(row.summary->0), query);
    }
    if row.project_dir is Some {
        lemma_has_in_it(text_lowercase(row.project_dir->0), query);
    }
    let messages = app.sessions.messages;
    assert forall|i: int| 0 <= i < messages.len() implies occurs_in(
        text_lowercase((#[trigger] messages[i]).content),
        query,
    ) == has_in_it(text_lowercase(messages[i].content), query) by {
        lemma_has_in_it(text_lowercase(messages[i].content), query);
    }
    assert(row.key() =~= row.provider_id + ":"@ + row.session_id + ":"@ + match row.source_path {
        Some(path) => path,
        None => seq![],
    });
}

proof fn lemma_visible_among(app: AppView, n: int)
    requires
        0 <= n <= app.sessions.rows.len() <= usize::MAX,
    ensures
        ({
            let places = visible_among(app, n);
            &&& forall|p: int|
                0 <= p < places.len() ==> (#[trigger] places[p]) < n && to_be_listed(
                    app,
                    app.sessions.rows[places[p] as int],
                )
            &&& forall|p: int, q: int|
                0 <= p < q < places.len() ==> #[trigger] places[p] < #[trigger] places[q]
            &&& forall|i: int|
                0 <= i < n && to_be_listed(app, #[trigger] app.sessions.rows[i])
                    ==> places.contains(i as usize)
        }),
    decreases n,
{
    if n > 0 {
        lemma_visible_among(app, n - 1);
        lemma_to_be_listed(app, app.sessions.rows[n - 1]);
        let rest = visible_among(app, n - 1);
        let places = visible_among(app, n);
        assert forall|i: int|
            0 <= i < n && to_be_listed(
                app,
                #[trigger] app.sessions.rows[i],
            ) implies places.contains(i as usize) by {
            if i < n - 1 {
                let p = choose|p: int| 0 <= p < rest.len() && rest[p] == i as usize;
                assert(places[p] == i as usize);
            } else {
                assert(places[places.len() - 1] == i as usize);
            }
        }
    }
}

/// The sessions listed are all those to be listed, and no others, in the order
/// of the rows and each once.
pub proof fn sessions_to_be_listed_are_listed(app: AppView)
    requires
        app.sessions.rows.len() <= usize::MAX,
    ensures
        forall|p: int|
            0 <= p < visible(app).len() ==> (#[trigger] visible(app)[p]) < app.sessions.rows.len()
                && to_be_listed(app, app.sessions.rows[visible(app)[p] as int]),
        forall|p: int, q: int|
            0 <= p < q < visible(app).len() ==> #[trigger] visible(app)[p] < #[trigger] visible(
                app,
            )[q],
        forall|i: int|
            0 <= i < app.sessions.rows.len() && to_be_listed(app, #[trigger] app.sessions.rows[i])
                ==> visible(app).contains(i as usize),
{
    lemma_visible_among(app, app.sessions.rows.len() as int);
}

/// A session is known by who keeps it, its own number and where it is kept; when
/// it was last used is when it was last active, or else when it began.
pub proof fn sessions_are_known_by(row: SessionMetaView, other: SessionMetaView)
    ensures
        IdentityView::of(row).is(other) == (row.provider_id == other.provider_id && row.session_id
            == other.session_id && row.source_path == other.source_path),
        row.last_active_at matches Some(at) ==> row.recency() == at,
        row.last_active_at is None ==> (row.created_at matches Some(at) ==> row.recency() == at),
        row.last_active_at is None && row.created_at is None ==> row.recency() == 0,
        IdentityView::of(row).recency == row.recency(),
        IdentityView::of(row).key() == row.key(),
{
}

/// Sessions are scanned for the scope that the screen lists: where it was not
/// loaded yet or deletions call for it, unless a scan of it goes on, or one
/// was tried already.
pub open spec fn calls_for_scan(s: SessionsView, scope: Seq<char>) -> bool {
    let loaded = s.loaded_once && s.provider_id == Some(scope);
    let scanned = s.scan_active is Some && s.provider_id == Some(scope);
    let tried = s.attempted_scope == Some(scope);
    !scanned && (s.purge_refresh || (!loaded && !tried))
}

/// A scan that is called for is asked for under a new number and the number of
/// the turn to its scope, in full where deletions call for it. The list stays
/// where it is of that scope, and is emptied where it is not.
pub proof fn scans_are_asked_for(
    before: AppView,
    sent: Seq<SessionReq>,
    link: Link,
    after: AppView,
    sent_after: Seq<SessionReq>,
    scope: Seq<char>,
)
    requires
        scan_queued(before, sent, link, after, sent_after),
        lists_scope(before, scope),
        before.route is Sessions,
        calls_for_scan(before.sessions, scope),
    ensures
        ({
            let s = before.sessions;
            let t = after.sessions;
            &&& after == (AppView { sessions: t, toast: after.toast, ..before })
            &&& s.scan_seq < u64::MAX ==> t.scan_seq == s.scan_seq + 1
            &&& t.attempted_scope == Some(scope)
            &&& t.provider_id == Some(scope)
            &&& !t.purge_refresh
            &&& t.loading == (link == Link::Open)
            &&& s.provider_id == Some(scope) ==> {
                &&& t == (SessionsView {
                    scan_seq: t.scan_seq,
                    scan_active: t.scan_active,
                    loading: t.loading,
                    last_error: t.last_error,
                    attempted_scope: t.attempted_scope,
                    purge_refresh: false,
                    ..s
                })
            }
            &&& s.provider_id != Some(scope) ==> {
                &&& s.scope_epoch < u64::MAX ==> t.scope_epoch == s.scope_epoch + 1
                &&& t.rows.len() == 0
                &&& t.selected_idx == 0
                &&& t.page is None
                &&& t.base_manifest is None
                &&& t.pending_manifest is None
                &&& t.materialized_query is None
                &&& t.remote.wanted is None
                &&& t.remote.active is None
                &&& t.remote.seq == s.remote.seq
                &&& !t.loaded_once
                &&& t.detail_key == s.detail_key
                &&& t.purge_tombstones == s.purge_tombstones
                &&& t.query_tombstones == s.query_tombstones
                &&& t.delete_active == s.delete_active
            }
            &&& link == Link::Open ==> {
                &&& t.scan_active == Some(t.scan_seq)
                &&& t.last_error is None
                &&& after.toast == before.toast
                &&& sent_after.len() == sent.len() + 1
                &&& sent_after.drop_last() == sent
                &&& sent_after.last() matches SessionReq::Refresh {
                    request_id,
                    scope_epoch,
                    provider_id,
                    force,
                }
                &&& request_id == t.scan_seq
                &&& scope_epoch == t.scope_epoch
                &&& provider_id@ == scope
                &&& force == s.purge_refresh
            }
            &&& link != Link::Open ==> {
                &&& sent_after == sent
                &&& t.scan_active is None
                &&& t.last_error is Some == (t.page is None)
                &&& after.toast matches Some(toast)
                &&& toast.kind == ToastKind::Warning
                &&& link == Link::Missing ==> toast.message.key
                    == TextKey::SessionsWorkerUnavailable
                &&& link == Link::Closed ==> toast.message.key == TextKey::SessionsRefreshFailed
            }
        }),
{
}

/// A scan that nothing calls for, or that nobody looks at, is not asked for.
pub proof fn scans_are_not_asked_for_in_vain(
    before: AppView,
    sent: Seq<SessionReq>,
    link: Link,
    after: AppView,
    sent_after: Seq<SessionReq>,
    scope: Seq<char>,
)
    requires
        scan_queued(before, sent, link, after, sent_after),
        lists_scope(before, scope),
        !(before.route is Sessions) || !calls_for_scan(before.sessions, scope),
    ensures
        after == before,
        sent_after == sent,
{
}

/// A page that is wanted is asked for once, under a new number, from the
/// manifest that is shown, while the sessions are looked at. Where nobody can be
/// asked it is no longer wanted, and the reason is shown.
pub proof fn wanted_pages_are_asked_for(
    before: AppView,
    sent: Seq<SessionReq>,
    link: Link,
    after: AppView,
    sent_after: Seq<SessionReq>,
)
    requires
        page_queued(before, sent, link, after, sent_after),
    ensures
        ({
            let s = before.sessions;
            let t = after.sessions;
            let asks = before.route is Sessions && s.remote.wanted is Some && s.remote.active is None
                && s.page is Some;
            &&& !asks ==> after == before && sent_after == sent
            &&& asks ==> {
                &&& after == (AppView { sessions: t, ..before })
                &&& t == (SessionsView { remote: t.remote, last_error: t.last_error, ..s })
                &&& s.remote.seq < u64::MAX ==> t.remote.seq == s.remote.seq + 1
                &&& link == Link::Open ==> {
                    &&& t.last_error == s.last_error
                    &&& t.remote.wanted == s.remote.wanted
                    &&& t.remote.active == Some(
                        PageRequest { request_id: t.remote.seq, page: s.remote.wanted->0.page },
                    )
                    &&& sent_after.len() == sent.len() + 1
                    &&& sent_after.drop_last() == sent
                    &&& sent_after.last() matches SessionReq::LoadPage {
                        request_id,
                        token,
                        page,
                        reader,
                    }
                    &&& request_id == t.remote.seq
                    &&& token@ == s.page->0.token
                    &&& page == s.remote.wanted->0.page
                    &&& reader == s.page->0.reader
                }
                &&& link != Link::Open ==> {
                    &&& t.last_error is Some
                    &&& t.remote.wanted is None
                    &&& t.remote.active is None
                    &&& sent_after == sent
                }
            }
        }),
{
}

/// The place of the selected session in a manifest that waits is asked for once,
/// with the row selected and its place among all rows. Where nobody can be asked
/// the manifest is given up, with the scan it was to end; its deletions then call
/// for a scan.
pub proof fn places_are_asked_for(
    before: AppView,
    sent: Seq<SessionReq>,
    link: Link,
    after: AppView,
    sent_after: Seq<SessionReq>,
)
    requires
        location_queued(before, sent, link, after, sent_after),
    ensures
        ({
            let s = before.sessions;
            let t = after.sessions;
            let asks = s.pending_manifest is Some && s.pending_manifest->0.locate_request is None;
            let pending = s.pending_manifest->0;
            let page: int = match s.page {
                Some(page) => page.index as int,
                None => 0,
            };
            &&& !asks ==> after == before && sent_after == sent
            &&& asks ==> {
                &&& after == (AppView { sessions: t, ..before })
                &&& s.locate_seq < u64::MAX ==> t.locate_seq == s.locate_seq + 1
                &&& link == Link::Open || pending.scope_epoch != s.scope_epoch ==> t == (
                SessionsView {
                    locate_seq: t.locate_seq,
                    pending_manifest: Some(
                        PendingManifestView { locate_request: Some(t.locate_seq), ..pending },
                    ),
                    ..s
                })
                &&& link == Link::Open ==> {
                    &&& sent_after.len() == sent.len() + 1
                    &&& sent_after.drop_last() == sent
                    &&& sent_after.last() matches SessionReq::LocateManifest {
                        request_id,
                        scope_epoch,
                        source,
                        scope,
                        generation,
                        fallback_absolute,
                        anchor,
                        reader,
                    }
                    &&& request_id == t.locate_seq
                    &&& scope_epoch == s.scope_epoch
                    &&& source == pending.source
                    &&& scope@ == pending.scope
                    &&& generation@ == pending.generation
                    &&& reader == pending.reader
                    &&& page * 100 + s.selected_idx <= usize::MAX ==> fallback_absolute == page * 100
                        + s.selected_idx
                    &&& anchor is Some == (s.selected_idx < s.rows.len())
                    &&& anchor matches Some(row) ==> row@ == s.rows[s.selected_idx as int]
                }
                &&& link != Link::Open ==> sent_after == sent
                &&& link != Link::Open && pending.scope_epoch == s.scope_epoch ==> {
                    let ended = pending.scan_request is Some && s.scan_active
                        == pending.scan_request;
                    &&& t == (SessionsView {
                        locate_seq: t.locate_seq,
                        pending_manifest: None,
                        last_error: t.last_error,
                        purge_refresh: s.purge_refresh || pending.tombstones.len() > 0,
                        scan_active: if ended {
                            None
                        } else {
                            s.scan_active
                        },
                        loading: s.loading && !ended,
                        ..s
                    })
                    &&& t.last_error is Some
                }
            }
        }),
{
}

} // verus!
