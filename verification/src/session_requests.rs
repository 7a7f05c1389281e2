//! What the session worker is asked for.

use vstd::prelude::*;

use crate::app::{App, AppView};
use crate::base::{opt_view, reads, Duplicate};
use crate::outbox::{Link, Outbox, CHANNEL_CLOSED};
use crate::request::following;
use crate::route::Route;
use crate::session_rows::{scope_name, scope_of};
use crate::sessions::{
    absolute, ManifestReader, PageRequest, PendingManifestView, RemotePages, SessionMeta,
    SessionPageSource, SessionPageToken, SessionsState, SessionsView,
};
use crate::text::{Text, TextKey, TextView, ToastKind};

verus! {

/// What is said where the session worker was never started.
pub const SESSIONS_WORKER_MISSING: &'static str = "sessions worker is not running";

/// A request to the session worker.
#[allow(inconsistent_fields)]
#[derive(Debug)]
pub enum SessionReq {
    /// A scan. A forced one takes nothing from what is kept.
    Refresh { request_id: u64, scope_epoch: u64, provider_id: String, force: bool },
    LoadPage { request_id: u64, token: SessionPageToken, page: usize, reader: ManifestReader },
    /// The place of the selected session in a manifest.
    LocateManifest {
        request_id: u64,
        scope_epoch: u64,
        source: SessionPageSource,
        scope: String,
        generation: String,
        fallback_absolute: usize,
        anchor: Option<SessionMeta>,
        reader: ManifestReader,
    },
    LoadMessages { request_id: u64, key: String, provider_id: String, source_path: String },
    Delete {
        request_id: u64,
        key: String,
        provider_id: String,
        session_id: String,
        source_path: String,
    },
    Search {
        request_id: u64,
        scope_epoch: u64,
        query: String,
        base: SessionPageToken,
        base_reader: ManifestReader,
        query_namespace: String,
    },
    CancelSearch,
    CancelMessages,
}

/// Whether a scope has to be scanned: it was not scanned yet, nothing scans it,
/// or a purge calls for a fresh scan.
pub open spec fn needs_scan(s: SessionsView, scope: Seq<char>) -> bool {
    &&& s.purge_refresh || !(s.loaded_once && s.provider_id == Some(scope))
    &&& !(s.provider_id == Some(scope) && s.scan_active is Some)
    &&& s.purge_refresh || s.attempted_scope != Some(scope)
}

/// A scan is asked for.
pub open spec fn scan_asked(s: SessionsView, scope: Seq<char>) -> SessionsView {
    SessionsView { purge_refresh: false, ..s.scanning(scope) }
}

/// What asking for a scan of the scope looked at leads to.
pub open spec fn scan_queued(
    before: AppView,
    sent_before: Seq<SessionReq>,
    link: Link,
    after: AppView,
    sent_after: Seq<SessionReq>,
) -> bool {
    let s = before.sessions;
    let scope = scope_name(before);
    let asked = scan_asked(s, scope);
    let id = following(s.scan_seq);
    if !(before.route is Sessions) || !needs_scan(s, scope) {
        &&& after == before
        &&& sent_after == sent_before
    } else {
        &&& after == (match link {
            Link::Missing => before.with_sessions(
                asked.scan_failed(id, SESSIONS_WORKER_MISSING@),
            ).told(
                ToastKind::Warning,
                TextView::with(TextKey::SessionsWorkerUnavailable, SESSIONS_WORKER_MISSING@),
            ),
            Link::Closed => before.with_sessions(asked.scan_failed(id, CHANNEL_CLOSED@)).told(
                ToastKind::Warning,
                TextView::with(TextKey::SessionsRefreshFailed, CHANNEL_CLOSED@),
            ),
            Link::Open => before.with_sessions(asked),
        })
        &&& if link == Link::Open {
            &&& sent_after.len() == sent_before.len() + 1
            &&& sent_after.drop_last() == sent_before
            &&& sent_after.last() matches SessionReq::Refresh {
                request_id,
                scope_epoch,
                provider_id,
                force,
            }
            &&& request_id == id
            &&& scope_epoch == asked.scope_epoch
            &&& provider_id@ == scope
            &&& force == s.purge_refresh
        } else {
            sent_after == sent_before
        }
    }
}

/// Asks for a scan of the scope looked at, where it needs one. A scan that
/// failed is not tried again by itself.
pub fn queue_sessions_refresh_if_needed(app: &mut App, worker: &mut Outbox<SessionReq>)
    ensures
        final(worker).link == old(worker).link,
        scan_queued(
            old(app)@,
            old(worker).sent@,
            old(worker).link,
            final(app)@,
            final(worker).sent@,
        ),
{
    match app.route {
        Route::Sessions => {},
        _ => {
            return ;
        },
    }
    let scope = scope_of(app);
    let purge_refresh = app.sessions.purge_refresh_required();
    if (!purge_refresh && app.sessions.loaded_for_provider(&scope)) || (reads(
        &app.sessions.provider_id,
        &scope,
    ) && app.sessions.scan_active.is_some()) || (!purge_refresh
        && app.sessions.scan_attempted_for_scope(&scope)) {
        return ;
    }
    let request_id = app.sessions.start_scan(scope.duplicate());
    if purge_refresh {
        app.sessions.consume_purge_refresh();
    }
    if worker.is_missing() {
        app.sessions.fail_scan(request_id, SESSIONS_WORKER_MISSING.to_owned());
        app.push_toast(
            Text::with(TextKey::SessionsWorkerUnavailable, SESSIONS_WORKER_MISSING),
            ToastKind::Warning,
        );
        return ;
    }
    let scope_epoch = app.sessions.scope_epoch;
    if worker.send(
        SessionReq::Refresh { request_id, scope_epoch, provider_id: scope, force: purge_refresh },
    ) {
        assert(worker.sent@.drop_last() =~= old(worker).sent@);
    } else {
        app.sessions.fail_scan(request_id, CHANNEL_CLOSED.to_owned());
        app.push_toast(
            Text::with(TextKey::SessionsRefreshFailed, CHANNEL_CLOSED),
            ToastKind::Warning,
        );
    }
}

/// The state once the page that is wanted was asked for.
pub open spec fn page_asked(s: SessionsView, link: Link) -> SessionsView {
    let id = following(s.remote.seq);
    let idle = RemotePages { seq: id, wanted: None, active: None };
    match (s.remote.wanted, s.remote.active, s.page) {
        (Some(wish), None, Some(_)) => match link {
            Link::Open => SessionsView {
                remote: RemotePages {
                    seq: id,
                    active: Some(PageRequest { request_id: id, page: wish.page }),
                    ..s.remote
                },
                ..s
            },
            Link::Missing => SessionsView {
                remote: idle,
                last_error: Some(SESSIONS_WORKER_MISSING@),
                ..s
            },
            Link::Closed => SessionsView {
                remote: idle,
                last_error: Some(CHANNEL_CLOSED@),
                ..s
            },
        },
        _ => s,
    }
}

/// Whether a request asks for the page that is wanted.
pub open spec fn asks_page(s: SessionsView, request: SessionReq) -> bool {
    &&& s.remote.wanted matches Some(wish)
    &&& s.page matches Some(shown)
    &&& request matches SessionReq::LoadPage { request_id, token, page, reader }
    &&& request_id == following(s.remote.seq)
    &&& token@ == shown.token
    &&& page == wish.page
    &&& reader == shown.reader
}

/// Whether there is a page to ask for.
pub open spec fn wants_page(s: SessionsView) -> bool {
    s.remote.wanted is Some && s.remote.active is None && s.page is Some
}

fn queue_page(sessions: &mut SessionsState, worker: &mut Outbox<SessionReq>)
    ensures
        final(worker).link == old(worker).link,
        final(sessions)@ == page_asked(old(sessions)@, old(worker).link),
        if wants_page(old(sessions)@) && old(worker).link == Link::Open {
            &&& final(worker).sent@.len() == old(worker).sent@.len() + 1
            &&& final(worker).sent@.drop_last() == old(worker).sent@
            &&& asks_page(old(sessions)@, final(worker).sent@.last())
        } else {
            final(worker).sent@ == old(worker).sent@
        },
{
    let page = match sessions.pending_cross_page() {
        Some(page) => page,
        None => {
            return ;
        },
    };
    let asked = match sessions.next_page_request(page) {
        Some(asked) => asked,
        None => {
            return ;
        },
    };
    if worker.is_missing() {
        sessions.fail_page_request(
            asked.request_id,
            &asked.token,
            page,
            SESSIONS_WORKER_MISSING.to_owned(),
        );
        return ;
    }
    let token = asked.token.duplicate();
    if worker.send(
        SessionReq::LoadPage {
            request_id: asked.request_id,
            token: asked.token,
            page,
            reader: asked.reader,
        },
    ) {
        assert(worker.sent@.drop_last() =~= old(worker).sent@);
    } else {
        sessions.fail_page_request(asked.request_id, &token, page, CHANNEL_CLOSED.to_owned());
    }
}

/// What becomes of a page that is wanted, and what is sent for it.
pub open spec fn page_queued(
    before: AppView,
    sent_before: Seq<SessionReq>,
    link: Link,
    after: AppView,
    sent_after: Seq<SessionReq>,
) -> bool {
    &&& after == (if before.route is Sessions {
        before.with_sessions(page_asked(before.sessions, link))
    } else {
        before
    })
    &&& if before.route is Sessions && wants_page(before.sessions) && link == Link::Open {
        &&& sent_after.len() == sent_before.len() + 1
        &&& sent_after.drop_last() == sent_before
        &&& asks_page(before.sessions, sent_after.last())
    } else {
        sent_after == sent_before
    }
}

/// Asks for the page that is wanted, while the sessions are shown.
pub fn maybe_queue_session_page_load(app: &mut App, worker: &mut Outbox<SessionReq>)
    ensures
        final(worker).link == old(worker).link,
        page_queued(
            old(app)@,
            old(worker).sent@,
            old(worker).link,
            final(app)@,
            final(worker).sent@,
        ),
{
    match app.route {
        Route::Sessions => queue_page(&mut app.sessions, worker),
        _ => {},
    }
}

/// The state once the place of the selected session was asked for.
pub open spec fn locating(s: SessionsView) -> SessionsView {
    let pending = s.pending_manifest->0;
    let id = following(s.locate_seq);
    SessionsView { locate_seq: id, ..s }.staged(
        PendingManifestView { locate_request: Some(id), ..pending },
    )
}

/// Whether a request asks for the place of the selected session in the manifest
/// that waits.
pub open spec fn asks_location(s: SessionsView, request: SessionReq) -> bool {
    &&& s.pending_manifest matches Some(pending)
    &&& request matches SessionReq::LocateManifest {
        request_id,
        scope_epoch,
        source,
        scope,
        generation,
        fallback_absolute,
        anchor,
        reader,
    }
    &&& request_id == following(s.locate_seq)
    &&& scope_epoch == s.scope_epoch
    &&& source == pending.source
    &&& scope@ == pending.scope
    &&& generation@ == pending.generation
    &&& reader == pending.reader
    &&& fallback_absolute == absolute(s.page_index(), s.selected_idx)
    &&& opt_view(anchor) == (if s.selected_idx < s.rows.len() {
        Some(s.rows[s.selected_idx as int])
    } else {
        None
    })
}

/// What becomes of a manifest that waits, and what is sent for it.
pub open spec fn location_queued(
    before: AppView,
    sent_before: Seq<SessionReq>,
    link: Link,
    after: AppView,
    sent_after: Seq<SessionReq>,
) -> bool {
    let s = before.sessions;
    match s.pending_manifest {
        Some(pending) if pending.locate_request is None => {
            let error = if link == Link::Missing {
                SESSIONS_WORKER_MISSING@
            } else {
                CHANNEL_CLOSED@
            };
            &&& after == before.with_sessions(
                if link == Link::Open || pending.scope_epoch != s.scope_epoch {
                    locating(s)
                } else {
                    locating(s).not_reconciled(error)
                },
            )
            &&& if link == Link::Open {
                &&& sent_after.len() == sent_before.len() + 1
                &&& sent_after.drop_last() == sent_before
                &&& asks_location(s, sent_after.last())
            } else {
                sent_after == sent_before
            }
        },
        _ => after == before && sent_after == sent_before,
    }
}

/// Asks for the place of the selected session in a manifest that waits. Where
/// that cannot be, deletions are left to a fresh scan. A manifest that waits
/// from a scope that was left stays as it is.
pub fn maybe_queue_session_manifest_reconcile(app: &mut App, worker: &mut Outbox<SessionReq>)
    ensures
        final(worker).link == old(worker).link,
        location_queued(
            old(app)@,
            old(worker).sent@,
            old(worker).link,
            final(app)@,
            final(worker).sent@,
        ),
{
    let asked = match app.sessions.next_manifest_reconcile() {
        Some(asked) => asked,
        None => {
            return ;
        },
    };
    let scope_epoch = app.sessions.scope_epoch;
    if worker.is_missing() {
        app.sessions.fail_manifest_reconcile(
            asked.request_id,
            scope_epoch,
            &asked.generation,
            SESSIONS_WORKER_MISSING.to_owned(),
        );
        return ;
    }
    let request_id = asked.request_id;
    let generation = asked.generation.duplicate();
    if worker.send(
        SessionReq::LocateManifest {
            request_id,
            scope_epoch,
            source: asked.source,
            scope: asked.scope,
            generation: asked.generation,
            fallback_absolute: asked.fallback_absolute,
            anchor: asked.anchor,
            reader: asked.reader,
        },
    ) {
        assert(worker.sent@.drop_last() =~= old(worker).sent@);
    } else {
        app.sessions.fail_manifest_reconcile(
            request_id,
            scope_epoch,
            &generation,
            CHANNEL_CLOSED.to_owned(),
        );
    }
}

/// A scope that was scanned without success is not scanned again by itself.
pub proof fn failed_scans_are_not_repeated(s: SessionsView, scope: Seq<char>, error: Seq<char>)
    ensures
        !needs_scan(
            scan_asked(s, scope).scan_failed(following(s.scan_seq), error),
            scope,
        ),
{
}

/// A deletion whose manifest cannot be put in place stays hidden, and a fresh
/// scan is called for.
pub proof fn deletions_are_not_forgotten(s: SessionsView, error: Seq<char>)
    requires
        s.pending_manifest is Some,
        s.pending_manifest->0.tombstones.len() > 0,
    ensures
        s.not_reconciled(error).purge_refresh,
        s.not_reconciled(error).purge_tombstones == s.purge_tombstones,
{
}

} // verus!
