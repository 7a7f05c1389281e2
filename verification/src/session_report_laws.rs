//! What each report of the session worker is for, field by field.

use vstd::prelude::*;

use crate::app::AppView;
use crate::base::views;
use crate::chars::text_lowercase;
use crate::report_laws::notices;
use crate::session_laws::{buried, lemma_installed, lemma_seen_rows, seen_rows, shows_page};
use crate::session_messages::{
    deletion_shown, manifest_of, purge_received, session_received, settled_elsewhere, ManifestPage,
    PublishedManifest, PurgedManifest, PurgedView, SessionMsg,
};
use crate::session_manifests::without_number;
use crate::session_ops::{
    all_cleared, any_counts, applies, cleared, is_current, safe_deletions, without,
    without_tombstone,
};
use crate::session_rows::{
    anchored, restored, restores, restores_by, AnchorView,
};
use crate::sessions::{
    BaseManifestView, DeletedView, ManifestReader, PageTokenView, PageView, PendingManifestView,
    SessionMessage, SessionMeta, SessionMetaView, SessionPageSource, SessionsView, TombstoneView,
};
use crate::text::{TextKey, ToastKind};
use crate::text_edit::trimmed;

verus! {

/// Nothing but the sessions, the notice and the search to start next differs.
pub open spec fn only_sessions(before: AppView, after: AppView) -> bool {
    after == (AppView {
        sessions: after.sessions,
        toast: after.toast,
        pending_deep_search: after.pending_deep_search,
        ..before
    })
}

/// What a search found is on the screen.
pub open spec fn shows_findings(s: SessionsView) -> bool {
    &&& s.page is Some
    &&& s.page->0.token.source == SessionPageSource::Query
    &&& s.materialized_query is Some
}

/// The newest manifest known after one was named: of two of a scope, the one
/// that was built later.
pub open spec fn newest(before: SessionsView, named: BaseManifestView) -> Option<
    BaseManifestView,
> {
    match before.base_manifest {
        Some(known) => if known.scope_epoch == named.scope_epoch && known.scope == named.scope
            && known.reader.build_epoch > named.reader.build_epoch {
            before.base_manifest
        } else {
            Some(named)
        },
        None => Some(named),
    }
}

/// The search that has to be made, or made anew, if any.
pub open spec fn search_to_resume(s: SessionsView) -> Option<Seq<char>> {
    match s.deep_search_query {
        Some(query) if query.len() > 0 && s.deep_search_active is None && s.base_manifest is Some
            && s.materialized_query != Some(query) => Some(query),
        _ => None,
    }
}

/// The manifest that is kept of a scope is shown at once, unless it may hold
/// deleted sessions or the findings of a search are on the screen. That there
/// is none, or that it cannot be read, leaves the rows as they are. A search
/// that waited for a manifest can then be made.
pub proof fn kept_manifests_are_shown(
    before: AppView,
    request_id: u64,
    scope_epoch: u64,
    scope: String,
    result: Result<Option<(ManifestReader, ManifestPage)>, String>,
    after: AppView,
)
    requires
        session_received(
            before,
            (SessionMsg::ScopeOpened { request_id, scope_epoch, scope, result }),
            after,
        ),
        before.sessions.scan_active == Some(request_id),
        before.sessions.scope_epoch == scope_epoch,
        before.sessions.provider_id == Some(scope@),
    ensures
        only_sessions(before, after),
        after.toast == before.toast,
        after.sessions.scan_active == before.sessions.scan_active,
        after.sessions.loading == before.sessions.loading,
        ({
            let s = before.sessions;
            let dirty = exists|i: int|
                0 <= i < s.purge_tombstones.len() && !(
                #[trigger] s.purge_tombstones[i]).cleared.contains(scope@);
            &&& result matches Ok(Some((reader, page))) ==> {
                let named = BaseManifestView {
                    scope_epoch,
                    scope: scope@,
                    generation: page.generation@,
                    total_rows: page.total_rows,
                    reader,
                };
                &&& dirty ==> after == before
                &&& !dirty ==> after.sessions.base_manifest == newest(s, named)
                &&& !dirty && shows_findings(s) ==> after.sessions == (SessionsView {
                    base_manifest: after.sessions.base_manifest,
                    ..s
                })
                &&& !dirty && !shows_findings(s) ==> shows_page(
                    SessionsView { base_manifest: after.sessions.base_manifest, ..s },
                    PageView {
                        token: PageTokenView {
                            source: SessionPageSource::Base,
                            scope_epoch,
                            scope: scope@,
                            generation: page.generation@,
                        },
                        reader,
                        total_rows: page.total_rows,
                        index: page.page_index,
                    },
                    views(page.rows@),
                    s.selected_idx as int,
                    None,
                    after.sessions,
                )
                &&& !dirty ==> after.pending_deep_search == match search_to_resume(
                    after.sessions,
                ) {
                    Some(query) => Some(query),
                    None => before.pending_deep_search,
                }
            }
            &&& result matches Ok(None) ==> after.sessions == s
            &&& result matches Err(error) ==> after.sessions == (SessionsView {
                last_error: Some(error@),
                ..s
            })
            &&& !(result matches Ok(Some(_))) ==> after.pending_deep_search
                == match search_to_resume(s) {
                Some(query) => Some(query),
                None => before.pending_deep_search,
            }
        }),
{
    let s = before.sessions;
    assert(any_counts(s.purge_tombstones, scope@) == exists|i: int|
        0 <= i < s.purge_tombstones.len() && !(
        #[trigger] s.purge_tombstones[i]).cleared.contains(scope@)) by {
        if any_counts(s.purge_tombstones, scope@) {
            let i = choose|i: int|
                0 <= i < s.purge_tombstones.len() && (
                #[trigger] s.purge_tombstones[i]).counts_in(Some(scope@));
            assert(!s.purge_tombstones[i].cleared.contains(scope@));
        }
        if exists|i: int|
            0 <= i < s.purge_tombstones.len() && !(
            #[trigger] s.purge_tombstones[i]).cleared.contains(scope@) {
            let i = choose|i: int|
                0 <= i < s.purge_tombstones.len() && !(
                #[trigger] s.purge_tombstones[i]).cleared.contains(scope@);
            assert(s.purge_tombstones[i].counts_in(Some(scope@)));
        }
    }
    if let Ok(Some((reader, page))) = result {
        let named = BaseManifestView {
            scope_epoch,
            scope: scope@,
            generation: page.generation@,
            total_rows: page.total_rows,
            reader,
        };
        let based = s.with_base(named);
        assert(based == (SessionsView { base_manifest: newest(s, named), ..s }));
        reveal(SessionsView::installed);
        lemma_installed(
            based,
            PageView {
                token: PageTokenView {
                    source: SessionPageSource::Base,
                    scope_epoch,
                    scope: scope@,
                    generation: page.generation@,
                },
                reader,
                total_rows: page.total_rows,
                index: page.page_index,
            },
            views(page.rows@),
            s.selected_idx,
            None,
        );
    }
}

/// Rows that a scan has found so far are seen as long as there is no manifest of
/// the scope, but for deleted sessions. They are no manifest.
pub proof fn first_rows_are_seen_at_once(
    before: AppView,
    request_id: u64,
    scope_epoch: u64,
    scope: String,
    rows: Vec<SessionMeta>,
    after: AppView,
)
    requires
        session_received(
            before,
            (SessionMsg::ScanProvisional { request_id, scope_epoch, scope, rows }),
            after,
        ),
        before.sessions.scan_active == Some(request_id),
    ensures
        only_sessions(before, after),
        after.sessions.page == before.sessions.page,
        after.sessions.scan_active == before.sessions.scan_active,
        after.sessions.loading == before.sessions.loading,
        after.sessions.loaded_once == before.sessions.loaded_once,
        before.sessions.page is Some || before.sessions.scope_epoch != scope_epoch
            || before.sessions.provider_id != Some(scope@) ==> after == before,
        before.sessions.page is None && before.sessions.scope_epoch == scope_epoch
            && before.sessions.provider_id == Some(scope@) ==> {
            &&& after.sessions.rows == seen_rows(before.sessions, views(rows@))
            &&& after.sessions.rows.len() > 0 ==> after.sessions.selected_idx
                < after.sessions.rows.len()
            &&& after.sessions.rows.len() == views(rows@).len() && before.sessions.selected_idx
                < after.sessions.rows.len() && after.sessions.rows == views(rows@)
                ==> after.sessions.selected_idx == before.sessions.selected_idx
            &&& after.sessions.rows.len() <= usize::MAX ==> after.sessions.pagination.len
                == after.sessions.rows.len()
        },
{
    let s = before.sessions;
    let all = views(rows@);
    lemma_seen_rows(s, all);
    let upto = if s.selected_idx < all.len() {
        s.selected_idx as int
    } else {
        all.len() as int
    };
    lemma_seen_rows(s, all.take(upto));
    if seen_rows(s, all) == all {
        lemma_seen_prefix(s, all, upto);
    }
}

proof fn lemma_seen_len(s: SessionsView, rows: Seq<SessionMetaView>)
    ensures
        seen_rows(s, rows).len() <= rows.len(),
        seen_rows(s, rows).len() == rows.len() ==> forall|i: int|
            0 <= i < rows.len() ==> !buried(s, (#[trigger] rows[i]).key()),
    decreases rows.len(),
{
    reveal(Seq::filter);
    if rows.len() > 0 {
        lemma_seen_len(s, rows.drop_last());
        if seen_rows(s, rows).len() == rows.len() {
            assert forall|i: int| 0 <= i < rows.len() implies !buried(
                s,
                (#[trigger] rows[i]).key(),
            ) by {
                if i < rows.len() - 1 {
                    assert(rows.drop_last()[i] == rows[i]);
                }
            }
        }
    }
}

proof fn lemma_seen_prefix(s: SessionsView, rows: Seq<SessionMetaView>, n: int)
    requires
        seen_rows(s, rows) == rows,
        0 <= n <= rows.len(),
    ensures
        seen_rows(s, rows.take(n)).len() == n,
    decreases n,
{
    reveal(Seq::filter);
    lemma_seen_len(s, rows);
    if n > 0 {
        lemma_seen_prefix(s, rows, n - 1);
        assert(rows.take(n).drop_last() =~= rows.take(n - 1));
        assert(rows.take(n).last() == rows[n - 1]);
    }
}

// Deletions that a manifest settles.

/// The same deletions are remembered; only where they are settled may differ.
pub open spec fn same_deletions(a: Seq<TombstoneView>, b: Seq<TombstoneView>) -> bool {
    &&& a.len() == b.len()
    &&& forall|i: int|
        0 <= i < a.len() ==> {
            &&& (#[trigger] b[i]).key == a[i].key
            &&& b[i].request_id == a[i].request_id
            &&& b[i].after_scan == a[i].after_scan
            &&& forall|scope: Seq<char>| #[trigger]
                a[i].cleared.contains(scope) ==> b[i].cleared.contains(scope)
        }
}

proof fn lemma_cleared(tombstones: Seq<TombstoneView>, deleted: DeletedView, scope: Seq<char>)
    ensures
        same_deletions(tombstones, cleared(tombstones, deleted, scope)),
        forall|i: int|
            0 <= i < tombstones.len() ==> {
                let after = (#[trigger] cleared(tombstones, deleted, scope)[i]).cleared;
                if tombstones[i].key == deleted.key && tombstones[i].request_id
                    == deleted.request_id {
                    after.contains(scope) && forall|other: Seq<char>|
                        other != scope && #[trigger] after.contains(other)
                            ==> tombstones[i].cleared.contains(other)
                } else {
                    after == tombstones[i].cleared
                }
            },
{
    let after = cleared(tombstones, deleted, scope);
    assert forall|i: int| 0 <= i < tombstones.len() implies {
        &&& (#[trigger] after[i]).key == tombstones[i].key
        &&& after[i].request_id == tombstones[i].request_id
        &&& after[i].after_scan == tombstones[i].after_scan
        &&& forall|place: Seq<char>| #[trigger]
            tombstones[i].cleared.contains(place) ==> after[i].cleared.contains(place)
        &&& tombstones[i].is(deleted.request_id, deleted.key) ==> after[i].cleared.contains(scope)
        &&& tombstones[i].is(deleted.request_id, deleted.key) ==> forall|other: Seq<char>|
            other != scope && #[trigger] after[i].cleared.contains(other)
                ==> tombstones[i].cleared.contains(other)
    } by {
        let before = tombstones[i].cleared;
        if tombstones[i].is(deleted.request_id, deleted.key) {
            let pushed = before.push(scope);
            assert(after[i].cleared == pushed);
            assert(pushed[before.len() as int] == scope);
            assert forall|place: Seq<char>| #[trigger] before.contains(place) implies
                pushed.contains(place) by {
                let k = choose|k: int| 0 <= k < before.len() && before[k] == place;
                assert(pushed[k] == place);
            }
            assert forall|other: Seq<char>|
                other != scope && #[trigger] pushed.contains(other) implies before.contains(
                other,
            ) by {
                let k = choose|k: int| 0 <= k < pushed.len() && pushed[k] == other;
                assert(before[k] == other);
            }
        }
    }
}

proof fn lemma_all_cleared(
    tombstones: Seq<TombstoneView>,
    deleted: Seq<DeletedView>,
    scope: Seq<char>,
)
    ensures
        same_deletions(tombstones, all_cleared(tombstones, deleted, scope)),
        forall|i: int, k: int|
            0 <= i < tombstones.len() && 0 <= k < deleted.len() && tombstones[i].key
                == deleted[k].key && tombstones[i].request_id == deleted[k].request_id
                ==> #[trigger] all_cleared(tombstones, deleted, scope)[i].cleared.contains(scope)
                && #[trigger] deleted[k] == deleted[k],
        forall|i: int|
            0 <= i < tombstones.len() && !(exists|k: int|
                0 <= k < deleted.len() && (#[trigger] deleted[k]).key == tombstones[i].key
                    && deleted[k].request_id == tombstones[i].request_id)
                ==> #[trigger] all_cleared(tombstones, deleted, scope)[i] == tombstones[i],
    decreases deleted.len(),
{
    if deleted.len() > 0 {
        let rest = deleted.drop_last();
        let before = all_cleared(tombstones, rest, scope);
        let after = all_cleared(tombstones, deleted, scope);
        lemma_all_cleared(tombstones, rest, scope);
        lemma_cleared(before, deleted.last(), scope);
        assert(after == cleared(before, deleted.last(), scope));
        assert forall|i: int| 0 <= i < tombstones.len() implies {
            &&& (#[trigger] after[i]).key == tombstones[i].key
            &&& after[i].request_id == tombstones[i].request_id
            &&& after[i].after_scan == tombstones[i].after_scan
            &&& forall|place: Seq<char>| #[trigger]
                tombstones[i].cleared.contains(place) ==> after[i].cleared.contains(place)
        } by {
            assert(before[i].key == tombstones[i].key);
        }
        assert forall|i: int, k: int|
            0 <= i < tombstones.len() && 0 <= k < deleted.len() && tombstones[i].key
                == deleted[k].key && tombstones[i].request_id == deleted[k].request_id implies
            #[trigger] after[i].cleared.contains(scope) && #[trigger] deleted[k] == deleted[k] by {
            assert(before[i].key == tombstones[i].key);
            if k < rest.len() {
                assert(rest[k] == deleted[k]);
                assert(before[i].cleared.contains(scope));
                assert(after[i].cleared.contains(scope));
            }
        }
        assert forall|i: int|
            0 <= i < tombstones.len() && !(exists|k: int|
                0 <= k < deleted.len() && (#[trigger] deleted[k]).key == tombstones[i].key
                    && deleted[k].request_id == tombstones[i].request_id) implies
            #[trigger] after[i] == tombstones[i] by {
            assert(deleted[deleted.len() - 1] == deleted.last());
            if exists|k: int|
                0 <= k < rest.len() && (#[trigger] rest[k]).key == tombstones[i].key
                    && rest[k].request_id == tombstones[i].request_id {
                let k = choose|k: int|
                    0 <= k < rest.len() && (#[trigger] rest[k]).key == tombstones[i].key
                        && rest[k].request_id == tombstones[i].request_id;
                assert(deleted[k] == rest[k]);
            }
            assert(before[i] == tombstones[i]);
        }
    }
}

/// Whether a scan has caught up with a deletion: it began after the session was
/// gone, and the deletion is not settled in the scope.
pub open spec fn caught_up(t: TombstoneView, scan: u64, scope: Seq<char>) -> bool {
    t.after_scan < scan && !t.cleared.contains(scope)
}

pub open spec fn comes_from(
    tombstones: Seq<TombstoneView>,
    scan: u64,
    scope: Seq<char>,
    deleted: DeletedView,
) -> bool {
    exists|i: int|
        0 <= i < tombstones.len() && caught_up(#[trigger] tombstones[i], scan, scope)
            && tombstones[i].key == deleted.key && tombstones[i].request_id == deleted.request_id
}

proof fn lemma_safe_deletions(tombstones: Seq<TombstoneView>, scan: u64, scope: Seq<char>)
    ensures
        forall|i: int|
            0 <= i < tombstones.len() && caught_up(#[trigger] tombstones[i], scan, scope)
                ==> safe_deletions(tombstones, scan, scope).contains(
                DeletedView { request_id: tombstones[i].request_id, key: tombstones[i].key },
            ),
        forall|k: int|
            0 <= k < safe_deletions(tombstones, scan, scope).len() ==> comes_from(
                tombstones,
                scan,
                scope,
                #[trigger] safe_deletions(tombstones, scan, scope)[k],
            ),
    decreases tombstones.len(),
{
    if tombstones.len() > 0 {
        let front = tombstones.drop_last();
        let rest = safe_deletions(front, scan, scope);
        let all = safe_deletions(tombstones, scan, scope);
        lemma_safe_deletions(front, scan, scope);
        let last = tombstones.last();
        assert(caught_up(last, scan, scope) == (last.after_scan < scan && last.counts_in(
            Some(scope),
        )));
        assert forall|i: int|
            0 <= i < tombstones.len() && caught_up(
                #[trigger] tombstones[i],
                scan,
                scope,
            ) implies all.contains(
            DeletedView { request_id: tombstones[i].request_id, key: tombstones[i].key },
        ) by {
            let item = DeletedView {
                request_id: tombstones[i].request_id,
                key: tombstones[i].key,
            };
            if i < front.len() {
                assert(front[i] == tombstones[i]);
                let k = choose|k: int| 0 <= k < rest.len() && rest[k] == item;
                assert(all[k] == item);
            } else {
                assert(all[rest.len() as int] == item);
            }
        }
        assert forall|k: int| 0 <= k < all.len() implies comes_from(
            tombstones,
            scan,
            scope,
            #[trigger] all[k],
        ) by {
            if k < rest.len() {
                assert(all[k] == rest[k]);
                let i = choose|i: int|
                    0 <= i < front.len() && caught_up(#[trigger] front[i], scan, scope)
                        && front[i].key == rest[k].key && front[i].request_id
                        == rest[k].request_id;
                assert(tombstones[i] == front[i]);
            } else {
                assert(tombstones[tombstones.len() - 1] == last);
            }
        }
    }
}

/// The deletions that a scan has caught up with are settled in its scope, and
/// no others.
pub open spec fn settles_scanned(
    before: Seq<TombstoneView>,
    scan: u64,
    scope: Seq<char>,
    after: Seq<TombstoneView>,
) -> bool {
    &&& same_deletions(before, after)
    &&& forall|i: int|
        0 <= i < before.len() && caught_up(before[i], scan, scope) ==> (
        #[trigger] after[i]).cleared.contains(scope)
    &&& forall|i: int|
        0 <= i < before.len() && !(exists|j: int|
            0 <= j < before.len() && caught_up(#[trigger] before[j], scan, scope) && before[j].key
                == before[i].key && before[j].request_id == before[i].request_id) ==> (
        #[trigger] after[i]) == before[i]
}

proof fn lemma_settles_scanned(tombstones: Seq<TombstoneView>, scan: u64, scope: Seq<char>)
    ensures
        settles_scanned(
            tombstones,
            scan,
            scope,
            all_cleared(tombstones, safe_deletions(tombstones, scan, scope), scope),
        ),
{
    let safe = safe_deletions(tombstones, scan, scope);
    let after = all_cleared(tombstones, safe, scope);
    lemma_safe_deletions(tombstones, scan, scope);
    lemma_all_cleared(tombstones, safe, scope);
    assert forall|i: int|
        0 <= i < tombstones.len() && caught_up(tombstones[i], scan, scope) implies (
    #[trigger] after[i]).cleared.contains(scope) by {
        let item = DeletedView { request_id: tombstones[i].request_id, key: tombstones[i].key };
        assert(safe.contains(item));
        let k = choose|k: int| 0 <= k < safe.len() && safe[k] == item;
        assert(safe[k] == safe[k]);
    }
    assert forall|i: int|
        0 <= i < tombstones.len() && !(exists|j: int|
            0 <= j < tombstones.len() && caught_up(#[trigger] tombstones[j], scan, scope)
                && tombstones[j].key == tombstones[i].key && tombstones[j].request_id
                == tombstones[i].request_id) implies (#[trigger] after[i]) == tombstones[i] by {
        if exists|k: int|
            0 <= k < safe.len() && (#[trigger] safe[k]).key == tombstones[i].key
                && safe[k].request_id == tombstones[i].request_id {
            let k = choose|k: int|
                0 <= k < safe.len() && (#[trigger] safe[k]).key == tombstones[i].key
                    && safe[k].request_id == tombstones[i].request_id;
            assert(comes_from(tombstones, scan, scope, safe[k]));
        }
    }
}

/// A scan is over once its manifest is published. Where nothing was shown yet,
/// the first page is; where a page is, the manifest waits until the selected
/// session has been found in it, and nothing on the screen changes meanwhile;
/// where a search is wanted, it is made anew in the new manifest. A scan that
/// failed is told of.
pub proof fn scans_end_with_their_manifest(
    before: AppView,
    request_id: u64,
    scope_epoch: u64,
    scope: String,
    published: PublishedManifest,
    reader: ManifestReader,
    after: AppView,
)
    requires
        session_received(
            before,
            (SessionMsg::ManifestPublished {
                request_id,
                scope_epoch,
                scope,
                result: Ok((published, reader)),
            }),
            after,
        ),
        before.sessions.scan_active == Some(request_id),
        before.sessions.scope_epoch == scope_epoch,
        before.sessions.provider_id == Some(scope@),
    ensures
        only_sessions(before, after),
        after.toast == before.toast,
        ({
            let s = before.sessions;
            let t = after.sessions;
            let named = BaseManifestView {
                scope_epoch,
                scope: scope@,
                generation: published.generation@,
                total_rows: published.total_rows,
                reader,
            };
            let wanted = s.deep_search_query matches Some(query) && query.len() > 0;
            &&& t.base_manifest == newest(s, named)
            &&& wanted ==> after.pending_deep_search == s.deep_search_query
                && t.deep_search_active is None
            &&& !wanted ==> after.pending_deep_search == before.pending_deep_search
                && t.deep_search_active == s.deep_search_active
            &&& s.page is None ==> {
                &&& t.scan_active is None && !t.loading
                &&& settles_scanned(s.purge_tombstones, request_id, scope@, t.purge_tombstones)
                &&& shows_page(
                    SessionsView { base_manifest: t.base_manifest, ..s },
                    PageView {
                        token: PageTokenView {
                            source: SessionPageSource::Base,
                            scope_epoch,
                            scope: scope@,
                            generation: published.generation@,
                        },
                        reader,
                        total_rows: published.total_rows,
                        index: published.first_page.page_index,
                    },
                    views(published.first_page.rows@),
                    s.selected_idx as int,
                    None,
                    SessionsView { purge_tombstones: s.purge_tombstones, ..t },
                )
            }
            &&& s.page is Some ==> {
                &&& t.rows == s.rows
                &&& t.page == s.page
                &&& t.selected_idx == s.selected_idx
                &&& t.detail_key == s.detail_key
                &&& t.messages == s.messages
                &&& t.pagination == s.pagination
                &&& t.materialized_query == s.materialized_query
                &&& t.purge_tombstones == s.purge_tombstones
            }
            &&& s.page is Some && wanted ==> {
                &&& t.scan_active is None && !t.loading
                &&& t.pending_manifest == s.pending_manifest
            }
            &&& s.page is Some && !wanted ==> {
                &&& t.scan_active == s.scan_active
                &&& t.query_tombstones == s.query_tombstones
                &&& t.pending_manifest is Some
                &&& t.pending_manifest->0.source == SessionPageSource::Base
                &&& t.pending_manifest->0.scan_request == Some(request_id)
                &&& t.pending_manifest->0.scope_epoch == scope_epoch
                &&& t.pending_manifest->0.scope == scope@
                &&& t.pending_manifest->0.generation == published.generation@
                &&& t.pending_manifest->0.total_rows == published.total_rows
                &&& t.pending_manifest->0.reader == reader
                &&& t.pending_manifest->0.locate_request is None
            }
            &&& s.page is Some ==> forall|i: int|
                0 <= i < s.purge_tombstones.len() && caught_up(
                    #[trigger] s.purge_tombstones[i],
                    request_id,
                    scope@,
                ) ==> (if wanted {
                    t.query_tombstones
                } else {
                    t.pending_manifest->0.tombstones
                }).contains(
                    DeletedView {
                        request_id: s.purge_tombstones[i].request_id,
                        key: s.purge_tombstones[i].key,
                    },
                )
        }),
{
    let s = before.sessions;
    let named = BaseManifestView {
        scope_epoch,
        scope: scope@,
        generation: published.generation@,
        total_rows: published.total_rows,
        reader,
    };
    let based = s.with_base(named);
    assert(based == (SessionsView { base_manifest: newest(s, named), ..s }));
    let safe = safe_deletions(s.purge_tombstones, request_id, scope@);
    lemma_safe_deletions(s.purge_tombstones, request_id, scope@);
    lemma_settles_scanned(s.purge_tombstones, request_id, scope@);
    assert forall|item: DeletedView| #[trigger] safe.contains(item) implies (s.query_tombstones
        + safe).contains(item) by {
        let k = choose|k: int| 0 <= k < safe.len() && safe[k] == item;
        assert((s.query_tombstones + safe)[s.query_tombstones.len() + k] == item);
    }
    lemma_installed(
        based,
        PageView {
            token: PageTokenView {
                source: SessionPageSource::Base,
                scope_epoch,
                scope: scope@,
                generation: published.generation@,
            },
            reader,
            total_rows: published.total_rows,
            index: published.first_page.page_index,
        },
        views(published.first_page.rows@),
        s.selected_idx,
        None,
    );
    reveal(SessionsView::installed);
}

/// A scan that failed is over, and told of. Its error stands on the screen where
/// nothing else does.
pub proof fn failed_scans_are_told(
    before: AppView,
    request_id: u64,
    scope_epoch: u64,
    scope: String,
    error: String,
    after: AppView,
)
    requires
        session_received(
            before,
            (SessionMsg::ManifestPublished {
                request_id,
                scope_epoch,
                scope,
                result: Err(error),
            }),
            after,
        ),
        before.sessions.scan_active == Some(request_id),
    ensures
        notices(after, ToastKind::Warning, TextKey::SessionsRefreshFailed, seq![error@]),
        only_sessions(before, after),
        after.pending_deep_search == before.pending_deep_search,
        after.sessions == (SessionsView {
            scan_active: None,
            loading: false,
            last_error: if before.sessions.page is None {
                Some(error@)
            } else {
                before.sessions.last_error
            },
            ..before.sessions
        }),
{
}

/// The manifest that waited is shown once the selected session has been found in
/// it: the page that it stands on, with it selected. The deletions that the
/// manifest settles are settled. Where the place could not be found out, the
/// rows stay, and deletions that waited call for a fresh scan.
pub proof fn waiting_manifests_are_shown(
    before: AppView,
    request_id: u64,
    scope_epoch: u64,
    generation: String,
    result: Result<(ManifestReader, ManifestPage, usize), String>,
    after: AppView,
)
    requires
        session_received(
            before,
            (SessionMsg::ManifestLocated { request_id, scope_epoch, generation, result }),
            after,
        ),
        before.sessions.pending_manifest is Some,
        before.sessions.pending_manifest->0.locate_request == Some(request_id),
        before.sessions.pending_manifest->0.scope_epoch == scope_epoch,
        before.sessions.pending_manifest->0.generation == generation@,
        before.sessions.scope_epoch == scope_epoch,
    ensures
        after == (AppView { sessions: after.sessions, ..before }),
        after.sessions.pending_manifest is None,
        ({
            let s = before.sessions;
            let t = after.sessions;
            let pending = s.pending_manifest->0;
            let scanned = pending.scan_request is Some && pending.scan_request == s.scan_active;
            &&& scanned ==> t.scan_active is None && !t.loading
            &&& !scanned ==> t.scan_active == s.scan_active && t.loading == s.loading
            &&& result matches Ok((reader, page, selected)) ==> {
                &&& same_deletions(s.purge_tombstones, t.purge_tombstones)
                &&& forall|i: int, k: int|
                    0 <= i < s.purge_tombstones.len() && 0 <= k < pending.tombstones.len()
                        && s.purge_tombstones[i].key == pending.tombstones[k].key
                        && s.purge_tombstones[i].request_id == pending.tombstones[k].request_id
                        ==> #[trigger] t.purge_tombstones[i].cleared.contains(pending.scope)
                        && #[trigger] pending.tombstones[k] == pending.tombstones[k]
                &&& forall|i: int|
                    0 <= i < s.purge_tombstones.len() && !(exists|k: int|
                        0 <= k < pending.tombstones.len() && (#[trigger] pending.tombstones[k]).key
                            == s.purge_tombstones[i].key && pending.tombstones[k].request_id
                            == s.purge_tombstones[i].request_id) ==> (
                    #[trigger] t.purge_tombstones[i]) == s.purge_tombstones[i]
                &&& shows_page(
                    SessionsView {
                        pending_manifest: None,
                        purge_tombstones: t.purge_tombstones,
                        ..s
                    },
                    PageView {
                        token: PageTokenView {
                            source: pending.source,
                            scope_epoch,
                            scope: pending.scope,
                            generation: generation@,
                        },
                        reader,
                        total_rows: pending.total_rows,
                        index: page.page_index,
                    },
                    views(page.rows@),
                    selected as int,
                    if pending.source == SessionPageSource::Query {
                        s.materialized_query
                    } else {
                        None
                    },
                    t,
                )
            }
            &&& result matches Err(error) ==> {
                &&& t.last_error == Some(error@)
                &&& t.rows == s.rows && t.page == s.page && t.selected_idx == s.selected_idx
                &&& t.purge_tombstones == s.purge_tombstones
                &&& t.purge_refresh == (s.purge_refresh || pending.tombstones.len() > 0)
            }
        }),
{
    let s = before.sessions;
    let pending = s.pending_manifest->0;
    if let Ok((reader, page, selected)) = result {
        let tombstones = all_cleared(s.purge_tombstones, pending.tombstones, pending.scope);
        lemma_all_cleared(s.purge_tombstones, pending.tombstones, pending.scope);
        reveal(SessionsView::installed);
        lemma_installed(
            SessionsView { pending_manifest: None, purge_tombstones: tombstones, ..s },
            PageView {
                token: PageTokenView {
                    source: pending.source,
                    scope_epoch: pending.scope_epoch,
                    scope: pending.scope,
                    generation: pending.generation,
                },
                reader,
                total_rows: pending.total_rows,
                index: page.page_index,
            },
            views(page.rows@),
            selected,
            if pending.source == SessionPageSource::Query {
                s.materialized_query
            } else {
                None
            },
        );
    }
}

/// The messages of the session that is looked at are shown as they come, with
/// one of them selected. That they cannot be read is told.
pub proof fn messages_asked_for_are_shown(
    before: AppView,
    request_id: u64,
    key: String,
    result: Result<Vec<SessionMessage>, String>,
    after: AppView,
)
    requires
        session_received(
            before,
            (SessionMsg::MessagesLoaded { request_id, key, result }),
            after,
        ),
        before.sessions.message_active == Some(request_id),
        before.sessions.detail_key == Some(key@),
    ensures
        only_sessions(before, after),
        after.pending_deep_search == before.pending_deep_search,
        after.sessions.message_active is None,
        !after.sessions.messages_loading,
        after.sessions.detail_key == before.sessions.detail_key,
        after.sessions.rows == before.sessions.rows,
        after.sessions.pane == before.sessions.pane,
        result matches Ok(messages) ==> {
            &&& after.toast == before.toast
            &&& after.sessions.messages == views(messages@)
            &&& after.sessions.messages_loaded
            &&& after.sessions.messages.len() > 0 ==> after.sessions.message_selected
                < after.sessions.messages.len()
            &&& before.sessions.message_selected < messages@.len()
                ==> after.sessions.message_selected == before.sessions.message_selected
            &&& messages@.len() <= before.sessions.message_selected && messages@.len() > 0
                ==> after.sessions.message_selected == messages@.len() - 1
        },
        result matches Err(error) ==> {
            &&& notices(
                after,
                ToastKind::Warning,
                TextKey::SessionsMessagesFailed,
                seq![error@],
            )
            &&& after.sessions.last_error == Some(error@)
            &&& after.sessions.messages == before.sessions.messages
            &&& after.sessions.messages_loaded == before.sessions.messages_loaded
        },
{
}

proof fn lemma_without_key(rows: Seq<SessionMetaView>, key: Seq<char>)
    ensures
        without(rows, set![key]) == rows.filter(|row: SessionMetaView| row.key() != key),
    decreases rows.len(),
{
    reveal(Seq::filter);
    if rows.len() > 0 {
        lemma_without_key(rows.drop_last(), key);
        assert(set![key].contains(rows.last().key()) == (rows.last().key() == key));
    }
}

proof fn lemma_without_number(numbers: Seq<u64>, number: u64)
    ensures
        without_number(numbers, number) == numbers.filter(|n: u64| n != number),
    decreases numbers.len(),
{
    reveal(Seq::filter);
    if numbers.len() > 0 {
        lemma_without_number(numbers.drop_last(), number);
    }
}

proof fn lemma_without_tombstone(tombstones: Seq<TombstoneView>, key: Seq<char>)
    ensures
        without_tombstone(tombstones, key) == tombstones.filter(|t: TombstoneView| t.key != key),
    decreases tombstones.len(),
{
    reveal(Seq::filter);
    if tombstones.len() > 0 {
        lemma_without_tombstone(tombstones.drop_last(), key);
    }
}

proof fn lemma_restored_keeps(listed: AppView, anchor: AnchorView, shown: AppView)
    requires
        restores(listed, anchor, shown),
    ensures
        shown == (AppView { sessions: shown.sessions, ..listed }),
        shown.sessions.rows == listed.sessions.rows,
        shown.sessions.page == listed.sessions.page,
        shown.sessions.delete_active == listed.sessions.delete_active,
        shown.sessions.purge_tombstones == listed.sessions.purge_tombstones,
        shown.sessions.scan_seq == listed.sessions.scan_seq,
        listed.sessions.detail_key is None ==> shown.sessions.detail_key is None
            && shown.sessions.messages == listed.sessions.messages,
{
    let (first, second) = choose|first: Option<usize>, second: Option<usize>| #[trigger]
        restores_by(listed, anchor, first, second, shown);
    assert(shown == restored(listed, anchor, first, second));
}

/// A deleted session is gone from the list at once, the others stay, and the
/// deletion is remembered until the manifests have caught up. It counts from the
/// scans that begin later on. Messages of the session are put away.
pub proof fn deleted_sessions_are_gone(
    before: AppView,
    request_id: u64,
    key: String,
    after: AppView,
)
    requires
        session_received(
            before,
            (SessionMsg::DeleteFinished { request_id, key, result: Ok(()) }),
            after,
        ),
        before.sessions.delete_active.contains(request_id),
    ensures
        only_sessions(before, after),
        notices(after, ToastKind::Success, TextKey::SessionsDeleteFinished, Seq::empty()),
        after.sessions.rows == before.sessions.rows.filter(
            |row: SessionMetaView| row.key() != key@,
        ),
        after.sessions.delete_active == before.sessions.delete_active.filter(
            |n: u64| n != request_id,
        ),
        after.sessions.purge_tombstones == before.sessions.purge_tombstones.filter(
            |t: TombstoneView| t.key != key@,
        ).push(
            TombstoneView {
                key: key@,
                request_id,
                after_scan: before.sessions.scan_seq,
                cleared: Seq::empty(),
            },
        ),
        before.sessions.detail_key == Some(key@) ==> after.sessions.detail_key is None
            && after.sessions.messages.len() == 0,
        before.sessions.page matches Some(page) ==> {
            let fewer = before.sessions.rows.len() - after.sessions.rows.len();
            &&& after.sessions.page is Some
            &&& after.sessions.page->0.token == page.token
            &&& after.sessions.page->0.index == page.index
            &&& after.sessions.page->0.reader == page.reader
            &&& page.total_rows >= fewer ==> after.sessions.page->0.total_rows == page.total_rows
                - fewer
        },
        before.sessions.page is None ==> after.sessions.page is None,
{
    lemma_without_key(before.sessions.rows, key@);
    lemma_without_number(before.sessions.delete_active, request_id);
    lemma_without_tombstone(before.sessions.purge_tombstones, key@);
    let shown = choose|shown: AppView| #[trigger]
        deletion_shown(before, request_id, key@, shown, after);
    lemma_restored_keeps(
        before.with_sessions(before.sessions.deleted(request_id, key@)),
        anchored(before),
        shown,
    );
}

/// A session that could not be deleted stays, and the failure is told.
pub proof fn failed_deletions_keep_the_session(
    before: AppView,
    request_id: u64,
    key: String,
    error: String,
    after: AppView,
)
    requires
        session_received(
            before,
            (SessionMsg::DeleteFinished { request_id, key, result: Err(error) }),
            after,
        ),
        before.sessions.delete_active.contains(request_id),
    ensures
        notices(after, ToastKind::Warning, TextKey::SessionsDeleteFailed, seq![error@]),
        only_sessions(before, after),
        after.sessions == (SessionsView {
            delete_active: before.sessions.delete_active.filter(|n: u64| n != request_id),
            ..before.sessions
        }),
{
    lemma_without_number(before.sessions.delete_active, request_id);
}

// A deletion reaches the manifests.

proof fn lemma_settled_elsewhere(
    tombstones: Seq<TombstoneView>,
    deleted: DeletedView,
    manifests: Seq<PurgedView>,
    scope: Option<Seq<char>>,
)
    ensures
        same_deletions(tombstones, settled_elsewhere(tombstones, deleted, manifests, scope)),
        forall|i: int, k: int|
            0 <= i < tombstones.len() && 0 <= k < manifests.len() && tombstones[i].key
                == deleted.key && tombstones[i].request_id == deleted.request_id && scope != Some(
                manifests[k].scope,
            ) ==> (#[trigger] settled_elsewhere(
                tombstones,
                deleted,
                manifests,
                scope,
            )[i]).cleared.contains((#[trigger] manifests[k]).scope),
        forall|i: int|
            0 <= i < tombstones.len() && !(tombstones[i].key == deleted.key
                && tombstones[i].request_id == deleted.request_id) ==> (
            #[trigger] settled_elsewhere(tombstones, deleted, manifests, scope)[i])
                == tombstones[i],
        forall|i: int, place: Seq<char>|
            0 <= i < tombstones.len() && scope == Some(place) && (#[trigger] settled_elsewhere(
                tombstones,
                deleted,
                manifests,
                scope,
            )[i]).cleared.contains(place) ==> #[trigger] tombstones[i].cleared.contains(place),
    decreases manifests.len(),
{
    if manifests.len() > 0 {
        let front = manifests.drop_last();
        let before = settled_elsewhere(tombstones, deleted, front, scope);
        let after = settled_elsewhere(tombstones, deleted, manifests, scope);
        let last = manifests.last();
        lemma_settled_elsewhere(tombstones, deleted, front, scope);
        lemma_cleared(before, deleted, last.scope);
        assert forall|i: int| 0 <= i < tombstones.len() implies {
            &&& (#[trigger] after[i]).key == tombstones[i].key
            &&& after[i].request_id == tombstones[i].request_id
            &&& after[i].after_scan == tombstones[i].after_scan
            &&& forall|place: Seq<char>| #[trigger]
                tombstones[i].cleared.contains(place) ==> after[i].cleared.contains(place)
        } by {
            assert(before[i].key == tombstones[i].key);
        }
        assert forall|i: int, k: int|
            0 <= i < tombstones.len() && 0 <= k < manifests.len() && tombstones[i].key
                == deleted.key && tombstones[i].request_id == deleted.request_id && scope != Some(
                manifests[k].scope,
            ) implies (#[trigger] after[i]).cleared.contains((#[trigger] manifests[k]).scope) by {
            assert(before[i].key == tombstones[i].key);
            if k < front.len() {
                assert(front[k] == manifests[k]);
                assert(before[i].cleared.contains(front[k].scope));
            }
        }
        assert forall|i: int|
            0 <= i < tombstones.len() && !(tombstones[i].key == deleted.key
                && tombstones[i].request_id == deleted.request_id) implies (#[trigger] after[i])
            == tombstones[i] by {
            assert(before[i] == tombstones[i]);
        }
        assert forall|i: int, place: Seq<char>|
            0 <= i < tombstones.len() && scope == Some(place) && (
            #[trigger] after[i]).cleared.contains(place) implies #[trigger] tombstones[
            i].cleared.contains(place) by {
            assert(before[i].key == tombstones[i].key);
            assert(before[i].cleared.contains(place));
        }
    }
}

proof fn lemma_manifest_of(manifests: Seq<PurgedView>, scope: Seq<char>)
    ensures
        match manifest_of(manifests, Some(scope)) {
            Some(purged) => manifests.contains(purged) && purged.scope == scope,
            None => forall|k: int|
                0 <= k < manifests.len() ==> (#[trigger] manifests[k]).scope != scope,
        },
    decreases manifests.len(),
{
    if manifests.len() > 0 {
        let front = manifests.drop_last();
        lemma_manifest_of(front, scope);
        assert(manifests.last() == manifests[manifests.len() - 1]);
        match manifest_of(front, Some(scope)) {
            Some(purged) => {
                let k = choose|k: int| 0 <= k < front.len() && front[k] == purged;
                assert(manifests[k] == purged);
            },
            None => {
                assert forall|k: int| 0 <= k < front.len() implies (
                #[trigger] manifests[k]).scope != scope by {
                    assert(front[k] == manifests[k]);
                }
            },
        }
    }
}

/// A deletion is remembered under a number.
pub open spec fn remembered(s: SessionsView, request_id: u64, key: Seq<char>) -> bool {
    exists|i: int|
        0 <= i < s.purge_tombstones.len() && (#[trigger] s.purge_tombstones[i]).key == key
            && s.purge_tombstones[i].request_id == request_id
}

proof fn lemma_remembered(s: SessionsView, request_id: u64, key: Seq<char>)
    ensures
        remembered(s, request_id, key) == is_current(s.purge_tombstones, request_id, key),
{
    if remembered(s, request_id, key) {
        let i = choose|i: int|
            0 <= i < s.purge_tombstones.len() && (#[trigger] s.purge_tombstones[i]).key == key
                && s.purge_tombstones[i].request_id == request_id;
        assert(s.purge_tombstones[i].is(request_id, key));
    }
    if is_current(s.purge_tombstones, request_id, key) {
        let i = choose|i: int|
            0 <= i < s.purge_tombstones.len() && (#[trigger] s.purge_tombstones[i]).is(
                request_id,
                key,
            );
        assert(s.purge_tombstones[i].key == key);
    }
}

proof fn lemma_purge_keeps(
    before: AppView,
    request_id: u64,
    key: Seq<char>,
    manifests: Seq<PurgedView>,
)
    ensures
        ({
            let s = before.sessions;
            let after = purge_received(before, request_id, key, manifests);
            let t = after.sessions;
            &&& only_sessions(before, after)
            &&& after.toast == before.toast
            &&& t.rows == s.rows && t.page == s.page && t.selected_idx == s.selected_idx
            &&& t.detail_key == s.detail_key && t.messages == s.messages
            &&& t.materialized_query == s.materialized_query
            &&& is_current(s.purge_tombstones, request_id, key) ==> t.purge_tombstones
                == settled_elsewhere(
                s.purge_tombstones,
                DeletedView { request_id, key },
                manifests,
                s.provider_id,
            )
            &&& !is_current(s.purge_tombstones, request_id, key) ==> after == before
        }),
{
}

/// Manifests without a deleted session settle its deletion in their scopes,
/// except in the one that is looked at, where the manifest has yet to be shown.
/// No other deletion is touched, and nothing on the screen changes.
pub proof fn purges_settle_deletions(
    before: AppView,
    request_id: u64,
    key: String,
    base: Vec<PurgedManifest>,
    after: AppView,
)
    requires
        session_received(
            before,
            (SessionMsg::ManifestsPurged { request_id, key, base }),
            after,
        ),
    ensures
        only_sessions(before, after),
        after.toast == before.toast,
        !remembered(before.sessions, request_id, key@) ==> after == before,
        after.sessions.rows == before.sessions.rows,
        after.sessions.page == before.sessions.page,
        after.sessions.selected_idx == before.sessions.selected_idx,
        after.sessions.detail_key == before.sessions.detail_key,
        after.sessions.messages == before.sessions.messages,
        after.sessions.materialized_query == before.sessions.materialized_query,
        remembered(before.sessions, request_id, key@) ==> {
            let s = before.sessions;
            let t = after.sessions;
            let manifests = views(base@);
            &&& same_deletions(s.purge_tombstones, t.purge_tombstones)
            &&& forall|i: int|
                0 <= i < s.purge_tombstones.len() && !(s.purge_tombstones[i].key == key@
                    && s.purge_tombstones[i].request_id == request_id) ==> (
                #[trigger] t.purge_tombstones[i]) == s.purge_tombstones[i]
            &&& forall|i: int, k: int|
                0 <= i < s.purge_tombstones.len() && 0 <= k < manifests.len()
                    && s.purge_tombstones[i].key == key@ && s.purge_tombstones[i].request_id
                    == request_id && s.provider_id != Some(manifests[k].scope) ==> (
                #[trigger] t.purge_tombstones[i]).cleared.contains((#[trigger] manifests[k]).scope)
        },
{
    lemma_remembered(before.sessions, request_id, key@);
    lemma_purge_keeps(before, request_id, key@, views(base@));
    if remembered(before.sessions, request_id, key@) {
        lemma_settled_elsewhere(
            before.sessions.purge_tombstones,
            DeletedView { request_id, key: key@ },
            views(base@),
            before.sessions.provider_id,
        );
    }
}

/// Where the scope looked at has no manifest without the deleted session, a
/// fresh scan is called for, unless the deletion is settled there.
pub proof fn purges_without_a_manifest_call_for_a_scan(
    before: AppView,
    request_id: u64,
    key: String,
    base: Vec<PurgedManifest>,
    after: AppView,
    scope: Seq<char>,
    i: int,
)
    requires
        session_received(
            before,
            (SessionMsg::ManifestsPurged { request_id, key, base }),
            after,
        ),
        before.sessions.provider_id == Some(scope),
        forall|k: int| 0 <= k < views(base@).len() ==> (#[trigger] views(base@)[k]).scope != scope,
        0 <= i < before.sessions.purge_tombstones.len(),
        before.sessions.purge_tombstones[i].key == key@,
        before.sessions.purge_tombstones[i].request_id == request_id,
        !before.sessions.purge_tombstones[i].cleared.contains(scope),
    ensures
        after.sessions.purge_refresh,
        after.sessions.base_manifest == before.sessions.base_manifest,
        after.sessions.pending_manifest == before.sessions.pending_manifest,
        after.sessions.query_tombstones == before.sessions.query_tombstones,
        after.pending_deep_search == before.pending_deep_search,
{
    let s = before.sessions;
    let manifests = views(base@);
    let deleted = DeletedView { request_id, key: key@ };
    let settled = settled_elsewhere(s.purge_tombstones, deleted, manifests, s.provider_id);
    assert(s.purge_tombstones[i].is(request_id, key@));
    lemma_settled_elsewhere(s.purge_tombstones, deleted, manifests, s.provider_id);
    lemma_manifest_of(manifests, scope);
    if let Some(purged) = manifest_of(manifests, s.provider_id) {
        let k = choose|k: int| 0 <= k < manifests.len() && manifests[k] == purged;
        assert(manifests[k].scope != scope);
    }
    assert(settled[i].key == key@);
    assert(!settled[i].cleared.contains(scope));
    assert(settled[i].is(request_id, key@) && settled[i].counts_in(Some(scope)));
    assert(applies(settled, request_id, key@, scope));
}

/// The manifest without the deleted session becomes the newest known of the
/// scope looked at and waits to be shown; under the findings of a search it
/// calls for the search to be made anew.
pub proof fn purged_manifests_take_over(
    before: AppView,
    request_id: u64,
    key: String,
    base: Vec<PurgedManifest>,
    after: AppView,
    scope: Seq<char>,
    at: int,
)
    requires
        session_received(
            before,
            (SessionMsg::ManifestsPurged { request_id, key, base }),
            after,
        ),
        remembered(before.sessions, request_id, key@),
        before.sessions.provider_id == Some(scope),
        0 <= at < views(base@).len(),
        views(base@)[at].scope == scope,
        forall|k: int|
            0 <= k < views(base@).len() && (#[trigger] views(base@)[k]).scope == scope ==> k == at,
    ensures
        ({
            let s = before.sessions;
            let t = after.sessions;
            let purged = views(base@)[at];
            let deleted = DeletedView { request_id, key: key@ };
            &&& t.purge_refresh == s.purge_refresh
            &&& t.base_manifest == newest(
                s,
                BaseManifestView {
                    scope_epoch: s.scope_epoch,
                    scope,
                    generation: purged.published.generation,
                    total_rows: purged.published.total_rows,
                    reader: purged.reader,
                },
            )
            &&& !shows_findings(s) ==> {
                &&& after.pending_deep_search == before.pending_deep_search
                &&& t.query_tombstones == s.query_tombstones
                &&& t.pending_manifest == Some(
                    PendingManifestView {
                        source: SessionPageSource::Base,
                        scan_request: match s.pending_manifest {
                            Some(waiting) => waiting.scan_request,
                            None => None,
                        },
                        scope_epoch: s.scope_epoch,
                        scope,
                        generation: t.base_manifest->0.generation,
                        total_rows: t.base_manifest->0.total_rows,
                        reader: t.base_manifest->0.reader,
                        locate_request: None,
                        tombstones: match s.pending_manifest {
                            Some(waiting) => waiting.tombstones.push(deleted),
                            None => Seq::empty().push(deleted),
                        },
                    },
                )
            }
            &&& shows_findings(s) ==> {
                &&& t.pending_manifest == s.pending_manifest
                &&& t.query_tombstones == s.query_tombstones.push(deleted)
                &&& s.deep_search_query is Some ==> after.pending_deep_search
                    == s.deep_search_query && t.deep_search_active is None
                &&& s.deep_search_query is None ==> after.pending_deep_search
                    == before.pending_deep_search && t.deep_search_active == s.deep_search_active
            }
        }),
{
    let s = before.sessions;
    let manifests = views(base@);
    let deleted = DeletedView { request_id, key: key@ };
    let settled = settled_elsewhere(s.purge_tombstones, deleted, manifests, s.provider_id);
    lemma_remembered(s, request_id, key@);
    lemma_settled_elsewhere(s.purge_tombstones, deleted, manifests, s.provider_id);
    lemma_manifest_of(manifests, scope);
    let i = choose|i: int|
        0 <= i < s.purge_tombstones.len() && (#[trigger] s.purge_tombstones[i]).key == key@
            && s.purge_tombstones[i].request_id == request_id;
    assert(settled[i].is(request_id, key@));
    assert(is_current(settled, request_id, key@));
    assert(manifest_of(manifests, s.provider_id) == Some(manifests[at]));
    let named = manifests[at].published.base(s.scope_epoch, scope, manifests[at].reader);
    let with = SessionsView { purge_tombstones: settled, ..s };
    assert(with.with_base(named) == (SessionsView { base_manifest: newest(s, named), ..with }));
}

// A search is over.

/// What a search found is shown from its first row on, under the query that was
/// typed, trimmed and in lower case; the deletions that waited for the search are
/// settled. The search is over then.
pub proof fn findings_are_shown(
    before: AppView,
    request_id: u64,
    scope_epoch: u64,
    scope: String,
    base_generation: String,
    query: String,
    query_namespace: String,
    published: PublishedManifest,
    reader: ManifestReader,
    after: AppView,
)
    requires
        session_received(
            before,
            (SessionMsg::QueryPublished {
                request_id,
                scope_epoch,
                scope,
                base_generation,
                query,
                query_namespace,
                result: Ok((published, reader)),
            }),
            after,
        ),
        before.sessions.deep_search_active == Some(request_id),
        before.sessions.scope_epoch == scope_epoch,
        before.sessions.provider_id == Some(scope@),
        before.sessions.query_namespace == query_namespace@,
        before.sessions.deep_search_query == Some(text_lowercase(trimmed(query@))),
        before.sessions.base_manifest is Some,
        before.sessions.base_manifest->0.scope_epoch == scope_epoch,
        before.sessions.base_manifest->0.scope == scope@,
        before.sessions.base_manifest->0.generation == base_generation@,
    ensures
        after == (AppView { sessions: after.sessions, ..before }),
        after.sessions.deep_search_active is None,
        after.sessions.deep_search_results.len() == 0,
        after.sessions.query_tombstones.len() == 0,
        same_deletions(before.sessions.purge_tombstones, after.sessions.purge_tombstones),
        forall|i: int, k: int|
            0 <= i < before.sessions.purge_tombstones.len() && 0 <= k
                < before.sessions.query_tombstones.len() && before.sessions.purge_tombstones[i].key
                == before.sessions.query_tombstones[k].key
                && before.sessions.purge_tombstones[i].request_id
                == before.sessions.query_tombstones[k].request_id
                ==> #[trigger] after.sessions.purge_tombstones[i].cleared.contains(scope@)
                && #[trigger] before.sessions.query_tombstones[k]
                == before.sessions.query_tombstones[k],
        shows_page(
            SessionsView {
                deep_search_active: None,
                deep_search_results: Seq::empty(),
                purge_tombstones: after.sessions.purge_tombstones,
                query_tombstones: Seq::empty(),
                ..before.sessions
            },
            (PageView {
                token: PageTokenView {
                    source: SessionPageSource::Query,
                    scope_epoch,
                    scope: scope@,
                    generation: published.generation@,
                },
                reader,
                total_rows: published.total_rows,
                index: published.first_page.page_index,
            }),
            views(published.first_page.rows@),
            0,
            Some(text_lowercase(trimmed(query@))),
            after.sessions,
        ),
{
    let s = before.sessions;
    lemma_all_cleared(s.purge_tombstones, s.query_tombstones, scope@);
    reveal(SessionsView::installed);
    let from = SessionsView {
        deep_search_active: None,
        deep_search_results: Seq::empty(),
        purge_tombstones: all_cleared(s.purge_tombstones, s.query_tombstones, scope@),
        query_tombstones: Seq::empty(),
        ..s
    };
    lemma_installed(
        from,
        PageView {
            token: PageTokenView {
                source: SessionPageSource::Query,
                scope_epoch,
                scope: scope@,
                generation: published.generation@,
            },
            reader,
            total_rows: published.total_rows,
            index: published.first_page.page_index,
        },
        views(published.first_page.rows@),
        0,
        Some(text_lowercase(trimmed(query@))),
    );
}

/// A search that failed is over and told of; what is shown stays. A search that
/// was made in a manifest that has been replaced is made anew.
pub proof fn searches_that_failed_or_aged(
    before: AppView,
    request_id: u64,
    scope_epoch: u64,
    scope: String,
    base_generation: String,
    query: String,
    query_namespace: String,
    result: Result<(PublishedManifest, ManifestReader), String>,
    after: AppView,
)
    requires
        session_received(
            before,
            (SessionMsg::QueryPublished {
                request_id,
                scope_epoch,
                scope,
                base_generation,
                query,
                query_namespace,
                result,
            }),
            after,
        ),
        before.sessions.scope_epoch == scope_epoch,
        before.sessions.query_namespace == query_namespace@,
        before.sessions.deep_search_query == Some(text_lowercase(trimmed(query@))),
    ensures
        ({
            let s = before.sessions;
            let t = after.sessions;
            let awaited = s.deep_search_active == Some(request_id) && s.provider_id == Some(scope@);
            let newest = s.base_manifest matches Some(base) && base.scope_epoch == scope_epoch
                && base.scope == scope@ && base.generation == base_generation@;
            &&& !(awaited && newest) ==> {
                &&& after.pending_deep_search == s.deep_search_query
                &&& t == (SessionsView { deep_search_active: None, ..s })
                &&& after.toast == before.toast
            }
            &&& awaited && newest ==> (result matches Err(error) ==> {
                &&& notices(
                    after,
                    ToastKind::Warning,
                    TextKey::SessionsRefreshFailed,
                    seq![error@],
                )
                &&& t.deep_search_active is None
                &&& t.rows == s.rows && t.page == s.page && t.selected_idx == s.selected_idx
                &&& t.materialized_query == s.materialized_query
                &&& s.page is None ==> t.last_error == Some(error@)
                &&& s.query_tombstones.len() == 0 ==> t.deep_search_query == s.deep_search_query
                    && after.pending_deep_search == before.pending_deep_search
                    && t.pending_manifest == s.pending_manifest
                &&& s.query_tombstones.len() > 0 ==> t.deep_search_query is None
                    && after.pending_deep_search is None
                &&& s.query_tombstones.len() > 0 ==> {
                    &&& t.query_tombstones.len() == 0
                    &&& t.pending_manifest is Some
                    &&& t.pending_manifest->0.generation == base_generation@
                    &&& t.pending_manifest->0.source == SessionPageSource::Base
                    &&& t.pending_manifest->0.locate_request is None
                    &&& forall|k: int|
                        0 <= k < s.query_tombstones.len() ==> t.pending_manifest->0.tombstones[
                        t.pending_manifest->0.tombstones.len() - s.query_tombstones.len() + k]
                            == #[trigger] s.query_tombstones[k]
                }
            })
        }),
{
}

/// What a search found that nobody wants any more is thrown away.
pub proof fn unwanted_findings_are_thrown_away(
    before: AppView,
    request_id: u64,
    scope_epoch: u64,
    scope: String,
    base_generation: String,
    query: String,
    query_namespace: String,
    result: Result<(PublishedManifest, ManifestReader), String>,
    after: AppView,
)
    requires
        session_received(
            before,
            (SessionMsg::QueryPublished {
                request_id,
                scope_epoch,
                scope,
                base_generation,
                query,
                query_namespace,
                result,
            }),
            after,
        ),
        before.sessions.scope_epoch != scope_epoch || before.sessions.query_namespace
            != query_namespace@ || before.sessions.deep_search_query != Some(
            text_lowercase(trimmed(query@)),
        ),
    ensures
        after == before,
{
}

} // verus!
