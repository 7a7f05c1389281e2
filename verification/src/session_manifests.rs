//! Manifests of the sessions screen that wait to be shown, the pages in them,
//! searches, and deletions.

use vstd::prelude::*;

use crate::base::{lemma_views_first, lemma_views_push, opt_view, views, Duplicate};
use crate::request::{following, next_number};
use crate::session_ops::{all_cleared, is_current, without};
use crate::sessions::{
    absolute, absolute_index, same_token, session_key, DeletedSession, DeletedView, ManifestReader,
    PageRequest, PageTokenView, PageView, PendingManifest, PendingManifestView, RemotePages,
    SessionMeta, SessionMetaView, SessionPage, SessionPageSource, SessionPageToken, SessionsState,
    SessionsView,
};

verus! {

// Pages.

impl SessionsView {
    /// Whether a page is the one that was asked for.
    pub open spec fn awaits_page(self, request_id: u64, token: PageTokenView, page: usize) -> bool {
        &&& self.remote.active == Some(PageRequest { request_id, page })
        &&& self.page matches Some(shown)
        &&& shown.token == token
    }

    pub open spec fn page_arrived(self, page: usize, rows: Seq<SessionMetaView>) -> SessionsView {
        let shown = self.page->0;
        self.installed(
            PageView { index: page, ..shown },
            rows,
            match self.remote.wanted {
                Some(wish) => wish.local,
                None => 0,
            },
            self.materialized_query,
        )
    }
}

/// What a page is asked for with.
#[derive(Debug)]
pub struct PageAsked {
    pub request_id: u64,
    pub token: SessionPageToken,
    pub reader: ManifestReader,
}

impl SessionsState {
    /// The page that is wanted and not asked for.
    pub fn pending_cross_page(&self) -> (page: Option<usize>)
        ensures
            page == (match (self@.remote.wanted, self@.remote.active) {
                (Some(wish), None) => Some(wish.page),
                _ => None,
            }),
    {
        match (self.remote.wanted, self.remote.active) {
            (Some(wish), None) => Some(wish.page),
            _ => None,
        }
    }

    /// Asks for a page of the manifest that is shown.
    pub fn next_page_request(&mut self, page: usize) -> (asked: Option<PageAsked>)
        ensures
            match asked {
                None => old(self)@.page is None && final(self)@ == old(self)@,
                Some(asked) => {
                    let id = following(old(self)@.remote.seq);
                    &&& old(self)@.page matches Some(shown)
                    &&& asked.request_id == id
                    &&& asked.token@ == shown.token
                    &&& asked.reader == shown.reader
                    &&& final(self)@ == (SessionsView {
                        remote: RemotePages {
                            seq: id,
                            active: Some(PageRequest { request_id: id, page }),
                            ..old(self)@.remote
                        },
                        ..old(self)@
                    })
                },
            },
    {
        match &self.page {
            None => None,
            Some(shown) => {
                let token = shown.token.duplicate();
                let reader = shown.reader;
                let request_id = next_number(self.remote.seq);
                self.remote.seq = request_id;
                self.remote.active = Some(PageRequest { request_id, page });
                Some(PageAsked { request_id, token, reader })
            },
        }
    }

    pub(crate) fn awaits(&self, request_id: u64, token: &SessionPageToken, page: usize) -> (result:
        bool)
        ensures
            result == self@.awaits_page(request_id, token@, page),
    {
        let active = match self.remote.active {
            Some(active) => active.request_id == request_id && active.page == page,
            None => false,
        };
        match &self.page {
            Some(shown) => active && same_token(&shown.token, token),
            None => false,
        }
    }

    /// A page has come. Only the one that was asked for is shown.
    pub fn finish_page_request(
        &mut self,
        request_id: u64,
        token: &SessionPageToken,
        page: usize,
        rows: Vec<SessionMeta>,
    )
        ensures
            final(self)@ == (if old(self)@.awaits_page(request_id, token@, page) {
                old(self)@.page_arrived(page, views(rows@))
            } else {
                old(self)@
            }),
    {
        if !self.awaits(request_id, token, page) {
            return ;
        }
        let local = match self.remote.wanted {
            Some(wish) => wish.local,
            None => 0,
        };
        reveal(SessionsView::installed);
        if let Some(mut shown) = self.page.take() {
            shown.index = page;
            let query = self.materialized_query.take();
            let ghost before = self@;
            self.install(shown, rows, local, query);
            assert(before.installed(shown@, views(rows@), local, opt_view(query))
                == old(self)@.page_arrived(page, views(rows@)));
        }
    }

    pub fn fail_page_request(
        &mut self,
        request_id: u64,
        token: &SessionPageToken,
        page: usize,
        error: String,
    )
        ensures
            final(self)@ == (if old(self)@.awaits_page(request_id, token@, page) {
                SessionsView {
                    remote: old(self)@.remote.idle(),
                    last_error: Some(error@),
                    ..old(self)@
                }
            } else {
                old(self)@
            }),
    {
        if self.awaits(request_id, token, page) {
            self.remote = RemotePages { wanted: None, active: None, ..self.remote };
            self.last_error = Some(error);
        }
    }
}

// Manifests that wait to be shown.

impl SessionsView {
    /// The search for the selected session in a waiting manifest is over.
    pub open spec fn located(
        self,
        request_id: u64,
        scope_epoch: u64,
        generation: Seq<char>,
    ) -> bool {
        &&& self.pending_manifest matches Some(pending)
        &&& pending.locate_request == Some(request_id)
        &&& pending.scope_epoch == scope_epoch
        &&& self.scope_epoch == scope_epoch
        &&& pending.generation == generation
    }

    /// The scan that a manifest came from is over.
    pub open spec fn scan_over(self, scan: Option<u64>) -> SessionsView {
        if scan is Some && self.scan_active == scan {
            SessionsView { scan_active: None, loading: false, ..self }
        } else {
            self
        }
    }

    /// A waiting manifest takes the place of the page shown.
    pub open spec fn reconciled(
        self,
        page_index: usize,
        rows: Seq<SessionMetaView>,
        selected_local: usize,
        reader: ManifestReader,
    ) -> SessionsView {
        let pending = self.pending_manifest->0;
        let freed = SessionsView {
            pending_manifest: None,
            purge_tombstones: all_cleared(
                self.purge_tombstones,
                pending.tombstones,
                pending.scope,
            ),
            ..self
        };
        freed.installed(
            PageView {
                token: PageTokenView {
                    source: pending.source,
                    scope_epoch: pending.scope_epoch,
                    scope: pending.scope,
                    generation: pending.generation,
                },
                reader,
                total_rows: pending.total_rows,
                index: page_index,
            },
            rows,
            selected_local,
            if pending.source == SessionPageSource::Query {
                self.materialized_query
            } else {
                None
            },
        ).scan_over(pending.scan_request)
    }

    /// A waiting manifest cannot be shown. The deletions that it would have
    /// settled are left to a fresh scan.
    pub open spec fn not_reconciled(self, error: Seq<char>) -> SessionsView {
        let pending = self.pending_manifest->0;
        SessionsView {
            pending_manifest: None,
            purge_refresh: self.purge_refresh || pending.tombstones.len() > 0,
            last_error: Some(error),
            ..self
        }.scan_over(pending.scan_request)
    }

    /// A manifest waits in place of the one that waited. A scan that the other
    /// was to end is ended by this one.
    pub open spec fn staged(self, pending: PendingManifestView) -> SessionsView {
        SessionsView { pending_manifest: Some(pending), ..self }
    }

    /// The scan that ends with the manifest that waits.
    pub open spec fn waiting_scan(self) -> Option<u64> {
        match self.pending_manifest {
            Some(pending) => pending.scan_request,
            None => None,
        }
    }

    pub open spec fn waiting_tombstones(self) -> Seq<DeletedView> {
        match self.pending_manifest {
            Some(pending) => pending.tombstones,
            None => Seq::empty(),
        }
    }
}

/// What the place of the selected session is asked for with.
#[derive(Debug)]
pub struct LocateAsked {
    pub request_id: u64,
    pub source: SessionPageSource,
    pub scope: String,
    pub generation: String,
    pub fallback_absolute: usize,
    pub anchor: Option<SessionMeta>,
    pub reader: ManifestReader,
}

impl SessionsState {
    /// Lets a scan's manifest wait. The result tells whether it comes from the
    /// scope that is listed.
    pub fn stage_manifest(
        &mut self,
        request_id: u64,
        scope_epoch: u64,
        scope: &String,
        generation: String,
        total_rows: usize,
        reader: ManifestReader,
    ) -> (staged: bool)
        ensures
            staged == old(self)@.in_scope(scope_epoch, scope@),
            final(self)@ == (if staged {
                old(self)@.staged(
                    PendingManifestView {
                        source: SessionPageSource::Base,
                        scan_request: Some(request_id),
                        scope_epoch,
                        scope: scope@,
                        generation: generation@,
                        total_rows,
                        reader,
                        locate_request: None,
                        tombstones: Seq::empty(),
                    },
                )
            } else {
                old(self)@
            }),
    {
        if !self.is_in_scope(scope_epoch, scope) {
            return false;
        }
        let pending = PendingManifest {
            source: SessionPageSource::Base,
            scan_request: Some(request_id),
            scope_epoch,
            scope: scope.duplicate(),
            generation,
            total_rows,
            reader,
            locate_request: None,
            tombstones: Vec::new(),
        };
        assert(pending@.tombstones =~= Seq::<DeletedView>::empty());
        self.pending_manifest = Some(pending);
        true
    }

    /// Notes which deleted sessions the waiting manifest holds no more.
    pub fn attach_pending_manifest_tombstones(&mut self, deleted: Vec<DeletedSession>)
        ensures
            final(self)@ == (match old(self)@.pending_manifest {
                Some(pending) => old(self)@.staged(
                    PendingManifestView { tombstones: views(deleted@), ..pending },
                ),
                None => old(self)@,
            }),
    {
        if let Some(mut pending) = self.pending_manifest.take() {
            pending.tombstones = deleted;
            self.pending_manifest = Some(pending);
        }
    }

    /// Lets a manifest wait from which a deleted session is gone. The result
    /// tells whether it comes from the scope that is listed, and the deletion
    /// is the last one of its session.
    pub fn stage_purged_manifest(
        &mut self,
        source: SessionPageSource,
        scope_epoch: u64,
        scope: &String,
        generation: String,
        total_rows: usize,
        reader: ManifestReader,
        request_id: u64,
        key: String,
    ) -> (staged: bool)
        ensures
            staged == (old(self)@.in_scope(scope_epoch, scope@) && is_current(
                old(self)@.purge_tombstones,
                request_id,
                key@,
            )),
            final(self)@ == (if staged {
                old(self)@.staged(
                    PendingManifestView {
                        source,
                        scan_request: old(self)@.waiting_scan(),
                        scope_epoch,
                        scope: scope@,
                        generation: generation@,
                        total_rows,
                        reader,
                        locate_request: None,
                        tombstones: old(self)@.waiting_tombstones().push(
                            DeletedView { request_id, key: key@ },
                        ),
                    },
                )
            } else {
                old(self)@
            }),
    {
        if !self.is_in_scope(scope_epoch, scope) || !self.purge_tombstone_is_current(
            request_id,
            &key,
        ) {
            return false;
        }
        let (scan_request, tombstones) = match self.pending_manifest.take() {
            Some(pending) => (pending.scan_request, pending.tombstones),
            None => (None, Vec::new()),
        };
        let mut tombstones = tombstones;
        assert(views(tombstones@) =~= old(self)@.waiting_tombstones());
        let deleted = DeletedSession { request_id, key };
        proof {
            lemma_views_push(tombstones@, deleted);
        }
        tombstones.push(deleted);
        let pending = PendingManifest {
            source,
            scan_request,
            scope_epoch,
            scope: scope.duplicate(),
            generation,
            total_rows,
            reader,
            locate_request: None,
            tombstones,
        };
        self.pending_manifest = Some(pending);
        true
    }

    /// Lets the newest manifest of the scope wait in place of a search, with
    /// the deletions that the search was to settle. The result tells whether
    /// there is one.
    pub fn stage_base_restore(&mut self) -> (staged: bool)
        ensures
            staged == (old(self)@.base_manifest is Some && old(self)@.in_scope(
                old(self)@.base_manifest->0.scope_epoch,
                old(self)@.base_manifest->0.scope,
            )),
            final(self)@ == (if staged {
                let base = old(self)@.base_manifest->0;
                SessionsView { query_tombstones: Seq::empty(), ..old(self)@ }.staged(
                    PendingManifestView {
                        source: SessionPageSource::Base,
                        scan_request: old(self)@.waiting_scan(),
                        scope_epoch: base.scope_epoch,
                        scope: base.scope,
                        generation: base.generation,
                        total_rows: base.total_rows,
                        reader: base.reader,
                        locate_request: None,
                        tombstones: old(self)@.waiting_tombstones()
                            + old(self)@.query_tombstones,
                    },
                )
            } else {
                old(self)@
            }),
    {
        let base = match &self.base_manifest {
            Some(base) => base.duplicate(),
            None => {
                return false;
            },
        };
        if !self.is_in_scope(base.scope_epoch, &base.scope) {
            return false;
        }
        let (scan_request, tombstones) = match self.pending_manifest.take() {
            Some(pending) => (pending.scan_request, pending.tombstones),
            None => (None, Vec::new()),
        };
        let mut tombstones = tombstones;
        assert(views(tombstones@) =~= old(self)@.waiting_tombstones());
        let ghost waiting = tombstones@;
        let ghost searched = self.query_tombstones@;
        tombstones.append(&mut self.query_tombstones);
        assert(views(waiting + searched) =~= views(waiting) + views(searched));
        let pending = PendingManifest {
            source: SessionPageSource::Base,
            scan_request,
            scope_epoch: base.scope_epoch,
            scope: base.scope,
            generation: base.generation,
            total_rows: base.total_rows,
            reader: base.reader,
            locate_request: None,
            tombstones,
        };
        self.pending_manifest = Some(pending);
        assert(self@.query_tombstones =~= Seq::<DeletedView>::empty());
        true
    }

    /// Asks where the selected session stands in the waiting manifest, once.
    pub fn next_manifest_reconcile(&mut self) -> (asked: Option<LocateAsked>)
        ensures
            match asked {
                None => {
                    &&& !(old(self)@.pending_manifest matches Some(pending)
                        && pending.locate_request is None)
                    &&& final(self)@ == old(self)@
                },
                Some(asked) => {
                    let id = following(old(self)@.locate_seq);
                    &&& old(self)@.pending_manifest matches Some(pending)
                    &&& pending.locate_request is None
                    &&& asked.request_id == id
                    &&& asked.source == pending.source
                    &&& asked.scope@ == pending.scope
                    &&& asked.generation@ == pending.generation
                    &&& asked.reader == pending.reader
                    &&& asked.fallback_absolute == absolute(
                        old(self)@.page_index(),
                        old(self)@.selected_idx,
                    )
                    &&& opt_view(asked.anchor) == (if old(self)@.selected_idx
                        < old(self)@.rows.len() {
                        Some(old(self)@.rows[old(self)@.selected_idx as int])
                    } else {
                        None
                    })
                    &&& final(self)@ == SessionsView { locate_seq: id, ..old(self)@ }.staged(
                        PendingManifestView { locate_request: Some(id), ..pending },
                    )
                },
            },
    {
        let fallback_absolute = absolute_index(self.current_page(), self.selected_idx);
        let anchor = if self.selected_idx < self.rows.len() {
            assert(self@.rows[self.selected_idx as int] == self.rows@[self.selected_idx as int]@);
            Some(self.rows[self.selected_idx].duplicate())
        } else {
            None
        };
        match self.pending_manifest.take() {
            None => None,
            Some(pending) => {
                let mut pending = pending;
                if pending.locate_request.is_some() {
                    self.pending_manifest = Some(pending);
                    return None;
                }
                let request_id = next_number(self.locate_seq);
                self.locate_seq = request_id;
                pending.locate_request = Some(request_id);
                let asked = LocateAsked {
                    request_id,
                    source: pending.source,
                    scope: pending.scope.duplicate(),
                    generation: pending.generation.duplicate(),
                    fallback_absolute,
                    anchor,
                    reader: pending.reader,
                };
                self.pending_manifest = Some(pending);
                Some(asked)
            },
        }
    }

    fn is_located(&self, request_id: u64, scope_epoch: u64, generation: &String) -> (result: bool)
        ensures
            result == self@.located(request_id, scope_epoch, generation@),
    {
        match &self.pending_manifest {
            Some(pending) => {
                let asked = match pending.locate_request {
                    Some(asked) => asked == request_id,
                    None => false,
                };
                asked && pending.scope_epoch == scope_epoch && self.scope_epoch == scope_epoch
                    && pending.generation == *generation
            },
            None => false,
        }
    }

    fn end_scan(&mut self, scan: Option<u64>)
        ensures
            final(self)@ == old(self)@.scan_over(scan),
    {
        if let Some(ended) = scan {
            if let Some(active) = self.scan_active {
                if active == ended {
                    self.scan_active = None;
                    self.loading = false;
                }
            }
        }
    }

    /// The place of the selected session is known: the waiting manifest is
    /// shown from there.
    pub fn finish_manifest_reconcile(
        &mut self,
        request_id: u64,
        scope_epoch: u64,
        generation: &String,
        page_index: usize,
        rows: Vec<SessionMeta>,
        selected_local: usize,
        reader: ManifestReader,
    )
        ensures
            final(self)@ == (if old(self)@.located(request_id, scope_epoch, generation@) {
                old(self)@.reconciled(page_index, views(rows@), selected_local, reader)
            } else {
                old(self)@
            }),
    {
        if !self.is_located(request_id, scope_epoch, generation) {
            return ;
        }
        reveal(SessionsView::installed);
        if let Some(pending) = self.pending_manifest.take() {
            let query = if pending.source == SessionPageSource::Query {
                self.materialized_query.take()
            } else {
                None
            };
            let scan_request = pending.scan_request;
            self.clear_safe_manifest_tombstones(&pending.scope, &pending.tombstones);
            let token = SessionPageToken {
                source: pending.source,
                scope_epoch: pending.scope_epoch,
                scope: pending.scope,
                generation: pending.generation,
            };
            let page = SessionPage {
                token,
                reader,
                total_rows: pending.total_rows,
                index: page_index,
            };
            self.install(page, rows, selected_local, query);
            self.end_scan(scan_request);
        }
    }

    /// The place of the selected session could not be found out.
    pub fn fail_manifest_reconcile(
        &mut self,
        request_id: u64,
        scope_epoch: u64,
        generation: &String,
        error: String,
    )
        ensures
            final(self)@ == (if old(self)@.located(request_id, scope_epoch, generation@) {
                old(self)@.not_reconciled(error@)
            } else {
                old(self)@
            }),
    {
        if !self.is_located(request_id, scope_epoch, generation) {
            return ;
        }
        if let Some(pending) = self.pending_manifest.take() {
            if pending.tombstones.len() > 0 {
                self.purge_refresh = true;
            }
            self.last_error = Some(error);
            self.end_scan(pending.scan_request);
        }
    }
}

// Searches.

impl SessionsView {
    /// What a search found is shown; it holds the deleted sessions no more that
    /// it was made anew for.
    pub open spec fn found(
        self,
        scope_epoch: u64,
        scope: Seq<char>,
        query: Seq<char>,
        generation: Seq<char>,
        total_rows: usize,
        page_index: usize,
        rows: Seq<SessionMetaView>,
        reader: ManifestReader,
    ) -> SessionsView {
        SessionsView {
            purge_tombstones: all_cleared(self.purge_tombstones, self.query_tombstones, scope),
            query_tombstones: Seq::empty(),
            ..self
        }.installed(
            PageView {
                token: PageTokenView {
                    source: SessionPageSource::Query,
                    scope_epoch,
                    scope,
                    generation,
                },
                reader,
                total_rows,
                index: page_index,
            },
            rows,
            0,
            Some(query),
        )
    }
}

impl SessionsState {
    /// Shows what a search found.
    pub fn apply_query_manifest(
        &mut self,
        scope_epoch: u64,
        scope: &String,
        query: String,
        generation: String,
        total_rows: usize,
        page_index: usize,
        rows: Vec<SessionMeta>,
        reader: ManifestReader,
    )
        ensures
            final(self)@ == (if old(self)@.in_scope(scope_epoch, scope@) {
                old(self)@.found(
                    scope_epoch,
                    scope@,
                    query@,
                    generation@,
                    total_rows,
                    page_index,
                    views(rows@),
                    reader,
                )
            } else {
                old(self)@
            }),
    {
        if !self.is_in_scope(scope_epoch, scope) {
            return ;
        }
        let mut tombstones: Vec<DeletedSession> = Vec::new();
        tombstones.append(&mut self.query_tombstones);
        assert(views(tombstones@) =~= old(self)@.query_tombstones);
        assert(self@.query_tombstones =~= Seq::<DeletedView>::empty());
        self.clear_safe_manifest_tombstones(scope, &tombstones);
        let token = SessionPageToken {
            source: SessionPageSource::Query,
            scope_epoch,
            scope: scope.duplicate(),
            generation,
        };
        let page = SessionPage { token, reader, total_rows, index: page_index };
        self.install(page, rows, 0, Some(query));
    }

    /// A deleted session is hidden until the search that is shown is made anew.
    pub fn mark_query_tombstone_for_rebuild(&mut self, request_id: u64, key: String)
        ensures
            final(self)@ == (SessionsView {
                query_tombstones: old(self)@.query_tombstones.push(
                    DeletedView { request_id, key: key@ },
                ),
                ..old(self)@
            }),
    {
        let deleted = DeletedSession { request_id, key };
        proof {
            lemma_views_push(self.query_tombstones@, deleted);
        }
        self.query_tombstones.push(deleted);
    }

    pub fn mark_query_tombstones_for_rebuild(&mut self, deleted: Vec<DeletedSession>)
        ensures
            final(self)@ == (SessionsView {
                query_tombstones: old(self)@.query_tombstones + views(deleted@),
                ..old(self)@
            }),
    {
        let mut deleted = deleted;
        let ghost list = views(deleted@);
        self.query_tombstones.append(&mut deleted);
        assert(self@.query_tombstones =~= old(self)@.query_tombstones + list);
    }

    pub fn has_query_tombstones_to_clear(&self) -> (result: bool)
        ensures
            result == (self@.query_tombstones.len() > 0),
    {
        self.query_tombstones.len() > 0
    }
}

// Deletions.

impl SessionsView {
    /// A session is deleted: it is neither listed nor looked at.
    pub open spec fn deleted(self, request_id: u64, key: Seq<char>) -> SessionsView {
        let kept = without(self.rows, set![key]);
        let fewer = self.rows.len() - kept.len();
        let listed = SessionsView {
            delete_active: without_number(self.delete_active, request_id),
            rows: kept,
            page: match self.page {
                Some(page) => Some(
                    PageView {
                        total_rows: if page.total_rows >= fewer {
                            (page.total_rows - fewer) as usize
                        } else {
                            0
                        },
                        ..page
                    },
                ),
                None => None,
            },
            ..self
        };
        if self.detail_key == Some(key) {
            listed.without_detail()
        } else {
            listed
        }
    }
}

/// The numbers without one of them.
pub open spec fn without_number(numbers: Seq<u64>, number: u64) -> Seq<u64>
    decreases numbers.len(),
{
    if numbers.len() == 0 {
        numbers
    } else {
        let rest = without_number(numbers.drop_last(), number);
        if numbers.last() == number {
            rest
        } else {
            rest.push(numbers.last())
        }
    }
}

fn remove_number(numbers: &Vec<u64>, number: u64) -> (rest: Vec<u64>)
    ensures
        rest@ == without_number(numbers@, number),
{
    let mut rest: Vec<u64> = Vec::new();
    let mut i: usize = 0;
    assert(numbers@.take(0) =~= Seq::<u64>::empty());
    assert(rest@ =~= numbers@.take(0));
    while i < numbers.len()
        invariant
            i <= numbers@.len(),
            rest@ == without_number(numbers@.take(i as int), number),
        decreases numbers@.len() - i,
    {
        assert(numbers@.take(i + 1).drop_last() =~= numbers@.take(i as int));
        if numbers[i] != number {
            rest.push(numbers[i]);
        }
        i = i + 1;
    }
    assert(numbers@.take(i as int) =~= numbers@);
    rest
}

impl SessionsState {
    pub fn start_delete(&mut self) -> (request_id: u64)
        ensures
            request_id == following(old(self)@.delete_seq),
            final(self)@ == (SessionsView {
                delete_seq: request_id,
                delete_active: old(self)@.delete_active.push(request_id),
                ..old(self)@
            }),
    {
        self.delete_seq = next_number(self.delete_seq);
        self.delete_active.push(self.delete_seq);
        self.delete_seq
    }

    /// Whether a deletion is waited for.
    pub fn delete_is_active(&self, request_id: u64) -> (result: bool)
        ensures
            result == self@.delete_active.contains(request_id),
    {
        let mut i: usize = 0;
        while i < self.delete_active.len()
            invariant
                i <= self.delete_active@.len(),
                forall|j: int| 0 <= j < i ==> self.delete_active@[j] != request_id,
            decreases self.delete_active@.len() - i,
        {
            if self.delete_active[i] == request_id {
                return true;
            }
            i = i + 1;
        }
        false
    }

    pub fn fail_delete(&mut self, request_id: u64)
        ensures
            final(self)@ == (SessionsView {
                delete_active: without_number(old(self)@.delete_active, request_id),
                ..old(self)@
            }),
    {
        self.delete_active = remove_number(&self.delete_active, request_id);
    }

    /// A session is deleted. The result tells whether that was waited for.
    pub fn finish_delete(&mut self, request_id: u64, key: &String) -> (finished: bool)
        ensures
            finished == old(self)@.delete_active.contains(request_id),
            final(self)@ == (if finished {
                old(self)@.deleted(request_id, key@)
            } else {
                old(self)@
            }),
    {
        if !self.delete_is_active(request_id) {
            return false;
        }
        self.delete_active = remove_number(&self.delete_active, request_id);
        let count = self.rows.len();
        let mut rest: Vec<SessionMeta> = Vec::new();
        rest.append(&mut self.rows);
        let ghost all = views(rest@);
        assert(all =~= old(self)@.rows);
        let mut kept: Vec<SessionMeta> = Vec::new();
        let ghost mut seen: int = 0;
        assert(all.skip(0) =~= all);
        assert(all.take(0) =~= Seq::<SessionMetaView>::empty());
        assert(views(kept@) =~= all.take(0));
        while rest.len() > 0
            invariant
                0 <= seen <= all.len(),
                kept@.len() <= seen,
                views(rest@) == all.skip(seen),
                views(kept@) == without(all.take(seen), set![key@]),
            decreases rest@.len(),
        {
            proof {
                lemma_views_first(rest@);
                crate::base::lemma_skip_one(all, seen);
                seen = seen + 1;
            }
            let row = rest.remove(0);
            if session_key(&row) != *key {
                proof {
                    lemma_views_push(kept@, row);
                }
                kept.push(row);
            }
        }
        assert(all.take(seen) =~= all);
        let fewer = count - kept.len();
        self.rows = kept;
        if let Some(mut page) = self.page.take() {
            page.total_rows = page.total_rows.saturating_sub(fewer);
            self.page = Some(page);
        }
        if crate::base::reads(&self.detail_key, key) {
            self.clear_detail();
        }
        assert(self@ =~= old(self)@.deleted(request_id, key@));
        true
    }
}

} // verus!
