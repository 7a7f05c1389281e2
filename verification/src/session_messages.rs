//! What the session worker reports, and what becomes of it on the screen.

use vstd::prelude::*;

use crate::app::{App, AppView};
use crate::base::{duplicate_opt, lemma_views_first, opt_view, reads, views, Duplicate};
use crate::chars::{lowercase, text_lowercase};
use crate::session_manifests::without_number;
use crate::session_ops::{
    all_cleared, any_counts, applies, clamp_session_message_selection, cleared, is_current,
    safe_deletions, without_tombstone,
};
use crate::session_rows::{
    anchored, capture_session_selection, restore_session_selection, restores,
};
use crate::sessions::{
    BaseManifestView, DeletedSession, DeletedView, ManifestReader, PageTokenView, PageView,
    PendingManifestView, SessionMessage, SessionMeta, SessionMetaView, SessionPageSource,
    SessionPageToken, SessionsState, SessionsView, TombstoneView,
};
use crate::text::{Text, TextKey, TextView, ToastKind};
use crate::text_edit::{trim, trimmed};

verus! {

/// A page of a manifest.
#[derive(Debug)]
pub struct ManifestPage {
    pub generation: String,
    pub total_rows: usize,
    pub page_index: usize,
    pub rows: Vec<SessionMeta>,
}

#[verifier::ext_equal]
pub struct ManifestPageView {
    pub generation: Seq<char>,
    pub total_rows: usize,
    pub page_index: usize,
    pub rows: Seq<SessionMetaView>,
}

impl View for ManifestPage {
    type V = ManifestPageView;

    open spec fn view(&self) -> ManifestPageView {
        ManifestPageView {
            generation: self.generation@,
            total_rows: self.total_rows,
            page_index: self.page_index,
            rows: views(self.rows@),
        }
    }
}

/// A manifest that was built.
#[derive(Debug)]
pub struct PublishedManifest {
    pub generation: String,
    pub total_rows: usize,
    pub first_page: ManifestPage,
}

#[verifier::ext_equal]
pub struct PublishedView {
    pub generation: Seq<char>,
    pub total_rows: usize,
    pub first_page: ManifestPageView,
}

impl View for PublishedManifest {
    type V = PublishedView;

    open spec fn view(&self) -> PublishedView {
        PublishedView {
            generation: self.generation@,
            total_rows: self.total_rows,
            first_page: self.first_page@,
        }
    }
}

impl PublishedView {
    pub open spec fn base(
        self,
        scope_epoch: u64,
        scope: Seq<char>,
        reader: ManifestReader,
    ) -> BaseManifestView {
        BaseManifestView {
            scope_epoch,
            scope,
            generation: self.generation,
            total_rows: self.total_rows,
            reader,
        }
    }
}

/// A manifest that was made without a deleted session.
#[derive(Debug)]
pub struct PurgedManifest {
    pub scope: String,
    pub published: PublishedManifest,
    pub reader: ManifestReader,
}

#[verifier::ext_equal]
pub struct PurgedView {
    pub scope: Seq<char>,
    pub published: PublishedView,
    pub reader: ManifestReader,
}

impl View for PurgedManifest {
    type V = PurgedView;

    open spec fn view(&self) -> PurgedView {
        PurgedView { scope: self.scope@, published: self.published@, reader: self.reader }
    }
}

/// A report of the session worker.
#[allow(inconsistent_fields)]
#[derive(Debug)]
pub enum SessionMsg {
    /// What is kept of a scope was opened.
    ScopeOpened {
        request_id: u64,
        scope_epoch: u64,
        scope: String,
        result: Result<Option<(ManifestReader, ManifestPage)>, String>,
    },
    /// A scan found these first.
    ScanProvisional {
        request_id: u64,
        scope_epoch: u64,
        scope: String,
        rows: Vec<SessionMeta>,
    },
    /// A scan is over.
    ManifestPublished {
        request_id: u64,
        scope_epoch: u64,
        scope: String,
        result: Result<(PublishedManifest, ManifestReader), String>,
    },
    PageLoaded {
        request_id: u64,
        token: SessionPageToken,
        page: usize,
        result: Result<ManifestPage, String>,
    },
    /// The place of the selected session in a waiting manifest.
    ManifestLocated {
        request_id: u64,
        scope_epoch: u64,
        generation: String,
        result: Result<(ManifestReader, ManifestPage, usize), String>,
    },
    MessagesLoaded { request_id: u64, key: String, result: Result<Vec<SessionMessage>, String> },
    DeleteFinished { request_id: u64, key: String, result: Result<(), String> },
    /// Manifests were made anew without a deleted session.
    ManifestsPurged { request_id: u64, key: String, base: Vec<PurgedManifest> },
    /// A search is over.
    QueryPublished {
        request_id: u64,
        scope_epoch: u64,
        scope: String,
        base_generation: String,
        query: String,
        query_namespace: String,
        result: Result<(PublishedManifest, ManifestReader), String>,
    },
}

impl AppView {
    pub open spec fn with_sessions(self, sessions: SessionsView) -> AppView {
        AppView { sessions, ..self }
    }
}

impl SessionsView {
    /// Whether what a search found is shown.
    pub open spec fn on_query_page(self) -> bool {
        &&& self.page matches Some(page)
        &&& page.token.source == SessionPageSource::Query
        &&& self.materialized_query is Some
    }

    /// A page of the scope's manifest is shown.
    pub open spec fn opened(
        self,
        scope_epoch: u64,
        scope: Seq<char>,
        generation: Seq<char>,
        total_rows: usize,
        page_index: usize,
        rows: Seq<SessionMetaView>,
        reader: ManifestReader,
    ) -> SessionsView {
        if self.in_scope(scope_epoch, scope) {
            self.installed(
                PageView {
                    token: PageTokenView {
                        source: SessionPageSource::Base,
                        scope_epoch,
                        scope,
                        generation,
                    },
                    reader,
                    total_rows,
                    index: page_index,
                },
                rows,
                self.selected_idx,
                None,
            )
        } else {
            self
        }
    }
}

fn on_query_page(sessions: &SessionsState) -> (result: bool)
    ensures
        result == sessions@.on_query_page(),
{
    let on_query = match sessions.page_token() {
        Some(token) => token.source == SessionPageSource::Query,
        None => false,
    };
    on_query && sessions.materialized_query.is_some()
}

fn is_number(value: Option<u64>, number: u64) -> (result: bool)
    ensures
        result == (value == Some(number)),
{
    match value {
        Some(value) => value == number,
        None => false,
    }
}

// What is kept of a scope was opened.

/// What is kept of a scope is shown, unless what a search found is. Manifests
/// that may hold deleted sessions are not.
pub open spec fn with_kept_manifest(
    s: SessionsView,
    scope_epoch: u64,
    scope: Seq<char>,
    reader: ManifestReader,
    page: ManifestPageView,
) -> SessionsView {
    let based = s.with_base(
        BaseManifestView {
            scope_epoch,
            scope,
            generation: page.generation,
            total_rows: page.total_rows,
            reader,
        },
    );
    if based.on_query_page() {
        based
    } else {
        based.opened(
            scope_epoch,
            scope,
            page.generation,
            page.total_rows,
            page.page_index,
            page.rows,
            reader,
        )
    }
}

/// The search that was wanted is started, now that there is something to search
/// in.
pub open spec fn resuming_search(app: AppView) -> AppView {
    let s = app.sessions;
    if s.deep_search_active is None && !s.shows_query(s.deep_search_query)
        && s.deep_search_query is Some && s.deep_search_query->0.len() > 0
        && s.base_manifest is Some {
        AppView { pending_deep_search: s.deep_search_query, ..app }
    } else {
        app
    }
}

pub open spec fn scope_opened(
    app: AppView,
    request_id: u64,
    scope_epoch: u64,
    scope: Seq<char>,
    result: Result<Option<(ManifestReader, ManifestPage)>, String>,
) -> AppView {
    let s = app.sessions;
    if s.scan_active != Some(request_id) || s.scope_epoch != scope_epoch {
        app
    } else {
        match result {
            Ok(Some((reader, page))) => if any_counts(s.purge_tombstones, scope) {
                app
            } else {
                resuming_search(
                    app.with_sessions(with_kept_manifest(s, scope_epoch, scope, reader, page@)),
                )
            },
            Ok(None) => resuming_search(app),
            Err(error) => resuming_search(
                app.with_sessions(SessionsView { last_error: Some(error@), ..s }),
            ),
        }
    }
}

fn resume_search(app: &mut App)
    ensures
        final(app)@ == resuming_search(old(app)@),
{
    if app.sessions.deep_search_active.is_some() || app.sessions.materialized_query_is_current(
        &app.sessions.deep_search_query,
    ) {
        return ;
    }
    if app.sessions.base_manifest.is_none() {
        return ;
    }
    if let Some(query) = &app.sessions.deep_search_query {
        if !query.as_str().is_empty() {
            app.pending_deep_search = Some(query.duplicate());
        }
    }
}

fn take_kept_manifest(
    sessions: &mut SessionsState,
    scope_epoch: u64,
    scope: &String,
    reader: ManifestReader,
    page: ManifestPage,
)
    ensures
        final(sessions)@ == with_kept_manifest(
            old(sessions)@,
            scope_epoch,
            scope@,
            reader,
            page@,
        ),
{
    let _ = sessions.remember_base_manifest(
        scope_epoch,
        scope,
        page.generation.duplicate(),
        page.total_rows,
        reader,
    );
    if !on_query_page(sessions) {
        let _ = sessions.apply_opened_manifest(
            scope_epoch,
            scope,
            page.generation,
            page.total_rows,
            page.page_index,
            page.rows,
            reader,
        );
    }
}

fn take_scope_opened(
    app: &mut App,
    request_id: u64,
    scope_epoch: u64,
    scope: String,
    result: Result<Option<(ManifestReader, ManifestPage)>, String>,
)
    ensures
        final(app)@ == scope_opened(old(app)@, request_id, scope_epoch, scope@, result),
{
    if !is_number(app.sessions.scan_active, request_id) || app.sessions.scope_epoch
        != scope_epoch {
        return ;
    }
    match result {
        Ok(Some((reader, page))) => {
            if app.sessions.scope_cache_is_invalidated(&scope) {
                return ;
            }
            take_kept_manifest(&mut app.sessions, scope_epoch, &scope, reader, page);
        },
        Ok(None) => {},
        Err(error) => {
            app.sessions.last_error = Some(error);
        },
    }
    resume_search(app);
}

// A scan is over.

/// The search that is wanted, unless it is for nothing.
pub open spec fn wanted_search(s: SessionsView) -> Option<Seq<char>> {
    match s.deep_search_query {
        Some(query) => if query.len() > 0 {
            Some(query)
        } else {
            None
        },
        None => None,
    }
}

/// A scan's manifest is there and what a search found is shown, or a search is
/// wanted: the search is made anew in it, and hides what was deleted until then.
pub open spec fn for_new_search(s: SessionsView, safe: Seq<DeletedView>) -> SessionsView {
    SessionsView {
        query_tombstones: s.query_tombstones + safe,
        scan_active: None,
        loading: false,
        ..s
    }
}

/// A scan's manifest is the first page to be shown.
pub open spec fn first_shown_page(
    s: SessionsView,
    scope_epoch: u64,
    scope: Seq<char>,
    published: PublishedView,
    reader: ManifestReader,
    safe: Seq<DeletedView>,
) -> SessionsView {
    let opened = s.opened(
        scope_epoch,
        scope,
        published.generation,
        published.total_rows,
        published.first_page.page_index,
        published.first_page.rows,
        reader,
    );
    let freed = if s.in_scope(scope_epoch, scope) {
        SessionsView {
            purge_tombstones: all_cleared(opened.purge_tombstones, safe, scope),
            ..opened
        }
    } else {
        opened
    };
    SessionsView { scan_active: None, loading: false, ..freed }
}

/// A scan's manifest waits to take the place of the page shown.
pub open spec fn waiting_page(
    s: SessionsView,
    request_id: u64,
    scope_epoch: u64,
    scope: Seq<char>,
    published: PublishedView,
    reader: ManifestReader,
    safe: Seq<DeletedView>,
) -> SessionsView {
    if s.in_scope(scope_epoch, scope) {
        s.staged(
            PendingManifestView {
                source: SessionPageSource::Base,
                scan_request: Some(request_id),
                scope_epoch,
                scope,
                generation: published.generation,
                total_rows: published.total_rows,
                reader,
                locate_request: None,
                tombstones: safe,
            },
        )
    } else {
        s
    }
}

/// A scan's manifest is taken.
pub open spec fn with_scan(
    s: SessionsView,
    request_id: u64,
    scope_epoch: u64,
    scope: Seq<char>,
    published: PublishedView,
    reader: ManifestReader,
) -> SessionsView {
    let safe = safe_deletions(s.purge_tombstones, request_id, scope);
    let based = s.with_base(published.base(scope_epoch, scope, reader));
    let wanted = wanted_search(s);
    let taken = if based.page is Some && wanted is Some {
        for_new_search(based, safe)
    } else if based.page is None {
        first_shown_page(based, scope_epoch, scope, published, reader, safe)
    } else {
        waiting_page(based, request_id, scope_epoch, scope, published, reader, safe)
    };
    if wanted is Some {
        SessionsView { deep_search_active: None, ..taken }
    } else {
        taken
    }
}

pub open spec fn scan_published(
    app: AppView,
    request_id: u64,
    scope_epoch: u64,
    scope: Seq<char>,
    published: PublishedView,
    reader: ManifestReader,
) -> AppView {
    let s = app.sessions;
    if s.scan_active != Some(request_id) || s.scope_epoch != scope_epoch {
        app
    } else {
        AppView {
            sessions: with_scan(s, request_id, scope_epoch, scope, published, reader),
            pending_deep_search: if wanted_search(s) is Some {
                wanted_search(s)
            } else {
                app.pending_deep_search
            },
            ..app
        }
    }
}

/// A scan failed. One that nothing waits for is not worth a notice.
pub open spec fn scan_not_published(app: AppView, request_id: u64, error: Seq<char>) -> AppView {
    if app.sessions.scan_active != Some(request_id) {
        app
    } else {
        app.with_sessions(app.sessions.scan_failed(request_id, error)).told(
            ToastKind::Warning,
            TextView::with(TextKey::SessionsRefreshFailed, error),
        )
    }
}

fn wanted_query(sessions: &SessionsState) -> (wanted: Option<String>)
    ensures
        opt_view(wanted) == wanted_search(sessions@),
{
    match &sessions.deep_search_query {
        Some(query) => if query.as_str().is_empty() {
            None
        } else {
            Some(query.duplicate())
        },
        None => None,
    }
}

fn prepare_new_search(sessions: &mut SessionsState, safe: Vec<DeletedSession>)
    ensures
        final(sessions)@ == for_new_search(old(sessions)@, views(safe@)),
{
    sessions.mark_query_tombstones_for_rebuild(safe);
    sessions.scan_active = None;
    sessions.loading = false;
}

fn show_first_page(
    sessions: &mut SessionsState,
    scope_epoch: u64,
    scope: &String,
    published: PublishedManifest,
    reader: ManifestReader,
    safe: Vec<DeletedSession>,
)
    ensures
        final(sessions)@ == first_shown_page(
            old(sessions)@,
            scope_epoch,
            scope@,
            published@,
            reader,
            views(safe@),
        ),
{
    let applied = sessions.apply_opened_manifest(
        scope_epoch,
        scope,
        published.generation,
        published.total_rows,
        published.first_page.page_index,
        published.first_page.rows,
        reader,
    );
    if applied {
        sessions.clear_safe_manifest_tombstones(scope, &safe);
    }
    sessions.scan_active = None;
    sessions.loading = false;
}

fn let_page_wait(
    sessions: &mut SessionsState,
    request_id: u64,
    scope_epoch: u64,
    scope: &String,
    published: PublishedManifest,
    reader: ManifestReader,
    safe: Vec<DeletedSession>,
)
    ensures
        final(sessions)@ == waiting_page(
            old(sessions)@,
            request_id,
            scope_epoch,
            scope@,
            published@,
            reader,
            views(safe@),
        ),
{
    if sessions.stage_manifest(
        request_id,
        scope_epoch,
        scope,
        published.generation,
        published.total_rows,
        reader,
    ) {
        sessions.attach_pending_manifest_tombstones(safe);
    }
}

fn take_scan_manifest(
    sessions: &mut SessionsState,
    request_id: u64,
    scope_epoch: u64,
    scope: &String,
    published: PublishedManifest,
    reader: ManifestReader,
    search: bool,
)
    requires
        search == (wanted_search(old(sessions)@) is Some),
    ensures
        final(sessions)@ == with_scan(
            old(sessions)@,
            request_id,
            scope_epoch,
            scope@,
            published@,
            reader,
        ),
{
    let safe = sessions.take_scan_tombstones_for_manifest(request_id, scope);
    let _ = sessions.remember_base_manifest(
        scope_epoch,
        scope,
        published.generation.duplicate(),
        published.total_rows,
        reader,
    );
    if sessions.page.is_some() && search {
        prepare_new_search(sessions, safe);
    } else if sessions.page.is_none() {
        show_first_page(sessions, scope_epoch, scope, published, reader, safe);
    } else {
        let_page_wait(sessions, request_id, scope_epoch, scope, published, reader, safe);
    }
    if search {
        sessions.deep_search_active = None;
    }
}

fn take_scan_published(
    app: &mut App,
    request_id: u64,
    scope_epoch: u64,
    scope: String,
    published: PublishedManifest,
    reader: ManifestReader,
)
    ensures
        final(app)@ == scan_published(
            old(app)@,
            request_id,
            scope_epoch,
            scope@,
            published@,
            reader,
        ),
{
    if !is_number(app.sessions.scan_active, request_id) || app.sessions.scope_epoch
        != scope_epoch {
        return ;
    }
    let wanted = wanted_query(&app.sessions);
    take_scan_manifest(
        &mut app.sessions,
        request_id,
        scope_epoch,
        &scope,
        published,
        reader,
        wanted.is_some(),
    );
    if wanted.is_some() {
        app.pending_deep_search = wanted;
    }
}

fn take_scan_failed(app: &mut App, request_id: u64, error: String)
    ensures
        final(app)@ == scan_not_published(old(app)@, request_id, error@),
{
    if !is_number(app.sessions.scan_active, request_id) {
        return ;
    }
    app.sessions.fail_scan(request_id, error.duplicate());
    app.push_toast(
        Text::with(TextKey::SessionsRefreshFailed, error.as_str()),
        ToastKind::Warning,
    );
}

// A page has come.

pub open spec fn page_received(
    s: SessionsView,
    request_id: u64,
    token: PageTokenView,
    page: usize,
    result: Result<ManifestPage, String>,
) -> SessionsView {
    if !s.awaits_page(request_id, token, page) {
        s
    } else {
        match result {
            Ok(loaded) => if loaded@.generation != token.generation {
                s
            } else {
                s.page_arrived(page, loaded@.rows)
            },
            Err(error) => SessionsView {
                remote: s.remote.idle(),
                last_error: Some(error@),
                ..s
            },
        }
    }
}

fn take_page(
    sessions: &mut SessionsState,
    request_id: u64,
    token: &SessionPageToken,
    page: usize,
    result: Result<ManifestPage, String>,
)
    ensures
        final(sessions)@ == page_received(old(sessions)@, request_id, token@, page, result),
{
    match result {
        Ok(loaded) => {
            if loaded.generation != token.generation {
                return ;
            }
            sessions.finish_page_request(request_id, token, page, loaded.rows);
        },
        Err(error) => {
            sessions.fail_page_request(request_id, token, page, error);
        },
    }
}

// The place of the selected session is known.

pub open spec fn location_received(
    s: SessionsView,
    request_id: u64,
    scope_epoch: u64,
    generation: Seq<char>,
    result: Result<(ManifestReader, ManifestPage, usize), String>,
) -> SessionsView {
    if !s.located(request_id, scope_epoch, generation) {
        s
    } else {
        match result {
            Ok((reader, page, selected)) => s.reconciled(
                page@.page_index,
                page@.rows,
                selected,
                reader,
            ),
            Err(error) => s.not_reconciled(error@),
        }
    }
}

fn take_location(
    sessions: &mut SessionsState,
    request_id: u64,
    scope_epoch: u64,
    generation: &String,
    result: Result<(ManifestReader, ManifestPage, usize), String>,
)
    ensures
        final(sessions)@ == location_received(
            old(sessions)@,
            request_id,
            scope_epoch,
            generation@,
            result,
        ),
{
    match result {
        Ok((reader, page, selected)) => {
            sessions.finish_manifest_reconcile(
                request_id,
                scope_epoch,
                generation,
                page.page_index,
                page.rows,
                selected,
                reader,
            );
        },
        Err(error) => {
            sessions.fail_manifest_reconcile(request_id, scope_epoch, generation, error);
        },
    }
}

// Messages of a session have come.

pub open spec fn messages_received(
    app: AppView,
    request_id: u64,
    key: Seq<char>,
    result: Result<Vec<SessionMessage>, String>,
) -> AppView {
    let s = app.sessions;
    if !s.awaits_messages(request_id, key) {
        app
    } else {
        match result {
            Ok(messages) => app.with_sessions(
                SessionsView {
                    messages: views(messages@),
                    messages_loaded: true,
                    messages_loading: false,
                    message_active: None,
                    ..s
                }.with_message_selected(),
            ),
            Err(error) => app.with_sessions(
                SessionsView {
                    messages_loading: false,
                    message_active: None,
                    last_error: Some(error@),
                    ..s
                },
            ).told(ToastKind::Warning, TextView::with(TextKey::SessionsMessagesFailed, error@)),
        }
    }
}

fn take_messages(
    app: &mut App,
    request_id: u64,
    key: &String,
    result: Result<Vec<SessionMessage>, String>,
)
    ensures
        final(app)@ == messages_received(old(app)@, request_id, key@, result),
{
    match result {
        Ok(messages) => {
            if app.sessions.finish_message_load(request_id, key, messages) {
                clamp_session_message_selection(&mut app.sessions);
            }
        },
        Err(error) => {
            if !app.sessions.message_load_is_current(request_id, key) {
                return ;
            }
            app.sessions.fail_message_load(request_id, key, error.duplicate());
            app.push_toast(
                Text::with(TextKey::SessionsMessagesFailed, error.as_str()),
                ToastKind::Warning,
            );
        },
    }
}

// A session is deleted.

/// A session is hidden until manifests without it are in use.
pub open spec fn with_tombstone(s: SessionsView, request_id: u64, key: Seq<char>) -> SessionsView {
    SessionsView {
        purge_tombstones: without_tombstone(s.purge_tombstones, key).push(
            TombstoneView { key, request_id, after_scan: s.scan_seq, cleared: Seq::empty() },
        ),
        ..s
    }
}

pub open spec fn deletion_shown(
    before: AppView,
    request_id: u64,
    key: Seq<char>,
    restored: AppView,
    after: AppView,
) -> bool {
    &&& restores(
        before.with_sessions(before.sessions.deleted(request_id, key)),
        anchored(before),
        restored,
    )
    &&& after == restored.with_sessions(with_tombstone(restored.sessions, request_id, key)).told(
        ToastKind::Success,
        TextView::plain(TextKey::SessionsDeleteFinished),
    )
}

/// What is made of a deletion. The row goes before manifests are made anew, so
/// that a tombstone keeps an old page from bringing it back.
pub open spec fn deletion_received(
    before: AppView,
    request_id: u64,
    key: Seq<char>,
    result: Result<(), String>,
    after: AppView,
) -> bool {
    if !before.sessions.delete_active.contains(request_id) {
        after == before
    } else {
        match result {
            Ok(()) => exists|restored: AppView| #[trigger]
                deletion_shown(before, request_id, key, restored, after),
            Err(error) => after == before.with_sessions(
                SessionsView {
                    delete_active: without_number(before.sessions.delete_active, request_id),
                    ..before.sessions
                },
            ).told(ToastKind::Warning, TextView::with(TextKey::SessionsDeleteFailed, error@)),
        }
    }
}

fn take_deletion(app: &mut App, request_id: u64, key: String, result: Result<(), String>)
    ensures
        deletion_received(old(app)@, request_id, key@, result, final(app)@),
{
    match result {
        Ok(()) => {
            let selection = capture_session_selection(app);
            if app.sessions.finish_delete(request_id, &key) {
                restore_session_selection(app, selection);
                let ghost restored = app@;
                app.sessions.register_purge_tombstone(request_id, key);
                app.push_toast(
                    Text::plain(TextKey::SessionsDeleteFinished),
                    ToastKind::Success,
                );
                assert(deletion_shown(old(app)@, request_id, key@, restored, app@));
            }
        },
        Err(error) => {
            if !app.sessions.delete_is_active(request_id) {
                return ;
            }
            app.sessions.fail_delete(request_id);
            app.push_toast(
                Text::with(TextKey::SessionsDeleteFailed, error.as_str()),
                ToastKind::Warning,
            );
        },
    }
}

// Manifests were made anew without a deleted session.

/// The last of the manifests that belongs to a scope.
pub open spec fn manifest_of(manifests: Seq<PurgedView>, scope: Option<Seq<char>>) -> Option<
    PurgedView,
>
    decreases manifests.len(),
{
    if manifests.len() == 0 {
        None
    } else if scope == Some(manifests.last().scope) {
        Some(manifests.last())
    } else {
        manifest_of(manifests.drop_last(), scope)
    }
}

/// Other scopes than the one listed are settled: nothing of them is in use.
pub open spec fn settled_elsewhere(
    tombstones: Seq<TombstoneView>,
    deleted: DeletedView,
    manifests: Seq<PurgedView>,
    scope: Option<Seq<char>>,
) -> Seq<TombstoneView>
    decreases manifests.len(),
{
    if manifests.len() == 0 {
        tombstones
    } else {
        let rest = settled_elsewhere(tombstones, deleted, manifests.drop_last(), scope);
        if scope == Some(manifests.last().scope) {
            rest
        } else {
            cleared(rest, deleted, manifests.last().scope)
        }
    }
}

/// A fresh scan is called for.
pub open spec fn calling_for_scan(s: SessionsView) -> SessionsView {
    SessionsView { purge_refresh: true, ..s }
}

/// The manifest of the listed scope waits to be shown. What a search found is
/// not touched: the same search is made anew.
pub open spec fn with_purged_base(s: SessionsView, request_id: u64, key: Seq<char>) -> SessionsView {
    match s.base_manifest {
        None => calling_for_scan(s),
        Some(base) => if s.on_query_page() {
            let marked = SessionsView {
                query_tombstones: s.query_tombstones.push(DeletedView { request_id, key }),
                ..s
            };
            if s.deep_search_query is Some {
                SessionsView { deep_search_active: None, ..marked }
            } else {
                marked
            }
        } else if s.provider_id is Some && is_current(s.purge_tombstones, request_id, key) {
            s.staged(
                PendingManifestView {
                    source: SessionPageSource::Base,
                    scan_request: s.waiting_scan(),
                    scope_epoch: s.scope_epoch,
                    scope: s.provider_id->0,
                    generation: base.generation,
                    total_rows: base.total_rows,
                    reader: base.reader,
                    locate_request: None,
                    tombstones: s.waiting_tombstones().push(DeletedView { request_id, key }),
                },
            )
        } else {
            calling_for_scan(s)
        },
    }
}

/// What is made of manifests without a deleted session. Where none came for the
/// listed scope, a fresh scan is called for; the newest manifest that is known
/// is never given up for an older one.
pub open spec fn purge_received(
    app: AppView,
    request_id: u64,
    key: Seq<char>,
    manifests: Seq<PurgedView>,
) -> AppView {
    let s = app.sessions;
    if !is_current(s.purge_tombstones, request_id, key) {
        app
    } else {
        let settled = SessionsView {
            purge_tombstones: settled_elsewhere(
                s.purge_tombstones,
                DeletedView { request_id, key },
                manifests,
                s.provider_id,
            ),
            ..s
        };
        match (s.provider_id, manifest_of(manifests, s.provider_id)) {
            (None, _) => app.with_sessions(settled),
            (Some(scope), None) => app.with_sessions(
                if applies(settled.purge_tombstones, request_id, key, scope) {
                    calling_for_scan(settled)
                } else {
                    settled
                },
            ),
            (Some(scope), Some(purged)) => {
                let based = settled.with_base(
                    purged.published.base(s.scope_epoch, scope, purged.reader),
                );
                AppView {
                    sessions: with_purged_base(based, request_id, key),
                    pending_deep_search: if based.base_manifest is Some && based.on_query_page()
                        && based.deep_search_query is Some {
                        based.deep_search_query
                    } else {
                        app.pending_deep_search
                    },
                    ..app
                }
            },
        }
    }
}

/// Settles the other scopes. The result is the manifest of the listed one.
fn settle_elsewhere(
    sessions: &mut SessionsState,
    request_id: u64,
    key: &String,
    manifests: Vec<PurgedManifest>,
) -> (current: Option<PurgedManifest>)
    ensures
        opt_view(current) == manifest_of(views(manifests@), old(sessions)@.provider_id),
        final(sessions)@ == (SessionsView {
            purge_tombstones: settled_elsewhere(
                old(sessions)@.purge_tombstones,
                DeletedView { request_id, key: key@ },
                views(manifests@),
                old(sessions)@.provider_id,
            ),
            ..old(sessions)@
        }),
{
    let ghost all = views(manifests@);
    let ghost deleted = DeletedView { request_id, key: key@ };
    let mut rest = manifests;
    let mut current: Option<PurgedManifest> = None;
    let ghost mut seen: int = 0;
    assert(all.skip(0) =~= all);
    assert(all.take(0) =~= Seq::<PurgedView>::empty());
    while rest.len() > 0
        invariant
            0 <= seen <= all.len(),
            deleted == (DeletedView { request_id, key: key@ }),
            views(rest@) == all.skip(seen),
            *sessions == (SessionsState {
                purge_tombstones: sessions.purge_tombstones,
                ..*old(sessions)
            }),
            opt_view(current) == manifest_of(all.take(seen), old(sessions)@.provider_id),
            sessions@.purge_tombstones == settled_elsewhere(
                old(sessions)@.purge_tombstones,
                deleted,
                all.take(seen),
                old(sessions)@.provider_id,
            ),
        decreases rest@.len(),
    {
        proof {
            lemma_views_first(rest@);
            crate::base::lemma_skip_one(all, seen);
            seen = seen + 1;
        }
        let purged = rest.remove(0);
        if reads(&sessions.provider_id, &purged.scope) {
            current = Some(purged);
        } else {
            sessions.clear_published_purge_scope(request_id, key, &purged.scope);
        }
    }
    assert(all.take(seen) =~= all);
    current
}

/// Takes the newest manifest of the listed scope after a purge. The result is
/// the search that has to be made anew.
fn take_purged_base(sessions: &mut SessionsState, request_id: u64, key: String) -> (search: Option<
    String,
>)
    ensures
        final(sessions)@ == with_purged_base(old(sessions)@, request_id, key@),
        opt_view(search) == (if old(sessions)@.base_manifest is Some
            && old(sessions)@.on_query_page() {
            old(sessions)@.deep_search_query
        } else {
            None
        }),
{
    let base = match &sessions.base_manifest {
        Some(base) => base.duplicate(),
        None => {
            sessions.require_purge_refresh();
            return None;
        },
    };
    if on_query_page(sessions) {
        sessions.mark_query_tombstone_for_rebuild(request_id, key);
        if sessions.deep_search_query.is_some() {
            sessions.deep_search_active = None;
        }
        return duplicate_opt(&sessions.deep_search_query);
    }
    let scope = match &sessions.provider_id {
        Some(scope) => scope.duplicate(),
        None => {
            sessions.require_purge_refresh();
            return None;
        },
    };
    let scope_epoch = sessions.scope_epoch;
    if !sessions.stage_purged_manifest(
        SessionPageSource::Base,
        scope_epoch,
        &scope,
        base.generation,
        base.total_rows,
        base.reader,
        request_id,
        key,
    ) {
        sessions.require_purge_refresh();
    }
    None
}

#[verifier::spinoff_prover]
fn take_purge(app: &mut App, request_id: u64, key: String, manifests: Vec<PurgedManifest>)
    ensures
        final(app)@ == purge_received(old(app)@, request_id, key@, views(manifests@)),
{
    if !app.sessions.purge_tombstone_is_current(request_id, &key) {
        return ;
    }
    let current = settle_elsewhere(&mut app.sessions, request_id, &key, manifests);
    let scope = match &app.sessions.provider_id {
        Some(scope) => scope.duplicate(),
        None => {
            return ;
        },
    };
    match current {
        None => {
            if app.sessions.purge_tombstone_applies_to_scope(request_id, &key, &scope) {
                app.sessions.require_purge_refresh();
            }
        },
        Some(purged) => {
            let scope_epoch = app.sessions.scope_epoch;
            let _ = app.sessions.remember_base_manifest(
                scope_epoch,
                &scope,
                purged.published.generation,
                purged.published.total_rows,
                purged.reader,
            );
            let search = take_purged_base(&mut app.sessions, request_id, key);
            if search.is_some() {
                app.pending_deep_search = search;
            }
        },
    }
}

// A search is over.

/// Whether a search that is over is the one waited for, and was made in the
/// newest manifest of the scope.
pub open spec fn search_is_current(
    s: SessionsView,
    request_id: u64,
    scope_epoch: u64,
    scope: Seq<char>,
    base_generation: Seq<char>,
    query: Seq<char>,
    namespace: Seq<char>,
) -> bool {
    &&& s.deep_search_active == Some(request_id)
    &&& s.in_scope(scope_epoch, scope)
    &&& s.query_namespace == namespace
    &&& s.deep_search_query == Some(query)
    &&& s.base_manifest matches Some(base)
    &&& base.scope_epoch == scope_epoch
    &&& base.scope == scope
    &&& base.generation == base_generation
}

/// Whether a search that is over is the one wanted, though it was not made in
/// the newest manifest.
pub open spec fn search_is_wanted(
    s: SessionsView,
    scope_epoch: u64,
    query: Seq<char>,
    namespace: Seq<char>,
) -> bool {
    s.scope_epoch == scope_epoch && s.query_namespace == namespace && s.deep_search_query == Some(
        query,
    )
}

/// Deletions waited for a search that failed: everything in the scope is shown
/// instead, or a fresh scan is called for.
pub open spec fn given_up_search(s: SessionsView) -> SessionsView {
    if s.query_tombstones.len() == 0 {
        s
    } else {
        let wanting_none = SessionsView { deep_search_query: None, ..s };
        match wanting_none.base_manifest {
            Some(base) if wanting_none.in_scope(base.scope_epoch, base.scope) => SessionsView {
                query_tombstones: Seq::empty(),
                ..wanting_none
            }.staged(
                PendingManifestView {
                    source: SessionPageSource::Base,
                    scan_request: s.waiting_scan(),
                    scope_epoch: base.scope_epoch,
                    scope: base.scope,
                    generation: base.generation,
                    total_rows: base.total_rows,
                    reader: base.reader,
                    locate_request: None,
                    tombstones: s.waiting_tombstones() + s.query_tombstones,
                },
            ),
            _ => calling_for_scan(wanting_none),
        }
    }
}

pub open spec fn search_failed(app: AppView, error: Seq<char>) -> AppView {
    let s = app.sessions;
    let given_up = given_up_search(s);
    AppView {
        sessions: if given_up.page is None {
            SessionsView { last_error: Some(error), ..given_up }
        } else {
            given_up
        },
        pending_deep_search: if s.query_tombstones.len() > 0 {
            None
        } else {
            app.pending_deep_search
        },
        ..app
    }.told(ToastKind::Warning, TextView::with(TextKey::SessionsRefreshFailed, error))
}

/// No search is waited for, and none has found anything.
pub open spec fn search_ended(s: SessionsView) -> SessionsView {
    SessionsView { deep_search_active: None, deep_search_results: Seq::empty(), ..s }
}

/// The search that was waited for is over.
pub open spec fn search_over(
    app: AppView,
    scope_epoch: u64,
    scope: Seq<char>,
    query: Seq<char>,
    result: Result<(PublishedManifest, ManifestReader), String>,
) -> AppView {
    let over = search_ended(app.sessions);
    match result {
        Ok((published, reader)) => app.with_sessions(
            over.found(
                scope_epoch,
                scope,
                query,
                published@.generation,
                published@.total_rows,
                published@.first_page.page_index,
                published@.first_page.rows,
                reader,
            ),
        ),
        Err(error) => search_failed(app.with_sessions(over), error@),
    }
}

/// What is made of a search. One that was made in a manifest that has been
/// replaced is made anew.
pub open spec fn search_received(
    app: AppView,
    request_id: u64,
    scope_epoch: u64,
    scope: Seq<char>,
    base_generation: Seq<char>,
    query: Seq<char>,
    namespace: Seq<char>,
    result: Result<(PublishedManifest, ManifestReader), String>,
) -> AppView {
    let s = app.sessions;
    let query = text_lowercase(trimmed(query));
    if search_is_current(s, request_id, scope_epoch, scope, base_generation, query, namespace) {
        search_over(app, scope_epoch, scope, query, result)
    } else if search_is_wanted(s, scope_epoch, query, namespace) {
        AppView {
            sessions: SessionsView { deep_search_active: None, ..s },
            pending_deep_search: Some(query),
            ..app
        }
    } else {
        app
    }
}

fn is_current_search(
    sessions: &SessionsState,
    request_id: u64,
    scope_epoch: u64,
    scope: &String,
    base_generation: &String,
    query: &String,
    namespace: &String,
) -> (result: bool)
    ensures
        result == search_is_current(
            sessions@,
            request_id,
            scope_epoch,
            scope@,
            base_generation@,
            query@,
            namespace@,
        ),
{
    if !is_number(sessions.deep_search_active, request_id) || !sessions.is_in_scope(
        scope_epoch,
        scope,
    ) || sessions.query_namespace != *namespace || !reads(&sessions.deep_search_query, query) {
        return false;
    }
    match &sessions.base_manifest {
        Some(base) => base.scope_epoch == scope_epoch && base.scope == *scope && base.generation
            == *base_generation,
        None => false,
    }
}

fn give_up_search(sessions: &mut SessionsState)
    ensures
        final(sessions)@ == given_up_search(old(sessions)@),
{
    if sessions.has_query_tombstones_to_clear() {
        sessions.deep_search_query = None;
        if !sessions.stage_base_restore() {
            sessions.require_purge_refresh();
        }
    }
}

#[verifier::rlimit(50)]
fn take_search_failed(app: &mut App, error: String)
    ensures
        final(app)@ == search_failed(old(app)@, error@),
{
    if app.sessions.has_query_tombstones_to_clear() {
        app.pending_deep_search = None;
    }
    give_up_search(&mut app.sessions);
    app.push_toast(
        Text::with(TextKey::SessionsRefreshFailed, error.as_str()),
        ToastKind::Warning,
    );
    if app.sessions.page.is_none() {
        app.sessions.last_error = Some(error);
    }
}

fn end_search(sessions: &mut SessionsState)
    ensures
        final(sessions)@ == search_ended(old(sessions)@),
{
    sessions.deep_search_active = None;
    sessions.clear_deep_search_results();
}

fn take_found(
    sessions: &mut SessionsState,
    scope_epoch: u64,
    scope: &String,
    query: String,
    published: PublishedManifest,
    reader: ManifestReader,
)
    requires
        old(sessions)@.in_scope(scope_epoch, scope@),
    ensures
        final(sessions)@ == old(sessions)@.found(
            scope_epoch,
            scope@,
            query@,
            published@.generation,
            published@.total_rows,
            published@.first_page.page_index,
            published@.first_page.rows,
            reader,
        ),
{
    sessions.apply_query_manifest(
        scope_epoch,
        scope,
        query,
        published.generation,
        published.total_rows,
        published.first_page.page_index,
        published.first_page.rows,
        reader,
    );
}

#[verifier::spinoff_prover]
fn take_current_search(
    app: &mut App,
    scope_epoch: u64,
    scope: &String,
    query: String,
    result: Result<(PublishedManifest, ManifestReader), String>,
)
    requires
        old(app)@.sessions.in_scope(scope_epoch, scope@),
    ensures
        final(app)@ == search_over(old(app)@, scope_epoch, scope@, query@, result),
{
    end_search(&mut app.sessions);
    match result {
        Ok((published, reader)) => {
            take_found(&mut app.sessions, scope_epoch, scope, query, published, reader);
        },
        Err(error) => take_search_failed(app, error),
    }
}

fn take_search(
    app: &mut App,
    request_id: u64,
    scope_epoch: u64,
    scope: String,
    base_generation: String,
    query: String,
    query_namespace: String,
    result: Result<(PublishedManifest, ManifestReader), String>,
)
    ensures
        final(app)@ == search_received(
            old(app)@,
            request_id,
            scope_epoch,
            scope@,
            base_generation@,
            query@,
            query_namespace@,
            result,
        ),
{
    let query = lowercase(trim(query.as_str()));
    if !is_current_search(
        &app.sessions,
        request_id,
        scope_epoch,
        &scope,
        &base_generation,
        &query,
        &query_namespace,
    ) {
        if app.sessions.scope_epoch == scope_epoch && app.sessions.query_namespace
            == query_namespace && reads(&app.sessions.deep_search_query, &query) {
            app.sessions.deep_search_active = None;
            app.pending_deep_search = Some(query);
        }
        return ;
    }
    take_current_search(app, scope_epoch, &scope, query, result);
}

// Every report.

/// What is made of a report.
pub open spec fn session_received(before: AppView, msg: SessionMsg, after: AppView) -> bool {
    match msg {
        SessionMsg::ScopeOpened { request_id, scope_epoch, scope, result } => after
            == scope_opened(before, request_id, scope_epoch, scope@, result),
        SessionMsg::ScanProvisional { request_id, scope_epoch, scope, rows } => after
            == before.with_sessions(
            before.sessions.provisional(request_id, scope_epoch, scope@, views(rows@)),
        ),
        SessionMsg::ManifestPublished { request_id, scope_epoch, scope, result } => after
            == (match result {
            Ok((published, reader)) => scan_published(
                before,
                request_id,
                scope_epoch,
                scope@,
                published@,
                reader,
            ),
            Err(error) => scan_not_published(before, request_id, error@),
        }),
        SessionMsg::PageLoaded { request_id, token, page, result } => after
            == before.with_sessions(
            page_received(before.sessions, request_id, token@, page, result),
        ),
        SessionMsg::ManifestLocated { request_id, scope_epoch, generation, result } => after
            == before.with_sessions(
            location_received(before.sessions, request_id, scope_epoch, generation@, result),
        ),
        SessionMsg::MessagesLoaded { request_id, key, result } => after == messages_received(
            before,
            request_id,
            key@,
            result,
        ),
        SessionMsg::DeleteFinished { request_id, key, result } => deletion_received(
            before,
            request_id,
            key@,
            result,
            after,
        ),
        SessionMsg::ManifestsPurged { request_id, key, base } => after == purge_received(
            before,
            request_id,
            key@,
            views(base@),
        ),
        SessionMsg::QueryPublished {
            request_id,
            scope_epoch,
            scope,
            base_generation,
            query,
            query_namespace,
            result,
        } => after == search_received(
            before,
            request_id,
            scope_epoch,
            scope@,
            base_generation@,
            query@,
            query_namespace@,
            result,
        ),
    }
}

/// The session worker has reported something.
pub fn handle_session_msg(app: &mut App, msg: SessionMsg)
    ensures
        session_received(old(app)@, msg, final(app)@),
{
    match msg {
        SessionMsg::ScopeOpened { request_id, scope_epoch, scope, result } => {
            take_scope_opened(app, request_id, scope_epoch, scope, result);
        },
        SessionMsg::ScanProvisional { request_id, scope_epoch, scope, rows } => {
            app.sessions.apply_provisional_page(request_id, scope_epoch, &scope, rows);
        },
        SessionMsg::ManifestPublished { request_id, scope_epoch, scope, result } => match result {
            Ok((published, reader)) => {
                take_scan_published(app, request_id, scope_epoch, scope, published, reader);
            },
            Err(error) => {
                take_scan_failed(app, request_id, error);
            },
        },
        SessionMsg::PageLoaded { request_id, token, page, result } => {
            take_page(&mut app.sessions, request_id, &token, page, result);
        },
        SessionMsg::ManifestLocated { request_id, scope_epoch, generation, result } => {
            take_location(&mut app.sessions, request_id, scope_epoch, &generation, result);
        },
        SessionMsg::MessagesLoaded { request_id, key, result } => {
            take_messages(app, request_id, &key, result);
        },
        SessionMsg::DeleteFinished { request_id, key, result } => {
            take_deletion(app, request_id, key, result);
        },
        SessionMsg::ManifestsPurged { request_id, key, base } => {
            take_purge(app, request_id, key, base);
        },
        SessionMsg::QueryPublished {
            request_id,
            scope_epoch,
            scope,
            base_generation,
            query,
            query_namespace,
            result,
        } => {
            take_search(
                app,
                request_id,
                scope_epoch,
                scope,
                base_generation,
                query,
                query_namespace,
                result,
            );
        },
    }
}

} // verus!
