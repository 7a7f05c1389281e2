//! The list of past sessions: a page of a manifest that a background scan
//! publishes, the session looked at, and deletions that the store has not
//! caught up with.

use vstd::prelude::*;

use crate::base::{duplicate_opt, opt_view, views, Duplicate};

verus! {

/// Rows on a page of a manifest.
pub const PAGE_SIZE: usize = 100;

/// A session as it is listed.
#[derive(Debug)]
pub struct SessionMeta {
    pub provider_id: String,
    pub session_id: String,
    pub title: Option<String>,
    pub summary: Option<String>,
    pub project_dir: Option<String>,
    pub created_at: Option<i64>,
    pub last_active_at: Option<i64>,
    pub source_path: Option<String>,
    pub resume_command: Option<String>,
}

#[verifier::ext_equal]
pub struct SessionMetaView {
    pub provider_id: Seq<char>,
    pub session_id: Seq<char>,
    pub title: Option<Seq<char>>,
    pub summary: Option<Seq<char>>,
    pub project_dir: Option<Seq<char>>,
    pub created_at: Option<i64>,
    pub last_active_at: Option<i64>,
    pub source_path: Option<Seq<char>>,
    pub resume_command: Option<Seq<char>>,
}

impl View for SessionMeta {
    type V = SessionMetaView;

    open spec fn view(&self) -> SessionMetaView {
        SessionMetaView {
            provider_id: self.provider_id@,
            session_id: self.session_id@,
            title: opt_view(self.title),
            summary: opt_view(self.summary),
            project_dir: opt_view(self.project_dir),
            created_at: self.created_at,
            last_active_at: self.last_active_at,
            source_path: opt_view(self.source_path),
            resume_command: opt_view(self.resume_command),
        }
    }
}

impl Duplicate for SessionMeta {
    fn duplicate(&self) -> (copy: SessionMeta) {
        SessionMeta {
            provider_id: self.provider_id.duplicate(),
            session_id: self.session_id.duplicate(),
            title: duplicate_opt(&self.title),
            summary: duplicate_opt(&self.summary),
            project_dir: duplicate_opt(&self.project_dir),
            created_at: self.created_at,
            last_active_at: self.last_active_at,
            source_path: duplicate_opt(&self.source_path),
            resume_command: duplicate_opt(&self.resume_command),
        }
    }
}

impl Default for SessionMeta {
    fn default() -> (row: SessionMeta)
        ensures
            row@ == SessionMetaView::blank(),
    {
        let row = SessionMeta {
            provider_id: String::new(),
            session_id: String::new(),
            title: None,
            summary: None,
            project_dir: None,
            created_at: None,
            last_active_at: None,
            source_path: None,
            resume_command: None,
        };
        assert(row@ =~= SessionMetaView::blank());
        row
    }
}

/// The text that tells a session apart.
pub open spec fn key_text(
    provider_id: Seq<char>,
    session_id: Seq<char>,
    source_path: Option<Seq<char>>,
) -> Seq<char> {
    provider_id + ":"@ + session_id + ":"@ + match source_path {
        Some(path) => path,
        None => Seq::empty(),
    }
}

impl SessionMetaView {
    pub open spec fn blank() -> SessionMetaView {
        SessionMetaView {
            provider_id: Seq::empty(),
            session_id: Seq::empty(),
            title: None,
            summary: None,
            project_dir: None,
            created_at: None,
            last_active_at: None,
            source_path: None,
            resume_command: None,
        }
    }

    pub open spec fn key(self) -> Seq<char> {
        key_text(self.provider_id, self.session_id, self.source_path)
    }

    /// When the session was last used, as far as that is known.
    pub open spec fn recency(self) -> i64 {
        match (self.last_active_at, self.created_at) {
            (Some(at), _) => at,
            (None, Some(at)) => at,
            (None, None) => 0,
        }
    }
}

pub fn identity_key(provider_id: &str, session_id: &str, source_path: &Option<String>) -> (key:
    String)
    ensures
        key@ == key_text(provider_id@, session_id@, opt_view(*source_path)),
{
    let mut key = provider_id.to_owned();
    key.append(":");
    key.append(session_id);
    key.append(":");
    if let Some(path) = source_path {
        key.append(path.as_str());
    }
    assert(key@ =~= key_text(provider_id@, session_id@, opt_view(*source_path)));
    key
}

pub fn session_key(row: &SessionMeta) -> (key: String)
    ensures
        key@ == row@.key(),
{
    identity_key(row.provider_id.as_str(), row.session_id.as_str(), &row.source_path)
}

pub fn recency(row: &SessionMeta) -> (at: i64)
    ensures
        at == row@.recency(),
{
    match (row.last_active_at, row.created_at) {
        (Some(at), _) => at,
        (None, Some(at)) => at,
        (None, None) => 0,
    }
}

/// A message of a session.
#[derive(Debug)]
pub struct SessionMessage {
    pub role: String,
    pub content: String,
    pub ts: Option<i64>,
}

#[verifier::ext_equal]
pub struct SessionMessageView {
    pub role: Seq<char>,
    pub content: Seq<char>,
    pub ts: Option<i64>,
}

impl View for SessionMessage {
    type V = SessionMessageView;

    open spec fn view(&self) -> SessionMessageView {
        SessionMessageView { role: self.role@, content: self.content@, ts: self.ts }
    }
}

/// What a page comes from: everything in the scope, or what a search found.
#[derive(Debug, Clone, Copy, PartialEq, Eq, Structural)]
pub enum SessionPageSource {
    Base,
    Query,
}

/// The pane that keys go to.
#[derive(Debug, Clone, Copy, PartialEq, Eq, Structural)]
pub enum SessionsPane {
    List,
    Detail,
}

/// A handle on a published manifest. Later builds have larger epochs.
#[derive(Debug, Clone, Copy, PartialEq, Eq, Structural)]
pub struct ManifestReader {
    pub handle: u64,
    pub build_epoch: u64,
}

/// Which manifest a page belongs to.
#[derive(Debug)]
pub struct SessionPageToken {
    pub source: SessionPageSource,
    pub scope_epoch: u64,
    pub scope: String,
    pub generation: String,
}

#[verifier::ext_equal]
pub struct PageTokenView {
    pub source: SessionPageSource,
    pub scope_epoch: u64,
    pub scope: Seq<char>,
    pub generation: Seq<char>,
}

impl View for SessionPageToken {
    type V = PageTokenView;

    open spec fn view(&self) -> PageTokenView {
        PageTokenView {
            source: self.source,
            scope_epoch: self.scope_epoch,
            scope: self.scope@,
            generation: self.generation@,
        }
    }
}

impl Duplicate for SessionPageToken {
    fn duplicate(&self) -> (copy: SessionPageToken) {
        SessionPageToken {
            source: self.source,
            scope_epoch: self.scope_epoch,
            scope: self.scope.duplicate(),
            generation: self.generation.duplicate(),
        }
    }
}

pub fn same_token(a: &SessionPageToken, b: &SessionPageToken) -> (result: bool)
    ensures
        result == (a@ == b@),
{
    let result = a.source == b.source && a.scope_epoch == b.scope_epoch && a.scope == b.scope
        && a.generation == b.generation;
    assert(result ==> a@ =~= b@);
    result
}

/// The page that is shown.
#[derive(Debug)]
pub struct SessionPage {
    pub token: SessionPageToken,
    pub reader: ManifestReader,
    pub total_rows: usize,
    pub index: usize,
}

#[verifier::ext_equal]
pub struct PageView {
    pub token: PageTokenView,
    pub reader: ManifestReader,
    pub total_rows: usize,
    pub index: usize,
}

impl View for SessionPage {
    type V = PageView;

    open spec fn view(&self) -> PageView {
        PageView {
            token: self.token@,
            reader: self.reader,
            total_rows: self.total_rows,
            index: self.index,
        }
    }
}

/// The newest manifest of everything in the scope.
#[derive(Debug)]
pub struct BaseManifest {
    pub scope_epoch: u64,
    pub scope: String,
    pub generation: String,
    pub total_rows: usize,
    pub reader: ManifestReader,
}

#[verifier::ext_equal]
pub struct BaseManifestView {
    pub scope_epoch: u64,
    pub scope: Seq<char>,
    pub generation: Seq<char>,
    pub total_rows: usize,
    pub reader: ManifestReader,
}

impl View for BaseManifest {
    type V = BaseManifestView;

    open spec fn view(&self) -> BaseManifestView {
        BaseManifestView {
            scope_epoch: self.scope_epoch,
            scope: self.scope@,
            generation: self.generation@,
            total_rows: self.total_rows,
            reader: self.reader,
        }
    }
}

impl Duplicate for BaseManifest {
    fn duplicate(&self) -> (copy: BaseManifest) {
        BaseManifest {
            scope_epoch: self.scope_epoch,
            scope: self.scope.duplicate(),
            generation: self.generation.duplicate(),
            total_rows: self.total_rows,
            reader: self.reader,
        }
    }
}

/// A session that was deleted, and by which request.
#[derive(Debug)]
pub struct DeletedSession {
    pub request_id: u64,
    pub key: String,
}

#[verifier::ext_equal]
pub struct DeletedView {
    pub request_id: u64,
    pub key: Seq<char>,
}

impl View for DeletedSession {
    type V = DeletedView;

    open spec fn view(&self) -> DeletedView {
        DeletedView { request_id: self.request_id, key: self.key@ }
    }
}

impl Duplicate for DeletedSession {
    fn duplicate(&self) -> (copy: DeletedSession) {
        DeletedSession { request_id: self.request_id, key: self.key.duplicate() }
    }
}

/// A manifest that waits to take the place of the page shown, once it is known
/// where in it the selected session stands.
#[derive(Debug)]
pub struct PendingManifest {
    pub source: SessionPageSource,
    /// The scan that ends once the manifest is in place.
    pub scan_request: Option<u64>,
    pub scope_epoch: u64,
    pub scope: String,
    pub generation: String,
    pub total_rows: usize,
    pub reader: ManifestReader,
    /// The search for the selected session that is under way.
    pub locate_request: Option<u64>,
    /// Deleted sessions that the manifest holds no more.
    pub tombstones: Vec<DeletedSession>,
}

#[verifier::ext_equal]
pub struct PendingManifestView {
    pub source: SessionPageSource,
    pub scan_request: Option<u64>,
    pub scope_epoch: u64,
    pub scope: Seq<char>,
    pub generation: Seq<char>,
    pub total_rows: usize,
    pub reader: ManifestReader,
    pub locate_request: Option<u64>,
    pub tombstones: Seq<DeletedView>,
}

impl View for PendingManifest {
    type V = PendingManifestView;

    open spec fn view(&self) -> PendingManifestView {
        PendingManifestView {
            source: self.source,
            scan_request: self.scan_request,
            scope_epoch: self.scope_epoch,
            scope: self.scope@,
            generation: self.generation@,
            total_rows: self.total_rows,
            reader: self.reader,
            locate_request: self.locate_request,
            tombstones: views(self.tombstones@),
        }
    }
}

/// A session that was deleted while manifests may still hold it.
#[derive(Debug)]
pub struct PurgeTombstone {
    pub key: String,
    pub request_id: u64,
    /// The last scan that was started before the session was gone.
    pub after_scan: u64,
    /// The scopes whose manifests hold the session no more.
    pub cleared: Vec<String>,
}

#[verifier::ext_equal]
pub struct TombstoneView {
    pub key: Seq<char>,
    pub request_id: u64,
    pub after_scan: u64,
    pub cleared: Seq<Seq<char>>,
}

impl View for PurgeTombstone {
    type V = TombstoneView;

    open spec fn view(&self) -> TombstoneView {
        TombstoneView {
            key: self.key@,
            request_id: self.request_id,
            after_scan: self.after_scan,
            cleared: views(self.cleared@),
        }
    }
}

/// The position in the whole list.
#[derive(Debug, Clone, Copy, PartialEq, Eq, Structural)]
pub struct Pagination {
    pub len: usize,
    pub selected: Option<usize>,
    pub row_focused: bool,
}

impl Pagination {
    pub open spec fn spec_new() -> Pagination {
        Pagination { len: 0, selected: None, row_focused: false }
    }

    /// The list has another length; the selection stays within it.
    pub open spec fn resized(self, len: usize) -> Pagination {
        Pagination {
            len,
            selected: match self.selected {
                Some(at) => if len == 0 {
                    None
                } else if at < len {
                    Some(at)
                } else {
                    Some((len - 1) as usize)
                },
                None => None,
            },
            ..self
        }
    }

    /// A row is selected, or the last one where there are fewer.
    pub open spec fn at(self, index: usize) -> Pagination {
        if self.len == 0 {
            Pagination { selected: None, ..self }
        } else {
            Pagination {
                selected: Some(
                    if index < self.len {
                        index
                    } else {
                        (self.len - 1) as usize
                    },
                ),
                row_focused: true,
                ..self
            }
        }
    }

    /// A list of this length, with a row of it selected where it has any.
    pub open spec fn showing(self, len: usize, index: usize) -> Pagination {
        if len > 0 {
            self.resized(len).at(index)
        } else {
            self.resized(len)
        }
    }

    pub fn sync_len(&mut self, len: usize)
        ensures
            *final(self) == old(self).resized(len),
    {
        self.len = len;
        if let Some(at) = self.selected {
            if len == 0 {
                self.selected = None;
            } else if at >= len {
                self.selected = Some(len - 1);
            }
        }
    }

    pub fn select(&mut self, index: usize)
        ensures
            *final(self) == old(self).at(index),
    {
        if self.len == 0 {
            self.selected = None;
        } else {
            self.selected = Some(
                if index < self.len {
                    index
                } else {
                    self.len - 1
                },
            );
            self.row_focused = true;
        }
    }

    pub fn show(&mut self, len: usize, index: usize)
        ensures
            *final(self) == old(self).showing(len, index),
    {
        self.sync_len(len);
        if len > 0 {
            self.select(index);
        }
    }
}

/// The largest machine number that is not beyond `n`.
pub open spec fn saturated(n: int) -> usize {
    if n > usize::MAX {
        usize::MAX
    } else {
        n as usize
    }
}

/// The place of a row in the whole list.
pub open spec fn absolute(page: usize, local: usize) -> usize {
    saturated(saturated(page * PAGE_SIZE) + local)
}

pub fn absolute_index(page: usize, local: usize) -> (index: usize)
    ensures
        index == absolute(page, local),
{
    match page.checked_mul(PAGE_SIZE) {
        Some(start) => start.saturating_add(local),
        None => usize::MAX,
    }
}

/// The page that is wanted next, and the row to select on it.
#[derive(Debug, Clone, Copy, PartialEq, Eq, Structural)]
pub struct PageWish {
    pub page: usize,
    pub local: usize,
}

/// A page that was asked for.
#[derive(Debug, Clone, Copy, PartialEq, Eq, Structural)]
pub struct PageRequest {
    pub request_id: u64,
    pub page: usize,
}

/// Page changes under way.
#[derive(Debug, Clone, Copy, PartialEq, Eq, Structural)]
pub struct RemotePages {
    pub seq: u64,
    pub wanted: Option<PageWish>,
    pub active: Option<PageRequest>,
}

impl RemotePages {
    pub open spec fn idle(self) -> RemotePages {
        RemotePages { wanted: None, active: None, ..self }
    }
}

/// The state of the sessions screen.
#[derive(Debug)]
pub struct SessionsState {
    /// The scope that is listed: an application, or all.
    pub provider_id: Option<String>,
    pub show_all_providers: bool,
    /// Changes with the scope.
    pub scope_epoch: u64,
    pub scan_seq: u64,
    pub scan_active: Option<u64>,
    pub loading: bool,
    pub loaded_once: bool,
    pub last_error: Option<String>,
    /// The scope that was last scanned, with or without success.
    pub attempted_scope: Option<String>,
    pub rows: Vec<SessionMeta>,
    pub selected_idx: usize,
    pub pagination: Pagination,
    pub page: Option<SessionPage>,
    pub remote: RemotePages,
    pub base_manifest: Option<BaseManifest>,
    pub pending_manifest: Option<PendingManifest>,
    pub locate_seq: u64,
    pub materialized_query: Option<String>,
    pub query_namespace: String,
    pub deep_search_seq: u64,
    pub deep_search_active: Option<u64>,
    pub deep_search_pending: Option<(String, u64)>,
    pub deep_search_query: Option<String>,
    pub deep_search_results: Vec<String>,
    pub detail_key: Option<String>,
    pub messages: Vec<SessionMessage>,
    pub messages_loaded: bool,
    pub messages_loading: bool,
    pub message_seq: u64,
    pub message_active: Option<u64>,
    pub message_cancel_pending: bool,
    pub message_selected: usize,
    pub pane: SessionsPane,
    pub delete_seq: u64,
    pub delete_active: Vec<u64>,
    pub purge_tombstones: Vec<PurgeTombstone>,
    pub query_tombstones: Vec<DeletedSession>,
    pub purge_refresh: bool,
}

/// The state of the sessions screen.
#[verifier::ext_equal]
pub struct SessionsView {
    pub provider_id: Option<Seq<char>>,
    pub show_all_providers: bool,
    pub scope_epoch: u64,
    pub scan_seq: u64,
    pub scan_active: Option<u64>,
    pub loading: bool,
    pub loaded_once: bool,
    pub last_error: Option<Seq<char>>,
    pub attempted_scope: Option<Seq<char>>,
    pub rows: Seq<SessionMetaView>,
    pub selected_idx: usize,
    pub pagination: Pagination,
    pub page: Option<PageView>,
    pub remote: RemotePages,
    pub base_manifest: Option<BaseManifestView>,
    pub pending_manifest: Option<PendingManifestView>,
    pub locate_seq: u64,
    pub materialized_query: Option<Seq<char>>,
    pub query_namespace: Seq<char>,
    pub deep_search_seq: u64,
    pub deep_search_active: Option<u64>,
    pub deep_search_pending: Option<(Seq<char>, u64)>,
    pub deep_search_query: Option<Seq<char>>,
    pub deep_search_results: Seq<Seq<char>>,
    pub detail_key: Option<Seq<char>>,
    pub messages: Seq<SessionMessageView>,
    pub messages_loaded: bool,
    pub messages_loading: bool,
    pub message_seq: u64,
    pub message_active: Option<u64>,
    pub message_cancel_pending: bool,
    pub message_selected: usize,
    pub pane: SessionsPane,
    pub delete_seq: u64,
    pub delete_active: Seq<u64>,
    pub purge_tombstones: Seq<TombstoneView>,
    pub query_tombstones: Seq<DeletedView>,
    pub purge_refresh: bool,
}

impl View for SessionsState {
    type V = SessionsView;

    open spec fn view(&self) -> SessionsView {
        SessionsView {
            provider_id: opt_view(self.provider_id),
            show_all_providers: self.show_all_providers,
            scope_epoch: self.scope_epoch,
            scan_seq: self.scan_seq,
            scan_active: self.scan_active,
            loading: self.loading,
            loaded_once: self.loaded_once,
            last_error: opt_view(self.last_error),
            attempted_scope: opt_view(self.attempted_scope),
            rows: views(self.rows@),
            selected_idx: self.selected_idx,
            pagination: self.pagination,
            page: opt_view(self.page),
            remote: self.remote,
            base_manifest: opt_view(self.base_manifest),
            pending_manifest: opt_view(self.pending_manifest),
            locate_seq: self.locate_seq,
            materialized_query: opt_view(self.materialized_query),
            query_namespace: self.query_namespace@,
            deep_search_seq: self.deep_search_seq,
            deep_search_active: self.deep_search_active,
            deep_search_pending: match self.deep_search_pending {
                Some((query, tick)) => Some((query@, tick)),
                None => None,
            },
            deep_search_query: opt_view(self.deep_search_query),
            deep_search_results: views(self.deep_search_results@),
            detail_key: opt_view(self.detail_key),
            messages: views(self.messages@),
            messages_loaded: self.messages_loaded,
            messages_loading: self.messages_loading,
            message_seq: self.message_seq,
            message_active: self.message_active,
            message_cancel_pending: self.message_cancel_pending,
            message_selected: self.message_selected,
            pane: self.pane,
            delete_seq: self.delete_seq,
            delete_active: self.delete_active@,
            purge_tombstones: views(self.purge_tombstones@),
            query_tombstones: views(self.query_tombstones@),
            purge_refresh: self.purge_refresh,
        }
    }
}

impl SessionsView {
    /// Nothing has been scanned.
    pub open spec fn nothing() -> SessionsView {
        SessionsView {
            provider_id: None,
            show_all_providers: false,
            scope_epoch: 0,
            scan_seq: 0,
            scan_active: None,
            loading: false,
            loaded_once: false,
            last_error: None,
            attempted_scope: None,
            rows: Seq::empty(),
            selected_idx: 0,
            pagination: Pagination::spec_new(),
            page: None,
            remote: RemotePages { seq: 0, wanted: None, active: None },
            base_manifest: None,
            pending_manifest: None,
            locate_seq: 0,
            materialized_query: None,
            query_namespace: Seq::empty(),
            deep_search_seq: 0,
            deep_search_active: None,
            deep_search_pending: None,
            deep_search_query: None,
            deep_search_results: Seq::empty(),
            detail_key: None,
            messages: Seq::empty(),
            messages_loaded: false,
            messages_loading: false,
            message_seq: 0,
            message_active: None,
            message_cancel_pending: false,
            message_selected: 0,
            pane: SessionsPane::List,
            delete_seq: 0,
            delete_active: Seq::empty(),
            purge_tombstones: Seq::empty(),
            query_tombstones: Seq::empty(),
            purge_refresh: false,
        }
    }
}

impl SessionsState {
    pub fn new() -> (sessions: SessionsState)
        ensures
            sessions@ == SessionsView::nothing(),
    {
        let sessions = SessionsState {
            provider_id: None,
            show_all_providers: false,
            scope_epoch: 0,
            scan_seq: 0,
            scan_active: None,
            loading: false,
            loaded_once: false,
            last_error: None,
            attempted_scope: None,
            rows: Vec::new(),
            selected_idx: 0,
            pagination: Pagination { len: 0, selected: None, row_focused: false },
            page: None,
            remote: RemotePages { seq: 0, wanted: None, active: None },
            base_manifest: None,
            pending_manifest: None,
            locate_seq: 0,
            materialized_query: None,
            query_namespace: String::new(),
            deep_search_seq: 0,
            deep_search_active: None,
            deep_search_pending: None,
            deep_search_query: None,
            deep_search_results: Vec::new(),
            detail_key: None,
            messages: Vec::new(),
            messages_loaded: false,
            messages_loading: false,
            message_seq: 0,
            message_active: None,
            message_cancel_pending: false,
            message_selected: 0,
            pane: SessionsPane::List,
            delete_seq: 0,
            delete_active: Vec::new(),
            purge_tombstones: Vec::new(),
            query_tombstones: Vec::new(),
            purge_refresh: false,
        };
        assert(sessions@ =~= SessionsView::nothing());
        sessions
    }
}

} // verus!
