//! What happens to the sessions screen: scans, manifests and their pages,
//! messages, and deletions.

use vstd::prelude::*;

use crate::base::{
    lemma_skip_one, lemma_views_first, lemma_views_push, lists, opt_view, reads, views, Duplicate,
};
use crate::request::{following, next_number};
use crate::sessions::{
    absolute, absolute_index, session_key, BaseManifest, BaseManifestView, DeletedSession,
    DeletedView, ManifestReader, PageTokenView, PageView, Pagination, PurgeTombstone, RemotePages,
    SessionMessage, SessionMeta, SessionMetaView, SessionPage, SessionPageSource, SessionPageToken,
    SessionsPane, SessionsState, SessionsView, TombstoneView,
};

verus! {

// Deleted sessions.

impl TombstoneView {
    /// Whether manifests of a scope may still hold the session.
    pub open spec fn counts_in(self, scope: Option<Seq<char>>) -> bool {
        match scope {
            Some(scope) => !self.cleared.contains(scope),
            None => true,
        }
    }

    pub open spec fn is(self, request_id: u64, key: Seq<char>) -> bool {
        self.key == key && self.request_id == request_id
    }

    /// The manifests of a scope hold the session no more.
    pub open spec fn gone_from(self, scope: Seq<char>) -> TombstoneView {
        TombstoneView { cleared: self.cleared.push(scope), ..self }
    }
}

/// Whether a tombstone of this request is there.
pub open spec fn is_current(
    tombstones: Seq<TombstoneView>,
    request_id: u64,
    key: Seq<char>,
) -> bool {
    exists|i: int| 0 <= i < tombstones.len() && (#[trigger] tombstones[i]).is(request_id, key)
}

/// Whether a tombstone of this request counts in a scope.
pub open spec fn applies(
    tombstones: Seq<TombstoneView>,
    request_id: u64,
    key: Seq<char>,
    scope: Seq<char>,
) -> bool {
    exists|i: int|
        0 <= i < tombstones.len() && (#[trigger] tombstones[i]).is(request_id, key)
            && tombstones[i].counts_in(Some(scope))
}

/// Whether a session is hidden in a scope.
pub open spec fn hides(
    tombstones: Seq<TombstoneView>,
    scope: Option<Seq<char>>,
    key: Seq<char>,
) -> bool {
    exists|i: int|
        0 <= i < tombstones.len() && (#[trigger] tombstones[i]).key == key
            && tombstones[i].counts_in(scope)
}

/// The sessions that are hidden in a scope.
pub open spec fn hidden(tombstones: Seq<TombstoneView>, scope: Option<Seq<char>>) -> Set<
    Seq<char>,
> {
    Set::new(|key: Seq<char>| hides(tombstones, scope, key))
}

/// Whether any tombstone counts in a scope.
pub open spec fn any_counts(tombstones: Seq<TombstoneView>, scope: Seq<char>) -> bool {
    exists|i: int|
        0 <= i < tombstones.len() && (#[trigger] tombstones[i]).counts_in(Some(scope))
}

/// The manifests of a scope hold a session no more.
pub open spec fn cleared(
    tombstones: Seq<TombstoneView>,
    deleted: DeletedView,
    scope: Seq<char>,
) -> Seq<TombstoneView> {
    Seq::new(
        tombstones.len(),
        |i: int|
            if tombstones[i].is(deleted.request_id, deleted.key) {
                tombstones[i].gone_from(scope)
            } else {
                tombstones[i]
            },
    )
}

/// The manifests of a scope hold several sessions no more.
pub open spec fn all_cleared(
    tombstones: Seq<TombstoneView>,
    deleted: Seq<DeletedView>,
    scope: Seq<char>,
) -> Seq<TombstoneView>
    decreases deleted.len(),
{
    if deleted.len() == 0 {
        tombstones
    } else {
        cleared(all_cleared(tombstones, deleted.drop_last(), scope), deleted.last(), scope)
    }
}

/// The tombstones without those of a session.
pub open spec fn without_tombstone(tombstones: Seq<TombstoneView>, key: Seq<char>) -> Seq<
    TombstoneView,
>
    decreases tombstones.len(),
{
    if tombstones.len() == 0 {
        tombstones
    } else {
        let rest = without_tombstone(tombstones.drop_last(), key);
        if tombstones.last().key == key {
            rest
        } else {
            rest.push(tombstones.last())
        }
    }
}

/// The deletions that a scan cannot have missed: those that were over when it
/// was started, and that still count in its scope.
pub open spec fn safe_deletions(
    tombstones: Seq<TombstoneView>,
    scan: u64,
    scope: Seq<char>,
) -> Seq<DeletedView>
    decreases tombstones.len(),
{
    if tombstones.len() == 0 {
        Seq::empty()
    } else {
        let rest = safe_deletions(tombstones.drop_last(), scan, scope);
        let last = tombstones.last();
        if last.after_scan < scan && last.counts_in(Some(scope)) {
            rest.push(DeletedView { request_id: last.request_id, key: last.key })
        } else {
            rest
        }
    }
}

/// The rows without those whose session is among `gone`.
pub open spec fn without(rows: Seq<SessionMetaView>, gone: Set<Seq<char>>) -> Seq<SessionMetaView>
    decreases rows.len(),
{
    if rows.len() == 0 {
        rows
    } else {
        let rest = without(rows.drop_last(), gone);
        if gone.contains(rows.last().key()) {
            rest
        } else {
            rest.push(rows.last())
        }
    }
}

proof fn lemma_without_len(rows: Seq<SessionMetaView>, gone: Set<Seq<char>>, n: int)
    requires
        0 <= n <= rows.len(),
    ensures
        without(rows.take(n), gone).len() <= without(rows, gone).len() <= rows.len(),
    decreases rows.len(),
{
    if n == rows.len() {
        assert(rows.take(n) =~= rows);
        if rows.len() > 0 {
            lemma_without_len(rows.drop_last(), gone, n - 1);
        }
    } else {
        assert(rows.drop_last().take(n) =~= rows.take(n));
        lemma_without_len(rows.drop_last(), gone, n);
    }
}

impl PurgeTombstone {
    fn counts_in(&self, scope: &Option<String>) -> (result: bool)
        ensures
            result == self@.counts_in(opt_view(*scope)),
    {
        match scope {
            Some(scope) => !lists(&self.cleared, scope),
            None => true,
        }
    }
}

impl SessionsState {
    /// Whether a deletion is the last one of its session.
    pub fn purge_tombstone_is_current(&self, request_id: u64, key: &String) -> (result: bool)
        ensures
            result == is_current(self@.purge_tombstones, request_id, key@),
    {
        let mut i: usize = 0;
        while i < self.purge_tombstones.len()
            invariant
                i <= self.purge_tombstones@.len(),
                forall|j: int|
                    0 <= j < i ==> !(#[trigger] self@.purge_tombstones[j]).is(request_id, key@),
            decreases self.purge_tombstones@.len() - i,
        {
            let tombstone = &self.purge_tombstones[i];
            assert(self@.purge_tombstones[i as int] == tombstone@);
            if tombstone.request_id == request_id && tombstone.key == *key {
                return true;
            }
            i = i + 1;
        }
        false
    }

    /// Whether manifests of a scope may still hold a deleted session.
    pub fn purge_tombstone_applies_to_scope(
        &self,
        request_id: u64,
        key: &String,
        scope: &String,
    ) -> (result: bool)
        ensures
            result == applies(self@.purge_tombstones, request_id, key@, scope@),
    {
        let mut i: usize = 0;
        while i < self.purge_tombstones.len()
            invariant
                i <= self.purge_tombstones@.len(),
                forall|j: int|
                    0 <= j < i ==> !((#[trigger] self@.purge_tombstones[j]).is(request_id, key@)
                        && self@.purge_tombstones[j].counts_in(Some(scope@))),
            decreases self.purge_tombstones@.len() - i,
        {
            let tombstone = &self.purge_tombstones[i];
            assert(self@.purge_tombstones[i as int] == tombstone@);
            if tombstone.request_id == request_id && tombstone.key == *key && !lists(
                &tombstone.cleared,
                scope,
            ) {
                return true;
            }
            i = i + 1;
        }
        false
    }

    /// Whether a session is hidden in the scope that is listed.
    pub fn is_tombstoned(&self, key: &String) -> (result: bool)
        ensures
            result == hides(self@.purge_tombstones, self@.provider_id, key@),
    {
        let mut i: usize = 0;
        while i < self.purge_tombstones.len()
            invariant
                i <= self.purge_tombstones@.len(),
                forall|j: int|
                    0 <= j < i ==> !((#[trigger] self@.purge_tombstones[j]).key == key@
                        && self@.purge_tombstones[j].counts_in(self@.provider_id)),
            decreases self.purge_tombstones@.len() - i,
        {
            let tombstone = &self.purge_tombstones[i];
            assert(self@.purge_tombstones[i as int] == tombstone@);
            if tombstone.key == *key && tombstone.counts_in(&self.provider_id) {
                return true;
            }
            i = i + 1;
        }
        false
    }

    /// Whether manifests that were kept of a scope may hold deleted sessions.
    pub fn scope_cache_is_invalidated(&self, scope: &String) -> (result: bool)
        ensures
            result == any_counts(self@.purge_tombstones, scope@),
    {
        let mut i: usize = 0;
        while i < self.purge_tombstones.len()
            invariant
                i <= self.purge_tombstones@.len(),
                forall|j: int|
                    0 <= j < i ==> !(#[trigger] self@.purge_tombstones[j]).counts_in(Some(scope@)),
            decreases self.purge_tombstones@.len() - i,
        {
            let tombstone = &self.purge_tombstones[i];
            assert(self@.purge_tombstones[i as int] == tombstone@);
            if !lists(&tombstone.cleared, scope) {
                return true;
            }
            i = i + 1;
        }
        false
    }

    /// The manifests of a scope hold a session no more.
    pub fn clear_published_purge_scope(&mut self, request_id: u64, key: &String, scope: &String)
        ensures
            final(self)@ == (SessionsView {
                purge_tombstones: cleared(
                    old(self)@.purge_tombstones,
                    DeletedView { request_id, key: key@ },
                    scope@,
                ),
                ..old(self)@
            }),
            *final(self) == (SessionsState {
                purge_tombstones: final(self).purge_tombstones,
                ..*old(self)
            }),
    {
        let ghost deleted = DeletedView { request_id, key: key@ };
        let ghost before = self@.purge_tombstones;
        let ghost whole = *self;
        let mut i: usize = 0;
        while i < self.purge_tombstones.len()
            invariant
                i <= self.purge_tombstones@.len(),
                *self == (SessionsState { purge_tombstones: self.purge_tombstones, ..whole }),
                before == views(whole.purge_tombstones@),
                deleted == (DeletedView { request_id, key: key@ }),
                self.purge_tombstones@.len() == before.len(),
                forall|j: int|
                    0 <= j < i ==> (#[trigger] self.purge_tombstones@[j])@ == cleared(
                        before,
                        deleted,
                        scope@,
                    )[j],
                forall|j: int|
                    i <= j < before.len() ==> (#[trigger] self.purge_tombstones@[j])@ == before[j],
            decreases self.purge_tombstones@.len() - i,
        {
            if self.purge_tombstones[i].request_id == request_id && self.purge_tombstones[i].key
                == *key {
                let ghost item = self.purge_tombstones@[i as int];
                self.purge_tombstones[i].cleared.push(scope.duplicate());
                assert(views(self.purge_tombstones@[i as int].cleared@) =~= item@.cleared.push(
                    scope@,
                ));
            }
            i = i + 1;
        }
        assert(self@.purge_tombstones =~= cleared(before, deleted, scope@));
    }

    /// The manifests of a scope hold several sessions no more.
    pub fn clear_safe_manifest_tombstones(&mut self, scope: &String, deleted: &Vec<DeletedSession>)
        ensures
            final(self)@ == (SessionsView {
                purge_tombstones: all_cleared(
                    old(self)@.purge_tombstones,
                    views(deleted@),
                    scope@,
                ),
                ..old(self)@
            }),
            *final(self) == (SessionsState {
                purge_tombstones: final(self).purge_tombstones,
                ..*old(self)
            }),
    {
        let ghost list = views(deleted@);
        let mut i: usize = 0;
        assert(list.take(0) =~= Seq::<DeletedView>::empty());
        while i < deleted.len()
            invariant
                i <= deleted@.len(),
                list == views(deleted@),
                *self == (SessionsState { purge_tombstones: self.purge_tombstones, ..*old(self) }),
                self@.purge_tombstones == all_cleared(
                    old(self)@.purge_tombstones,
                    list.take(i as int),
                    scope@,
                ),
            decreases deleted@.len() - i,
        {
            self.clear_published_purge_scope(deleted[i].request_id, &deleted[i].key, scope);
            assert(list.take(i + 1).drop_last() =~= list.take(i as int));
            assert(list.take(i + 1).last() == deleted@[i as int]@);
            i = i + 1;
        }
        assert(list.take(i as int) =~= list);
    }

    /// The deletions that a scan cannot have missed.
    pub fn take_scan_tombstones_for_manifest(&self, scan: u64, scope: &String) -> (deleted: Vec<
        DeletedSession,
    >)
        ensures
            views(deleted@) == safe_deletions(self@.purge_tombstones, scan, scope@),
    {
        let mut deleted: Vec<DeletedSession> = Vec::new();
        let ghost all = self@.purge_tombstones;
        let mut i: usize = 0;
        assert(all.take(0) =~= Seq::<TombstoneView>::empty());
        assert(views(deleted@) =~= Seq::<DeletedView>::empty());
        while i < self.purge_tombstones.len()
            invariant
                i <= self.purge_tombstones@.len(),
                all == views(self.purge_tombstones@),
                views(deleted@) == safe_deletions(all.take(i as int), scan, scope@),
            decreases self.purge_tombstones@.len() - i,
        {
            let tombstone = &self.purge_tombstones[i];
            proof {
                assert(all.take(i + 1).drop_last() =~= all.take(i as int));
                assert(all.take(i + 1).last() == tombstone@);
            }
            if tombstone.after_scan < scan && !lists(&tombstone.cleared, scope) {
                let ghost before = views(deleted@);
                let item = DeletedSession {
                    request_id: tombstone.request_id,
                    key: tombstone.key.duplicate(),
                };
                deleted.push(item);
                assert(views(deleted@) =~= before.push(item@));
            }
            i = i + 1;
        }
        assert(all.take(i as int) =~= all);
        deleted
    }

    /// A session was deleted: it is hidden until manifests without it are in
    /// use. An earlier deletion of the same session counts no more.
    pub fn register_purge_tombstone(&mut self, request_id: u64, key: String)
        ensures
            final(self)@ == (SessionsView {
                purge_tombstones: without_tombstone(old(self)@.purge_tombstones, key@).push(
                    TombstoneView {
                        key: key@,
                        request_id,
                        after_scan: old(self)@.scan_seq,
                        cleared: Seq::empty(),
                    },
                ),
                ..old(self)@
            }),
            *final(self) == (SessionsState {
                purge_tombstones: final(self).purge_tombstones,
                ..*old(self)
            }),
    {
        let mut rest: Vec<PurgeTombstone> = Vec::new();
        rest.append(&mut self.purge_tombstones);
        let ghost all = views(rest@);
        assert(all =~= old(self)@.purge_tombstones);
        let mut kept: Vec<PurgeTombstone> = Vec::new();
        assert(all.take(0) =~= Seq::<TombstoneView>::empty());
        assert(views(kept@) =~= all.take(0));
        let ghost mut seen: int = 0;
        assert(all.skip(0) =~= all);
        while rest.len() > 0
            invariant
                0 <= seen <= all.len(),
                views(rest@) == all.skip(seen),
                views(kept@) == without_tombstone(all.take(seen), key@),
            decreases rest@.len(),
        {
            proof {
                lemma_views_first(rest@);
                lemma_skip_one(all, seen);
            }
            let tombstone = rest.remove(0);
            proof {
                seen = seen + 1;
            }
            if tombstone.key != key {
                proof {
                    lemma_views_push(kept@, tombstone);
                }
                kept.push(tombstone);
            }
        }
        assert(all.take(seen) =~= all);
        let ghost former = views(kept@);
        let added = PurgeTombstone {
            key,
            request_id,
            after_scan: self.scan_seq,
            cleared: Vec::new(),
        };
        assert(added@ =~= TombstoneView {
            key: key@,
            request_id,
            after_scan: self.scan_seq,
            cleared: Seq::empty(),
        });
        kept.push(added);
        assert(views(kept@) =~= former.push(added@));
        self.purge_tombstones = kept;
    }
}

// The session looked at.

impl SessionsView {
    /// No session is looked at. Messages that were asked for are wanted no
    /// more.
    pub open spec fn without_detail(self) -> SessionsView {
        SessionsView {
            detail_key: None,
            messages: Seq::empty(),
            messages_loaded: false,
            messages_loading: false,
            message_active: None,
            message_cancel_pending: self.message_cancel_pending || self.message_active is Some,
            message_selected: 0,
            ..self
        }
    }

    /// A session is looked at.
    pub open spec fn detailed(self, key: Seq<char>) -> SessionsView {
        if self.detail_key == Some(key) {
            self
        } else {
            SessionsView { detail_key: Some(key), ..self.without_detail() }
        }
    }

    /// What was said in a session is asked for.
    pub open spec fn reading(self, key: Seq<char>) -> SessionsView {
        SessionsView {
            message_seq: following(self.message_seq),
            message_active: Some(following(self.message_seq)),
            messages_loading: true,
            detail_key: Some(key),
            ..self
        }
    }

    /// The key of the selected row.
    pub open spec fn selected_key(self) -> Option<Seq<char>> {
        if self.selected_idx < self.rows.len() {
            Some(self.rows[self.selected_idx as int].key())
        } else {
            None
        }
    }

    /// A session that is looked at without being selected is looked at no more.
    pub open spec fn matching_detail(self) -> SessionsView {
        if self.detail_key is Some && self.detail_key != self.selected_key() {
            SessionsView { pane: SessionsPane::List, ..self.without_detail() }
        } else {
            self
        }
    }

    pub open spec fn awaits_messages(self, request_id: u64, key: Seq<char>) -> bool {
        self.message_active == Some(request_id) && self.detail_key == Some(key)
    }

    /// The selected message is one that is there.
    pub open spec fn with_message_selected(self) -> SessionsView {
        SessionsView {
            message_selected: if self.messages.len() == 0 {
                0
            } else if self.message_selected < self.messages.len() {
                self.message_selected
            } else {
                (self.messages.len() - 1) as usize
            },
            ..self
        }
    }
}

impl SessionsState {
    pub fn clear_detail(&mut self)
        ensures
            final(self)@ == old(self)@.without_detail(),
    {
        if self.message_active.is_some() {
            self.message_cancel_pending = true;
        }
        self.detail_key = None;
        self.messages = Vec::new();
        self.messages_loaded = false;
        self.messages_loading = false;
        self.message_active = None;
        self.message_selected = 0;
        assert(self@ =~= old(self)@.without_detail());
    }

    /// A session is looked at.
    pub fn open_detail(&mut self, key: String)
        ensures
            final(self)@ == old(self)@.detailed(key@),
    {
        if reads(&self.detail_key, &key) {
            return ;
        }
        self.clear_detail();
        self.detail_key = Some(key);
    }

    /// Whether messages that were asked for have to be called off, told once.
    pub fn take_message_cancel_pending(&mut self) -> (pending: bool)
        ensures
            pending == old(self)@.message_cancel_pending,
            final(self)@ == (SessionsView { message_cancel_pending: false, ..old(self)@ }),
    {
        let pending = self.message_cancel_pending;
        self.message_cancel_pending = false;
        pending
    }

    fn drop_mismatched_detail(&mut self)
        ensures
            final(self)@ == old(self)@.matching_detail(),
    {
        let matches = match &self.detail_key {
            None => true,
            Some(key) => {
                if self.selected_idx < self.rows.len() {
                    assert(self@.rows[self.selected_idx as int] == self.rows@[self.selected_idx as int]@);
                    session_key(&self.rows[self.selected_idx]) == *key
                } else {
                    false
                }
            },
        };
        if !matches {
            self.clear_detail();
            self.pane = SessionsPane::List;
        }
    }

    pub fn start_message_load(&mut self, key: String) -> (request_id: u64)
        ensures
            request_id == following(old(self)@.message_seq),
            final(self)@ == old(self)@.reading(key@),
    {
        self.message_seq = next_number(self.message_seq);
        self.message_active = Some(self.message_seq);
        self.messages_loading = true;
        self.detail_key = Some(key);
        self.message_seq
    }

    pub fn message_load_is_current(&self, request_id: u64, key: &String) -> (result: bool)
        ensures
            result == self@.awaits_messages(request_id, key@),
    {
        let active = match self.message_active {
            Some(active) => active == request_id,
            None => false,
        };
        active && reads(&self.detail_key, key)
    }

    /// Messages have come. The result tells whether they were waited for.
    pub fn finish_message_load(
        &mut self,
        request_id: u64,
        key: &String,
        messages: Vec<SessionMessage>,
    ) -> (finished: bool)
        ensures
            finished == old(self)@.awaits_messages(request_id, key@),
            final(self)@ == (if finished {
                SessionsView {
                    messages: views(messages@),
                    messages_loaded: true,
                    messages_loading: false,
                    message_active: None,
                    ..old(self)@
                }
            } else {
                old(self)@
            }),
    {
        if !self.message_load_is_current(request_id, key) {
            return false;
        }
        self.messages = messages;
        self.messages_loaded = true;
        self.messages_loading = false;
        self.message_active = None;
        true
    }

    pub fn fail_message_load(&mut self, request_id: u64, key: &String, error: String)
        ensures
            final(self)@ == (if old(self)@.awaits_messages(request_id, key@) {
                SessionsView {
                    messages_loading: false,
                    message_active: None,
                    last_error: Some(error@),
                    ..old(self)@
                }
            } else {
                old(self)@
            }),
    {
        if self.message_load_is_current(request_id, key) {
            self.messages_loading = false;
            self.message_active = None;
            self.last_error = Some(error);
        }
    }
}

/// Brings the selected message back within those that are there.
pub fn clamp_session_message_selection(sessions: &mut SessionsState)
    ensures
        final(sessions)@ == old(sessions)@.with_message_selected(),
{
    if sessions.messages.len() == 0 {
        sessions.message_selected = 0;
    } else if sessions.message_selected >= sessions.messages.len() {
        sessions.message_selected = sessions.messages.len() - 1;
    }
}

// Scans.

impl SessionsView {
    /// A scope is turned to: nothing of the former one is shown.
    pub open spec fn turned_to(self, scope: Seq<char>) -> SessionsView {
        if self.provider_id == Some(scope) {
            self
        } else {
            SessionsView {
                provider_id: Some(scope),
                scope_epoch: following(self.scope_epoch),
                loaded_once: false,
                rows: Seq::empty(),
                selected_idx: 0,
                pagination: Pagination::spec_new(),
                page: None,
                remote: self.remote.idle(),
                base_manifest: None,
                pending_manifest: None,
                materialized_query: None,
                ..self
            }
        }
    }

    pub open spec fn scanning(self, scope: Seq<char>) -> SessionsView {
        SessionsView {
            scan_seq: following(self.scan_seq),
            scan_active: Some(following(self.scan_seq)),
            loading: true,
            last_error: None,
            attempted_scope: Some(scope),
            ..self.turned_to(scope)
        }
    }

    /// A scan failed. A page that is shown stays, without an error beside it.
    pub open spec fn scan_failed(self, request_id: u64, error: Seq<char>) -> SessionsView {
        if self.scan_active == Some(request_id) {
            SessionsView {
                scan_active: None,
                loading: false,
                last_error: if self.page is None {
                    Some(error)
                } else {
                    self.last_error
                },
                ..self
            }
        } else {
            self
        }
    }

    /// Whether something comes from the scope that is listed, and from the
    /// present turn to it.
    pub open spec fn in_scope(self, scope_epoch: u64, scope: Seq<char>) -> bool {
        self.scope_epoch == scope_epoch && self.provider_id == Some(scope)
    }

    /// Whether a search was made into a manifest that is shown.
    pub open spec fn shows_query(self, query: Option<Seq<char>>) -> bool {
        self.materialized_query is Some && self.materialized_query == query
    }
}

impl SessionsState {
    pub fn start_scan(&mut self, scope: String) -> (request_id: u64)
        ensures
            request_id == following(old(self)@.scan_seq),
            final(self)@ == old(self)@.scanning(scope@),
    {
        self.scan_seq = next_number(self.scan_seq);
        self.scan_active = Some(self.scan_seq);
        self.loading = true;
        self.last_error = None;
        if !reads(&self.provider_id, &scope) {
            self.provider_id = Some(scope.duplicate());
            self.scope_epoch = next_number(self.scope_epoch);
            self.loaded_once = false;
            self.rows = Vec::new();
            self.selected_idx = 0;
            self.pagination = Pagination { len: 0, selected: None, row_focused: false };
            self.page = None;
            self.remote = RemotePages { wanted: None, active: None, ..self.remote };
            self.base_manifest = None;
            self.pending_manifest = None;
            self.materialized_query = None;
        }
        self.attempted_scope = Some(scope);
        assert(self@ =~= old(self)@.scanning(scope@));
        self.scan_seq
    }

    pub fn fail_scan(&mut self, request_id: u64, error: String)
        ensures
            final(self)@ == old(self)@.scan_failed(request_id, error@),
    {
        let active = match self.scan_active {
            Some(active) => active == request_id,
            None => false,
        };
        if active {
            self.scan_active = None;
            self.loading = false;
            if self.page.is_none() {
                self.last_error = Some(error);
            }
        }
    }

    pub fn loaded_for_provider(&self, scope: &String) -> (result: bool)
        ensures
            result == (self@.loaded_once && self@.provider_id == Some(scope@)),
    {
        self.loaded_once && reads(&self.provider_id, scope)
    }

    pub fn scan_attempted_for_scope(&self, scope: &String) -> (result: bool)
        ensures
            result == (self@.attempted_scope == Some(scope@)),
    {
        reads(&self.attempted_scope, scope)
    }

    pub fn purge_refresh_required(&self) -> (result: bool)
        ensures
            result == self@.purge_refresh,
    {
        self.purge_refresh
    }

    pub fn require_purge_refresh(&mut self)
        ensures
            final(self)@ == (SessionsView { purge_refresh: true, ..old(self)@ }),
    {
        self.purge_refresh = true;
    }

    pub fn consume_purge_refresh(&mut self)
        ensures
            final(self)@ == (SessionsView { purge_refresh: false, ..old(self)@ }),
    {
        self.purge_refresh = false;
    }

    pub(crate) fn is_in_scope(&self, scope_epoch: u64, scope: &String) -> (result: bool)
        ensures
            result == self@.in_scope(scope_epoch, scope@),
    {
        self.scope_epoch == scope_epoch && reads(&self.provider_id, scope)
    }

    pub fn materialized_query_is_current(&self, query: &Option<String>) -> (result: bool)
        ensures
            result == self@.shows_query(opt_view(*query)),
    {
        match (&self.materialized_query, query) {
            (Some(shown), Some(query)) => *shown == *query,
            _ => false,
        }
    }

    pub fn clear_deep_search_results(&mut self)
        ensures
            final(self)@ == (SessionsView { deep_search_results: Seq::empty(), ..old(self)@ }),
    {
        self.deep_search_results = Vec::new();
        assert(self@.deep_search_results =~= Seq::<Seq<char>>::empty());
    }

    pub fn page_token(&self) -> (token: Option<&SessionPageToken>)
        ensures
            match token {
                Some(token) => self@.page matches Some(page) && page.token == token@,
                None => self@.page is None,
            },
    {
        match &self.page {
            Some(page) => Some(&page.token),
            None => None,
        }
    }
}

// Manifests and their pages.

/// The row to select once rows are gone: the one that was meant, or the one
/// that took its place, or the last.
pub open spec fn selection_among(
    rows: Seq<SessionMetaView>,
    gone: Set<Seq<char>>,
    meant: int,
) -> usize {
    let kept = without(rows, gone).len();
    let before = without(
        rows.take(
            if meant < rows.len() {
                meant
            } else {
                rows.len() as int
            },
        ),
        gone,
    ).len();
    if kept == 0 {
        0
    } else if before < kept {
        before as usize
    } else {
        (kept - 1) as usize
    }
}

impl SessionsView {
    pub open spec fn gone(self) -> Set<Seq<char>> {
        hidden(self.purge_tombstones, self.provider_id)
    }

    /// A page is shown, without the sessions that are deleted.
    #[verifier::opaque]
    pub open spec fn installed(
        self,
        page: PageView,
        rows: Seq<SessionMetaView>,
        meant: usize,
        query: Option<Seq<char>>,
    ) -> SessionsView {
        let selected = selection_among(rows, self.gone(), meant as int);
        SessionsView {
            rows: without(rows, self.gone()),
            selected_idx: selected,
            page: Some(page),
            remote: self.remote.idle(),
            materialized_query: query,
            loaded_once: true,
            last_error: None,
            pagination: self.pagination.showing(
                page.total_rows,
                absolute(page.index, selected),
            ),
            ..self
        }.matching_detail()
    }

    /// The newest manifest of the scope is known. One that was built before the
    /// one known does not count.
    pub open spec fn takes_base(self, base: BaseManifestView) -> bool {
        &&& self.in_scope(base.scope_epoch, base.scope)
        &&& !(self.base_manifest matches Some(known) && known.scope_epoch == base.scope_epoch
            && known.scope == base.scope && known.reader.build_epoch > base.reader.build_epoch)
    }

    pub open spec fn with_base(self, base: BaseManifestView) -> SessionsView {
        if self.takes_base(base) {
            SessionsView { base_manifest: Some(base), ..self }
        } else {
            self
        }
    }

    /// Rows that a scan found first, shown until it is over where no page is.
    pub open spec fn provisional(
        self,
        request_id: u64,
        scope_epoch: u64,
        scope: Seq<char>,
        rows: Seq<SessionMetaView>,
    ) -> SessionsView {
        if self.scan_active == Some(request_id) && self.in_scope(scope_epoch, scope)
            && self.page is None {
            let selected = selection_among(rows, self.gone(), self.selected_idx as int);
            let kept = without(rows, self.gone());
            SessionsView {
                rows: kept,
                selected_idx: selected,
                pagination: self.pagination.showing(kept.len() as usize, selected),
                ..self
            }.matching_detail()
        } else {
            self
        }
    }

    /// The number of rows in the whole list.
    pub open spec fn total_rows(self) -> usize {
        match self.page {
            Some(page) => page.total_rows,
            None => self.rows.len() as usize,
        }
    }

    pub open spec fn page_index(self) -> usize {
        match self.page {
            Some(page) => page.index,
            None => 0,
        }
    }
}

impl SessionsState {
    /// The rows that are not deleted, and the place of the row meant among
    /// them.
    fn keep_rows(&self, rows: Vec<SessionMeta>, meant: usize) -> (kept: (Vec<SessionMeta>, usize))
        ensures
            views(kept.0@) == without(views(rows@), self@.gone()),
            kept.1 == selection_among(views(rows@), self@.gone(), meant as int),
    {
        let ghost all = views(rows@);
        let ghost gone = self@.gone();
        let mut rest = rows;
        let count = rest.len();
        let mut kept: Vec<SessionMeta> = Vec::new();
        let mut before: usize = 0;
        let mut seen: usize = 0;
        assert(all.skip(0) =~= all);
        assert(all.take(0) =~= Seq::<SessionMetaView>::empty());
        assert(views(kept@) =~= all.take(0));
        while rest.len() > 0
            invariant
                gone == self@.gone(),
                seen + rest@.len() == all.len(),
                all.len() == count,
                kept@.len() <= seen,
                views(rest@) == all.skip(seen as int),
                views(kept@) == without(all.take(seen as int), gone),
                before == without(
                    all.take(
                        if meant < seen {
                            meant as int
                        } else {
                            seen as int
                        },
                    ),
                    gone,
                ).len(),
                before <= kept@.len(),
            decreases rest@.len(),
        {
            proof {
                lemma_views_first(rest@);
                lemma_skip_one(all, seen as int);
            }
            let row = rest.remove(0);
            let key = session_key(&row);
            if !self.is_tombstoned(&key) {
                proof {
                    lemma_views_push(kept@, row);
                }
                kept.push(row);
                if seen < meant {
                    before = before + 1;
                }
            }
            seen = seen + 1;
        }
        assert(all.take(seen as int) =~= all);
        proof {
            lemma_without_len(
                all,
                gone,
                if meant < all.len() {
                    meant as int
                } else {
                    all.len() as int
                },
            );
        }
        let selected = if kept.len() == 0 {
            0
        } else if before < kept.len() {
            before
        } else {
            kept.len() - 1
        };
        (kept, selected)
    }

    pub(crate) fn install(
        &mut self,
        page: SessionPage,
        rows: Vec<SessionMeta>,
        meant: usize,
        query: Option<String>,
    )
        ensures
            final(self)@ == old(self)@.installed(page@, views(rows@), meant, opt_view(query)),
    {
        reveal(SessionsView::installed);
        let (kept, selected) = self.keep_rows(rows, meant);
        self.rows = kept;
        self.selected_idx = selected;
        self.pagination.show(page.total_rows, absolute_index(page.index, selected));
        self.page = Some(page);
        self.remote = RemotePages { wanted: None, active: None, ..self.remote };
        self.materialized_query = query;
        self.loaded_once = true;
        self.last_error = None;
        self.drop_mismatched_detail();
    }

    /// Remembers the newest manifest of the scope. The result tells whether
    /// this one is.
    pub fn remember_base_manifest(
        &mut self,
        scope_epoch: u64,
        scope: &String,
        generation: String,
        total_rows: usize,
        reader: ManifestReader,
    ) -> (taken: bool)
        ensures
            ({
                let base = BaseManifestView {
                    scope_epoch,
                    scope: scope@,
                    generation: generation@,
                    total_rows,
                    reader,
                };
                &&& taken == old(self)@.takes_base(base)
                &&& final(self)@ == old(self)@.with_base(base)
            }),
    {
        if !self.is_in_scope(scope_epoch, scope) {
            return false;
        }
        if let Some(known) = &self.base_manifest {
            if known.scope_epoch == scope_epoch && known.scope == *scope
                && known.reader.build_epoch > reader.build_epoch {
                return false;
            }
        }
        let base = BaseManifest {
            scope_epoch,
            scope: scope.duplicate(),
            generation,
            total_rows,
            reader,
        };
        assert(base@ =~= BaseManifestView {
            scope_epoch,
            scope: scope@,
            generation: generation@,
            total_rows,
            reader,
        });
        self.base_manifest = Some(base);
        true
    }

    /// Shows a page of the scope's manifest. The result tells whether it comes
    /// from the scope that is listed.
    pub fn apply_opened_manifest(
        &mut self,
        scope_epoch: u64,
        scope: &String,
        generation: String,
        total_rows: usize,
        page_index: usize,
        rows: Vec<SessionMeta>,
        reader: ManifestReader,
    ) -> (applied: bool)
        ensures
            applied == old(self)@.in_scope(scope_epoch, scope@),
            final(self)@ == (if applied {
                old(self)@.installed(
                    PageView {
                        token: PageTokenView {
                            source: SessionPageSource::Base,
                            scope_epoch,
                            scope: scope@,
                            generation: generation@,
                        },
                        reader,
                        total_rows,
                        index: page_index,
                    },
                    views(rows@),
                    old(self)@.selected_idx,
                    None,
                )
            } else {
                old(self)@
            }),
    {
        if !self.is_in_scope(scope_epoch, scope) {
            return false;
        }
        let token = SessionPageToken {
            source: SessionPageSource::Base,
            scope_epoch,
            scope: scope.duplicate(),
            generation,
        };
        let page = SessionPage { token, reader, total_rows, index: page_index };
        assert(page@ =~= PageView {
            token: PageTokenView {
                source: SessionPageSource::Base,
                scope_epoch,
                scope: scope@,
                generation: generation@,
            },
            reader,
            total_rows,
            index: page_index,
        });
        let meant = self.selected_idx;
        self.install(page, rows, meant, None);
        true
    }

    /// Shows rows that a scan found first.
    pub fn apply_provisional_page(
        &mut self,
        request_id: u64,
        scope_epoch: u64,
        scope: &String,
        rows: Vec<SessionMeta>,
    )
        ensures
            final(self)@ == old(self)@.provisional(
                request_id,
                scope_epoch,
                scope@,
                views(rows@),
            ),
    {
        let active = match self.scan_active {
            Some(active) => active == request_id,
            None => false,
        };
        if active && self.is_in_scope(scope_epoch, scope) && self.page.is_none() {
            let (kept, selected) = self.keep_rows(rows, self.selected_idx);
            self.rows = kept;
            self.selected_idx = selected;
            self.pagination.show(self.rows.len(), selected);
            self.drop_mismatched_detail();
        }
    }

    pub fn logical_total_rows(&self) -> (total: usize)
        ensures
            total == self@.total_rows(),
    {
        match &self.page {
            Some(page) => page.total_rows,
            None => self.rows.len(),
        }
    }

    pub fn current_page(&self) -> (index: usize)
        ensures
            index == self@.page_index(),
    {
        match &self.page {
            Some(page) => page.index,
            None => 0,
        }
    }
}

} // verus!
