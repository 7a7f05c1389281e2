//! Remaining quota of providers: what is known of it and what is asked for.

use vstd::prelude::*;

use crate::app_type::{AppNames, AppNamesView, AppType};
use crate::base::{duplicate_opt, opt_view, Duplicate};
use crate::table::{duplicate_table, map_views, Table};
use crate::text::joined;

verus! {

/// A provider whose quota can be asked for, and how.
#[derive(Debug)]
pub struct QuotaTarget {
    pub app_type: AppType,
    pub provider_id: String,
    pub provider_name: String,
    /// The service that knows the quota.
    pub tool: String,
}

#[verifier::ext_equal]
pub struct QuotaTargetView {
    pub app_type: AppType,
    pub provider_id: Seq<char>,
    pub provider_name: Seq<char>,
    pub tool: Seq<char>,
}

impl View for QuotaTarget {
    type V = QuotaTargetView;

    open spec fn view(&self) -> QuotaTargetView {
        QuotaTargetView {
            app_type: self.app_type,
            provider_id: self.provider_id@,
            provider_name: self.provider_name@,
            tool: self.tool@,
        }
    }
}

impl Duplicate for QuotaTarget {
    fn duplicate(&self) -> (copy: QuotaTarget) {
        QuotaTarget {
            app_type: self.app_type,
            provider_id: self.provider_id.duplicate(),
            provider_name: self.provider_name.duplicate(),
            tool: self.tool.duplicate(),
        }
    }
}

impl QuotaTargetView {
    /// What tells targets apart: application, provider and service.
    pub open spec fn key(self, names: AppNamesView) -> Seq<char> {
        names.of(self.app_type) + (":"@ + (self.provider_id + (":"@ + self.tool)))
    }
}

impl QuotaTarget {
    pub fn cache_key(&self, names: &AppNames) -> (key: String)
        ensures
            key@ == self@.key(names@),
    {
        let tail = joined(":", self.tool.as_str());
        let tail = joined(self.provider_id.as_str(), tail.as_str());
        let tail = joined(":", tail.as_str());
        joined(names.of(&self.app_type).as_str(), tail.as_str())
    }

    fn same(&self, other: &QuotaTarget) -> (result: bool)
        ensures
            result == (self@ == other@),
    {
        let result = self.app_type == other.app_type && self.provider_id == other.provider_id
            && self.provider_name == other.provider_name && self.tool == other.tool;
        assert(result ==> self@ =~= other@);
        result
    }
}

/// An answer to a quota request.
#[derive(Debug)]
pub struct ProviderUsageQuota {
    pub tool: String,
    pub success: bool,
    pub queried_at: Option<i64>,
}

#[verifier::ext_equal]
pub struct ProviderUsageQuotaView {
    pub tool: Seq<char>,
    pub success: bool,
    pub queried_at: Option<i64>,
}

impl View for ProviderUsageQuota {
    type V = ProviderUsageQuotaView;

    open spec fn view(&self) -> ProviderUsageQuotaView {
        ProviderUsageQuotaView {
            tool: self.tool@,
            success: self.success,
            queried_at: self.queried_at,
        }
    }
}

impl Duplicate for ProviderUsageQuota {
    fn duplicate(&self) -> (copy: ProviderUsageQuota) {
        ProviderUsageQuota {
            tool: self.tool.duplicate(),
            success: self.success,
            queried_at: self.queried_at,
        }
    }
}

/// What is known of a provider's quota: the last answer or error, and whether
/// an answer is waited for, and whether the user asked for it.
#[derive(Debug)]
pub struct QuotaState {
    pub target: QuotaTarget,
    pub loading: bool,
    pub manual: bool,
    pub quota: Option<ProviderUsageQuota>,
    pub error: Option<String>,
}

#[verifier::ext_equal]
pub struct QuotaStateView {
    pub target: QuotaTargetView,
    pub loading: bool,
    pub manual: bool,
    pub quota: Option<ProviderUsageQuotaView>,
    pub error: Option<Seq<char>>,
}

impl View for QuotaState {
    type V = QuotaStateView;

    open spec fn view(&self) -> QuotaStateView {
        QuotaStateView {
            target: self.target@,
            loading: self.loading,
            manual: self.manual,
            quota: opt_view(self.quota),
            error: opt_view(self.error),
        }
    }
}

impl Duplicate for QuotaState {
    fn duplicate(&self) -> (copy: QuotaState) {
        QuotaState {
            target: self.target.duplicate(),
            loading: self.loading,
            manual: self.manual,
            quota: duplicate_opt(&self.quota),
            error: duplicate_opt(&self.error),
        }
    }
}

/// What is known of the quotas, by provider.
#[derive(Debug)]
pub struct QuotaStates {
    pub states: Table<String, QuotaState>,
}

/// What is known of the quotas, by provider.
#[verifier::ext_equal]
pub struct QuotaStatesView {
    pub states: Map<Seq<char>, QuotaStateView>,
}

impl View for QuotaStates {
    type V = QuotaStatesView;

    open spec fn view(&self) -> QuotaStatesView {
        QuotaStatesView { states: map_views(self.states@) }
    }
}

impl Duplicate for QuotaStates {
    fn duplicate(&self) -> (copy: QuotaStates) {
        QuotaStates { states: duplicate_table(&self.states) }
    }
}

impl QuotaStatesView {
    /// Whether the provider's state belongs to this very target.
    pub open spec fn current(self, target: QuotaTargetView) -> bool {
        self.states.contains_key(target.provider_id) && self.states[target.provider_id].target
            == target
    }

    /// Whether the user waits for this target's answer.
    pub open spec fn asked_by_user(self, target: QuotaTargetView) -> bool {
        &&& self.current(target)
        &&& self.states[target.provider_id].loading
        &&& self.states[target.provider_id].manual
    }

    /// An answer is waited for. What was known of the same target stays; an
    /// error goes.
    pub open spec fn waiting(self, target: QuotaTargetView, manual: bool) -> QuotaStatesView {
        QuotaStatesView {
            states: self.states.insert(
                target.provider_id,
                QuotaStateView {
                    target,
                    loading: true,
                    manual,
                    quota: if self.current(target) {
                        self.states[target.provider_id].quota
                    } else {
                        None
                    },
                    error: None,
                },
            ),
        }
    }

    /// An answer has come.
    pub open spec fn answered(
        self,
        target: QuotaTargetView,
        quota: ProviderUsageQuotaView,
    ) -> QuotaStatesView {
        QuotaStatesView {
            states: self.states.insert(
                target.provider_id,
                QuotaStateView {
                    target,
                    loading: false,
                    manual: false,
                    quota: Some(quota),
                    error: None,
                },
            ),
        }
    }

    /// The request has failed. What was known of the same target stays.
    pub open spec fn failed(self, target: QuotaTargetView, error: Seq<char>) -> QuotaStatesView {
        QuotaStatesView {
            states: self.states.insert(
                target.provider_id,
                QuotaStateView {
                    target,
                    loading: false,
                    manual: false,
                    quota: if self.current(target) {
                        self.states[target.provider_id].quota
                    } else {
                        None
                    },
                    error: Some(error),
                },
            ),
        }
    }
}

impl QuotaStates {
    pub fn new() -> (states: QuotaStates)
        ensures
            states@.states == Map::<Seq<char>, QuotaStateView>::empty(),
    {
        let states = QuotaStates { states: Table::new() };
        assert(states@.states =~= Map::empty());
        states
    }

    pub fn state_for(&self, provider_id: &String) -> (state: Option<&QuotaState>)
        ensures
            match state {
                Some(s) => self@.states.contains_key(provider_id@) && s@
                    == self@.states[provider_id@],
                None => !self@.states.contains_key(provider_id@),
            },
    {
        self.states.get(provider_id)
    }

    pub fn target_is_current(&self, target: &QuotaTarget) -> (result: bool)
        ensures
            result == self@.current(target@),
    {
        match self.states.get(&target.provider_id) {
            Some(state) => state.target.same(target),
            None => false,
        }
    }

    pub fn has_manual_loading(&self, target: &QuotaTarget) -> (result: bool)
        ensures
            result == self@.asked_by_user(target@),
    {
        match self.states.get(&target.provider_id) {
            Some(state) => state.target.same(target) && state.loading && state.manual,
            None => false,
        }
    }

    /// The last answer for this very target.
    fn known_quota(&self, target: &QuotaTarget) -> (quota: Option<ProviderUsageQuota>)
        ensures
            opt_view(quota) == (if self@.current(target@) {
                self@.states[target@.provider_id].quota
            } else {
                None
            }),
    {
        match self.states.get(&target.provider_id) {
            Some(state) => {
                if state.target.same(target) {
                    duplicate_opt(&state.quota)
                } else {
                    None
                }
            },
            None => None,
        }
    }

    pub fn mark_loading(&mut self, target: QuotaTarget, manual: bool)
        ensures
            final(self)@ == old(self)@.waiting(target@, manual),
    {
        let quota = self.known_quota(&target);
        let provider_id = target.provider_id.duplicate();
        self.states.insert(
            provider_id,
            QuotaState { target, loading: true, manual, quota, error: None },
        );
        assert(self@ =~= old(self)@.waiting(target@, manual));
    }

    pub fn finish(&mut self, target: QuotaTarget, quota: ProviderUsageQuota)
        ensures
            final(self)@ == old(self)@.answered(target@, quota@),
    {
        let provider_id = target.provider_id.duplicate();
        self.states.insert(
            provider_id,
            QuotaState { target, loading: false, manual: false, quota: Some(quota), error: None },
        );
        assert(self@ =~= old(self)@.answered(target@, quota@));
    }

    pub fn finish_error(&mut self, target: QuotaTarget, error: String)
        ensures
            final(self)@ == old(self)@.failed(target@, error@),
    {
        let quota = self.known_quota(&target);
        let provider_id = target.provider_id.duplicate();
        self.states.insert(
            provider_id,
            QuotaState { target, loading: false, manual: false, quota, error: Some(error) },
        );
        assert(self@ =~= old(self)@.failed(target@, error@));
    }
}

} // verus!
