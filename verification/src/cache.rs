//! Loaded data of all applications, and the loads that are under way.
//!
//! Every load carries the generation of the data and the epoch of the
//! application state that it was asked for under; an answer from another
//! generation or epoch is stale.

use vstd::prelude::*;

use crate::app::{App, AppView};
use crate::app_type::AppType;
use crate::base::Duplicate;
use crate::data::{UiData, UiDataView};
use crate::messages::{AppDataLoadKind, AppDataReq, UsagePricingReq};
use crate::outbox::{Link, Outbox, CHANNEL_CLOSED};
use crate::request::{following, next_number};
use crate::table::{
    lemma_map_views, lemma_map_views_passing, lemma_map_views_removed, map_views, passing, KeyTest,
    Table,
};
use crate::text::{joined, Text, TextView, ToastKind};
use crate::usage::{
    align_usage_to_active_range, load_key, logical_range, usage_pricing_load_key,
    usage_pricing_logical_range, NotCustomOf, OtherApps, PagerView, UsageLogPage, UsageLogPageView,
    UsagePricingData, UsagePricingLoadKey, UsagePricingView, UsageRangePreset, UsageUiView,
};

verus! {

/// A load of application data that is under way.
#[derive(Clone, Copy, Debug, PartialEq, Eq, Structural)]
pub struct PendingAppDataLoad {
    pub kind: AppDataLoadKind,
    pub request_id: u64,
    pub generation: u64,
    pub app_state_epoch: u64,
}

/// A load of usage figures that is under way.
#[derive(Clone, Copy, Debug, PartialEq, Eq, Structural)]
pub struct PendingDataLoad {
    pub request_id: u64,
    pub generation: u64,
    pub app_state_epoch: u64,
}

/// How far the two halves of a usage load have come: the aggregate and the
/// head of the log, which are delivered separately and in either order.
#[derive(Clone, Copy, Debug, PartialEq, Eq, Structural)]
pub struct UsagePricingLoadPhase {
    pub token: PendingDataLoad,
    pub aggregate_finished: bool,
    pub aggregate_succeeded: bool,
    pub head_finished: bool,
}

impl UsagePricingLoadPhase {
    pub open spec fn begun(token: PendingDataLoad) -> UsagePricingLoadPhase {
        UsagePricingLoadPhase {
            token,
            aggregate_finished: false,
            aggregate_succeeded: false,
            head_finished: false,
        }
    }

    pub fn new(token: PendingDataLoad) -> (phase: UsagePricingLoadPhase)
        ensures
            phase == Self::begun(token),
    {
        UsagePricingLoadPhase {
            token,
            aggregate_finished: false,
            aggregate_succeeded: false,
            head_finished: false,
        }
    }
}

/// What a change of the data means for what is cached.
#[derive(Clone, Copy, Debug, PartialEq, Eq, Structural)]
pub enum CacheInvalidation {
    Nothing,
    /// The data of the current application has to be loaded again.
    CurrentAppDataChanged,
    /// The data of the current application was loaded again; that of the
    /// others is as good as it was.
    CurrentAppReloaded,
    /// Data was loaded again; nothing that was cached holds.
    DataReloaded,
    /// The application state itself is a new one.
    AppStateRecreated,
}

/// What came of the wish to load an application's data.
#[derive(Clone, Copy, Debug, PartialEq, Eq, Structural)]
pub enum AppDataLoadQueued {
    Queued,
    AlreadyPending,
    Unavailable,
    SendFailed,
}

/// What an answer to a load of application data is worth.
#[derive(Clone, Copy, Debug, PartialEq, Eq, Structural)]
pub enum AppDataLoadFinish {
    Accepted,
    /// It belongs to data or a state that are gone.
    Stale,
    /// It was not asked for.
    Ignored,
}

/// Loaded data of all applications, and the loads that are under way.
#[derive(Debug)]
pub struct UiDataByAppCache {
    pub by_app: Table<AppType, UiData>,
    pub pending_by_app: Table<AppType, PendingAppDataLoad>,
    pub incomplete_by_app: Table<AppType, ()>,
    pub usage_pricing_by_key: Table<UsagePricingLoadKey, UsagePricingData>,
    pub pending_usage_pricing_by_key: Table<UsagePricingLoadKey, PendingDataLoad>,
    pub usage_pricing_phase_by_key: Table<UsagePricingLoadKey, UsagePricingLoadPhase>,
    /// Usage rows are imported by a separate connection. An aggregate that
    /// started before the latest progress of the import has to be followed by
    /// one more; its key is kept here. The generation does not change with
    /// it, because pages and rows of the log that are being read stay valid.
    pub usage_pricing_dirty_by_key: Table<UsagePricingLoadKey, ()>,
    pub next_app_data_request_id: u64,
    pub next_usage_pricing_request_id: u64,
    pub data_generation: u64,
    pub app_state_epoch: u64,
}

/// Loaded data of all applications, and the loads that are under way.
#[verifier::ext_equal]
pub struct CacheView {
    pub by_app: Map<AppType, UiDataView>,
    pub pending: Map<AppType, PendingAppDataLoad>,
    pub incomplete: Map<AppType, ()>,
    pub usage: Map<UsagePricingLoadKey, UsagePricingView>,
    pub pending_usage: Map<UsagePricingLoadKey, PendingDataLoad>,
    pub phases: Map<UsagePricingLoadKey, UsagePricingLoadPhase>,
    pub dirty: Map<UsagePricingLoadKey, ()>,
    pub last_app_request: u64,
    pub last_usage_request: u64,
    pub generation: u64,
    pub epoch: u64,
}

impl View for UiDataByAppCache {
    type V = CacheView;

    open spec fn view(&self) -> CacheView {
        CacheView {
            by_app: map_views(self.by_app@),
            pending: self.pending_by_app@,
            incomplete: self.incomplete_by_app@,
            usage: map_views(self.usage_pricing_by_key@),
            pending_usage: self.pending_usage_pricing_by_key@,
            phases: self.usage_pricing_phase_by_key@,
            dirty: self.usage_pricing_dirty_by_key@,
            last_app_request: self.next_app_data_request_id,
            last_usage_request: self.next_usage_pricing_request_id,
            generation: self.data_generation,
            epoch: self.app_state_epoch,
        }
    }
}

/// Figures and prices of a usage load taken over into an application's data.
pub open spec fn with_usage(
    data: UiDataView,
    range: UsageRangePreset,
    loaded: UsagePricingView,
) -> UiDataView {
    UiDataView {
        usage: data.usage.merged(range, loaded.usage),
        pricing: match loaded.pricing {
            Some(pricing) => pricing,
            None => data.pricing,
        },
        ..data
    }
}

impl CacheView {
    pub open spec fn nothing() -> CacheView {
        CacheView {
            by_app: Map::empty(),
            pending: Map::empty(),
            incomplete: Map::empty(),
            usage: Map::empty(),
            pending_usage: Map::empty(),
            phases: Map::empty(),
            dirty: Map::empty(),
            last_app_request: 0,
            last_usage_request: 0,
            generation: 0,
            epoch: 0,
        }
    }

    /// Whether the data of an application is complete as far as the cache
    /// knows: neither being loaded nor known to lack something.
    pub open spec fn settled(self, app_type: AppType) -> bool {
        !self.pending.contains_key(app_type) && !self.incomplete.contains_key(app_type)
    }

    /// Keeps an application's data, unless it is incomplete.
    pub open spec fn remembering(self, app_type: AppType, data: UiDataView) -> CacheView {
        if self.settled(app_type) {
            CacheView { by_app: self.by_app.insert(app_type, data), ..self }
        } else {
            self
        }
    }

    /// Keeps figures that were loaded, also in the data of their application
    /// where that is kept.
    pub open spec fn with_figures(
        self,
        app_type: AppType,
        range: UsageRangePreset,
        loaded: UsagePricingView,
    ) -> CacheView {
        CacheView {
            by_app: if self.by_app.contains_key(app_type) {
                self.by_app.insert(
                    app_type,
                    with_usage(self.by_app[app_type], logical_range(range), loaded),
                )
            } else {
                self.by_app
            },
            usage: self.usage.insert(load_key(app_type, range), loaded),
            ..self
        }
    }

    /// An application's data with the figures that are kept for it: those of
    /// the fixed ranges, and those of the custom range looked at.
    pub open spec fn completed(
        self,
        app_type: AppType,
        data: UiDataView,
        active: UsageRangePreset,
    ) -> UiDataView {
        let fixed_key = (app_type, UsageRangePreset::SevenDays);
        let fixed = if self.usage.contains_key(fixed_key) {
            with_usage(data, UsageRangePreset::SevenDays, self.usage[fixed_key])
        } else {
            data
        };
        let both = if active.spec_is_custom() && self.usage.contains_key((app_type, active)) {
            with_usage(fixed, active, self.usage[(app_type, active)])
        } else {
            fixed
        };
        UiDataView { usage: both.usage.aligned(active), ..both }
    }

    /// Nothing that was loaded or asked for counts any more.
    pub open spec fn cleared(self) -> CacheView {
        CacheView {
            generation: following(self.generation),
            last_app_request: self.last_app_request,
            last_usage_request: self.last_usage_request,
            epoch: self.epoch,
            ..Self::nothing()
        }
    }

    /// Nothing counts any more, and the application state is a new one.
    pub open spec fn recreated(self) -> CacheView {
        CacheView { epoch: following(self.epoch), ..self.cleared() }
    }

    pub open spec fn without_app(self, app_type: AppType) -> CacheView {
        CacheView {
            by_app: self.by_app.remove(app_type),
            pending: self.pending.remove(app_type),
            incomplete: self.incomplete.remove(app_type),
            ..self
        }
    }

    pub open spec fn without_figures(self, app_type: AppType) -> CacheView {
        let others = OtherApps { app_type };
        CacheView {
            usage: passing::<UsagePricingLoadKey, UsagePricingView, OtherApps>(self.usage, others),
            pending_usage: passing::<UsagePricingLoadKey, PendingDataLoad, OtherApps>(
                self.pending_usage,
                others,
            ),
            phases: passing::<UsagePricingLoadKey, UsagePricingLoadPhase, OtherApps>(
                self.phases,
                others,
            ),
            dirty: passing::<UsagePricingLoadKey, (), OtherApps>(self.dirty, others),
            ..self
        }
    }

    pub open spec fn without_custom_figures(self, app_type: AppType) -> CacheView {
        let rest = NotCustomOf { app_type };
        CacheView {
            usage: passing::<UsagePricingLoadKey, UsagePricingView, NotCustomOf>(self.usage, rest),
            pending_usage: passing::<UsagePricingLoadKey, PendingDataLoad, NotCustomOf>(
                self.pending_usage,
                rest,
            ),
            phases: passing::<UsagePricingLoadKey, UsagePricingLoadPhase, NotCustomOf>(
                self.phases,
                rest,
            ),
            dirty: passing::<UsagePricingLoadKey, (), NotCustomOf>(self.dirty, rest),
            ..self
        }
    }

    /// The token of the next load of application data.
    pub open spec fn next_app_load(self, kind: AppDataLoadKind) -> PendingAppDataLoad {
        PendingAppDataLoad {
            kind,
            request_id: following(self.last_app_request),
            generation: self.generation,
            app_state_epoch: self.epoch,
        }
    }

    /// A load of an application's data is under way.
    pub open spec fn loading_app(self, app_type: AppType, kind: AppDataLoadKind) -> CacheView {
        CacheView {
            last_app_request: following(self.last_app_request),
            pending: self.pending.insert(app_type, self.next_app_load(kind)),
            incomplete: self.incomplete.insert(app_type, ()),
            ..self
        }
    }

    /// The token of the next load of usage figures.
    pub open spec fn next_usage_load(self) -> PendingDataLoad {
        PendingDataLoad {
            request_id: following(self.last_usage_request),
            generation: self.generation,
            app_state_epoch: self.epoch,
        }
    }

    /// Whether a load of usage figures is the one under way for its key.
    pub open spec fn awaits_figures(
        self,
        app_type: AppType,
        range: UsageRangePreset,
        token: PendingDataLoad,
    ) -> bool {
        let key = load_key(app_type, range);
        self.pending_usage.contains_key(key) && self.pending_usage[key] == token
    }

    /// Whether the head of the log belongs to the latest load of its key.
    pub open spec fn awaits_head(
        self,
        app_type: AppType,
        range: UsageRangePreset,
        token: PendingDataLoad,
    ) -> bool {
        let key = load_key(app_type, range);
        self.phases.contains_key(key) && self.phases[key].token == token
    }

    /// The aggregate of a load that was under way has come.
    pub open spec fn aggregate_done(
        self,
        app_type: AppType,
        range: UsageRangePreset,
        token: PendingDataLoad,
        succeeded: bool,
    ) -> CacheView {
        let key = load_key(app_type, range);
        CacheView {
            pending_usage: self.pending_usage.remove(key),
            phases: if self.awaits_head(app_type, range, token) {
                self.phases.insert(
                    key,
                    UsagePricingLoadPhase {
                        aggregate_finished: true,
                        aggregate_succeeded: succeeded,
                        ..self.phases[key]
                    },
                )
            } else {
                self.phases
            },
            ..self
        }
    }

    /// The head of the log of the latest load has come.
    pub open spec fn head_done(self, app_type: AppType, range: UsageRangePreset) -> CacheView {
        let key = load_key(app_type, range);
        CacheView {
            phases: self.phases.insert(
                key,
                UsagePricingLoadPhase { head_finished: true, ..self.phases[key] },
            ),
            ..self
        }
    }

    /// The head of the log is kept wherever figures of its range are.
    pub open spec fn with_log_head(
        self,
        app_type: AppType,
        range: UsageRangePreset,
        page: UsageLogPageView,
        exact_total_known: bool,
    ) -> CacheView {
        let key = load_key(app_type, range);
        CacheView {
            by_app: if self.by_app.contains_key(app_type) {
                let data = self.by_app[app_type];
                self.by_app.insert(
                    app_type,
                    UiDataView {
                        usage: data.usage.with_log_head(range, page, exact_total_known),
                        ..data
                    },
                )
            } else {
                self.by_app
            },
            usage: if self.usage.contains_key(key) {
                let loaded = self.usage[key];
                self.usage.insert(
                    key,
                    UsagePricingView {
                        usage: loaded.usage.with_log_head(range, page, exact_total_known),
                        ..loaded
                    },
                )
            } else {
                self.usage
            },
            ..self
        }
    }

    /// Data was loaded again.
    pub open spec fn after_reload(
        self,
        app_type: AppType,
        data: UiDataView,
        invalidation: CacheInvalidation,
    ) -> CacheView {
        match invalidation {
            CacheInvalidation::Nothing | CacheInvalidation::CurrentAppDataChanged => self,
            CacheInvalidation::CurrentAppReloaded => self.remembering(app_type, data),
            CacheInvalidation::DataReloaded => self.cleared().remembering(app_type, data),
            CacheInvalidation::AppStateRecreated => self.recreated().remembering(app_type, data),
        }
    }
}

impl Default for UiDataByAppCache {
    fn default() -> (cache: UiDataByAppCache)
        ensures
            cache@ == CacheView::nothing(),
    {
        let cache = UiDataByAppCache {
            by_app: Table::new(),
            pending_by_app: Table::new(),
            incomplete_by_app: Table::new(),
            usage_pricing_by_key: Table::new(),
            pending_usage_pricing_by_key: Table::new(),
            usage_pricing_phase_by_key: Table::new(),
            usage_pricing_dirty_by_key: Table::new(),
            next_app_data_request_id: 0,
            next_usage_pricing_request_id: 0,
            data_generation: 0,
            app_state_epoch: 0,
        };
        assert(cache@ =~~= CacheView::nothing());
        cache
    }
}

impl UiDataByAppCache {
    pub fn remember_current(&mut self, app_type: &AppType, data: &UiData)
        ensures
            final(self)@ == old(self)@.remembering(*app_type, data@),
    {
        if self.pending_by_app.contains_key(app_type) || self.incomplete_by_app.contains_key(
            app_type,
        ) {
            return;
        }
        let copy = data.duplicate();
        proof {
            lemma_map_views(self.by_app@, *app_type, copy);
        }
        self.by_app.insert(*app_type, copy);
    }

    pub fn update_usage_pricing(
        &mut self,
        app_type: &AppType,
        range: UsageRangePreset,
        usage_pricing: UsagePricingData,
    )
        ensures
            final(self)@ == old(self)@.with_figures(*app_type, range, usage_pricing@),
    {
        let range = usage_pricing_logical_range(range);
        proof {
            lemma_map_views_removed(self.by_app@, *app_type);
        }
        let ghost apps = self.by_app@;
        match self.by_app.remove(app_type) {
            Some(cached) => {
                let mut cached = cached;
                cached.usage.merge_range(range, usage_pricing.usage.duplicate());
                if let Some(pricing) = &usage_pricing.pricing {
                    cached.pricing = pricing.duplicate();
                }
                proof {
                    lemma_map_views(self.by_app@, *app_type, cached);
                    assert(cached@ =~= with_usage(apps[*app_type]@, range, usage_pricing@));
                }
                self.by_app.insert(*app_type, cached);
                assert(self@.by_app =~= old(self)@.with_figures(
                    *app_type,
                    range,
                    usage_pricing@,
                ).by_app);
            },
            None => {
                assert(self@.by_app =~= old(self)@.by_app);
            },
        }
        let key = usage_pricing_load_key(app_type, range);
        proof {
            lemma_map_views(self.usage_pricing_by_key@, key, usage_pricing);
        }
        self.usage_pricing_by_key.insert(key, usage_pricing);
    }

    pub fn merge_usage_pricing(
        &self,
        app_type: &AppType,
        data: &mut UiData,
        active_range: UsageRangePreset,
    )
        ensures
            final(data)@ == self@.completed(*app_type, old(data)@, active_range),
    {
        let fixed_key = (*app_type, UsageRangePreset::SevenDays);
        proof {
            lemma_map_views_removed(self.usage_pricing_by_key@, fixed_key);
            lemma_map_views_removed(self.usage_pricing_by_key@, (*app_type, active_range));
        }
        if let Some(loaded) = self.usage_pricing_by_key.get(&fixed_key) {
            data.usage.merge_range(UsageRangePreset::SevenDays, loaded.usage.duplicate());
            if let Some(pricing) = &loaded.pricing {
                data.pricing = pricing.duplicate();
            }
        }
        if active_range.is_custom() {
            if let Some(loaded) = self.usage_pricing_by_key.get(&(*app_type, active_range)) {
                data.usage.merge_range(active_range, loaded.usage.duplicate());
                if let Some(pricing) = &loaded.pricing {
                    data.pricing = pricing.duplicate();
                }
            }
        }
        align_usage_to_active_range(&mut data.usage, active_range);
    }

    pub fn clear(&mut self)
        ensures
            final(self)@ == old(self)@.cleared(),
    {
        self.data_generation = next_number(self.data_generation);
        self.by_app.clear();
        self.pending_by_app.clear();
        self.incomplete_by_app.clear();
        self.usage_pricing_by_key.clear();
        self.pending_usage_pricing_by_key.clear();
        self.usage_pricing_phase_by_key.clear();
        self.usage_pricing_dirty_by_key.clear();
        assert(self@ =~~= old(self)@.cleared());
    }

    pub fn clear_after_app_state_recreated(&mut self)
        ensures
            final(self)@ == old(self)@.recreated(),
    {
        self.app_state_epoch = next_number(self.app_state_epoch);
        self.clear();
    }

    /// Forgets finished aggregates after the importer of session logs has
    /// committed. Loads under way and what is shown stay as they are.
    pub fn invalidate_usage_pricing_cache_after_external_usage_sync(&mut self)
        ensures
            final(self)@ == (CacheView { usage: Map::empty(), ..old(self)@ }),
    {
        self.usage_pricing_by_key.clear();
        assert(self@.usage =~= Map::empty());
    }

    pub fn remove_app_snapshot(&mut self, app_type: &AppType)
        ensures
            final(self)@ == old(self)@.without_app(*app_type),
    {
        proof {
            lemma_map_views_removed(self.by_app@, *app_type);
        }
        let _ = self.by_app.remove(app_type);
        let _ = self.pending_by_app.remove(app_type);
        let _ = self.incomplete_by_app.remove(app_type);
    }

    pub fn remove_usage_pricing_for_app(&mut self, app_type: &AppType)
        ensures
            final(self)@ == old(self)@.without_figures(*app_type),
    {
        let others = OtherApps { app_type: *app_type };
        proof {
            lemma_map_views_passing::<UsagePricingLoadKey, UsagePricingData, OtherApps>(
                self.usage_pricing_by_key@,
                others,
            );
        }
        self.usage_pricing_by_key.retain(&others);
        self.pending_usage_pricing_by_key.retain(&others);
        self.usage_pricing_phase_by_key.retain(&others);
        self.usage_pricing_dirty_by_key.retain(&others);
    }
}

/// What came of the wish to load an application's data, seen from the worker.
pub open spec fn queued_over(link: Link) -> AppDataLoadQueued {
    match link {
        Link::Missing => AppDataLoadQueued::Unavailable,
        Link::Closed => AppDataLoadQueued::SendFailed,
        Link::Open => AppDataLoadQueued::Queued,
    }
}

/// The notice that an application's data cannot be loaded.
pub open spec fn app_load_notice(link: Link) -> TextView {
    TextView::verbatim(
        if link == Link::Missing {
            "App data worker is not running; reload data to refresh this app."@
        } else {
            "App data refresh request failed: "@ + CHANNEL_CLOSED@
        },
    )
}

/// Prepares further applications along with the first one: each that is not
/// being loaded already gets a load of its own.
pub open spec fn preparing(cache: CacheView, extras: Seq<AppType>) -> (
    CacheView,
    Seq<(AppType, u64)>,
)
    decreases extras.len(),
{
    if extras.len() == 0 {
        (cache, Seq::empty())
    } else {
        let (before, list) = preparing(cache, extras.drop_last());
        let extra = extras.last();
        if before.pending.contains_key(extra) {
            (before, list)
        } else {
            (
                before.loading_app(extra, AppDataLoadKind::Initial),
                list.push((extra, following(before.last_app_request))),
            )
        }
    }
}

/// Applications of a list are neither being loaded nor incomplete any more.
pub open spec fn abandoning(cache: CacheView, list: Seq<(AppType, u64)>) -> CacheView
    decreases list.len(),
{
    if list.len() == 0 {
        cache
    } else {
        let before = abandoning(cache, list.drop_last());
        let app_type = list.last().0;
        CacheView {
            pending: before.pending.remove(app_type),
            incomplete: before.incomplete.remove(app_type),
            ..before
        }
    }
}

impl UiDataByAppCache {
    /// Asks for all of an application's data to be loaded.
    pub fn queue_current_app_data_refresh(
        &mut self,
        worker: &mut Outbox<AppDataReq>,
        app_type: &AppType,
    ) -> (queued: AppDataLoadQueued)
        ensures
            final(worker).link == old(worker).link,
            queued == (if old(self)@.pending.contains_key(*app_type) {
                AppDataLoadQueued::AlreadyPending
            } else {
                queued_over(old(worker).link)
            }),
            match queued {
                AppDataLoadQueued::AlreadyPending | AppDataLoadQueued::Unavailable => final(self)@
                    == old(self)@ && final(worker).sent@ == old(worker).sent@,
                AppDataLoadQueued::SendFailed => final(self)@ == old(self)@.loading_app(
                    *app_type,
                    AppDataLoadKind::Full,
                ).without_app(*app_type) && final(worker).sent@ == old(worker).sent@,
                AppDataLoadQueued::Queued => {
                    &&& final(self)@ == old(self)@.loading_app(*app_type, AppDataLoadKind::Full)
                    &&& final(worker).sent@ == old(worker).sent@.push(
                        AppDataReq::FullLoad {
                            request_id: following(old(self)@.last_app_request),
                            generation: old(self)@.generation,
                            app_state_epoch: old(self)@.epoch,
                            app_type: *app_type,
                        },
                    )
                },
            },
    {
        if self.pending_by_app.contains_key(app_type) {
            return AppDataLoadQueued::AlreadyPending;
        }
        if worker.is_missing() {
            return AppDataLoadQueued::Unavailable;
        }
        self.next_app_data_request_id = next_number(self.next_app_data_request_id);
        let request_id = self.next_app_data_request_id;
        let pending = PendingAppDataLoad {
            kind: AppDataLoadKind::Full,
            request_id,
            generation: self.data_generation,
            app_state_epoch: self.app_state_epoch,
        };
        self.pending_by_app.insert(*app_type, pending);
        self.incomplete_by_app.insert(*app_type, ());
        if worker.send(
            AppDataReq::FullLoad {
                request_id,
                generation: pending.generation,
                app_state_epoch: pending.app_state_epoch,
                app_type: *app_type,
            },
        ) {
            AppDataLoadQueued::Queued
        } else {
            self.remove_app_snapshot(app_type);
            AppDataLoadQueued::SendFailed
        }
    }

    /// Asks for what a switch to an application needs to be loaded. Where that
    /// cannot be, the application counts as incomplete, and a notice says so.
    pub fn queue_app_data_load(
        &mut self,
        app: &mut App,
        worker: &mut Outbox<AppDataReq>,
        app_type: &AppType,
    ) -> (queued: AppDataLoadQueued)
        ensures
            final(worker).link == old(worker).link,
            queued == (if old(self)@.pending.contains_key(*app_type) {
                AppDataLoadQueued::AlreadyPending
            } else {
                queued_over(old(worker).link)
            }),
            match queued {
                AppDataLoadQueued::AlreadyPending => {
                    &&& final(self)@ == old(self)@
                    &&& final(worker).sent@ == old(worker).sent@
                    &&& final(app)@ == old(app)@
                },
                AppDataLoadQueued::Unavailable => {
                    &&& final(self)@ == (CacheView {
                        incomplete: old(self)@.incomplete.insert(*app_type, ()),
                        ..old(self)@
                    })
                    &&& final(worker).sent@ == old(worker).sent@
                    &&& final(app)@ == old(app)@.told(
                        ToastKind::Warning,
                        app_load_notice(Link::Missing),
                    )
                },
                AppDataLoadQueued::SendFailed => {
                    &&& final(self)@ == (CacheView {
                        last_app_request: following(old(self)@.last_app_request),
                        incomplete: old(self)@.incomplete.insert(*app_type, ()),
                        ..old(self)@
                    })
                    &&& final(worker).sent@ == old(worker).sent@
                    &&& final(app)@ == old(app)@.told(
                        ToastKind::Warning,
                        app_load_notice(Link::Closed),
                    )
                },
                AppDataLoadQueued::Queued => {
                    &&& final(self)@ == old(self)@.loading_app(
                        *app_type,
                        AppDataLoadKind::Snapshot,
                    )
                    &&& final(worker).sent@ == old(worker).sent@.push(
                        AppDataReq::Load {
                            request_id: following(old(self)@.last_app_request),
                            generation: old(self)@.generation,
                            app_state_epoch: old(self)@.epoch,
                            app_type: *app_type,
                        },
                    )
                    &&& final(app)@ == old(app)@
                },
            },
    {
        if self.pending_by_app.contains_key(app_type) {
            return AppDataLoadQueued::AlreadyPending;
        }
        if worker.is_missing() {
            self.incomplete_by_app.insert(*app_type, ());
            app.push_toast(
                Text::verbatim("App data worker is not running; reload data to refresh this app."),
                ToastKind::Warning,
            );
            return AppDataLoadQueued::Unavailable;
        }
        self.next_app_data_request_id = next_number(self.next_app_data_request_id);
        let request_id = self.next_app_data_request_id;
        let pending = PendingAppDataLoad {
            kind: AppDataLoadKind::Snapshot,
            request_id,
            generation: self.data_generation,
            app_state_epoch: self.app_state_epoch,
        };
        self.pending_by_app.insert(*app_type, pending);
        self.incomplete_by_app.insert(*app_type, ());
        if worker.send(
            AppDataReq::Load {
                request_id,
                generation: pending.generation,
                app_state_epoch: pending.app_state_epoch,
                app_type: *app_type,
            },
        ) {
            AppDataLoadQueued::Queued
        } else {
            let _ = self.pending_by_app.remove(app_type);
            assert(self@.pending =~= old(self)@.pending);
            let message = joined("App data refresh request failed: ", CHANNEL_CLOSED);
            app.push_toast(Text::verbatim(message.as_str()), ToastKind::Warning);
            AppDataLoadQueued::SendFailed
        }
    }

    /// Asks for the first load at startup, and along with it for snapshots of
    /// further applications, so that the first switch to them shows real data.
    /// Where it cannot be asked for, nothing counts as being loaded.
    pub fn queue_initial_app_data_load(
        &mut self,
        worker: &mut Outbox<AppDataReq>,
        app_type: &AppType,
        extra_apps: &[AppType],
    ) -> (result: Result<PendingAppDataLoad, String>)
        ensures
            final(worker).link == old(worker).link,
            result is Ok == (!old(self)@.pending.contains_key(*app_type) && old(worker).link
                == Link::Open),
            result matches Ok(pending) ==> {
                let first = old(self)@.loading_app(*app_type, AppDataLoadKind::Initial);
                let (cache, list) = preparing(first, extra_apps@);
                &&& pending == old(self)@.next_app_load(AppDataLoadKind::Initial)
                &&& final(self)@ == cache
                &&& final(worker).sent@.drop_last() == old(worker).sent@
                &&& final(worker).sent@.len() == old(worker).sent@.len() + 1
                &&& final(worker).sent@.last() matches AppDataReq::InitialLoad {
                    request_id,
                    generation,
                    app_state_epoch,
                    app_type: loaded,
                    extras,
                }
                &&& request_id == pending.request_id
                &&& generation == pending.generation
                &&& app_state_epoch == pending.app_state_epoch
                &&& loaded == *app_type
                &&& extras@ == list
            },
            result matches Err(error) ==> {
                &&& final(worker).sent@ == old(worker).sent@
                &&& if old(self)@.pending.contains_key(*app_type) {
                    &&& error@ == "Initial app data load is already pending."@
                    &&& final(self)@ == old(self)@
                } else {
                    let first = old(self)@.loading_app(*app_type, AppDataLoadKind::Initial);
                    let (cache, list) = preparing(first, extra_apps@);
                    &&& error@ == "Initial app data load request failed: "@ + CHANNEL_CLOSED@
                    &&& final(self)@ == abandoning(
                        CacheView {
                            pending: cache.pending.remove(*app_type),
                            incomplete: cache.incomplete.remove(*app_type),
                            ..cache
                        },
                        list,
                    )
                }
            },
    {
        if self.pending_by_app.contains_key(app_type) {
            return Err("Initial app data load is already pending.".to_owned());
        }
        self.next_app_data_request_id = next_number(self.next_app_data_request_id);
        let pending = PendingAppDataLoad {
            kind: AppDataLoadKind::Initial,
            request_id: self.next_app_data_request_id,
            generation: self.data_generation,
            app_state_epoch: self.app_state_epoch,
        };
        self.pending_by_app.insert(*app_type, pending);
        self.incomplete_by_app.insert(*app_type, ());
        let ghost first = old(self)@.loading_app(*app_type, AppDataLoadKind::Initial);
        assert(self@ == first);

        let mut extras: Vec<(AppType, u64)> = Vec::new();
        let mut i: usize = 0;
        proof {
            assert(extra_apps@.take(0) =~= Seq::empty());
        }
        while i < extra_apps.len()
            invariant
                i <= extra_apps@.len(),
                first.pending.contains_key(*app_type),
                first.generation == pending.generation,
                first.epoch == pending.app_state_epoch,
                self@.generation == first.generation,
                self@.epoch == first.epoch,
                self@.pending.contains_key(*app_type),
                (self@, extras@) == preparing(first, extra_apps@.take(i as int)),
            decreases extra_apps@.len() - i,
        {
            let extra = extra_apps[i];
            proof {
                assert(extra_apps@.take(i + 1).drop_last() =~= extra_apps@.take(i as int));
                assert(extra_apps@.take(i + 1).last() == extra);
            }
            i = i + 1;
            if extra == *app_type || self.pending_by_app.contains_key(&extra) {
                continue ;
            }
            self.next_app_data_request_id = next_number(self.next_app_data_request_id);
            let extra_request_id = self.next_app_data_request_id;
            self.pending_by_app.insert(
                extra,
                PendingAppDataLoad {
                    kind: AppDataLoadKind::Initial,
                    request_id: extra_request_id,
                    generation: pending.generation,
                    app_state_epoch: pending.app_state_epoch,
                },
            );
            self.incomplete_by_app.insert(extra, ());
            extras.push((extra, extra_request_id));
        }
        assert(extra_apps@.take(i as int) =~= extra_apps@);

        let copies = copy_extras(&extras);
        if worker.send(
            AppDataReq::InitialLoad {
                request_id: pending.request_id,
                generation: pending.generation,
                app_state_epoch: pending.app_state_epoch,
                app_type: *app_type,
                extras: copies,
            },
        ) {
            assert(worker.sent@.drop_last() =~= old(worker).sent@);
            return Ok(pending);
        }
        let _ = self.pending_by_app.remove(app_type);
        let _ = self.incomplete_by_app.remove(app_type);
        let ghost start = self@;
        let mut j: usize = 0;
        proof {
            assert(extras@.take(0) =~= Seq::empty());
        }
        while j < extras.len()
            invariant
                j <= extras@.len(),
                self@ == abandoning(start, extras@.take(j as int)),
            decreases extras@.len() - j,
        {
            proof {
                assert(extras@.take(j + 1).drop_last() =~= extras@.take(j as int));
                assert(extras@.take(j + 1).last() == extras@[j as int]);
            }
            let _ = self.pending_by_app.remove(&extras[j].0);
            let _ = self.incomplete_by_app.remove(&extras[j].0);
            j = j + 1;
        }
        assert(extras@.take(j as int) =~= extras@);
        Err(joined("Initial app data load request failed: ", CHANNEL_CLOSED))
    }

    /// An answer to a load of application data has come.
    pub fn finish_app_data_load(
        &mut self,
        kind: AppDataLoadKind,
        app_type: &AppType,
        request_id: u64,
        generation: u64,
        app_state_epoch: u64,
    ) -> (finish: AppDataLoadFinish)
        ensures
            ({
                let token = PendingAppDataLoad { kind, request_id, generation, app_state_epoch };
                let awaited = old(self)@.pending.contains_key(*app_type)
                    && old(self)@.pending[*app_type] == token;
                &&& finish == (if generation != old(self)@.generation || app_state_epoch
                    != old(self)@.epoch {
                    AppDataLoadFinish::Stale
                } else if awaited {
                    AppDataLoadFinish::Accepted
                } else {
                    AppDataLoadFinish::Ignored
                })
                &&& final(self)@ == (if awaited {
                    CacheView { pending: old(self)@.pending.remove(*app_type), ..old(self)@ }
                } else {
                    old(self)@
                })
            }),
    {
        let completed = PendingAppDataLoad { kind, request_id, generation, app_state_epoch };
        let awaited = match self.pending_by_app.get(app_type) {
            Some(pending) => *pending == completed,
            None => false,
        };
        if awaited {
            let _ = self.pending_by_app.remove(app_type);
        }
        if generation != self.data_generation || app_state_epoch != self.app_state_epoch {
            AppDataLoadFinish::Stale
        } else if awaited {
            AppDataLoadFinish::Accepted
        } else {
            AppDataLoadFinish::Ignored
        }
    }

    pub fn mark_app_data_loaded(&mut self, app_type: &AppType)
        ensures
            final(self)@ == (CacheView {
                incomplete: old(self)@.incomplete.remove(*app_type),
                ..old(self)@
            }),
    {
        let _ = self.incomplete_by_app.remove(app_type);
    }

    /// The aggregate of a usage load has come. The result tells whether it
    /// was waited for.
    pub fn finish_usage_pricing_load(
        &mut self,
        app_type: &AppType,
        request_id: u64,
        generation: u64,
        app_state_epoch: u64,
        range: UsageRangePreset,
        aggregate_succeeded: bool,
    ) -> (finished: bool)
        ensures
            ({
                let token = PendingDataLoad { request_id, generation, app_state_epoch };
                &&& finished == old(self)@.awaits_figures(*app_type, range, token)
                &&& final(self)@ == (if finished {
                    old(self)@.aggregate_done(*app_type, range, token, aggregate_succeeded)
                } else {
                    old(self)@
                })
            }),
    {
        let key = usage_pricing_load_key(app_type, range);
        let completed = PendingDataLoad { request_id, generation, app_state_epoch };
        let awaited = match self.pending_usage_pricing_by_key.get(&key) {
            Some(pending) => *pending == completed,
            None => false,
        };
        if !awaited {
            return false;
        }
        let _ = self.pending_usage_pricing_by_key.remove(&key);
        let phase = match self.usage_pricing_phase_by_key.get(&key) {
            Some(phase) => Some(*phase),
            None => None,
        };
        if let Some(phase) = phase {
            if phase.token == completed {
                let mut phase = phase;
                phase.aggregate_finished = true;
                phase.aggregate_succeeded = aggregate_succeeded;
                self.usage_pricing_phase_by_key.insert(key, phase);
            }
        }
        true
    }

    /// The head of the log of a usage load has come. `None`: it does not
    /// belong to the latest load. Otherwise the result tells whether that
    /// load's aggregate has already given an exact count. The token stays
    /// after either half, so both orders of delivery are fine.
    pub fn finish_usage_log_head(
        &mut self,
        app_type: &AppType,
        request_id: u64,
        generation: u64,
        app_state_epoch: u64,
        range: UsageRangePreset,
    ) -> (exact_total_known: Option<bool>)
        ensures
            ({
                let token = PendingDataLoad { request_id, generation, app_state_epoch };
                if old(self)@.awaits_head(*app_type, range, token) {
                    let phase = old(self)@.phases[load_key(*app_type, range)];
                    &&& exact_total_known == Some(
                        phase.aggregate_finished && phase.aggregate_succeeded,
                    )
                    &&& final(self)@ == old(self)@.head_done(*app_type, range)
                } else {
                    exact_total_known is None && final(self)@ == old(self)@
                }
            }),
    {
        let key = usage_pricing_load_key(app_type, range);
        let completed = PendingDataLoad { request_id, generation, app_state_epoch };
        let phase = match self.usage_pricing_phase_by_key.get(&key) {
            Some(phase) => *phase,
            None => {
                return None;
            },
        };
        if phase.token != completed {
            return None;
        }
        let mut phase = phase;
        phase.head_finished = true;
        self.usage_pricing_phase_by_key.insert(key, phase);
        Some(phase.aggregate_finished && phase.aggregate_succeeded)
    }

    pub fn update_usage_log_head(
        &mut self,
        app_type: &AppType,
        range: UsageRangePreset,
        page: UsageLogPage,
        preserve_exact_total: bool,
    )
        ensures
            final(self)@ == old(self)@.with_log_head(*app_type, range, page@, preserve_exact_total),
    {
        let key = usage_pricing_load_key(app_type, range);
        proof {
            lemma_map_views_removed(self.by_app@, *app_type);
            lemma_map_views_removed(self.usage_pricing_by_key@, key);
        }
        let ghost before = self@;
        let ghost head = page@;
        match self.by_app.remove(app_type) {
            Some(cached) => {
                let mut cached = cached;
                if preserve_exact_total {
                    cached.usage.merge_log_head_preserving_exact_total(range, page.duplicate());
                } else {
                    cached.usage.merge_log_head(range, page.duplicate());
                }
                proof {
                    lemma_map_views(self.by_app@, *app_type, cached);
                }
                self.by_app.insert(*app_type, cached);
            },
            None => {},
        }
        assert(self@.by_app =~= before.with_log_head(
            *app_type,
            range,
            head,
            preserve_exact_total,
        ).by_app);
        match self.usage_pricing_by_key.remove(&key) {
            Some(cached) => {
                let mut cached = cached;
                if preserve_exact_total {
                    cached.usage.merge_log_head_preserving_exact_total(range, page);
                } else {
                    cached.usage.merge_log_head(range, page);
                }
                proof {
                    lemma_map_views(self.usage_pricing_by_key@, key, cached);
                }
                self.usage_pricing_by_key.insert(key, cached);
            },
            None => {},
        }
        assert(self@.usage =~= before.with_log_head(
            *app_type,
            range,
            head,
            preserve_exact_total,
        ).usage);
    }

    pub fn handle_data_reloaded(
        &mut self,
        app: &App,
        data: &UiData,
        invalidation: CacheInvalidation,
    )
        ensures
            final(self)@ == old(self)@.after_reload(app.app_type, data@, invalidation),
    {
        match invalidation {
            CacheInvalidation::Nothing | CacheInvalidation::CurrentAppDataChanged => {
                return ;
            },
            CacheInvalidation::CurrentAppReloaded => {},
            CacheInvalidation::DataReloaded => self.clear(),
            CacheInvalidation::AppStateRecreated => self.clear_after_app_state_recreated(),
        }
        self.remember_current(&app.app_type, data);
    }
}

/// What asking for usage figures leads to.
pub struct UsageQueueing {
    pub cache: CacheView,
    pub ui: UsageUiView,
    pub notice: Option<TextView>,
    pub request: Option<UsagePricingReq>,
}

/// Asks for the figures of a range.
///
/// A custom range takes the place of any other of its application: what was
/// loaded or asked for of those is forgotten. A load that is under way is only
/// marked as such. Where there is no worker, only a custom range is worth a
/// notice: it cannot be shown without it.
pub open spec fn usage_queueing(
    cache: CacheView,
    ui: UsageUiView,
    link: Link,
    app_type: AppType,
    range: UsageRangePreset,
) -> UsageQueueing {
    let key = load_key(app_type, range);
    let custom = range.spec_is_custom();
    let cache = if custom {
        cache.without_custom_figures(app_type)
    } else {
        cache
    };
    let ui = if custom {
        UsageUiView {
            loading: passing::<UsagePricingLoadKey, (), NotCustomOf>(
                ui.loading,
                NotCustomOf { app_type },
            ),
            ..ui
        }
    } else {
        ui
    };
    if cache.pending_usage.contains_key(key) {
        UsageQueueing { cache, ui: ui.loads(app_type, range), notice: None, request: None }
    } else {
        match link {
            Link::Missing => UsageQueueing {
                cache,
                ui,
                notice: if custom {
                    Some(
                        TextView::verbatim(
                            "Usage/pricing worker is not running; custom range cannot be loaded."@,
                        ),
                    )
                } else {
                    None
                },
                request: None,
            },
            Link::Closed => UsageQueueing {
                cache: CacheView {
                    last_usage_request: following(cache.last_usage_request),
                    phases: cache.phases.remove(key),
                    ..cache
                },
                ui,
                notice: Some(
                    TextView::verbatim(
                        "Usage/pricing refresh request failed: "@ + CHANNEL_CLOSED@,
                    ),
                ),
                request: None,
            },
            Link::Open => UsageQueueing {
                cache: CacheView {
                    last_usage_request: following(cache.last_usage_request),
                    pending_usage: cache.pending_usage.insert(key, cache.next_usage_load()),
                    phases: cache.phases.insert(
                        key,
                        UsagePricingLoadPhase::begun(cache.next_usage_load()),
                    ),
                    ..cache
                },
                ui: ui.loads(app_type, range),
                notice: None,
                request: Some(
                    UsagePricingReq::Load {
                        request_id: following(cache.last_usage_request),
                        generation: cache.generation,
                        app_state_epoch: cache.epoch,
                        app_type,
                        range: logical_range(range),
                    },
                ),
            },
        }
    }
}

/// The interface after usage figures were asked for.
pub open spec fn app_after_queueing(app: AppView, queueing: UsageQueueing) -> AppView {
    let app = AppView { usage: queueing.ui, ..app };
    match queueing.notice {
        Some(message) => app.told(ToastKind::Warning, message),
        None => app,
    }
}

/// What has been sent after usage figures were asked for.
pub open spec fn sent_after_queueing(
    sent: Seq<UsagePricingReq>,
    queueing: UsageQueueing,
) -> Seq<UsagePricingReq> {
    match queueing.request {
        Some(request) => sent.push(request),
        None => sent,
    }
}

impl CacheView {
    /// Whether the figures of a range are there, or come with another load.
    pub open spec fn covers(self, app_type: AppType, range: UsageRangePreset) -> bool {
        exists|key: UsagePricingLoadKey| #[trigger]
            self.usage.contains_key(key) && key.0 == app_type && crate::usage::satisfies(
                key.1,
                range,
            )
    }

    /// Whether a dirty aggregate is to be computed next: the one looked at
    /// where it is dirty, else any.
    pub open spec fn may_follow_up(
        self,
        key: UsagePricingLoadKey,
        active: UsagePricingLoadKey,
    ) -> bool {
        self.dirty.contains_key(key) && (self.dirty.contains_key(active) ==> key == active)
    }
}

/// What starting a dirty aggregate leads to. Where it could not be asked for,
/// the key stays dirty.
pub open spec fn follow_up(
    cache: CacheView,
    ui: UsageUiView,
    link: Link,
    key: UsagePricingLoadKey,
) -> UsageQueueing {
    let queueing = usage_queueing(
        CacheView { dirty: cache.dirty.remove(key), ..cache },
        ui,
        link,
        key.0,
        key.1,
    );
    if queueing.cache.pending_usage.contains_key(key) {
        queueing
    } else {
        UsageQueueing {
            cache: CacheView {
                dirty: queueing.cache.dirty.insert(key, ()),
                ..queueing.cache
            },
            ..queueing
        }
    }
}

/// Whether `after` and `started` are what starting a dirty aggregate may lead
/// to: nothing while an aggregate is under way or nothing is dirty, and one
/// follow-up otherwise.
pub open spec fn flushes(
    before: (CacheView, AppView, Seq<UsagePricingReq>),
    link: Link,
    after: (CacheView, AppView, Seq<UsagePricingReq>),
    started: bool,
) -> bool {
    let (cache, app, sent) = before;
    let active = load_key(app.app_type, app.usage.range);
    if cache.pending_usage != Map::<UsagePricingLoadKey, PendingDataLoad>::empty() || cache.dirty
        == Map::<UsagePricingLoadKey, ()>::empty() {
        !started && after == before
    } else {
        exists|key: UsagePricingLoadKey|
            {
                let queueing = follow_up(cache, app.usage, link, key);
                &&& #[trigger] cache.may_follow_up(key, active)
                &&& after == (
                    queueing.cache,
                    app_after_queueing(app, queueing),
                    sent_after_queueing(sent, queueing),
                )
                &&& started == queueing.cache.pending_usage.contains_key(key)
            }
    }
}

impl UiDataByAppCache {
    /// Asks for the figures of a range.
    pub fn queue_usage_pricing_load(
        &mut self,
        app: &mut App,
        worker: &mut Outbox<UsagePricingReq>,
        app_type: &AppType,
        range: UsageRangePreset,
    )
        ensures
            ({
                let queueing = usage_queueing(
                    old(self)@,
                    old(app).usage@,
                    old(worker).link,
                    *app_type,
                    range,
                );
                &&& final(self)@ == queueing.cache
                &&& final(app)@ == app_after_queueing(old(app)@, queueing)
                &&& final(worker).link == old(worker).link
                &&& final(worker).sent@ == sent_after_queueing(old(worker).sent@, queueing)
            }),
    {
        let range = usage_pricing_logical_range(range);
        if range.is_custom() {
            app.usage.clear_custom_loading_for_app(app_type);
            let rest = NotCustomOf { app_type: *app_type };
            proof {
                lemma_map_views_passing::<UsagePricingLoadKey, UsagePricingData, NotCustomOf>(
                    self.usage_pricing_by_key@,
                    rest,
                );
            }
            self.pending_usage_pricing_by_key.retain(&rest);
            self.usage_pricing_phase_by_key.retain(&rest);
            self.usage_pricing_by_key.retain(&rest);
            self.usage_pricing_dirty_by_key.retain(&rest);
        }
        let key = usage_pricing_load_key(app_type, range);
        if self.pending_usage_pricing_by_key.contains_key(&key) {
            app.usage.start_loading(*app_type, range);
            return ;
        }
        if worker.is_missing() {
            if range.is_custom() {
                app.push_toast(
                    Text::verbatim(
                        "Usage/pricing worker is not running; custom range cannot be loaded.",
                    ),
                    ToastKind::Warning,
                );
            }
            return ;
        }
        let ghost before = self@;
        self.next_usage_pricing_request_id = next_number(self.next_usage_pricing_request_id);
        let request_id = self.next_usage_pricing_request_id;
        let pending = PendingDataLoad {
            request_id,
            generation: self.data_generation,
            app_state_epoch: self.app_state_epoch,
        };
        self.pending_usage_pricing_by_key.insert(key, pending);
        self.usage_pricing_phase_by_key.insert(key, UsagePricingLoadPhase::new(pending));
        if worker.send(
            UsagePricingReq::Load {
                request_id,
                generation: pending.generation,
                app_state_epoch: pending.app_state_epoch,
                app_type: *app_type,
                range,
            },
        ) {
            app.usage.start_loading(*app_type, range);
        } else {
            let _ = self.pending_usage_pricing_by_key.remove(&key);
            let _ = self.usage_pricing_phase_by_key.remove(&key);
            assert(self@.pending_usage =~= before.pending_usage);
            assert(self@.phases =~= before.phases.remove(key));
            let message = joined("Usage/pricing refresh request failed: ", CHANNEL_CLOSED);
            app.push_toast(Text::verbatim(message.as_str()), ToastKind::Warning);
        }
    }

    /// Asks for the figures of a range unless they are there or under way.
    /// Any fixed range that is there covers the others.
    pub fn ensure_usage_pricing_loaded(
        &mut self,
        app: &mut App,
        worker: &mut Outbox<UsagePricingReq>,
        app_type: &AppType,
        range: UsageRangePreset,
    )
        ensures
            final(worker).link == old(worker).link,
            ({
                let queueing = usage_queueing(
                    old(self)@,
                    old(app).usage@,
                    old(worker).link,
                    *app_type,
                    range,
                );
                if old(self)@.pending_usage.contains_key(load_key(*app_type, range)) || old(self)@.covers(*app_type, range) {
                    &&& final(self)@ == old(self)@
                    &&& final(app)@ == old(app)@
                    &&& final(worker).sent@ == old(worker).sent@
                } else {
                    &&& final(self)@ == queueing.cache
                    &&& final(app)@ == app_after_queueing(old(app)@, queueing)
                    &&& final(worker).sent@ == sent_after_queueing(old(worker).sent@, queueing)
                }
            }),
    {
        let key = usage_pricing_load_key(app_type, range);
        if self.pending_usage_pricing_by_key.contains_key(&key) {
            return ;
        }
        let covering = crate::usage::Covering { app_type: *app_type, range };
        let covered = self.usage_pricing_by_key.any_key(&covering);
        proof {
            assert forall|k: UsagePricingLoadKey|
                self@.usage.contains_key(k) == #[trigger] self.usage_pricing_by_key@.contains_key(
                    k,
                ) by {
                lemma_map_views_removed(self.usage_pricing_by_key@, k);
            }
            assert(covered == self@.covers(*app_type, range)) by {
                if covered {
                    let k = choose|k: UsagePricingLoadKey| #[trigger]
                        self.usage_pricing_by_key@.contains_key(k) && covering.passes(k);
                    assert(self@.usage.contains_key(k));
                }
                if self@.covers(*app_type, range) {
                    let k = choose|k: UsagePricingLoadKey| #[trigger]
                        self@.usage.contains_key(k) && k.0 == *app_type && crate::usage::satisfies(
                            k.1,
                            range,
                        );
                    assert(self.usage_pricing_by_key@.contains_key(k));
                    assert(covering.passes(k));
                }
            }
        }
        if covered {
            return ;
        }
        self.queue_usage_pricing_load(app, worker, app_type, range);
    }

    /// Notes that an import of session logs committed after the aggregate of a
    /// range may have started. The aggregate is not cancelled.
    pub fn mark_usage_pricing_dirty(&mut self, app_type: &AppType, range: UsageRangePreset)
        ensures
            final(self)@ == (CacheView {
                dirty: old(self)@.dirty.insert(load_key(*app_type, range), ()),
                ..old(self)@
            }),
    {
        self.usage_pricing_dirty_by_key.insert(usage_pricing_load_key(app_type, range), ());
    }

    /// Starts at most one dirty aggregate, once no other is under way. The
    /// result tells whether one is under way now.
    pub fn flush_dirty_usage_pricing(
        &mut self,
        app: &mut App,
        worker: &mut Outbox<UsagePricingReq>,
    ) -> (started: bool)
        ensures
            final(worker).link == old(worker).link,
            flushes(
                (old(self)@, old(app)@, old(worker).sent@),
                old(worker).link,
                (final(self)@, final(app)@, final(worker).sent@),
                started,
            ),
    {
        if !self.pending_usage_pricing_by_key.is_empty() {
            return false;
        }
        let active_key = usage_pricing_load_key(&app.app_type, app.usage.range);
        let key: UsagePricingLoadKey = if self.usage_pricing_dirty_by_key.contains_key(
            &active_key,
        ) {
            active_key
        } else {
            match self.usage_pricing_dirty_by_key.first_key() {
                Some(key) => (key.0, key.1),
                None => {
                    return false;
                },
            }
        };
        assert(old(self)@.may_follow_up(key, active_key));
        let _ = self.usage_pricing_dirty_by_key.remove(&key);
        self.queue_usage_pricing_load(app, worker, &key.0, key.1);
        if self.pending_usage_pricing_by_key.contains_key(&key) {
            true
        } else {
            self.usage_pricing_dirty_by_key.insert(key, ());
            false
        }
    }

    /// Notes progress of an import and starts a dirty aggregate if it can.
    pub fn request_usage_pricing_refresh_after_external_usage_sync(
        &mut self,
        app: &mut App,
        worker: &mut Outbox<UsagePricingReq>,
        app_type: &AppType,
        range: UsageRangePreset,
    ) -> (started: bool)
        ensures
            final(worker).link == old(worker).link,
            flushes(
                (
                    CacheView {
                        dirty: old(self)@.dirty.insert(load_key(*app_type, range), ()),
                        ..old(self)@
                    },
                    old(app)@,
                    old(worker).sent@,
                ),
                old(worker).link,
                (final(self)@, final(app)@, final(worker).sent@),
                started,
            ),
    {
        self.mark_usage_pricing_dirty(app_type, range);
        self.flush_dirty_usage_pricing(app, worker)
    }
}

/// Turns the interface to an application whose data is at hand. What the usage
/// screens hold of the log belongs to the application that was left.
pub fn apply_preloaded_app_switch(app: &mut App, data: &mut UiData, next: AppType, loaded: UiData)
    ensures
        *final(data) == loaded,
        final(app)@ == turned_to(old(app)@, next),
{
    app.app_type = next;
    app.usage.invalidate_log_pages();
    app.usage.log_detail_request = None;
    app.usage.log_detail_snapshot = None;
    *data = loaded;
}

pub open spec fn turned_to(app: AppView, next: AppType) -> AppView {
    AppView {
        app_type: next,
        usage: UsageUiView {
            pager: PagerView::nothing(),
            detail_request: None,
            detail: None,
            ..app.usage
        },
        ..app
    }
}

impl UiDataByAppCache {
    /// Switches to an application. What is kept of it is shown at once;
    /// otherwise it is asked for, and shown as loading meanwhile. The data of
    /// the application that is left is kept.
    pub fn switch_to(
        &mut self,
        app: &mut App,
        data: &mut UiData,
        worker: &mut Outbox<AppDataReq>,
        next: AppType,
    )
        ensures
            final(worker).link == old(worker).link,
            if old(app).app_type == next {
                &&& final(self)@ == old(self)@
                &&& final(app)@ == old(app)@
                &&& final(data)@ == old(data)@
                &&& final(worker).sent@ == old(worker).sent@
            } else {
                let kept = old(self)@.remembering(old(app).app_type, old(data)@);
                let ready = kept.by_app.contains_key(next);
                let link = old(worker).link;
                let shown = if ready {
                    kept.by_app[next]
                } else {
                    old(data)@.switching_to(next)
                };
                let asks = !ready && !kept.pending.contains_key(next);
                &&& final(data)@ == (UiDataView {
                    quota: old(data)@.quota,
                    ..kept.completed(next, shown, old(app).usage.range)
                })
                &&& final(app)@ == (AppView {
                    view_requests: old(app)@.view_requests.prompting(),
                    ..turned_to(
                        if asks && link != Link::Open {
                            old(app)@.told(ToastKind::Warning, app_load_notice(link))
                        } else {
                            old(app)@
                        },
                        next,
                    )
                })
                &&& final(worker).sent@ == (if asks && link == Link::Open {
                    old(worker).sent@.push(
                        AppDataReq::Load {
                            request_id: following(kept.last_app_request),
                            generation: kept.generation,
                            app_state_epoch: kept.epoch,
                            app_type: next,
                        },
                    )
                } else {
                    old(worker).sent@
                })
                &&& final(self)@ == (if !asks {
                    kept
                } else {
                    match link {
                        Link::Missing => CacheView {
                            incomplete: kept.incomplete.insert(next, ()),
                            ..kept
                        },
                        Link::Closed => CacheView {
                            last_app_request: following(kept.last_app_request),
                            incomplete: kept.incomplete.insert(next, ()),
                            ..kept
                        },
                        Link::Open => kept.loading_app(next, AppDataLoadKind::Snapshot),
                    }
                })
            },
    {
        if app.app_type == next {
            return ;
        }
        let current = app.app_type;
        self.remember_current(&current, data);
        proof {
            lemma_map_views_removed(self.by_app@, next);
        }
        let cached = match self.by_app.get(&next) {
            Some(cached) => Some(cached.duplicate()),
            None => None,
        };
        let mut next_data = match cached {
            Some(cached) => cached,
            None => {
                let _ = self.queue_app_data_load(app, worker, &next);
                data.app_switch_loading_projection(&next)
            },
        };
        self.merge_usage_pricing(&next, &mut next_data, app.usage.range);
        next_data.quota = data.quota.duplicate();
        apply_preloaded_app_switch(app, data, next, next_data);
        app.clamp_and_prompt();
    }
}

/// A load that was asked for before everything was cleared is never accepted
/// afterwards, however many other answers come in between.
pub proof fn clearing_makes_loads_stale(cache: CacheView, token: PendingAppDataLoad)
    requires
        token.generation == cache.generation,
    ensures
        token.generation != cache.cleared().generation,
        token.generation != cache.recreated().generation,
        cache.cleared().pending == Map::<AppType, PendingAppDataLoad>::empty(),
        cache.cleared().by_app == Map::<AppType, UiDataView>::empty(),
        cache.cleared().usage == Map::<UsagePricingLoadKey, UsagePricingView>::empty(),
        cache.cleared().pending_usage == Map::<UsagePricingLoadKey, PendingDataLoad>::empty(),
{
}

/// An application whose data is being loaded, or known to lack something, is
/// never kept as complete.
pub proof fn incomplete_data_is_not_kept(cache: CacheView, app_type: AppType, data: UiDataView)
    requires
        !cache.settled(app_type),
    ensures
        cache.remembering(app_type, data) == cache,
{
}

/// Reloading the current application keeps what is known of the others;
/// reloading data does not.
pub proof fn reload_scope(
    cache: CacheView,
    app_type: AppType,
    other: AppType,
    data: UiDataView,
)
    requires
        app_type != other,
    ensures
        cache.after_reload(app_type, data, CacheInvalidation::CurrentAppReloaded).by_app.contains_key(
            other,
        ) == cache.by_app.contains_key(other),
        cache.after_reload(app_type, data, CacheInvalidation::CurrentAppReloaded).generation
            == cache.generation,
        !cache.after_reload(app_type, data, CacheInvalidation::DataReloaded).by_app.contains_key(
            other,
        ),
        cache.after_reload(app_type, data, CacheInvalidation::DataReloaded).by_app[app_type]
            == data,
{
}

/// At most one load per key is under way: asking again while one is leaves
/// the cache as it is and sends nothing.
pub proof fn one_load_per_key(
    cache: CacheView,
    ui: UsageUiView,
    link: Link,
    app_type: AppType,
    range: UsageRangePreset,
)
    requires
        !range.spec_is_custom(),
        cache.pending_usage.contains_key(load_key(app_type, range)),
    ensures
        usage_queueing(cache, ui, link, app_type, range).cache == cache,
        usage_queueing(cache, ui, link, app_type, range).request is None,
        usage_queueing(cache, ui, link, app_type, range).ui.is_loading(app_type, range),
{
}

/// An application has at most one custom range loaded or asked for: the one
/// asked for last.
pub proof fn one_custom_range_per_app(
    cache: CacheView,
    ui: UsageUiView,
    link: Link,
    app_type: AppType,
    range: UsageRangePreset,
    other: UsageRangePreset,
)
    requires
        range.spec_is_custom(),
        other.spec_is_custom(),
        other != range,
    ensures
        ({
            let after = usage_queueing(cache, ui, link, app_type, range).cache;
            &&& !after.usage.contains_key((app_type, other))
            &&& !after.pending_usage.contains_key((app_type, other))
            &&& !after.phases.contains_key((app_type, other))
            &&& !after.dirty.contains_key((app_type, other))
        }),
{
}

/// Progress of an import changes neither generation nor epoch, so pages and
/// rows of the log that are being read stay valid.
pub proof fn follow_ups_keep_tokens_valid(
    cache: CacheView,
    ui: UsageUiView,
    link: Link,
    key: UsagePricingLoadKey,
)
    ensures
        follow_up(cache, ui, link, key).cache.generation == cache.generation,
        follow_up(cache, ui, link, key).cache.epoch == cache.epoch,
        follow_up(cache, ui, link, key).cache.by_app == cache.by_app,
        follow_up(cache, ui, link, key).cache.pending == cache.pending,
{
}

/// A dirty aggregate is not forgotten: after the attempt to start it, it is
/// either under way or still dirty.
pub proof fn follow_ups_are_not_lost(
    cache: CacheView,
    ui: UsageUiView,
    link: Link,
    key: UsagePricingLoadKey,
)
    ensures
        ({
            let after = follow_up(cache, ui, link, key).cache;
            after.pending_usage.contains_key(key) || after.dirty.contains_key(key)
        }),
{
}

/// The two halves of a usage load may come in either order: the result for
/// the load's progress is the same.
pub proof fn halves_commute(
    cache: CacheView,
    app_type: AppType,
    range: UsageRangePreset,
    token: PendingDataLoad,
    succeeded: bool,
)
    requires
        cache.awaits_figures(app_type, range, token),
        cache.awaits_head(app_type, range, token),
    ensures
        cache.aggregate_done(app_type, range, token, succeeded).awaits_head(app_type, range, token),
        cache.head_done(app_type, range).awaits_figures(app_type, range, token),
        cache.aggregate_done(app_type, range, token, succeeded).head_done(app_type, range)
            == cache.head_done(app_type, range).aggregate_done(app_type, range, token, succeeded),
{
    let key = load_key(app_type, range);
    let a = cache.aggregate_done(app_type, range, token, succeeded).head_done(app_type, range);
    let b = cache.head_done(app_type, range).aggregate_done(app_type, range, token, succeeded);
    assert(a.phases =~= b.phases);
}

fn copy_extras(items: &Vec<(AppType, u64)>) -> (copies: Vec<(AppType, u64)>)
    ensures
        copies@ == items@,
{
    let mut copies: Vec<(AppType, u64)> = Vec::new();
    let mut i: usize = 0;
    while i < items.len()
        invariant
            i <= items@.len(),
            copies@ =~= items@.take(i as int),
        decreases items@.len() - i,
    {
        copies.push((items[i].0, items[i].1));
        i = i + 1;
    }
    copies
}

} // verus!
