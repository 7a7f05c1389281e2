//! Application data that was loaded: what is shown and kept of it.

use vstd::prelude::*;

use crate::app::{App, AppView, Overlay, OverlayView};
use crate::app_type::AppType;
use crate::base::{views, Duplicate};
use crate::cache::{
    app_after_queueing, sent_after_queueing, usage_queueing, AppDataLoadFinish, AppDataLoadQueued,
    CacheInvalidation, CacheView, PendingAppDataLoad, UiDataByAppCache,
};
use crate::data::{UiData, UiDataView};
use crate::messages::{AppDataLoadKind, AppDataLoaded, AppDataReq, UsagePricingReq};
use crate::outbox::{Link, Outbox};
use crate::quota::QuotaTargetView;
use crate::quota_requests::{
    auto_asking, queue_current_quota_refresh_if_due, sent_after_asking, QuotaReq,
};
use crate::request::following;
use crate::table::lemma_map_views;
use crate::text::{joined, Text, TextView, ToastKind};
use crate::usage::{CustomUsage, PagerView, UsageRangePreset, UsageUiView, UsageView};

verus! {

/// What is shown, what is kept, and what the workers were asked for.
#[verifier::ext_equal]
pub struct Desk {
    pub app: AppView,
    pub data: UiDataView,
    pub cache: CacheView,
    pub quota_sent: Seq<QuotaTargetView>,
    pub app_sent: Seq<AppDataReq>,
    pub usage_sent: Seq<UsagePricingReq>,
}

/// Which workers can be reached.
#[derive(Debug, Clone, Copy, PartialEq, Eq, Structural)]
pub struct Links {
    pub quota: Link,
    pub app_data: Link,
    pub usage: Link,
}

/// The outgoing requests of the workers that load data.
#[derive(Debug)]
pub struct DataWorkers {
    pub quota: Outbox<QuotaReq>,
    pub app_data: Outbox<AppDataReq>,
    pub usage: Outbox<UsagePricingReq>,
}

impl DataWorkers {
    pub open spec fn links(self) -> Links {
        Links { quota: self.quota.link, app_data: self.app_data.link, usage: self.usage.link }
    }

    pub fn new(quota: Link, app_data: Link, usage: Link) -> (workers: DataWorkers)
        ensures
            workers.links() == (Links { quota, app_data, usage }),
            workers.quota.sent@.len() == 0,
            workers.app_data.sent@.len() == 0,
            workers.usage.sent@.len() == 0,
    {
        DataWorkers {
            quota: Outbox::new(quota),
            app_data: Outbox::new(app_data),
            usage: Outbox::new(usage),
        }
    }
}

pub open spec fn desk(
    app: App,
    data: UiData,
    cache: UiDataByAppCache,
    workers: DataWorkers,
) -> Desk {
    Desk {
        app: app@,
        data: data@,
        cache: cache@,
        quota_sent: views(workers.quota.sent@),
        app_sent: workers.app_data.sent@,
        usage_sent: workers.usage.sent@,
    }
}

impl Desk {
    /// The quota of the current provider is asked for where it is due.
    pub open spec fn asking_quota(self, link: Link) -> Desk {
        let asking = auto_asking(self.app, self.data, link);
        Desk {
            app: asking.app,
            data: UiDataView { quota: asking.quota, ..self.data },
            quota_sent: sent_after_asking(self.quota_sent, asking),
            ..self
        }
    }

    /// The figures of a range are asked for.
    pub open spec fn asking_usage(self, link: Link, range: UsageRangePreset) -> Desk {
        let queueing = usage_queueing(
            self.cache,
            self.app.usage,
            link,
            self.app.app_type,
            range,
        );
        Desk {
            app: app_after_queueing(self.app, queueing),
            cache: queueing.cache,
            usage_sent: sent_after_queueing(self.usage_sent, queueing),
            ..self
        }
    }

    /// All of an application's data is asked for, unless a load of it is under
    /// way.
    pub open spec fn refreshing(self, link: Link, app_type: AppType) -> Desk {
        let loading = self.cache.loading_app(app_type, AppDataLoadKind::Full);
        if self.cache.pending.contains_key(app_type) {
            self
        } else {
            match link {
                Link::Missing => self,
                Link::Closed => Desk { cache: loading.without_app(app_type), ..self },
                Link::Open => Desk {
                    cache: loading,
                    app_sent: self.app_sent.push(
                        AppDataReq::FullLoad {
                            request_id: following(self.cache.last_app_request),
                            generation: self.cache.generation,
                            app_state_epoch: self.cache.epoch,
                            app_type,
                        },
                    ),
                    ..self
                },
            }
        }
    }

    /// The data of the current application is kept.
    pub open spec fn remembered(self) -> Desk {
        Desk { cache: self.cache.remembering(self.app.app_type, self.data), ..self }
    }

    /// Browsed pages of the log are forgotten.
    pub open spec fn without_log_pages(self) -> Desk {
        Desk {
            app: AppView {
                usage: UsageUiView { pager: PagerView::nothing(), ..self.app.usage },
                ..self.app
            },
            ..self
        }
    }

    /// The data shown was loaded again. A custom range starts over, since only
    /// its own load fills it.
    pub open spec fn invalidated(self, links: Links, invalidation: CacheInvalidation) -> Desk {
        if invalidation == CacheInvalidation::Nothing {
            self
        } else {
            let range = self.app.usage.range;
            let begun = Desk {
                app: AppView {
                    usage: UsageUiView {
                        pager: PagerView::nothing(),
                        loading: Map::empty(),
                        ..self.app.usage
                    },
                    view_requests: self.app.view_requests.clamping(),
                    ..self.app
                },
                data: match range {
                    UsageRangePreset::Custom(days) => UiDataView {
                        usage: UsageView { custom: CustomUsage::begun(days), ..self.data.usage },
                        ..self.data
                    },
                    _ => self.data,
                },
                ..self
            };
            let kept = Desk {
                cache: begun.cache.after_reload(begun.app.app_type, begun.data, invalidation),
                ..begun
            };
            let asked = kept.asking_quota(links.quota);
            if range.spec_is_custom() {
                asked.asking_usage(links.usage, range).remembered()
            } else {
                asked
            }
        }
    }
}

/// The data shown was loaded again.
pub fn apply_loaded_data_cache_invalidation(
    app: &mut App,
    data: &mut UiData,
    cache: &mut UiDataByAppCache,
    workers: &mut DataWorkers,
    invalidation: CacheInvalidation,
)
    ensures
        final(workers).links() == old(workers).links(),
        desk(*final(app), *final(data), *final(cache), *final(workers)) == desk(
            *old(app),
            *old(data),
            *old(cache),
            *old(workers),
        ).invalidated(old(workers).links(), invalidation),
{
    if invalidation == CacheInvalidation::Nothing {
        return ;
    }
    let range = app.usage.range;
    if let UsageRangePreset::Custom(days) = range {
        data.usage.begin_custom_range(days);
    }
    app.usage.invalidate_log_pages();
    app.clamp_selections();
    app.usage.clear_loading();
    cache.handle_data_reloaded(app, data, invalidation);
    queue_current_quota_refresh_if_due(app, data, &mut workers.quota);
    if range.is_custom() {
        let current_app_type = app.app_type;
        cache.queue_usage_pricing_load(app, &mut workers.usage, &current_app_type, range);
        cache.remember_current(&app.app_type, data);
    }
}

/// Whether an answer is the one waited for, and from the present generation.
pub open spec fn awaits(cache: CacheView, app_type: AppType, token: PendingAppDataLoad) -> bool {
    cache.pending.contains_key(app_type) && cache.pending[app_type] == token
}

pub open spec fn load_finish(
    cache: CacheView,
    app_type: AppType,
    token: PendingAppDataLoad,
) -> AppDataLoadFinish {
    if token.generation != cache.generation || token.app_state_epoch != cache.epoch {
        AppDataLoadFinish::Stale
    } else if awaits(cache, app_type, token) {
        AppDataLoadFinish::Accepted
    } else {
        AppDataLoadFinish::Ignored
    }
}

pub open spec fn load_token(msg: AppDataLoaded) -> PendingAppDataLoad {
    PendingAppDataLoad {
        kind: msg.kind,
        request_id: msg.request_id,
        generation: msg.generation,
        app_state_epoch: msg.app_state_epoch,
    }
}

impl Desk {
    /// A load has ended.
    pub open spec fn ended(self, app_type: AppType, token: PendingAppDataLoad) -> Desk {
        if awaits(self.cache, app_type, token) {
            Desk {
                cache: CacheView { pending: self.cache.pending.remove(app_type), ..self.cache },
                ..self
            }
        } else {
            self
        }
    }

    /// An application's data counts as loaded.
    pub open spec fn complete(self, app_type: AppType) -> Desk {
        Desk {
            cache: CacheView {
                incomplete: self.cache.incomplete.remove(app_type),
                ..self.cache
            },
            ..self
        }
    }

    /// The data of another application than the current one is kept.
    pub open spec fn keeping(self, app_type: AppType, loaded: UiDataView) -> Desk {
        Desk {
            cache: CacheView { by_app: self.cache.by_app.insert(app_type, loaded), ..self.cache },
            ..self
        }
    }

    /// The data of the current application takes the place of what is shown.
    pub open spec fn showing(self, loaded: UiDataView) -> Desk {
        Desk { data: loaded, ..self.without_log_pages() }
    }

    /// Everything of an application was loaded. The snapshots of the other
    /// applications stay.
    pub open spec fn fully_loaded(self, links: Links, app_type: AppType, loaded: UiDataView) -> Desk {
        let settled = Desk {
            cache: self.cache.without_figures(app_type),
            ..self
        }.complete(app_type);
        if self.app.app_type == app_type {
            settled.showing(loaded).invalidated(links, CacheInvalidation::CurrentAppReloaded)
        } else {
            settled.keeping(app_type, loaded)
        }
    }

    /// What a switch to an application needs was loaded. The figures that are
    /// kept go with it, and quotas that are known stay.
    pub open spec fn snapshot_loaded(
        self,
        links: Links,
        kind: AppDataLoadKind,
        app_type: AppType,
        loaded: UiDataView,
    ) -> Desk {
        let current = self.app.app_type == app_type;
        let range = if current {
            self.app.usage.range
        } else {
            UsageRangePreset::SevenDays
        };
        let completed = self.cache.completed(app_type, loaded, range);
        let settled = self.complete(app_type);
        if current {
            let shown = settled.showing(UiDataView { quota: self.data.quota, ..completed });
            let kept = Desk {
                app: AppView {
                    proxy: shown.app.proxy.counting_from(
                        loaded.proxy.estimated_input_tokens_total,
                        loaded.proxy.estimated_output_tokens_total,
                    ),
                    view_requests: shown.app.view_requests.prompting(),
                    ..shown.app
                },
                ..shown
            }.remembered();
            if kind == AppDataLoadKind::Snapshot {
                kept.asking_quota(links.quota)
            } else {
                kept
            }
        } else {
            settled.keeping(app_type, completed)
        }
    }

    /// A load failed. Only that of the current application is worth a notice.
    pub open spec fn load_failed(
        self,
        kind: AppDataLoadKind,
        app_type: AppType,
        error: Seq<char>,
    ) -> Desk {
        if self.app.app_type == app_type {
            let app = if kind == AppDataLoadKind::Full {
                AppView {
                    usage: UsageUiView { loading: Map::empty(), ..self.app.usage },
                    ..self.app
                }
            } else {
                self.app
            };
            Desk {
                app: app.told(
                    ToastKind::Warning,
                    TextView::verbatim("App data refresh failed: "@ + error),
                ),
                ..self
            }
        } else {
            self
        }
    }

    /// What is made of application data that was loaded. Data from an earlier
    /// generation is thrown away; that of the current application is asked for
    /// again.
    pub open spec fn app_data_received(self, links: Links, msg: AppDataLoaded) -> Desk {
        let ended = self.ended(msg.app_type, load_token(msg));
        match load_finish(self.cache, msg.app_type, load_token(msg)) {
            AppDataLoadFinish::Ignored => ended,
            AppDataLoadFinish::Stale => if self.app.app_type == msg.app_type {
                ended.refreshing(links.app_data, msg.app_type)
            } else {
                ended
            },
            AppDataLoadFinish::Accepted => match msg.result {
                Ok(loaded) => if msg.kind == AppDataLoadKind::Full {
                    ended.fully_loaded(links, msg.app_type, loaded@)
                } else {
                    ended.snapshot_loaded(links, msg.kind, msg.app_type, loaded@)
                },
                Err(error) => ended.load_failed(msg.kind, msg.app_type, error@),
            },
        }
    }
}

/// Keeps the data of another application than the current one.
fn keep_app_data(cache: &mut UiDataByAppCache, app_type: AppType, loaded: UiData)
    ensures
        final(cache)@ == (CacheView {
            by_app: old(cache)@.by_app.insert(app_type, loaded@),
            ..old(cache)@
        }),
{
    proof {
        lemma_map_views(cache.by_app@, app_type, loaded);
    }
    cache.by_app.insert(app_type, loaded);
}

fn take_full_load(
    app: &mut App,
    data: &mut UiData,
    cache: &mut UiDataByAppCache,
    workers: &mut DataWorkers,
    app_type: AppType,
    loaded: UiData,
)
    ensures
        final(workers).links() == old(workers).links(),
        desk(*final(app), *final(data), *final(cache), *final(workers)) == desk(
            *old(app),
            *old(data),
            *old(cache),
            *old(workers),
        ).fully_loaded(old(workers).links(), app_type, loaded@),
{
    cache.remove_usage_pricing_for_app(&app_type);
    cache.mark_app_data_loaded(&app_type);
    if app.app_type == app_type {
        app.usage.invalidate_log_pages();
        *data = loaded;
        apply_loaded_data_cache_invalidation(
            app,
            data,
            cache,
            workers,
            CacheInvalidation::CurrentAppReloaded,
        );
    } else {
        keep_app_data(cache, app_type, loaded);
    }
}

fn take_snapshot(
    app: &mut App,
    data: &mut UiData,
    cache: &mut UiDataByAppCache,
    workers: &mut DataWorkers,
    kind: AppDataLoadKind,
    app_type: AppType,
    loaded: UiData,
)
    ensures
        final(workers).links() == old(workers).links(),
        desk(*final(app), *final(data), *final(cache), *final(workers)) == desk(
            *old(app),
            *old(data),
            *old(cache),
            *old(workers),
        ).snapshot_loaded(old(workers).links(), kind, app_type, loaded@),
{
    let mut loaded = loaded;
    let active_range = if app.app_type == app_type {
        app.usage.range
    } else {
        UsageRangePreset::SevenDays
    };
    cache.merge_usage_pricing(&app_type, &mut loaded, active_range);
    cache.mark_app_data_loaded(&app_type);
    if app.app_type == app_type {
        loaded.quota = data.quota.duplicate();
        app.usage.invalidate_log_pages();
        *data = loaded;
        app.reset_proxy_activity(
            data.proxy.estimated_input_tokens_total,
            data.proxy.estimated_output_tokens_total,
        );
        app.clamp_and_prompt();
        cache.remember_current(&app.app_type, data);
        if kind == AppDataLoadKind::Snapshot {
            queue_current_quota_refresh_if_due(app, data, &mut workers.quota);
        }
    } else {
        keep_app_data(cache, app_type, loaded);
    }
}

/// Application data has been loaded.
pub fn handle_app_data_msg(
    app: &mut App,
    data: &mut UiData,
    cache: &mut UiDataByAppCache,
    workers: &mut DataWorkers,
    msg: AppDataLoaded,
)
    ensures
        final(workers).links() == old(workers).links(),
        desk(*final(app), *final(data), *final(cache), *final(workers)) == desk(
            *old(app),
            *old(data),
            *old(cache),
            *old(workers),
        ).app_data_received(old(workers).links(), msg),
{
    let app_type = msg.app_type;
    match cache.finish_app_data_load(
        msg.kind,
        &app_type,
        msg.request_id,
        msg.generation,
        msg.app_state_epoch,
    ) {
        AppDataLoadFinish::Accepted => {},
        AppDataLoadFinish::Stale => {
            if app.app_type == app_type {
                let _ = cache.queue_current_app_data_refresh(&mut workers.app_data, &app_type);
            }
            return ;
        },
        AppDataLoadFinish::Ignored => {
            return ;
        },
    }
    match msg.result {
        Ok(loaded) => {
            if msg.kind == AppDataLoadKind::Full {
                take_full_load(app, data, cache, workers, app_type, loaded);
            } else {
                take_snapshot(app, data, cache, workers, msg.kind, app_type, loaded);
            }
        },
        Err(error) => {
            if app.app_type == app_type {
                if msg.kind == AppDataLoadKind::Full {
                    app.usage.clear_loading();
                }
                let message = joined("App data refresh failed: ", error.as_str());
                app.push_toast(Text::verbatim(message.as_str()), ToastKind::Warning);
            }
        },
    }
}

/// What is made of the first data at startup.
pub struct Startup {
    pub desk: Desk,
    /// What is laid over the first screen once there is one.
    pub overlay: Option<Overlay>,
    /// Whether a load was taken; an error ends the startup.
    pub result: Result<bool, Seq<char>>,
}

impl Desk {
    /// The first data of the current application is shown.
    pub open spec fn started_with(
        self,
        links: Links,
        overlay: Option<Overlay>,
        loaded: UiDataView,
    ) -> Desk {
        let shown = self.complete(self.app.app_type).showing(
            UiDataView { quota: self.data.quota, ..loaded },
        );
        Desk {
            app: AppView {
                overlay: match overlay {
                    Some(overlay) => overlay@,
                    None => OverlayView::Absent,
                },
                proxy: shown.app.proxy.counting_from(
                    loaded.proxy.estimated_input_tokens_total,
                    loaded.proxy.estimated_output_tokens_total,
                ).seeing(loaded.proxy.running, shown.app.tick),
                view_requests: shown.app.view_requests.prompting(),
                ..shown.app
            },
            ..shown
        }.remembered().asking_quota(links.quota)
    }

    /// What is made of data that was loaded at startup. The current application
    /// has to be there; of another one, a failure only means that the first
    /// switch to it loads it.
    pub open spec fn initial_received(
        self,
        links: Links,
        overlay: Option<Overlay>,
        msg: AppDataLoaded,
    ) -> Startup {
        let ended = self.ended(msg.app_type, load_token(msg));
        if msg.kind != AppDataLoadKind::Initial {
            Startup { desk: self, overlay, result: Ok(false) }
        } else if load_finish(self.cache, msg.app_type, load_token(msg))
            != AppDataLoadFinish::Accepted {
            Startup { desk: ended, overlay, result: Ok(false) }
        } else if self.app.app_type == msg.app_type {
            match msg.result {
                Ok(loaded) => Startup {
                    desk: ended.started_with(links, overlay, loaded@),
                    overlay: None,
                    result: Ok(true),
                },
                Err(error) => Startup { desk: ended, overlay, result: Err(error@) },
            }
        } else {
            let settled = ended.complete(msg.app_type);
            Startup {
                desk: match msg.result {
                    Ok(loaded) => settled.keeping(msg.app_type, loaded@),
                    Err(_) => settled,
                },
                overlay,
                result: Ok(true),
            }
        }
    }

    /// What is made of several messages at startup, in order. An error ends it;
    /// the messages after it are not looked at.
    pub open spec fn initial_drained(
        self,
        links: Links,
        overlay: Option<Overlay>,
        messages: Seq<AppDataLoaded>,
        loaded: bool,
    ) -> Startup
        decreases messages.len(),
    {
        if messages.len() == 0 {
            Startup { desk: self, overlay, result: Ok(loaded) }
        } else {
            let first = self.initial_received(links, overlay, messages[0]);
            match first.result {
                Err(_) => first,
                Ok(taken) => first.desk.initial_drained(
                    links,
                    first.overlay,
                    messages.drop_first(),
                    loaded || taken,
                ),
            }
        }
    }
}

pub open spec fn result_view(result: Result<bool, String>) -> Result<bool, Seq<char>> {
    match result {
        Ok(value) => Ok(value),
        Err(error) => Err(error@),
    }
}

fn take_initial_load(
    app: &mut App,
    data: &mut UiData,
    cache: &mut UiDataByAppCache,
    overlay: Option<Overlay>,
    workers: &mut DataWorkers,
    loaded: UiData,
)
    ensures
        final(workers).links() == old(workers).links(),
        desk(*final(app), *final(data), *final(cache), *final(workers)) == desk(
            *old(app),
            *old(data),
            *old(cache),
            *old(workers),
        ).started_with(old(workers).links(), overlay, loaded@),
{
    let mut loaded = loaded;
    cache.mark_app_data_loaded(&app.app_type);
    loaded.quota = data.quota.duplicate();
    app.usage.invalidate_log_pages();
    *data = loaded;
    app.overlay = match overlay {
        Some(overlay) => overlay,
        None => Overlay::Absent,
    };
    app.reset_proxy_activity(
        data.proxy.estimated_input_tokens_total,
        data.proxy.estimated_output_tokens_total,
    );
    app.observe_proxy_visual_state(data.proxy.running);
    app.clamp_and_prompt();
    cache.remember_current(&app.app_type, data);
    queue_current_quota_refresh_if_due(app, data, &mut workers.quota);
}

/// Data has been loaded at startup. The result tells whether it was taken.
pub fn handle_initial_app_data_msg(
    app: &mut App,
    data: &mut UiData,
    cache: &mut UiDataByAppCache,
    startup_overlay: &mut Option<Overlay>,
    workers: &mut DataWorkers,
    msg: AppDataLoaded,
) -> (result: Result<bool, String>)
    ensures
        final(workers).links() == old(workers).links(),
        ({
            let startup = desk(*old(app), *old(data), *old(cache), *old(workers)).initial_received(
                old(workers).links(),
                *old(startup_overlay),
                msg,
            );
            &&& desk(*final(app), *final(data), *final(cache), *final(workers)) == startup.desk
            &&& *final(startup_overlay) == startup.overlay
            &&& result_view(result) == startup.result
        }),
{
    if msg.kind != AppDataLoadKind::Initial {
        return Ok(false);
    }
    let app_type = msg.app_type;
    match cache.finish_app_data_load(
        msg.kind,
        &app_type,
        msg.request_id,
        msg.generation,
        msg.app_state_epoch,
    ) {
        AppDataLoadFinish::Accepted => {},
        AppDataLoadFinish::Stale | AppDataLoadFinish::Ignored => {
            return Ok(false);
        },
    }
    if app.app_type == app_type {
        match msg.result {
            Ok(loaded) => {
                let overlay = startup_overlay.take();
                take_initial_load(app, data, cache, overlay, workers, loaded);
            },
            Err(error) => {
                return Err(error);
            },
        }
    } else {
        cache.mark_app_data_loaded(&app_type);
        if let Ok(loaded) = msg.result {
            keep_app_data(cache, app_type, loaded);
        }
    }
    Ok(true)
}

/// Several messages have come at startup. The result tells whether one of them
/// was taken.
pub fn drain_initial_app_data_messages(
    app: &mut App,
    data: &mut UiData,
    cache: &mut UiDataByAppCache,
    startup_overlay: &mut Option<Overlay>,
    workers: &mut DataWorkers,
    messages: Vec<AppDataLoaded>,
) -> (result: Result<bool, String>)
    ensures
        final(workers).links() == old(workers).links(),
        ({
            let startup = desk(*old(app), *old(data), *old(cache), *old(workers)).initial_drained(
                old(workers).links(),
                *old(startup_overlay),
                messages@,
                false,
            );
            &&& desk(*final(app), *final(data), *final(cache), *final(workers)) == startup.desk
            &&& *final(startup_overlay) == startup.overlay
            &&& result_view(result) == startup.result
        }),
{
    let ghost all = messages@;
    let mut queue = messages;
    let mut loaded = false;
    while queue.len() > 0
        invariant
            all == messages@,
            workers.links() == old(workers).links(),
            desk(*app, *data, *cache, *workers).initial_drained(
                workers.links(),
                *startup_overlay,
                queue@,
                loaded,
            ) == desk(*old(app), *old(data), *old(cache), *old(workers)).initial_drained(
                old(workers).links(),
                *old(startup_overlay),
                all,
                false,
            ),
        decreases queue@.len(),
    {
        let ghost rest = queue@.drop_first();
        let msg = queue.remove(0);
        assert(queue@ =~= rest);
        match handle_initial_app_data_msg(app, data, cache, startup_overlay, workers, msg) {
            Ok(taken) => {
                loaded = loaded || taken;
            },
            Err(error) => {
                return Err(error);
            },
        }
    }
    Ok(loaded)
}

/// Data that was loaded before the interface came up is taken into use.
pub fn initialize_loaded_app(
    app: &mut App,
    data: &mut UiData,
    cache: &mut UiDataByAppCache,
    workers: &mut DataWorkers,
)
    ensures
        final(workers).links() == old(workers).links(),
        ({
            let before = desk(*old(app), *old(data), *old(cache), *old(workers));
            desk(*final(app), *final(data), *final(cache), *final(workers)) == (Desk {
                app: AppView {
                    proxy: before.app.proxy.counting_from(
                        before.data.proxy.estimated_input_tokens_total,
                        before.data.proxy.estimated_output_tokens_total,
                    ).seeing(before.data.proxy.running, before.app.tick),
                    view_requests: before.app.view_requests.prompting(),
                    ..before.app
                },
                ..before
            }).remembered().asking_quota(old(workers).links().quota)
        }),
{
    app.reset_proxy_activity(
        data.proxy.estimated_input_tokens_total,
        data.proxy.estimated_output_tokens_total,
    );
    app.observe_proxy_visual_state(data.proxy.running);
    app.clamp_and_prompt();
    cache.remember_current(&app.app_type, data);
    queue_current_quota_refresh_if_due(app, data, &mut workers.quota);
}

/// The invalidation that an action leads to: none where nothing was reloaded.
pub open spec fn effective(
    candidate: CacheInvalidation,
    before_token: u64,
    reload_token: u64,
) -> CacheInvalidation {
    if reload_token == before_token {
        CacheInvalidation::Nothing
    } else {
        candidate
    }
}

pub fn effective_cache_invalidation(
    candidate: CacheInvalidation,
    before_token: u64,
    data: &UiData,
) -> (invalidation: CacheInvalidation)
    ensures
        invalidation == effective(candidate, before_token, data.reload_token),
{
    if candidate == CacheInvalidation::Nothing || data.reload_token == before_token {
        CacheInvalidation::Nothing
    } else {
        candidate
    }
}

/// A worker that holds application state.
#[derive(Debug, Clone, Copy, PartialEq, Eq, Structural)]
pub enum StateHolder {
    AppData,
    UsagePricing,
}

impl StateHolder {
    pub open spec fn spec_name(self) -> Seq<char> {
        match self {
            StateHolder::AppData => "app data"@,
            StateHolder::UsagePricing => "usage/pricing"@,
        }
    }

    pub fn name(self) -> (name: &'static str)
        ensures
            name@ == self.spec_name(),
    {
        match self {
            StateHolder::AppData => "app data",
            StateHolder::UsagePricing => "usage/pricing",
        }
    }
}

/// How long the workers are given, together, to let go of their state.
pub const RELEASE_TIMEOUT_SECS: u64 = 10;

/// Tells the workers to let go of the application state that they hold. The
/// result names those whose answer has to be waited for, in order.
pub fn drop_cached_worker_state(
    app_worker: &mut Outbox<AppDataReq>,
    usage_worker: &mut Outbox<UsagePricingReq>,
) -> (awaited: Vec<StateHolder>)
    ensures
        final(app_worker).link == old(app_worker).link,
        final(usage_worker).link == old(usage_worker).link,
        final(app_worker).sent@ == (if old(app_worker).link == Link::Open {
            old(app_worker).sent@.push(AppDataReq::DropState)
        } else {
            old(app_worker).sent@
        }),
        final(usage_worker).sent@ == (if old(usage_worker).link == Link::Open {
            old(usage_worker).sent@.push(UsagePricingReq::DropState)
        } else {
            old(usage_worker).sent@
        }),
        awaited@ == (if old(app_worker).link == Link::Open {
            seq![StateHolder::AppData]
        } else {
            seq![]
        }) + (if old(usage_worker).link == Link::Open {
            seq![StateHolder::UsagePricing]
        } else {
            seq![]
        }),
{
    let mut awaited: Vec<StateHolder> = Vec::new();
    if app_worker.send(AppDataReq::DropState) {
        awaited.push(StateHolder::AppData);
    }
    if usage_worker.send(UsagePricingReq::DropState) {
        awaited.push(StateHolder::UsagePricing);
    }
    awaited
}

/// How waiting for a worker's answer ended.
#[derive(Debug, Clone, Copy, PartialEq, Eq, Structural)]
pub enum ReleaseWait {
    Acknowledged,
    /// The worker has stopped; it holds nothing any more.
    Disconnected,
    TimedOut,
}

/// What waiting for the workers, in order, led to: the first that took too long
/// is an error.
pub open spec fn release_failure(waits: Seq<(StateHolder, ReleaseWait)>) -> Option<StateHolder>
    decreases waits.len(),
{
    if waits.len() == 0 {
        None
    } else if waits[0].1 == ReleaseWait::TimedOut {
        Some(waits[0].0)
    } else {
        release_failure(waits.drop_first())
    }
}

pub open spec fn release_error(name: Seq<char>) -> Seq<char> {
    "timed out waiting for "@ + name + " worker to release cached app state"@
}

pub fn release_outcome(waits: &Vec<(StateHolder, ReleaseWait)>) -> (result: Result<(), String>)
    ensures
        match release_failure(waits@) {
            Some(holder) => result matches Err(error) && error@ == release_error(
                holder.spec_name(),
            ),
            None => result is Ok,
        },
{
    let mut i: usize = 0;
    assert(waits@.skip(0) =~= waits@);
    while i < waits.len()
        invariant
            i <= waits@.len(),
            release_failure(waits@.skip(i as int)) == release_failure(waits@),
        decreases waits@.len() - i,
    {
        proof {
            assert(waits@.skip(i as int).drop_first() =~= waits@.skip(i + 1));
            assert(waits@.skip(i as int)[0] == waits@[i as int]);
        }
        let (holder, wait) = waits[i];
        if wait == ReleaseWait::TimedOut {
            let lead = joined("timed out waiting for ", holder.name());
            let error = joined(lead.as_str(), " worker to release cached app state");
            assert(error@ =~= release_error(holder.spec_name()));
            return Err(error);
        }
        i = i + 1;
    }
    Ok(())
}

/// What is left to do of an invalidation.
#[derive(Debug, Clone, Copy, PartialEq, Eq, Structural)]
pub enum InvalidationStep {
    Done,
    /// No worker can load the current application's data: it has to be loaded
    /// here and now.
    LoadCurrentApp,
}

/// The data of the current application has changed in the store: what is kept
/// of it is dropped, and it is asked for anew.
pub fn apply_current_app_data_changed(
    app: &App,
    cache: &mut UiDataByAppCache,
    worker: &mut Outbox<AppDataReq>,
) -> (step: InvalidationStep)
    ensures
        final(worker).link == old(worker).link,
        ({
            let dropped = old(cache)@.without_app(app.app_type).without_figures(app.app_type);
            let loading = dropped.loading_app(app.app_type, AppDataLoadKind::Full);
            match old(worker).link {
                Link::Missing => {
                    &&& step == InvalidationStep::LoadCurrentApp
                    &&& final(cache)@ == dropped
                    &&& final(worker).sent@ == old(worker).sent@
                },
                Link::Closed => {
                    &&& step == InvalidationStep::LoadCurrentApp
                    &&& final(cache)@ == loading.without_app(app.app_type)
                    &&& final(worker).sent@ == old(worker).sent@
                },
                Link::Open => {
                    &&& step == InvalidationStep::Done
                    &&& final(cache)@ == loading
                    &&& final(worker).sent@ == old(worker).sent@.push(
                        AppDataReq::FullLoad {
                            request_id: following(old(cache)@.last_app_request),
                            generation: old(cache)@.generation,
                            app_state_epoch: old(cache)@.epoch,
                            app_type: app.app_type,
                        },
                    )
                },
            }
        }),
{
    let app_type = app.app_type;
    cache.remove_app_snapshot(&app_type);
    cache.remove_usage_pricing_for_app(&app_type);
    match cache.queue_current_app_data_refresh(worker, &app_type) {
        AppDataLoadQueued::Queued | AppDataLoadQueued::AlreadyPending => InvalidationStep::Done,
        AppDataLoadQueued::Unavailable
        | AppDataLoadQueued::SendFailed => InvalidationStep::LoadCurrentApp,
    }
}

/// The current application's data was loaded here, for want of a worker.
pub fn finish_current_app_data_changed(
    app: &mut App,
    data: &mut UiData,
    cache: &mut UiDataByAppCache,
    workers: &mut DataWorkers,
    loaded: UiData,
)
    ensures
        final(workers).links() == old(workers).links(),
        desk(*final(app), *final(data), *final(cache), *final(workers)) == (Desk {
            data: loaded@,
            ..desk(*old(app), *old(data), *old(cache), *old(workers)).complete(old(app).app_type)
        }).invalidated(old(workers).links(), CacheInvalidation::CurrentAppReloaded),
{
    *data = loaded;
    cache.mark_app_data_loaded(&app.app_type);
    apply_loaded_data_cache_invalidation(
        app,
        data,
        cache,
        workers,
        CacheInvalidation::CurrentAppReloaded,
    );
}

/// What an invalidation leads to. `released` is what waiting for the workers led
/// to; it counts only where the application state was made anew.
pub open spec fn invalidation_applied(
    before: Desk,
    links: Links,
    invalidation: CacheInvalidation,
    released: Result<(), String>,
) -> (Desk, Result<InvalidationStep, String>) {
    match (invalidation, released) {
        (CacheInvalidation::AppStateRecreated, Err(error)) => (before, Err(error)),
        (CacheInvalidation::CurrentAppDataChanged, _) => (
            Desk {
                cache: before.cache.without_app(before.app.app_type).without_figures(
                    before.app.app_type,
                ),
                ..before
            }.refreshing(links.app_data, before.app.app_type),
            Ok(
                if links.app_data == Link::Open {
                    InvalidationStep::Done
                } else {
                    InvalidationStep::LoadCurrentApp
                },
            ),
        ),
        _ => (before.invalidated(links, invalidation), Ok(InvalidationStep::Done)),
    }
}

/// Carries out an invalidation.
pub fn apply_cache_invalidation(
    app: &mut App,
    data: &mut UiData,
    cache: &mut UiDataByAppCache,
    workers: &mut DataWorkers,
    invalidation: CacheInvalidation,
    released: Result<(), String>,
) -> (result: Result<InvalidationStep, String>)
    ensures
        final(workers).links() == old(workers).links(),
        (desk(*final(app), *final(data), *final(cache), *final(workers)), result)
            == invalidation_applied(
            desk(*old(app), *old(data), *old(cache), *old(workers)),
            old(workers).links(),
            invalidation,
            released,
        ),
{
    if invalidation == CacheInvalidation::AppStateRecreated {
        if let Err(error) = released {
            return Err(error);
        }
    }
    if invalidation == CacheInvalidation::CurrentAppDataChanged {
        return Ok(apply_current_app_data_changed(app, cache, &mut workers.app_data));
    }
    apply_loaded_data_cache_invalidation(app, data, cache, workers, invalidation);
    Ok(InvalidationStep::Done)
}

/// Data from an earlier generation or epoch is never shown or kept.
pub proof fn stale_data_is_thrown_away(before: Desk, links: Links, msg: AppDataLoaded)
    requires
        msg.generation != before.cache.generation || msg.app_state_epoch != before.cache.epoch,
    ensures
        before.app_data_received(links, msg).data == before.data,
        before.app_data_received(links, msg).app == before.app,
        before.app_data_received(links, msg).cache.usage == before.cache.usage,
        before.app_data_received(links, msg).cache.by_app == (if before.app.app_type
            == msg.app_type && links.app_data == Link::Closed && !(before.cache.pending.contains_key(
            msg.app_type,
        ) && before.cache.pending[msg.app_type] != load_token(msg)) {
            before.cache.by_app.remove(msg.app_type)
        } else {
            before.cache.by_app
        }),
{
}

/// A full reload of the current application keeps the snapshots of the others.
pub proof fn reloading_keeps_other_snapshots(
    before: Desk,
    links: Links,
    loaded: UiDataView,
    other: AppType,
)
    requires
        other != before.app.app_type,
        before.cache.by_app.contains_key(other),
    ensures
        ({
            let after = before.fully_loaded(links, before.app.app_type, loaded);
            after.cache.by_app.contains_key(other) && after.cache.by_app[other]
                == before.cache.by_app[other]
        }),
{
}

/// Nothing is invalidated where an action reloaded nothing, whatever its kind.
pub proof fn unchanged_data_is_not_invalidated(
    before: Desk,
    links: Links,
    candidate: CacheInvalidation,
    token: u64,
)
    ensures
        before.invalidated(links, effective(candidate, token, token)) == before,
{
}

} // verus!
