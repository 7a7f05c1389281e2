//! What the settings owe the user: nothing is shown that was not saved, and what
//! was saved is said.

use vstd::prelude::*;

use crate::app::{AppView, OverlayView};
use crate::app_type::AppType;
use crate::data::UiData;
use crate::loop_laws::{steps_behind, the_next_visible_is_nearest};
use crate::managed_auth::ManagedAuthView;
use crate::outbox::Link;
use crate::report_laws::notices;
use crate::settings::{
    auth_asked, changes_config_dir, chooses_visible, detection_notice, enables_both,
    leaves_hidden, moves_port, moves_proxy, noticed, sets_mode, switches_failover, switches_proxy,
    turns_manual, VisibleAppsMode,
};
use crate::text::{Text, TextKey, TextView, ToastKind};
use crate::usage::UsageUiView;

verus! {

/// What is shown was loaded for the application, and this is what the user is
/// told; nothing else differs.
pub open spec fn told_beside_new_data<L: FnOnce(AppType) -> Result<UiData, String>>(
    load: L,
    before: (AppView, UiData),
    kind: ToastKind,
    key: TextKey,
    after: (AppView, UiData),
) -> bool {
    &&& load.ensures((before.0.app_type,), Ok(after.1))
    &&& notices(after.0, kind, key, seq![])
    &&& after.0 == (AppView { toast: after.0.toast, ..before.0 })
}

/// The proxy is switched by saving that for the application shown. What was
/// switched is told beside data that was loaded after it; where either fails
/// nothing changes.
pub proof fn the_proxy_is_switched<
    S: FnOnce(AppType, bool) -> Result<(), String>,
    L: FnOnce(AppType) -> Result<UiData, String>,
>(
    before: (AppView, UiData),
    enabled: bool,
    save: S,
    load: L,
    after: (AppView, UiData),
    result: Result<(), String>,
)
    requires
        switches_proxy(before, enabled, save, load, after, result),
    ensures
        result is Err ==> after == before,
        result is Ok ==> {
            &&& (exists|saved: Result<(), String>| #[trigger]
                save.ensures((before.0.app_type, enabled), saved) && saved is Ok)
            &&& told_beside_new_data(
                load,
                before,
                ToastKind::Success,
                TextKey::LocalProxySwitched { enabled },
                after,
            )
        },
{
}

/// The address of a proxy that runs is not saved: that is told. Else it is saved,
/// and that is told.
pub proof fn the_address_is_saved_while_the_proxy_rests<
    S: FnOnce(String) -> Result<(), String>,
    L: FnOnce(AppType) -> Result<UiData, String>,
>(
    before: (AppView, UiData),
    running: bool,
    address: String,
    save: S,
    load: L,
    after: (AppView, UiData),
    result: Result<(), String>,
)
    requires
        moves_proxy(before, running, address, save, load, after, result),
    ensures
        result is Err ==> after == before,
        result is Ok && running ==> told_beside_new_data(
            load,
            before,
            ToastKind::Info,
            TextKey::ProxySettingsStopProxyBeforeEditAddress,
            after,
        ),
        result is Ok && !running ==> {
            &&& (exists|saved: Result<(), String>| #[trigger]
                save.ensures((address,), saved) && saved is Ok)
            &&& told_beside_new_data(
                load,
                before,
                ToastKind::Success,
                TextKey::ProxySettingsSaved,
                after,
            )
        },
{
}

/// The port of an application that the proxy serves is not saved: that is told.
/// Else it is saved for the application shown, and that is told.
pub proof fn the_port_is_saved_while_the_application_rests<
    S: FnOnce(AppType, u16) -> Result<(), String>,
    L: FnOnce(AppType) -> Result<UiData, String>,
>(
    before: (AppView, UiData),
    workers: Seq<String>,
    port: u16,
    save: S,
    load: L,
    after: (AppView, UiData),
    result: Result<(), String>,
)
    requires
        moves_port(before, workers, port, save, load, after, result),
    ensures
        result is Err ==> after == before,
        ({
            let served = exists|i: int|
                0 <= i < workers.len() && (#[trigger] workers[i])@ == before.0.names.of(
                    before.0.app_type,
                );
            &&& result is Ok && served ==> told_beside_new_data(
                load,
                before,
                ToastKind::Info,
                TextKey::ProxySettingsStopAppRouteBeforeEditPort,
                after,
            )
            &&& result is Ok && !served ==> {
                &&& (exists|saved: Result<(), String>| #[trigger]
                    save.ensures((before.0.app_type, port), saved) && saved is Ok)
                &&& told_beside_new_data(
                    load,
                    before,
                    ToastKind::Success,
                    TextKey::ProxySettingsSaved,
                    after,
                )
            }
        }),
{
}

/// The failover is switched on only where it is ready to be; what was switched
/// is saved and told. Where anything fails nothing changes.
pub proof fn the_failover_is_switched<
    G: FnOnce(AppType) -> Result<(), String>,
    S: FnOnce(AppType, bool) -> Result<(), String>,
    L: FnOnce(AppType) -> Result<UiData, String>,
>(
    before: (AppView, UiData),
    app_type: AppType,
    enabled: bool,
    ensure_ready: G,
    save: S,
    load: L,
    after: (AppView, UiData),
    result: Result<(), String>,
)
    requires
        switches_failover(
            before,
            app_type,
            enabled,
            ensure_ready,
            save,
            load,
            after,
            result,
        ),
    ensures
        result is Err ==> after == before,
        result is Ok ==> {
            &&& enabled ==> (exists|saved: Result<(), String>| #[trigger]
                ensure_ready.ensures((app_type,), saved) && saved is Ok)
            &&& (exists|saved: Result<(), String>| #[trigger]
                save.ensures((app_type, enabled), saved) && saved is Ok)
            &&& told_beside_new_data(
                load,
                before,
                ToastKind::Success,
                TextKey::AutoFailoverSwitched { enabled },
                after,
            )
        },
{
}

/// Both are switched on only where the queue is ready; that is saved and told.
pub proof fn both_are_switched_on<
    G: FnOnce(AppType) -> Result<(), String>,
    S: FnOnce(AppType) -> Result<(), String>,
    L: FnOnce(AppType) -> Result<UiData, String>,
>(
    before: (AppView, UiData),
    app_type: AppType,
    ensure_queue_ready: G,
    save: S,
    load: L,
    after: (AppView, UiData),
    result: Result<(), String>,
)
    requires
        enables_both(before, app_type, ensure_queue_ready, save, load, after, result),
    ensures
        result is Err ==> after == before,
        result is Ok ==> {
            &&& (exists|saved: Result<(), String>| #[trigger]
                ensure_queue_ready.ensures((app_type,), saved) && saved is Ok)
            &&& (exists|saved: Result<(), String>| #[trigger]
                save.ensures((app_type,), saved) && saved is Ok)
            &&& told_beside_new_data(
                load,
                before,
                ToastKind::Success,
                TextKey::ProxyAndAutoFailoverEnabled,
                after,
            )
        },
{
}

/// A directory that was saved is told: as saved where it was brought in step, as
/// a warning where that failed, with the reason, or was left out.
pub proof fn the_directory_is_saved<
    T,
    S: FnOnce(Option<String>) -> Result<(), String>,
    O: FnOnce() -> Result<T, String>,
    Y: FnOnce(T) -> Result<(), String>,
    L: FnOnce(AppType) -> Result<UiData, String>,
>(
    before: (AppView, UiData),
    path: Option<String>,
    syncs: bool,
    save: S,
    open: O,
    sync: Y,
    load: L,
    after: (AppView, UiData),
    result: Result<(), String>,
)
    requires
        changes_config_dir(before, path, syncs, save, open, sync, load, after, result),
    ensures
        result is Err ==> after == before,
        result is Ok ==> {
            &&& (exists|saved: Result<(), String>| #[trigger]
                save.ensures((path,), saved) && saved is Ok)
            &&& exists|opened: Result<T, String>| #[trigger] open.ensures((), opened) && opened is Ok
            &&& load.ensures((before.0.app_type,), Ok(after.1))
            &&& after.0 == (AppView { toast: after.0.toast, ..before.0 })
            &&& !syncs ==> notices(
                after.0,
                ToastKind::Warning,
                TextKey::OpenClawConfigDirSyncSkipped,
                seq![],
            )
            &&& syncs ==> exists|state: T, synced: Result<(), String>| #[trigger]
                sync.ensures((state,), synced) && match synced {
                    Ok(()) => notices(
                        after.0,
                        ToastKind::Success,
                        TextKey::OpenClawConfigDirSaved,
                        seq![],
                    ),
                    Err(error) => notices(
                        after.0,
                        ToastKind::Warning,
                        TextKey::OpenClawConfigDirSyncFailed,
                        seq![error@],
                    ),
                }
        },
{
}

/// Another application is shown: its log is not browsed yet, and no entry is
/// looked at.
pub open spec fn shows_instead(before: AppView, next: AppType, after: AppView) -> bool {
    &&& after == (AppView {
        app_type: next,
        usage: after.usage,
        toast: after.toast,
        ..before
    })
    &&& after.usage == (UsageUiView {
        pager: after.usage.pager,
        detail_request: None,
        detail: None,
        ..before.usage
    })
    &&& after.usage.pager.context is None
}

/// At least one application has to be visible. A choice is saved, and that is
/// told. Where it hides the application shown, the nearest visible one behind it
/// is shown in its place, with data that was loaded before the choice was saved.
pub proof fn visible_applications_are_chosen<
    L: FnOnce(AppType) -> Result<UiData, String>,
    S: FnOnce(Vec<AppType>) -> Result<(), String>,
>(
    before: (AppView, UiData),
    apps: Vec<AppType>,
    load: L,
    save: S,
    after: (AppView, UiData),
    result: Result<(), String>,
)
    requires
        chooses_visible(before, apps, load, save, after, result),
    ensures
        result is Err ==> after == before,
        apps@.len() == 0 ==> {
            &&& result is Ok
            &&& after.1 == before.1
            &&& after.0 == (AppView { toast: after.0.toast, ..before.0 })
            &&& notices(
                after.0,
                ToastKind::Warning,
                TextKey::VisibleAppsZeroSelection,
                seq![],
            )
        },
        result is Ok && apps@.len() > 0 ==> {
            &&& (exists|saved: Result<(), String>| #[trigger]
                save.ensures((apps,), saved) && saved is Ok)
            &&& notices(after.0, ToastKind::Success, TextKey::VisibleAppsSaved, seq![])
            &&& apps@.contains(before.0.app_type) ==> after.1 == before.1 && after.0 == (AppView {
                toast: after.0.toast,
                ..before.0
            })
            &&& !apps@.contains(before.0.app_type) ==> {
                &&& shows_instead(before.0, after.0.app_type, after.0)
                &&& load.ensures((after.0.app_type,), Ok(after.1))
                &&& apps@.contains(after.0.app_type)
                &&& forall|app: AppType| #[trigger]
                    apps@.contains(app) ==> steps_behind(before.0.app_type, after.0.app_type)
                        <= steps_behind(before.0.app_type, app)
            }
        },
{
    the_next_visible_is_nearest(apps@, before.0.app_type);
    if apps@.len() > 0 {
        assert(apps@.contains(apps@[0]));
    }
}

/// An application that is hidden is left for the nearest visible one behind it,
/// with data loaded for that; a visible one stays, and so does any where none is
/// visible.
pub proof fn hidden_applications_are_left<L: FnOnce(AppType) -> Result<UiData, String>>(
    before: (AppView, UiData),
    visible: Seq<AppType>,
    load: L,
    after: (AppView, UiData),
    result: Result<(), String>,
)
    requires
        leaves_hidden(before, visible, load, after, result),
    ensures
        result is Err ==> after == before,
        visible.contains(before.0.app_type) || visible.len() == 0 ==> result is Ok && after
            == before,
        result is Ok && !visible.contains(before.0.app_type) && visible.len() > 0 ==> {
            &&& shows_instead(before.0, after.0.app_type, after.0)
            &&& after.0.toast == before.0.toast
            &&& load.ensures((after.0.app_type,), Ok(after.1))
            &&& visible.contains(after.0.app_type)
            &&& forall|app: AppType| #[trigger]
                visible.contains(app) ==> steps_behind(before.0.app_type, after.0.app_type)
                    <= steps_behind(before.0.app_type, app)
        },
{
    the_next_visible_is_nearest(visible, before.0.app_type);
    if visible.len() > 0 {
        assert(visible.contains(visible[0]));
    }
}

/// After a choice by hand the applications that are saved are offered, with the
/// row looked at.
pub proof fn choices_by_hand_stay_open<
    L: FnOnce(AppType) -> Result<UiData, String>,
    S: FnOnce(Vec<AppType>) -> Result<(), String>,
    R: FnOnce() -> Vec<AppType>,
>(
    before: (AppView, UiData),
    apps: Vec<AppType>,
    selected: usize,
    load: L,
    save: S,
    read_saved: R,
    after: (AppView, UiData),
    result: Result<(), String>,
)
    requires
        turns_manual(before, apps, selected, load, save, read_saved, after, result),
    ensures
        exists|shown: Vec<AppType>| #[trigger]
            read_saved.ensures((), shown) && after.0.overlay == (OverlayView::VisibleAppsPicker {
                selected,
                apps: shown@,
            }),
        result is Err ==> after.1 == before.1 && after.0 == (AppView {
            overlay: after.0.overlay,
            ..before.0
        }),
        result is Ok && apps@.len() > 0 ==> (exists|saved: Result<(), String>| #[trigger]
            save.ensures((apps,), saved) && saved is Ok) && notices(
            after.0,
            ToastKind::Success,
            TextKey::VisibleAppsSaved,
            seq![],
        ),
{
    let (between, shown) = choose|between: AppView, shown: Vec<AppType>|
        {
            &&& #[trigger] read_saved.ensures((), shown)
            &&& #[trigger] chooses_visible(before, apps, load, save, (between, after.1), result)
            &&& after.0 == (AppView {
                overlay: OverlayView::VisibleAppsPicker { selected, apps: shown@ },
                ..between
            })
        };
    visible_applications_are_chosen(before, apps, load, save, (between, after.1), result);
}

/// A way of choosing that could not be saved changes nothing. Choosing by hand is
/// told, and changes nothing else.
pub proof fn the_way_of_choosing_is_saved<
    S: FnOnce(VisibleAppsMode) -> Result<(), String>,
    P: FnOnce() -> Result<Vec<Text>, String>,
    V: FnOnce() -> Vec<AppType>,
    L: FnOnce(AppType) -> Result<UiData, String>,
>(
    before: (AppView, UiData),
    mode: VisibleAppsMode,
    save: S,
    apply_policy: P,
    visible: V,
    load: L,
    after: (AppView, UiData),
    result: Result<(), String>,
)
    requires
        sets_mode(before, mode, save, apply_policy, visible, load, after, result),
    ensures
        result is Ok ==> (exists|saved: Result<(), String>| #[trigger]
            save.ensures((mode,), saved) && saved is Ok),
        mode is Manual && result is Err ==> after == before,
        mode is Manual && result is Ok ==> {
            &&& after.1 == before.1
            &&& after.0 == (AppView { toast: after.0.toast, ..before.0 })
            &&& notices(
                after.0,
                ToastKind::Success,
                TextKey::VisibleAppsModeSaved { automatic: false },
                seq![],
            )
        },
        mode is Auto && result is Ok ==> exists|notes: Vec<Text>| #[trigger]
            apply_policy.ensures((), Ok(notes)) && (notes@.len() == 0 ==> notices(
                after.0,
                ToastKind::Success,
                TextKey::VisibleAppsModeSaved { automatic: true },
                seq![],
            )) && (notes@.len() > 0 ==> after.0.toast is Some && after.0.toast->0.message
                == notes@.last()@ && after.0.toast->0.kind == ToastKind::Info),
{
}

/// The last of several notices is the one shown; without any, nothing changes.
pub proof fn the_last_notice_is_shown(before: AppView, notes: Seq<TextView>)
    ensures
        notes.len() == 0 ==> noticed(before, notes) == before,
        notes.len() > 0 ==> {
            let after = noticed(before, notes);
            &&& after == (AppView { toast: after.toast, ..before })
            &&& after.toast matches Some(toast)
            &&& toast.message == notes[notes.len() - 1]
            &&& toast.kind == ToastKind::Info
            &&& !toast.persistent
        },
{
}

/// The applications that detection changed are named, in their order; without any
/// the way of choosing is told.
pub proof fn detection_is_told(before: AppView, changed: Option<Seq<AppType>>)
    ensures
        ({
            let after = detection_notice(before, changed);
            &&& after == (AppView { toast: after.toast, ..before })
            &&& changed is None ==> notices(
                after,
                ToastKind::Success,
                TextKey::VisibleAppsModeSaved { automatic: false },
                seq![],
            )
            &&& changed matches Some(apps) ==> {
                &&& apps.len() == 0 ==> notices(
                    after,
                    ToastKind::Success,
                    TextKey::VisibleAppsModeSaved { automatic: true },
                    seq![],
                )
                &&& apps.len() > 0 ==> {
                    &&& after.toast matches Some(toast)
                    &&& toast.kind == ToastKind::Info
                    &&& toast.message.key == TextKey::VisibleAppsNotice
                    &&& toast.message.args.len() == apps.len()
                    &&& forall|i: int|
                        0 <= i < apps.len() ==> #[trigger] toast.message.args[i]
                            == before.names.of(apps[i])
                }
            }
        }),
{
}

/// A request on accounts is waited for where it went out. Else it is not, unless
/// something else was waited for and nobody is there to ask; the user is told.
pub proof fn requests_on_accounts_are_waited_for(before: AppView, link: Link, refresh: bool)
    ensures
        ({
            let after = auth_asked(before, link, refresh);
            &&& after == (AppView {
                managed_auth: after.managed_auth,
                toast: after.toast,
                ..before
            })
            &&& after.managed_auth == (ManagedAuthView {
                loading: after.managed_auth.loading,
                ..before.managed_auth
            })
            &&& link == Link::Open ==> after.managed_auth.loading && after.toast == before.toast
            &&& link == Link::Closed ==> !after.managed_auth.loading
            &&& link == Link::Missing && refresh ==> !after.managed_auth.loading
            &&& link == Link::Missing && !refresh ==> after.managed_auth.loading
                == before.managed_auth.loading
            &&& link == Link::Missing ==> notices(
                after,
                ToastKind::Warning,
                TextKey::ManagedAuthWorkerUnavailable,
                seq![],
            )
            &&& link == Link::Closed ==> {
                &&& after.toast matches Some(toast)
                &&& toast.kind == ToastKind::Warning
                &&& toast.message.key == TextKey::ManagedAuthRequestFailed
            }
        }),
{
}

} // verus!
