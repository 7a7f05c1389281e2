//! The settings that change what the interface shows, and what is said of them.

use vstd::prelude::*;

use crate::app::{App, AppView, Overlay, OverlayView};
use crate::app_type::{AppNames, AppNamesView, AppType};
use crate::base::{views, Duplicate};
use crate::cache::{apply_preloaded_app_switch, turned_to};
use crate::data::UiData;
use crate::managed_auth::{ManagedAuthReq, ManagedAuthView};
use crate::outbox::{Link, Outbox, CHANNEL_CLOSED};
use crate::text::{Text, TextKey, TextView, ToastKind};

verus! {

// The proxy.

/// The data is read again, and that a change was made is told; or it cannot be
/// read, and nothing is shown.
pub open spec fn reloads<L: FnOnce(AppType) -> Result<UiData, String>>(
    load: L,
    before: (AppView, UiData),
    kind: ToastKind,
    message: TextView,
    after: (AppView, UiData),
    result: Result<(), String>,
) -> bool {
    exists|loaded: Result<UiData, String>|
        {
            &&& #[trigger] load.ensures((before.0.app_type,), loaded)
            &&& match loaded {
                Err(error) => result == Err::<(), String>(error) && after == before,
                Ok(data) => result is Ok && after == (before.0.told(kind, message), data),
            }
        }
}

fn reload_and_tell<L: FnOnce(AppType) -> Result<UiData, String>>(
    app: &mut App,
    data: &mut UiData,
    load: L,
    message: Text,
    kind: ToastKind,
) -> (result: Result<(), String>)
    requires
        load.requires((old(app).app_type,)),
    ensures
        reloads(
            load,
            (old(app)@, *old(data)),
            kind,
            message@,
            (final(app)@, *final(data)),
            result,
        ),
{
    let loaded = load(app.app_type);
    match loaded {
        Err(error) => Err(error),
        Ok(loaded) => {
            *data = loaded;
            app.push_toast(message, kind);
            Ok(())
        },
    }
}

/// A change is made first. Where it cannot be made, nothing else is done.
pub open spec fn saves_then_reloads<L: FnOnce(AppType) -> Result<UiData, String>>(
    saved: Result<(), String>,
    load: L,
    before: (AppView, UiData),
    message: TextView,
    after: (AppView, UiData),
    result: Result<(), String>,
) -> bool {
    match saved {
        Err(error) => result == Err::<(), String>(error) && after == before,
        Ok(()) => reloads(load, before, ToastKind::Success, message, after, result),
    }
}

/// What switching the proxy on or off leads to.
pub open spec fn switches_proxy<
    S: FnOnce(AppType, bool) -> Result<(), String>,
    L: FnOnce(AppType) -> Result<UiData, String>,
>(
    before: (AppView, UiData),
    enabled: bool,
    save: S,
    load: L,
    after: (AppView, UiData),
    result: Result<(), String>,
) -> bool {
    exists|saved: Result<(), String>|
        {
            &&& #[trigger] save.ensures((before.0.app_type, enabled), saved)
            &&& saves_then_reloads(
                saved,
                load,
                before,
                TextView::plain(TextKey::LocalProxySwitched { enabled }),
                after,
                result,
            )
        }
}

/// Routes the requests of the current application through the proxy, or not.
pub fn set_proxy_enabled<
    S: FnOnce(AppType, bool) -> Result<(), String>,
    L: FnOnce(AppType) -> Result<UiData, String>,
>(app: &mut App, data: &mut UiData, enabled: bool, save: S, load: L) -> (result: Result<(), String>)
    requires
        save.requires((old(app).app_type, enabled)),
        forall|saved: Result<(), String>| #[trigger]
            save.ensures((old(app).app_type, enabled), saved) && saved is Ok ==> load.requires(
                (old(app).app_type,),
            ),
    ensures
        switches_proxy(
            (old(app)@, *old(data)),
            enabled,
            save,
            load,
            (final(app)@, *final(data)),
            result,
        ),
{
    let saved = save(app.app_type, enabled);
    match saved {
        Err(error) => Err(error),
        Ok(()) => reload_and_tell(
            app,
            data,
            load,
            Text::plain(TextKey::LocalProxySwitched { enabled }),
            ToastKind::Success,
        ),
    }
}

/// What another address for the proxy leads to.
pub open spec fn moves_proxy<
    S: FnOnce(String) -> Result<(), String>,
    L: FnOnce(AppType) -> Result<UiData, String>,
>(
    before: (AppView, UiData),
    running: bool,
    address: String,
    save: S,
    load: L,
    after: (AppView, UiData),
    result: Result<(), String>,
) -> bool {
    if running {
        reloads(
            load,
            before,
            ToastKind::Info,
            TextView::plain(TextKey::ProxySettingsStopProxyBeforeEditAddress),
            after,
            result,
        )
    } else {
        exists|saved: Result<(), String>|
            {
                &&& #[trigger] save.ensures((address,), saved)
                &&& saves_then_reloads(
                    saved,
                    load,
                    before,
                    TextView::plain(TextKey::ProxySettingsSaved),
                    after,
                    result,
                )
            }
    }
}

/// The address is changed only while the proxy does not run.
pub fn set_proxy_listen_address<
    S: FnOnce(String) -> Result<(), String>,
    L: FnOnce(AppType) -> Result<UiData, String>,
>(app: &mut App, data: &mut UiData, running: bool, address: String, save: S, load: L) -> (result:
    Result<(), String>)
    requires
        running ==> load.requires((old(app).app_type,)),
        !running ==> save.requires((address,)),
        !running ==> forall|saved: Result<(), String>| #[trigger]
            save.ensures((address,), saved) && saved is Ok ==> load.requires(
                (old(app).app_type,),
            ),
    ensures
        moves_proxy(
            (old(app)@, *old(data)),
            running,
            address,
            save,
            load,
            (final(app)@, *final(data)),
            result,
        ),
{
    if running {
        return reload_and_tell(
            app,
            data,
            load,
            Text::plain(TextKey::ProxySettingsStopProxyBeforeEditAddress),
            ToastKind::Info,
        );
    }
    let saved = save(address);
    match saved {
        Err(error) => Err(error),
        Ok(()) => reload_and_tell(
            app,
            data,
            load,
            Text::plain(TextKey::ProxySettingsSaved),
            ToastKind::Success,
        ),
    }
}

/// Whether one of the workers routes the requests of the application of this
/// name.
pub open spec fn routed(workers: Seq<String>, name: Seq<char>) -> bool {
    exists|i: int| 0 <= i < workers.len() && (#[trigger] workers[i])@ == name
}

fn is_routed(workers: &Vec<String>, name: &String) -> (result: bool)
    ensures
        result == routed(workers@, name@),
{
    let mut i: usize = 0;
    while i < workers.len()
        invariant
            i <= workers@.len(),
            forall|j: int| 0 <= j < i ==> (#[trigger] workers@[j])@ != name@,
        decreases workers@.len() - i,
    {
        if workers[i] == *name {
            return true;
        }
        i = i + 1;
    }
    false
}

/// What another port for the proxy leads to.
pub open spec fn moves_port<
    S: FnOnce(AppType, u16) -> Result<(), String>,
    L: FnOnce(AppType) -> Result<UiData, String>,
>(
    before: (AppView, UiData),
    workers: Seq<String>,
    port: u16,
    save: S,
    load: L,
    after: (AppView, UiData),
    result: Result<(), String>,
) -> bool {
    if routed(workers, before.0.names.of(before.0.app_type)) {
        reloads(
            load,
            before,
            ToastKind::Info,
            TextView::plain(TextKey::ProxySettingsStopAppRouteBeforeEditPort),
            after,
            result,
        )
    } else {
        exists|saved: Result<(), String>|
            {
                &&& #[trigger] save.ensures((before.0.app_type, port), saved)
                &&& saves_then_reloads(
                    saved,
                    load,
                    before,
                    TextView::plain(TextKey::ProxySettingsSaved),
                    after,
                    result,
                )
            }
    }
}

/// The port of the current application is changed only while its requests are
/// not routed.
pub fn set_proxy_listen_port<
    S: FnOnce(AppType, u16) -> Result<(), String>,
    L: FnOnce(AppType) -> Result<UiData, String>,
>(
    app: &mut App,
    data: &mut UiData,
    active_workers: &Vec<String>,
    port: u16,
    save: S,
    load: L,
) -> (result: Result<(), String>)
    requires
        routed(active_workers@, old(app)@.names.of(old(app).app_type)) ==> load.requires((old(app).app_type,)),
        !routed(active_workers@, old(app)@.names.of(old(app).app_type)) ==> save.requires((old(app).app_type, port)),
        !routed(active_workers@, old(app)@.names.of(old(app).app_type)) ==> forall|saved: Result<(), String>| #[trigger]
            save.ensures((old(app).app_type, port), saved) && saved is Ok ==> load.requires(
                (old(app).app_type,),
            ),
    ensures
        moves_port(
            (old(app)@, *old(data)),
            active_workers@,
            port,
            save,
            load,
            (final(app)@, *final(data)),
            result,
        ),
{
    if is_routed(active_workers, app.names.of(&app.app_type)) {
        return reload_and_tell(
            app,
            data,
            load,
            Text::plain(TextKey::ProxySettingsStopAppRouteBeforeEditPort),
            ToastKind::Info,
        );
    }
    let saved = save(app.app_type, port);
    match saved {
        Err(error) => Err(error),
        Ok(()) => reload_and_tell(
            app,
            data,
            load,
            Text::plain(TextKey::ProxySettingsSaved),
            ToastKind::Success,
        ),
    }
}

/// What was found out before a switch: nothing stands against switching off.
pub open spec fn is_ready<G: FnOnce(AppType) -> Result<(), String>>(
    ensure_ready: G,
    app_type: AppType,
    enabled: bool,
    ready: Result<(), String>,
) -> bool {
    if enabled {
        ensure_ready.ensures((app_type,), ready)
    } else {
        ready is Ok
    }
}

/// What switching the failover on or off leads to.
pub open spec fn switches_failover<
    G: FnOnce(AppType) -> Result<(), String>,
    S: FnOnce(AppType, bool) -> Result<(), String>,
    L: FnOnce(AppType) -> Result<UiData, String>,
>(
    before: (AppView, UiData),
    app_type: AppType,
    enabled: bool,
    ensure_ready: G,
    save: S,
    load: L,
    after: (AppView, UiData),
    result: Result<(), String>,
) -> bool {
    exists|ready: Result<(), String>|
        {
            &&& #[trigger] is_ready(ensure_ready, app_type, enabled, ready)
            &&& match ready {
                Err(error) => result == Err::<(), String>(error) && after.0 == before.0
                    && after.1 == before.1,
                Ok(()) => exists|saved: Result<(), String>|
                    {
                        &&& #[trigger] save.ensures((app_type, enabled), saved)
                        &&& saves_then_reloads(
                            saved,
                            load,
                            before,
                            TextView::plain(TextKey::AutoFailoverSwitched { enabled }),
                            after,
                            result,
                        )
                    },
            }
        }
}

/// Switches automatic failover of an application on or off. It is switched on
/// only where everything is ready for it.
pub fn set_proxy_auto_failover<
    G: FnOnce(AppType) -> Result<(), String>,
    S: FnOnce(AppType, bool) -> Result<(), String>,
    L: FnOnce(AppType) -> Result<UiData, String>,
>(
    app: &mut App,
    data: &mut UiData,
    app_type: AppType,
    enabled: bool,
    ensure_ready: G,
    save: S,
    load: L,
) -> (result: Result<(), String>)
    requires
        enabled ==> ensure_ready.requires((app_type,)),
        forall|ready: Result<(), String>| #[trigger]
            is_ready(ensure_ready, app_type, enabled, ready) && ready is Ok ==> save.requires(
                (app_type, enabled),
            ),
        forall|saved: Result<(), String>| #[trigger]
            save.ensures((app_type, enabled), saved) && saved is Ok ==> load.requires(
                (old(app).app_type,),
            ),
    ensures
        switches_failover(
            (old(app)@, *old(data)),
            app_type,
            enabled,
            ensure_ready,
            save,
            load,
            (final(app)@, *final(data)),
            result,
        ),
{
    let ready = if enabled {
        ensure_ready(app_type)
    } else {
        Ok(())
    };
    assert(is_ready(ensure_ready, app_type, enabled, ready));
    match ready {
        Err(error) => Err(error),
        Ok(()) => {
            let saved = save(app_type, enabled);
            match saved {
                Err(error) => Err(error),
                Ok(()) => reload_and_tell(
                    app,
                    data,
                    load,
                    Text::plain(TextKey::AutoFailoverSwitched { enabled }),
                    ToastKind::Success,
                ),
            }
        },
    }
}

/// What switching both on leads to.
pub open spec fn enables_both<
    G: FnOnce(AppType) -> Result<(), String>,
    S: FnOnce(AppType) -> Result<(), String>,
    L: FnOnce(AppType) -> Result<UiData, String>,
>(
    before: (AppView, UiData),
    app_type: AppType,
    ensure_queue_ready: G,
    save: S,
    load: L,
    after: (AppView, UiData),
    result: Result<(), String>,
) -> bool {
    exists|ready: Result<(), String>|
        {
            &&& #[trigger] ensure_queue_ready.ensures((app_type,), ready)
            &&& match ready {
                Err(error) => result == Err::<(), String>(error) && after.0 == before.0
                    && after.1 == before.1,
                Ok(()) => exists|saved: Result<(), String>|
                    {
                        &&& #[trigger] save.ensures((app_type,), saved)
                        &&& saves_then_reloads(
                            saved,
                            load,
                            before,
                            TextView::plain(TextKey::ProxyAndAutoFailoverEnabled),
                            after,
                            result,
                        )
                    },
            }
        }
}

/// Routes an application through the proxy and switches automatic failover on,
/// where there are providers to fall back on.
pub fn enable_proxy_and_auto_failover<
    G: FnOnce(AppType) -> Result<(), String>,
    S: FnOnce(AppType) -> Result<(), String>,
    L: FnOnce(AppType) -> Result<UiData, String>,
>(
    app: &mut App,
    data: &mut UiData,
    app_type: AppType,
    ensure_queue_ready: G,
    save: S,
    load: L,
) -> (result: Result<(), String>)
    requires
        ensure_queue_ready.requires((app_type,)),
        forall|ready: Result<(), String>| #[trigger]
            ensure_queue_ready.ensures((app_type,), ready) && ready is Ok ==> save.requires(
                (app_type,),
            ),
        forall|saved: Result<(), String>| #[trigger]
            save.ensures((app_type,), saved) && saved is Ok ==> load.requires(
                (old(app).app_type,),
            ),
    ensures
        enables_both(
            (old(app)@, *old(data)),
            app_type,
            ensure_queue_ready,
            save,
            load,
            (final(app)@, *final(data)),
            result,
        ),
{
    let ready = ensure_queue_ready(app_type);
    match ready {
        Err(error) => Err(error),
        Ok(()) => {
            let saved = save(app_type);
            match saved {
                Err(error) => Err(error),
                Ok(()) => reload_and_tell(
                    app,
                    data,
                    load,
                    Text::plain(TextKey::ProxyAndAutoFailoverEnabled),
                    ToastKind::Success,
                ),
            }
        },
    }
}

// OpenClaw.

/// What is told once the directory of OpenClaw was changed: whether its own
/// configuration could be brought up to date as well.
pub open spec fn config_dir_notice(app: AppView, synced: Option<Result<(), String>>) -> AppView {
    match synced {
        None => app.told(
            ToastKind::Warning,
            TextView::plain(TextKey::OpenClawConfigDirSyncSkipped),
        ),
        Some(Ok(())) => app.told(
            ToastKind::Success,
            TextView::plain(TextKey::OpenClawConfigDirSaved),
        ),
        Some(Err(error)) => app.told(
            ToastKind::Warning,
            TextView::with(TextKey::OpenClawConfigDirSyncFailed, error@),
        ),
    }
}

/// The new place is taken note of, and what was synced is told.
pub open spec fn shows_config_dir<L: FnOnce(AppType) -> Result<UiData, String>>(
    load: L,
    before: (AppView, UiData),
    synced: Option<Result<(), String>>,
    after: (AppView, UiData),
    result: Result<(), String>,
) -> bool {
    exists|loaded: Result<UiData, String>|
        {
            &&& #[trigger] load.ensures((before.0.app_type,), loaded)
            &&& match loaded {
                Err(error) => result == Err::<(), String>(error) && after == before,
                Ok(data) => result is Ok && after == (config_dir_notice(before.0, synced), data),
            }
        }
}

fn show_config_dir<L: FnOnce(AppType) -> Result<UiData, String>>(
    app: &mut App,
    data: &mut UiData,
    synced: Option<Result<(), String>>,
    load: L,
) -> (result: Result<(), String>)
    requires
        load.requires((old(app).app_type,)),
    ensures
        shows_config_dir(
            load,
            (old(app)@, *old(data)),
            synced,
            (final(app)@, *final(data)),
            result,
        ),
{
    let loaded = load(app.app_type);
    match loaded {
        Err(error) => Err(error),
        Ok(loaded) => {
            *data = loaded;
            app.push_toast(Text::plain(TextKey::OpenClawConfigDirSaved), ToastKind::Success);
            match synced {
                None => {
                    app.push_toast(
                        Text::plain(TextKey::OpenClawConfigDirSyncSkipped),
                        ToastKind::Warning,
                    );
                },
                Some(Ok(())) => {},
                Some(Err(error)) => {
                    app.push_toast(
                        Text::with(TextKey::OpenClawConfigDirSyncFailed, error.as_str()),
                        ToastKind::Warning,
                    );
                },
            }
            Ok(())
        },
    }
}

/// What choosing a place for the configuration leads to, once it was saved.
pub open spec fn moves_config_dir<
    T,
    O: FnOnce() -> Result<T, String>,
    Y: FnOnce(T) -> Result<(), String>,
    L: FnOnce(AppType) -> Result<UiData, String>,
>(
    syncs: bool,
    open: O,
    sync: Y,
    load: L,
    before: (AppView, UiData),
    after: (AppView, UiData),
    result: Result<(), String>,
) -> bool {
    exists|opened: Result<T, String>|
        {
            &&& #[trigger] open.ensures((), opened)
            &&& match opened {
                Err(error) => result == Err::<(), String>(error) && after == before,
                Ok(state) => if syncs {
                    exists|synced: Result<(), String>| #[trigger]
                        sync.ensures((state,), synced) && shows_config_dir(
                            load,
                            before,
                            Some(synced),
                            after,
                            result,
                        )
                } else {
                    shows_config_dir(load, before, None, after, result)
                },
            }
        }
}

/// What another directory for the configuration leads to.
pub open spec fn changes_config_dir<
    T,
    S: FnOnce(Option<String>) -> Result<(), String>,
    O: FnOnce() -> Result<T, String>,
    Y: FnOnce(T) -> Result<(), String>,
    L: FnOnce(AppType) -> Result<UiData, String>,
>(
    before: (AppView, UiData),
    path: Option<String>,
    syncs: bool,
    save: S,
    open: O,
    sync: Y,
    load: L,
    after: (AppView, UiData),
    result: Result<(), String>,
) -> bool {
    exists|saved: Result<(), String>|
        {
            &&& #[trigger] save.ensures((path,), saved)
            &&& match saved {
                Err(error) => {
                    &&& result == Err::<(), String>(error)
                    &&& after.0 == before.0
                    &&& after.1 == before.1
                },
                Ok(()) => moves_config_dir(
                    syncs,
                    open,
                    sync,
                    load,
                    before,
                    after,
                    result,
                ),
            }
        }
}

/// Chooses where OpenClaw keeps its configuration, or the usual place. The
/// configuration is written there, where it is kept in sync; that this failed is
/// told, but no error.
pub fn set_openclaw_config_dir<
    T,
    S: FnOnce(Option<String>) -> Result<(), String>,
    O: FnOnce() -> Result<T, String>,
    Y: FnOnce(T) -> Result<(), String>,
    L: FnOnce(AppType) -> Result<UiData, String>,
>(
    app: &mut App,
    data: &mut UiData,
    path: Option<String>,
    syncs: bool,
    save: S,
    open: O,
    sync: Y,
    load: L,
) -> (result: Result<(), String>)
    requires
        save.requires((path,)),
        forall|saved: Result<(), String>| #[trigger]
            save.ensures((path,), saved) && saved is Ok ==> open.requires(()),
        forall|state: T| #[trigger]
            open.ensures((), Ok(state)) && syncs ==> sync.requires((state,)),
        forall|state: T| #[trigger]
            open.ensures((), Ok(state)) && !syncs ==> load.requires((old(app).app_type,)),
        forall|state: T, synced: Result<(), String>| #[trigger]
            sync.ensures((state,), synced) ==> load.requires((old(app).app_type,)),
    ensures
        changes_config_dir(
            (old(app)@, *old(data)),
            path,
            syncs,
            save,
            open,
            sync,
            load,
            (final(app)@, *final(data)),
            result,
        ),
{
    let saved = save(path);
    if let Err(error) = saved {
        return Err(error);
    }
    let opened = open();
    match opened {
        Err(error) => Err(error),
        Ok(state) => {
            let synced = if syncs {
                Some(sync(state))
            } else {
                None
            };
            show_config_dir(app, data, synced, load)
        },
    }
}

// Visible applications.

pub(crate) fn is_listed(apps: &Vec<AppType>, app_type: &AppType) -> (result: bool)
    ensures
        result == apps@.contains(*app_type),
{
    let mut i: usize = 0;
    while i < apps.len()
        invariant
            i <= apps@.len(),
            forall|j: int| 0 <= j < i ==> apps@[j] != *app_type,
        decreases apps@.len() - i,
    {
        if apps[i] == *app_type {
            return true;
        }
        i = i + 1;
    }
    false
}

/// The application after another, in the order in which they are offered; the
/// first one comes after the last.
pub open spec fn following_app(app_type: AppType) -> AppType {
    match app_type {
        AppType::Claude => AppType::Codex,
        AppType::Codex => AppType::Gemini,
        AppType::Gemini => AppType::OpenCode,
        AppType::OpenCode => AppType::Hermes,
        AppType::Hermes => AppType::OpenClaw,
        AppType::OpenClaw => AppType::Claude,
    }
}

fn next_app(app_type: AppType) -> (next: AppType)
    ensures
        next == following_app(app_type),
{
    match app_type {
        AppType::Claude => AppType::Codex,
        AppType::Codex => AppType::Gemini,
        AppType::Gemini => AppType::OpenCode,
        AppType::OpenCode => AppType::Hermes,
        AppType::Hermes => AppType::OpenClaw,
        AppType::OpenClaw => AppType::Claude,
    }
}

/// How many applications there are.
pub const APP_COUNT: usize = 6;

/// The first visible application among so many, from one on.
pub open spec fn first_visible(visible: Seq<AppType>, from: AppType, steps: nat) -> Option<AppType>
    decreases steps,
{
    if steps == 0 {
        None
    } else if visible.contains(from) {
        Some(from)
    } else {
        first_visible(visible, following_app(from), (steps - 1) as nat)
    }
}

/// The next visible application after one.
pub open spec fn next_visible(visible: Seq<AppType>, current: AppType) -> Option<AppType> {
    first_visible(visible, following_app(current), APP_COUNT as nat)
}

/// The next visible application after one. It may be that one itself, if no
/// other is visible.
pub fn next_visible_app(visible: &Vec<AppType>, current: &AppType) -> (next: Option<AppType>)
    ensures
        next == next_visible(visible@, *current),
{
    let mut candidate = next_app(*current);
    let mut steps: usize = APP_COUNT;
    while steps > 0
        invariant
            next_visible(visible@, *current) == first_visible(visible@, candidate, steps as nat),
        decreases steps,
    {
        if is_listed(visible, &candidate) {
            return Some(candidate);
        }
        candidate = next_app(candidate);
        steps = steps - 1;
    }
    None
}

/// While any application is visible there is a next one, and it is visible.
pub proof fn next_is_visible(visible: Seq<AppType>, current: AppType)
    ensures
        next_visible(visible, current) matches Some(next) ==> visible.contains(next),
        next_visible(visible, current) is None ==> visible.len() == 0,
{
    reveal_with_fuel(first_visible, 7);
    if visible.len() > 0 {
        assert(visible.contains(visible[0]));
    }
}

/// The interface turns to an application, and that the choice was saved is told.
pub open spec fn choice_saved(app: AppView, next: Option<AppType>) -> AppView {
    (match next {
        Some(next) => turned_to(app, next),
        None => app,
    }).told(ToastKind::Success, TextView::plain(TextKey::VisibleAppsSaved))
}

/// What becomes of a choice of visible applications. An empty choice is not
/// taken. Where the current application is not in it, the data of the next one
/// is read before anything is saved.
pub open spec fn chooses_visible<
    L: FnOnce(AppType) -> Result<UiData, String>,
    S: FnOnce(Vec<AppType>) -> Result<(), String>,
>(
    before: (AppView, UiData),
    apps: Vec<AppType>,
    load: L,
    save: S,
    after: (AppView, UiData),
    result: Result<(), String>,
) -> bool {
    let (app, data) = before;
    if apps@.len() == 0 {
        result is Ok && after == (
            app.told(ToastKind::Warning, TextView::plain(TextKey::VisibleAppsZeroSelection)),
            data,
        )
    } else if apps@.contains(app.app_type) {
        exists|saved: Result<(), String>|
            {
                &&& #[trigger] save.ensures((apps,), saved)
                &&& result == saved
                &&& after == (if saved is Ok {
                    (choice_saved(app, None), data)
                } else {
                    before
                })
            }
    } else {
        match next_visible(apps@, app.app_type) {
            None => {
                &&& result matches Err(error)
                &&& error@ == "At least one app must remain visible"@
                &&& after == before
            },
            Some(next) => exists|loaded: Result<UiData, String>|
                {
                    &&& #[trigger] load.ensures((next,), loaded)
                    &&& match loaded {
                        Err(error) => result == Err::<(), String>(error) && after == before,
                        Ok(shown) => exists|saved: Result<(), String>|
                            {
                                &&& #[trigger] save.ensures((apps,), saved)
                                &&& result == saved
                                &&& after == (if saved is Ok {
                                    (choice_saved(app, Some(next)), shown)
                                } else {
                                    before
                                })
                            },
                    }
                },
        }
    }
}

/// What a choice of visible applications may call: the data of the next
/// application is read only where the current one is left, and nothing is saved
/// before that was read.
pub open spec fn may_choose<
    L: FnOnce(AppType) -> Result<UiData, String>,
    S: FnOnce(Vec<AppType>) -> Result<(), String>,
>(app_type: AppType, apps: Vec<AppType>, load: L, save: S) -> bool {
    let next = next_visible(apps@, app_type);
    if apps@.contains(app_type) {
        save.requires((apps,))
    } else {
        next matches Some(next) ==> {
            &&& load.requires((next,))
            &&& forall|shown: UiData| #[trigger]
                load.ensures((next,), Ok(shown)) ==> save.requires((apps,))
        }
    }
}

/// Takes a choice of visible applications.
pub fn set_visible_apps_with<
    L: FnOnce(AppType) -> Result<UiData, String>,
    S: FnOnce(Vec<AppType>) -> Result<(), String>,
>(
    app: &mut App,
    data: &mut UiData,
    apps: Vec<AppType>,
    load: L,
    save: S,
) -> (result: Result<(), String>)
    requires
        may_choose(old(app).app_type, apps, load, save),
    ensures
        chooses_visible(
            (old(app)@, *old(data)),
            apps,
            load,
            save,
            (final(app)@, *final(data)),
            result,
        ),
{
    if apps.len() == 0 {
        app.push_toast(Text::plain(TextKey::VisibleAppsZeroSelection), ToastKind::Warning);
        return Ok(());
    }
    if is_listed(&apps, &app.app_type) {
        let saved = save(apps);
        if saved.is_ok() {
            app.push_toast(Text::plain(TextKey::VisibleAppsSaved), ToastKind::Success);
        }
        return saved;
    }
    let next = match next_visible_app(&apps, &app.app_type) {
        Some(next) => next,
        None => {
            return Err("At least one app must remain visible".to_owned());
        },
    };
    let loaded = load(next);
    match loaded {
        Err(error) => Err(error),
        Ok(loaded) => {
            let saved = save(apps);
            if saved.is_ok() {
                apply_preloaded_app_switch(app, data, next, loaded);
                app.push_toast(Text::plain(TextKey::VisibleAppsSaved), ToastKind::Success);
            }
            saved
        },
    }
}

/// Whether a choice is over: it was not taken, or it was saved or not, or the
/// data of the next application could not be read.
pub open spec fn choice_over<
    L: FnOnce(AppType) -> Result<UiData, String>,
    S: FnOnce(Vec<AppType>) -> Result<(), String>,
>(app_type: AppType, apps: Vec<AppType>, load: L, save: S) -> bool {
    ||| apps@.len() == 0
    ||| !apps@.contains(app_type) && next_visible(apps@, app_type) is None
    ||| exists|saved: Result<(), String>| #[trigger] save.ensures((apps,), saved)
    ||| !apps@.contains(app_type) && exists|error: String| #[trigger]
        load.ensures((next_visible(apps@, app_type)->0,), Err(error))
}

/// What choosing the visible applications by hand leads to.
pub open spec fn turns_manual<
    L: FnOnce(AppType) -> Result<UiData, String>,
    S: FnOnce(Vec<AppType>) -> Result<(), String>,
    R: FnOnce() -> Vec<AppType>,
>(
    before: (AppView, UiData),
    apps: Vec<AppType>,
    selected: usize,
    load: L,
    save: S,
    read_saved: R,
    after: (AppView, UiData),
    result: Result<(), String>,
) -> bool {
    exists|between: AppView, shown: Vec<AppType>|
        {
            &&& #[trigger] read_saved.ensures((), shown)
            &&& #[trigger] chooses_visible(
                before,
                apps,
                load,
                save,
                (between, after.1),
                result,
            )
            &&& after.0 == (AppView {
                overlay: OverlayView::VisibleAppsPicker { selected, apps: shown@ },
                ..between
            })
        }
}

/// Takes the choice that the user has made by hand, and goes back to it: it
/// shows what is saved in the end, whatever has become of the choice.
pub fn switch_visible_apps_to_manual<
    L: FnOnce(AppType) -> Result<UiData, String>,
    S: FnOnce(Vec<AppType>) -> Result<(), String>,
    R: FnOnce() -> Vec<AppType>,
>(
    app: &mut App,
    data: &mut UiData,
    apps: Vec<AppType>,
    selected: usize,
    load: L,
    save: S,
    read_saved: R,
) -> (result: Result<(), String>)
    requires
        may_choose(old(app).app_type, apps, load, save),
        choice_over(old(app).app_type, apps, load, save) ==> read_saved.requires(()),
    ensures
        turns_manual(
            (old(app)@, *old(data)),
            apps,
            selected,
            load,
            save,
            read_saved,
            (final(app)@, *final(data)),
            result,
        ),
{
    let result = set_visible_apps_with(app, data, apps, load, save);
    let ghost between = app@;
    let shown = read_saved();
    let ghost saved = shown;
    app.overlay = Overlay::VisibleAppsPicker { selected, apps: shown };
    assert(read_saved.ensures((), saved));
    assert(chooses_visible(
        (old(app)@, *old(data)),
        apps,
        load,
        save,
        (between, *data),
        result,
    ));
    result
}

/// The interface leaves an application that is hidden.
pub open spec fn leaves_hidden<L: FnOnce(AppType) -> Result<UiData, String>>(
    before: (AppView, UiData),
    visible: Seq<AppType>,
    load: L,
    after: (AppView, UiData),
    result: Result<(), String>,
) -> bool {
    let (app, data) = before;
    let next = next_visible(visible, app.app_type);
    if visible.contains(app.app_type) || next is None || next == Some(app.app_type) {
        result is Ok && after == before
    } else {
        exists|loaded: Result<UiData, String>|
            {
                &&& #[trigger] load.ensures((next->0,), loaded)
                &&& match loaded {
                    Err(error) => result == Err::<(), String>(error) && after == before,
                    Ok(shown) => result is Ok && after == (turned_to(app, next->0), shown),
                }
            }
    }
}

/// The data of an application is read only where the current one is left for it.
pub open spec fn may_leave<L: FnOnce(AppType) -> Result<UiData, String>>(
    app_type: AppType,
    visible: Seq<AppType>,
    load: L,
) -> bool {
    next_visible(visible, app_type) matches Some(next) ==> (!visible.contains(app_type) && next
        != app_type ==> load.requires((next,)))
}

/// Leaves the current application if it is hidden now, for the next one that is
/// visible.
pub fn switch_current_app_if_hidden<L: FnOnce(AppType) -> Result<UiData, String>>(
    app: &mut App,
    data: &mut UiData,
    visible: &Vec<AppType>,
    load: L,
) -> (result: Result<(), String>)
    requires
        may_leave(old(app).app_type, visible@, load),
    ensures
        leaves_hidden(
            (old(app)@, *old(data)),
            visible@,
            load,
            (final(app)@, *final(data)),
            result,
        ),
{
    if is_listed(visible, &app.app_type) {
        return Ok(());
    }
    let next = match next_visible_app(visible, &app.app_type) {
        Some(next) => next,
        None => {
            return Ok(());
        },
    };
    if next == app.app_type {
        return Ok(());
    }
    let loaded = load(next);
    match loaded {
        Err(error) => Err(error),
        Ok(loaded) => {
            apply_preloaded_app_switch(app, data, next, loaded);
            Ok(())
        },
    }
}

/// The notices are shown one after the other: the last one stays.
pub open spec fn noticed(app: AppView, notices: Seq<TextView>) -> AppView {
    if notices.len() == 0 {
        app
    } else {
        app.told(ToastKind::Info, notices.last())
    }
}

/// How the visible applications are chosen was changed by hand.
fn visible_apps_mode_set_to_manual(app: &mut App)
    ensures
        final(app)@ == old(app)@.told(
            ToastKind::Success,
            TextView::plain(TextKey::VisibleAppsModeSaved { automatic: false }),
        ),
{
    app.push_toast(
        Text::plain(TextKey::VisibleAppsModeSaved { automatic: false }),
        ToastKind::Success,
    );
}

/// What showing the installed applications leads to: the last of the notices is
/// shown, or that the choice was saved where there is none, and an application
/// that is hidden now is left.
pub open spec fn turns_automatic<L: FnOnce(AppType) -> Result<UiData, String>>(
    before: (AppView, UiData),
    notices: Seq<TextView>,
    visible: Seq<AppType>,
    load: L,
    after: (AppView, UiData),
    result: Result<(), String>,
) -> bool {
    exists|between: AppView|
        {
            &&& #[trigger] leaves_hidden(
                (noticed(before.0, notices), before.1),
                visible,
                load,
                (between, after.1),
                result,
            )
            &&& after.0 == (if result is Ok && notices.len() == 0 {
                between.told(
                    ToastKind::Success,
                    TextView::plain(TextKey::VisibleAppsModeSaved { automatic: true }),
                )
            } else {
                between
            })
        }
}

/// The visible applications are found from what is installed from now on.
/// `notices` is what that has changed; where it changed nothing, only the new
/// way of choosing is told.
fn visible_apps_mode_set_to_auto<L: FnOnce(AppType) -> Result<UiData, String>>(
    app: &mut App,
    data: &mut UiData,
    notices: Vec<Text>,
    visible: &Vec<AppType>,
    load: L,
) -> (result: Result<(), String>)
    requires
        may_leave(old(app).app_type, visible@, load),
    ensures
        turns_automatic(
            (old(app)@, *old(data)),
            views(notices@),
            visible@,
            load,
            (final(app)@, *final(data)),
            result,
        ),
{
    let mut notices = notices;
    let ghost all = notices@;
    let quiet = notices.len() == 0;
    match notices.pop() {
        Some(last) => {
            assert(views(all).last() == last@);
            app.push_toast(last, ToastKind::Info);
        },
        None => {},
    }
    assert(app@ == noticed(old(app)@, views(all)));
    let result = switch_current_app_if_hidden(app, data, visible, load);
    let ghost between = app@;
    assert(leaves_hidden(
        (noticed(old(app)@, views(all)), *old(data)),
        visible@,
        load,
        (between, *data),
        result,
    ));
    if result.is_ok() && quiet {
        app.push_toast(
            Text::plain(TextKey::VisibleAppsModeSaved { automatic: true }),
            ToastKind::Success,
        );
    }
    result
}

/// Which applications are shown: those that are installed, or those that were
/// picked.
#[derive(Debug, Clone, Copy, PartialEq, Eq, Structural)]
pub enum VisibleAppsMode {
    Auto,
    Manual,
}

/// What the policy for installed applications leads to, once it was applied.
pub open spec fn follows_policy<
    V: FnOnce() -> Vec<AppType>,
    L: FnOnce(AppType) -> Result<UiData, String>,
>(
    applied: Result<Vec<Text>, String>,
    visible: V,
    load: L,
    before: (AppView, UiData),
    after: (AppView, UiData),
    result: Result<(), String>,
) -> bool {
    match applied {
        Err(error) => result == Err::<(), String>(error) && after == before,
        Ok(notices) => exists|shown: Vec<AppType>| #[trigger]
            visible.ensures((), shown) && turns_automatic(
                before,
                views(notices@),
                shown@,
                load,
                after,
                result,
            ),
    }
}

/// What another way to choose the visible applications leads to.
pub open spec fn sets_mode<
    S: FnOnce(VisibleAppsMode) -> Result<(), String>,
    P: FnOnce() -> Result<Vec<Text>, String>,
    V: FnOnce() -> Vec<AppType>,
    L: FnOnce(AppType) -> Result<UiData, String>,
>(
    before: (AppView, UiData),
    mode: VisibleAppsMode,
    save: S,
    apply_policy: P,
    visible: V,
    load: L,
    after: (AppView, UiData),
    result: Result<(), String>,
) -> bool {
    exists|saved: Result<(), String>|
        {
            &&& #[trigger] save.ensures((mode,), saved)
            &&& match saved {
                Err(error) => {
                    &&& result == Err::<(), String>(error)
                    &&& after.0 == before.0
                    &&& after.1 == before.1
                },
                Ok(()) => match mode {
                    VisibleAppsMode::Manual => {
                        &&& result is Ok
                        &&& after.1 == before.1
                        &&& after.0 == before.0.told(
                            ToastKind::Success,
                            TextView::plain(
                                TextKey::VisibleAppsModeSaved { automatic: false },
                            ),
                        )
                    },
                    VisibleAppsMode::Auto => exists|applied: Result<Vec<Text>, String>|
                        #[trigger]
                        apply_policy.ensures((), applied) && follows_policy(
                            applied,
                            visible,
                            load,
                            before,
                            after,
                            result,
                        ),
                },
            }
        }
}

/// Chooses how it is decided which applications are shown. The applications are
/// read once the policy was applied.
pub fn set_visible_apps_mode<
    S: FnOnce(VisibleAppsMode) -> Result<(), String>,
    P: FnOnce() -> Result<Vec<Text>, String>,
    V: FnOnce() -> Vec<AppType>,
    L: FnOnce(AppType) -> Result<UiData, String>,
>(
    app: &mut App,
    data: &mut UiData,
    mode: VisibleAppsMode,
    save: S,
    apply_policy: P,
    visible: V,
    load: L,
) -> (result: Result<(), String>)
    requires
        save.requires((mode,)),
        mode == VisibleAppsMode::Auto ==> forall|saved: Result<(), String>| #[trigger]
            save.ensures((mode,), saved) && saved is Ok ==> apply_policy.requires(()),
        forall|notices: Vec<Text>| #[trigger]
            apply_policy.ensures((), Ok(notices)) ==> visible.requires(()),
        forall|shown: Vec<AppType>| #[trigger]
            visible.ensures((), shown) ==> may_leave(old(app).app_type, shown@, load),
    ensures
        sets_mode(
            (old(app)@, *old(data)),
            mode,
            save,
            apply_policy,
            visible,
            load,
            (final(app)@, *final(data)),
            result,
        ),
{
    let saved = save(mode);
    if let Err(error) = saved {
        return Err(error);
    }
    match mode {
        VisibleAppsMode::Manual => {
            visible_apps_mode_set_to_manual(app);
            Ok(())
        },
        VisibleAppsMode::Auto => {
            let applied = apply_policy();
            match applied {
                Err(error) => Err(error),
                Ok(notices) => {
                    let shown = visible();
                    visible_apps_mode_set_to_auto(app, data, notices, &shown, load)
                },
            }
        },
    }
}

/// The names of applications.
pub open spec fn names_of(apps: Seq<AppType>, names: AppNamesView) -> Seq<Seq<char>> {
    Seq::new(apps.len(), |i: int| names.of(apps[i]))
}

fn app_names(apps: &Vec<AppType>, names: &AppNames) -> (told: Vec<String>)
    ensures
        views(told@) == names_of(apps@, names@),
{
    let mut told: Vec<String> = Vec::new();
    let mut i: usize = 0;
    while i < apps.len()
        invariant
            i <= apps@.len(),
            told@.len() == i,
            forall|j: int| 0 <= j < i ==> (#[trigger] told@[j])@ == names@.of(apps@[j]),
        decreases apps@.len() - i,
    {
        told.push(names.of(&apps[i]).duplicate());
        i = i + 1;
    }
    assert(views(told@) =~= names_of(apps@, names@));
    told
}

/// What is told once the user was asked whether to find the visible
/// applications from what is installed: `changed` are those that this shows or
/// hides; nothing means that the user keeps to the choice by hand.
pub open spec fn detection_notice(app: AppView, changed: Option<Seq<AppType>>) -> AppView {
    match changed {
        None => app.told(
            ToastKind::Success,
            TextView::plain(TextKey::VisibleAppsModeSaved { automatic: false }),
        ),
        Some(changed) => if changed.len() > 0 {
            app.told(
                ToastKind::Info,
                TextView { key: TextKey::VisibleAppsNotice, args: names_of(changed, app.names) },
            )
        } else {
            app.told(
                ToastKind::Success,
                TextView::plain(TextKey::VisibleAppsModeSaved { automatic: true }),
            )
        },
    }
}

/// What an answer leads to, once it was saved: which applications are shown or
/// hidden that were not, if the user wants those that are installed.
pub open spec fn follows_answer<
    V: FnOnce() -> Vec<AppType>,
    L: FnOnce(AppType) -> Result<UiData, String>,
>(
    saved: Result<Option<Seq<AppType>>, String>,
    visible: V,
    load: L,
    before: (AppView, UiData),
    after: (AppView, UiData),
    result: Result<(), String>,
) -> bool {
    match saved {
        Err(error) => result == Err::<(), String>(error) && after == before,
        Ok(changed) => exists|shown: Vec<AppType>| #[trigger]
            visible.ensures((), shown) && leaves_hidden(
                (detection_notice(before.0, changed), before.1),
                shown@,
                load,
                after,
                result,
            ),
    }
}

fn show_detection<L: FnOnce(AppType) -> Result<UiData, String>>(
    app: &mut App,
    data: &mut UiData,
    changed: Option<Vec<AppType>>,
    visible: &Vec<AppType>,
    load: L,
) -> (result: Result<(), String>)
    requires
        may_leave(old(app).app_type, visible@, load),
    ensures
        leaves_hidden(
            (
                detection_notice(
                    old(app)@,
                    match changed {
                        Some(changed) => Some(changed@),
                        None => None,
                    },
                ),
                *old(data),
            ),
            visible@,
            load,
            (final(app)@, *final(data)),
            result,
        ),
{
    match changed {
        None => {
            visible_apps_mode_set_to_manual(app);
        },
        Some(changed) => {
            if changed.len() > 0 {
                app.push_toast(
                    Text::with_all(TextKey::VisibleAppsNotice, app_names(&changed, &app.names)),
                    ToastKind::Info,
                );
            } else {
                app.push_toast(
                    Text::plain(TextKey::VisibleAppsModeSaved { automatic: true }),
                    ToastKind::Success,
                );
            }
        },
    }
    switch_current_app_if_hidden(app, data, visible, load)
}

/// The user was asked whether the applications that are installed are shown from
/// now on, and answered.
pub fn confirm_visible_apps_auto_detection<
    A: FnOnce() -> Result<Vec<AppType>, String>,
    K: FnOnce() -> Result<(), String>,
    V: FnOnce() -> Vec<AppType>,
    L: FnOnce(AppType) -> Result<UiData, String>,
>(
    app: &mut App,
    data: &mut UiData,
    use_auto: bool,
    accept: A,
    keep_manual: K,
    visible: V,
    load: L,
) -> (result: Result<(), String>)
    requires
        use_auto ==> accept.requires(()),
        !use_auto ==> keep_manual.requires(()),
        use_auto ==> forall|changed: Vec<AppType>| #[trigger]
            accept.ensures((), Ok(changed)) ==> visible.requires(()),
        !use_auto ==> forall|kept: Result<(), String>| #[trigger]
            keep_manual.ensures((), kept) && kept is Ok ==> visible.requires(()),
        forall|shown: Vec<AppType>| #[trigger]
            visible.ensures((), shown) ==> may_leave(old(app).app_type, shown@, load),
    ensures
        use_auto ==> exists|accepted: Result<Vec<AppType>, String>|
            {
                &&& #[trigger] accept.ensures((), accepted)
                &&& follows_answer(
                    match accepted {
                        Ok(changed) => Ok(Some(changed@)),
                        Err(error) => Err(error),
                    },
                    visible,
                    load,
                    (old(app)@, *old(data)),
                    (final(app)@, *final(data)),
                    result,
                )
            },
        !use_auto ==> exists|kept: Result<(), String>|
            {
                &&& #[trigger] keep_manual.ensures((), kept)
                &&& follows_answer(
                    match kept {
                        Ok(()) => Ok(None),
                        Err(error) => Err(error),
                    },
                    visible,
                    load,
                    (old(app)@, *old(data)),
                    (final(app)@, *final(data)),
                    result,
                )
            },
{
    let changed = if use_auto {
        let accepted = accept();
        match accepted {
            Ok(changed) => Some(changed),
            Err(error) => {
                return Err(error);
            },
        }
    } else {
        let kept = keep_manual();
        match kept {
            Ok(()) => None,
            Err(error) => {
                return Err(error);
            },
        }
    };
    let shown = visible();
    show_detection(app, data, changed, &shown, load)
}

/// A choice that is not saved leaves the interface where it is, and the
/// interface never ends up at an application outside the choice that was saved.
pub proof fn unsaved_choices_change_nothing<
    L: FnOnce(AppType) -> Result<UiData, String>,
    S: FnOnce(Vec<AppType>) -> Result<(), String>,
>(
    before: (AppView, UiData),
    apps: Vec<AppType>,
    load: L,
    save: S,
    after: (AppView, UiData),
    result: Result<(), String>,
)
    requires
        chooses_visible(before, apps, load, save, after, result),
    ensures
        result is Err ==> after == before,
        result is Ok && apps@.len() > 0 ==> apps@.contains(after.0.app_type),
        apps@.len() == 0 ==> after.0.app_type == before.0.app_type && after.1 == before.1,
{
    next_is_visible(apps@, before.0.app_type);
}

// Managed accounts.

/// What a request to the worker of managed accounts does to the interface. A
/// refresh ends the waiting where there is no worker.
pub open spec fn auth_asked(app: AppView, link: Link, refresh: bool) -> AppView {
    match link {
        Link::Missing => AppView {
            managed_auth: ManagedAuthView {
                loading: app.managed_auth.loading && !refresh,
                ..app.managed_auth
            },
            ..app
        }.told(
            ToastKind::Warning,
            TextView::plain(TextKey::ManagedAuthWorkerUnavailable),
        ),
        Link::Closed => AppView {
            managed_auth: ManagedAuthView { loading: false, ..app.managed_auth },
            ..app
        }.told(
            ToastKind::Warning,
            TextView::with(TextKey::ManagedAuthRequestFailed, CHANNEL_CLOSED@),
        ),
        Link::Open => AppView {
            managed_auth: ManagedAuthView { loading: true, ..app.managed_auth },
            ..app
        },
    }
}

fn ask(app: &mut App, worker: &mut Outbox<ManagedAuthReq>, req: ManagedAuthReq, refresh: bool)
    ensures
        final(worker).link == old(worker).link,
        final(app)@ == auth_asked(old(app)@, old(worker).link, refresh),
        final(worker).sent@ == (if old(worker).link == Link::Open {
            old(worker).sent@.push(req)
        } else {
            old(worker).sent@
        }),
{
    if worker.is_missing() {
        if refresh {
            app.managed_auth.loading = false;
        }
        app.push_toast(Text::plain(TextKey::ManagedAuthWorkerUnavailable), ToastKind::Warning);
        return ;
    }
    app.managed_auth.loading = true;
    if !worker.send(req) {
        app.managed_auth.loading = false;
        app.push_toast(
            Text::with(TextKey::ManagedAuthRequestFailed, CHANNEL_CLOSED),
            ToastKind::Warning,
        );
    }
}

/// Asks for the accounts of a provider.
pub fn managed_auth_refresh(
    app: &mut App,
    worker: &mut Outbox<ManagedAuthReq>,
    auth_provider: String,
)
    ensures
        final(worker).link == old(worker).link,
        final(app)@ == auth_asked(old(app)@, old(worker).link, true),
        final(worker).sent@ == (if old(worker).link == Link::Open {
            old(worker).sent@.push(ManagedAuthReq::Refresh { auth_provider })
        } else {
            old(worker).sent@
        }),
{
    ask(app, worker, ManagedAuthReq::Refresh { auth_provider }, true);
}

/// Starts a login with a provider.
pub fn managed_auth_start_login(
    app: &mut App,
    worker: &mut Outbox<ManagedAuthReq>,
    auth_provider: String,
)
    ensures
        final(worker).link == old(worker).link,
        final(app)@ == auth_asked(old(app)@, old(worker).link, false),
        final(worker).sent@ == (if old(worker).link == Link::Open {
            old(worker).sent@.push(ManagedAuthReq::StartLogin { auth_provider })
        } else {
            old(worker).sent@
        }),
{
    ask(app, worker, ManagedAuthReq::StartLogin { auth_provider }, false);
}

/// Makes an account the one that is used.
pub fn managed_auth_set_default(
    app: &mut App,
    worker: &mut Outbox<ManagedAuthReq>,
    auth_provider: String,
    account_id: String,
)
    ensures
        final(worker).link == old(worker).link,
        final(app)@ == auth_asked(old(app)@, old(worker).link, false),
        final(worker).sent@ == (if old(worker).link == Link::Open {
            old(worker).sent@.push(ManagedAuthReq::SetDefault { auth_provider, account_id })
        } else {
            old(worker).sent@
        }),
{
    ask(app, worker, ManagedAuthReq::SetDefault { auth_provider, account_id }, false);
}

/// Removes an account.
pub fn managed_auth_remove(
    app: &mut App,
    worker: &mut Outbox<ManagedAuthReq>,
    auth_provider: String,
    account_id: String,
)
    ensures
        final(worker).link == old(worker).link,
        final(app)@ == auth_asked(old(app)@, old(worker).link, false),
        final(worker).sent@ == (if old(worker).link == Link::Open {
            old(worker).sent@.push(ManagedAuthReq::Remove { auth_provider, account_id })
        } else {
            old(worker).sent@
        }),
{
    ask(app, worker, ManagedAuthReq::Remove { auth_provider, account_id }, false);
}

} // verus!
