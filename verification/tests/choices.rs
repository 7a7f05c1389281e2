use std::cell::{Cell, RefCell};

use cc_switch_tui::app::{App, Overlay};
use cc_switch_tui::app_type::{AppNames, AppType};
use cc_switch_tui::data::UiData;
use cc_switch_tui::managed_auth::ManagedAuthReq;
use cc_switch_tui::outbox::{Link, Outbox};
use cc_switch_tui::settings::{
    confirm_visible_apps_auto_detection, enable_proxy_and_auto_failover, managed_auth_refresh,
    managed_auth_remove, managed_auth_set_default, managed_auth_start_login, next_visible_app,
    set_openclaw_config_dir, set_proxy_auto_failover, set_proxy_enabled,
    set_proxy_listen_address, set_proxy_listen_port, set_visible_apps_mode, set_visible_apps_with,
    switch_current_app_if_hidden, switch_visible_apps_to_manual, VisibleAppsMode,
};
use cc_switch_tui::text::{Text, TextKey, ToastKind};

fn new_app(app_type: Option<AppType>) -> App {
    let name = |app_type: AppType| format!("{app_type:?}").to_lowercase();
    let names = AppNames {
        claude: name(AppType::Claude),
        codex: name(AppType::Codex),
        gemini: name(AppType::Gemini),
        open_code: name(AppType::OpenCode),
        hermes: name(AppType::Hermes),
        open_claw: name(AppType::OpenClaw),
    };
    App::new(app_type, names)
}

/// The name that the first application is stored under.
fn claude() -> String {
    format!("{:?}", AppType::Claude).to_lowercase()
}

fn told(app: &App) -> (TextKey, ToastKind) {
    let toast = app.toast.as_ref().expect("a notice is shown");
    (toast.message.key, toast.kind)
}

fn data_of(current_id: &str) -> UiData {
    let mut data = UiData::empty();
    data.providers.current_id = current_id.to_string();
    data
}

#[test]
fn the_proxy_is_switched_and_the_data_read_again() {
    let mut app = new_app(Some(AppType::Codex));
    let mut data = UiData::empty();
    let saved = Cell::new(None);
    set_proxy_enabled(
        &mut app,
        &mut data,
        true,
        |app_type, enabled| {
            saved.set(Some((app_type, enabled)));
            Ok(())
        },
        |_| Ok(data_of("fresh")),
    )
    .expect("the proxy is switched");
    assert_eq!(saved.get(), Some((AppType::Codex, true)));
    assert_eq!(data.providers.current_id, "fresh");
    assert_eq!(
        told(&app),
        (
            TextKey::LocalProxySwitched { enabled: true },
            ToastKind::Success
        )
    );
}

#[test]
fn an_address_is_not_changed_under_a_running_proxy() {
    let mut app = new_app(None);
    let mut data = UiData::empty();
    let saved = Cell::new(false);
    let save = |_address: String| {
        saved.set(true);
        Ok(())
    };
    set_proxy_listen_address(
        &mut app,
        &mut data,
        true,
        "127.0.0.1".to_string(),
        save,
        |_| Ok(UiData::empty()),
    )
    .expect("the refusal is only told");
    assert!(!saved.get());
    assert_eq!(
        told(&app),
        (
            TextKey::ProxySettingsStopProxyBeforeEditAddress,
            ToastKind::Info
        )
    );
    set_proxy_listen_address(
        &mut app,
        &mut data,
        false,
        "127.0.0.1".to_string(),
        save,
        |_| Ok(UiData::empty()),
    )
    .expect("the address is saved");
    assert!(saved.get());
}

#[test]
fn a_port_is_not_changed_under_a_routed_app() {
    let mut app = new_app(Some(AppType::Codex));
    let mut data = UiData::empty();
    let saved = Cell::new(None);
    let save = |_app_type: AppType, port: u16| {
        saved.set(Some(port));
        Ok(())
    };
    set_proxy_listen_port(
        &mut app,
        &mut data,
        &vec!["codex".to_string()],
        8080,
        save,
        |_| Ok(UiData::empty()),
    )
    .expect("the refusal is only told");
    assert_eq!(saved.get(), None);
    assert_eq!(
        told(&app).0,
        TextKey::ProxySettingsStopAppRouteBeforeEditPort
    );
    set_proxy_listen_port(
        &mut app,
        &mut data,
        &vec![claude()],
        8080,
        save,
        |_| Ok(UiData::empty()),
    )
    .expect("another app's route does not matter");
    assert_eq!(saved.get(), Some(8080));
    assert_eq!(told(&app).0, TextKey::ProxySettingsSaved);
}

#[test]
fn failover_waits_until_everything_is_ready() {
    let mut app = new_app(None);
    let mut data = UiData::empty();
    let error = set_proxy_auto_failover(
        &mut app,
        &mut data,
        AppType::Claude,
        true,
        |_| Err("queue is empty".to_string()),
        |_, _| Ok(()),
        |_| Ok(UiData::empty()),
    )
    .expect_err("nothing to fall back on");
    assert_eq!(error, "queue is empty");
    assert!(app.toast.is_none());

    set_proxy_auto_failover(
        &mut app,
        &mut data,
        AppType::Claude,
        false,
        |_| Err("queue is empty".to_string()),
        |_, _| Ok(()),
        |_| Ok(UiData::empty()),
    )
    .expect("switching off needs nothing");
    assert_eq!(
        told(&app).0,
        TextKey::AutoFailoverSwitched { enabled: false }
    );

    enable_proxy_and_auto_failover(
        &mut app,
        &mut data,
        AppType::Claude,
        |_| Ok(()),
        |_| Ok(()),
        |_| Ok(UiData::empty()),
    )
    .expect("both are switched on");
    assert_eq!(told(&app).0, TextKey::ProxyAndAutoFailoverEnabled);
}

#[test]
fn a_new_openclaw_directory_says_what_was_synced() {
    let mut app = new_app(Some(AppType::OpenClaw));
    let mut data = UiData::empty();
    let chosen = Cell::new(None);
    let set = |app: &mut App, data: &mut UiData, syncs: bool, synced: Result<(), String>| {
        set_openclaw_config_dir(
            app,
            data,
            Some("/tmp/wsl-openclaw".to_string()),
            syncs,
            |path| {
                chosen.set(path);
                Ok(())
            },
            || Ok(7),
            |state| {
                assert_eq!(state, 7);
                synced
            },
            |_app_type| Ok(UiData::empty()),
        )
        .expect("saved")
    };
    set(&mut app, &mut data, true, Ok(()));
    assert_eq!(
        told(&app),
        (TextKey::OpenClawConfigDirSaved, ToastKind::Success)
    );
    assert_eq!(chosen.take().as_deref(), Some("/tmp/wsl-openclaw"));
    set(&mut app, &mut data, false, Err("not asked".to_string()));
    assert_eq!(
        told(&app),
        (TextKey::OpenClawConfigDirSyncSkipped, ToastKind::Warning)
    );
    set(&mut app, &mut data, true, Err("denied".to_string()));
    assert_eq!(
        told(&app),
        (TextKey::OpenClawConfigDirSyncFailed, ToastKind::Warning)
    );
}

#[test]
fn a_directory_that_is_not_saved_changes_nothing() {
    let mut app = new_app(Some(AppType::OpenClaw));
    let mut data = data_of("shown");
    let result = set_openclaw_config_dir(
        &mut app,
        &mut data,
        None,
        true,
        |_path| Err("read-only".to_string()),
        || Ok(()),
        |_state| Ok(()),
        |_app_type| Ok(UiData::empty()),
    );
    assert_eq!(result, Err("read-only".to_string()));
    assert!(app.toast.is_none());
    assert_eq!(data.providers.current_id, "shown");
}

#[test]
fn an_empty_choice_is_not_taken() {
    let mut app = new_app(Some(AppType::Claude));
    let mut data = data_of("shown");
    set_visible_apps_with(
        &mut app,
        &mut data,
        vec![],
        |_| Err("not read".to_string()),
        |_| Err("not saved".to_string()),
    )
    .expect("an empty choice is only warned of");
    assert_eq!(
        told(&app),
        (TextKey::VisibleAppsZeroSelection, ToastKind::Warning)
    );
    assert_eq!(data.providers.current_id, "shown");
}

#[test]
fn hiding_the_current_app_moves_on_to_the_next() {
    let mut app = new_app(Some(AppType::Gemini));
    let mut data = data_of("shown");
    let saved = RefCell::new(vec![]);
    set_visible_apps_with(
        &mut app,
        &mut data,
        vec![AppType::Claude, AppType::OpenClaw],
        |next| {
            assert_eq!(next, AppType::OpenClaw);
            Ok(data_of("next"))
        },
        |apps| {
            saved.replace(apps);
            Ok(())
        },
    )
    .expect("the choice is saved");
    assert_eq!(app.app_type, AppType::OpenClaw);
    assert_eq!(data.providers.current_id, "next");
    assert_eq!(
        saved.into_inner(),
        vec![AppType::Claude, AppType::OpenClaw]
    );
    assert_eq!(
        told(&app),
        (TextKey::VisibleAppsSaved, ToastKind::Success)
    );
}

#[test]
fn a_choice_that_cannot_be_saved_changes_nothing() {
    let mut app = new_app(Some(AppType::Gemini));
    let mut data = data_of("shown");
    let error = set_visible_apps_with(
        &mut app,
        &mut data,
        vec![AppType::Claude],
        |_| Ok(data_of("next")),
        |_| Err("read-only".to_string()),
    )
    .expect_err("nothing can be saved");
    assert_eq!(error, "read-only");
    assert_eq!(app.app_type, AppType::Gemini);
    assert_eq!(data.providers.current_id, "shown");
    assert!(app.toast.is_none());
}

#[test]
fn a_manual_choice_comes_back_to_the_picker() {
    let mut app = new_app(Some(AppType::Gemini));
    let mut data = UiData::empty();
    let _ = switch_visible_apps_to_manual(
        &mut app,
        &mut data,
        vec![AppType::Claude],
        3,
        |_| Err("not read".to_string()),
        |_| Ok(()),
        || vec![AppType::Gemini],
    )
    .expect_err("the next app cannot be read");
    match &app.overlay {
        Overlay::VisibleAppsPicker { selected, apps } => {
            assert_eq!(*selected, 3);
            assert_eq!(*apps, vec![AppType::Gemini]);
        }
        other => panic!("expected the picker, got {other:?}"),
    }
}

#[test]
fn a_hidden_app_is_left() {
    let mut app = new_app(Some(AppType::Claude));
    let mut data = UiData::empty();
    switch_current_app_if_hidden(&mut app, &mut data, &vec![AppType::Hermes], |_| {
        Ok(data_of("hermes"))
    })
    .expect("the next app is read");
    assert_eq!(app.app_type, AppType::Hermes);
    assert_eq!(data.providers.current_id, "hermes");
    switch_current_app_if_hidden(&mut app, &mut data, &vec![], |_| {
        Err("not read".to_string())
    })
    .expect("there is nowhere to go");
    assert_eq!(app.app_type, AppType::Hermes);
}

#[test]
fn a_new_way_of_choosing_is_told_unless_it_changed_something() {
    let mut app = new_app(Some(AppType::Claude));
    let mut data = UiData::empty();
    let choose = |app: &mut App, data: &mut UiData, mode: VisibleAppsMode, notices: Vec<Text>| {
        set_visible_apps_mode(
            app,
            data,
            mode,
            |_mode| Ok(()),
            || Ok(notices),
            || vec![AppType::Claude],
            |_| Ok(UiData::empty()),
        )
        .expect("saved")
    };
    choose(&mut app, &mut data, VisibleAppsMode::Manual, vec![]);
    assert_eq!(
        told(&app).0,
        TextKey::VisibleAppsModeSaved { automatic: false }
    );
    choose(&mut app, &mut data, VisibleAppsMode::Auto, vec![]);
    assert_eq!(
        told(&app),
        (
            TextKey::VisibleAppsModeSaved { automatic: true },
            ToastKind::Success
        )
    );
    choose(
        &mut app,
        &mut data,
        VisibleAppsMode::Auto,
        vec![Text::verbatim("Codex is shown now")],
    );
    assert_eq!(told(&app), (TextKey::Verbatim, ToastKind::Info));
}

#[test]
fn an_application_that_is_hidden_by_the_policy_is_left() {
    let mut app = new_app(Some(AppType::Claude));
    let mut data = data_of("shown");
    set_visible_apps_mode(
        &mut app,
        &mut data,
        VisibleAppsMode::Auto,
        |_mode| Ok(()),
        || Ok(vec![]),
        || vec![AppType::Codex],
        |next| Ok(data_of(&format!("{next:?}").to_lowercase())),
    )
    .expect("saved");
    assert_eq!(app.app_type, AppType::Codex);
    assert_eq!(data.providers.current_id, "codex");

    let refused = set_visible_apps_mode(
        &mut app,
        &mut data,
        VisibleAppsMode::Auto,
        |_mode| Err("read-only".to_string()),
        || Ok(vec![]),
        || vec![AppType::Gemini],
        |next| Ok(data_of(&format!("{next:?}").to_lowercase())),
    );
    assert_eq!(refused, Err("read-only".to_string()));
    assert_eq!(app.app_type, AppType::Codex);
}

#[test]
fn the_answer_about_installed_applications_is_kept() {
    let mut app = new_app(Some(AppType::Claude));
    let mut data = UiData::empty();
    let answer = |app: &mut App, data: &mut UiData, use_auto: bool| {
        confirm_visible_apps_auto_detection(
            app,
            data,
            use_auto,
            || Ok(vec![AppType::Codex]),
            || Err("read-only".to_string()),
            || vec![AppType::Claude],
            |_| Ok(UiData::empty()),
        )
    };
    assert_eq!(answer(&mut app, &mut data, true), Ok(()));
    let toast = app.toast.as_ref().expect("the change is told");
    assert_eq!(toast.message.key, TextKey::VisibleAppsNotice);
    assert_eq!(toast.message.args, vec!["codex".to_string()]);
    assert_eq!(
        answer(&mut app, &mut data, false),
        Err("read-only".to_string())
    );
}

#[test]
fn the_next_visible_app_follows_the_order() {
    let visible = vec![AppType::Hermes, AppType::Codex];
    assert_eq!(
        next_visible_app(&visible, &AppType::Claude),
        Some(AppType::Codex)
    );
    assert_eq!(
        next_visible_app(&visible, &AppType::Codex),
        Some(AppType::Hermes)
    );
    assert_eq!(
        next_visible_app(&visible, &AppType::OpenClaw),
        Some(AppType::Codex)
    );
    assert_eq!(next_visible_app(&vec![], &AppType::Codex), None);
}

#[test]
fn account_requests_reach_their_worker() {
    let mut app = new_app(None);
    let mut worker = Outbox::new(Link::Open);
    managed_auth_refresh(&mut app, &mut worker, "codex".to_string());
    managed_auth_start_login(&mut app, &mut worker, "codex".to_string());
    managed_auth_set_default(&mut app, &mut worker, "codex".to_string(), "1".to_string());
    managed_auth_remove(&mut app, &mut worker, "codex".to_string(), "2".to_string());
    assert!(app.managed_auth.loading);
    assert!(matches!(
        worker.sent.as_slice(),
        [
            ManagedAuthReq::Refresh { .. },
            ManagedAuthReq::StartLogin { .. },
            ManagedAuthReq::SetDefault { account_id: first, .. },
            ManagedAuthReq::Remove { account_id: second, .. },
        ] if first == "1" && second == "2"
    ));

    let mut missing = Outbox::new(Link::Missing);
    managed_auth_start_login(&mut app, &mut missing, "codex".to_string());
    assert!(app.managed_auth.loading, "a login that runs is still waited for");
    managed_auth_refresh(&mut app, &mut missing, "codex".to_string());
    assert!(!app.managed_auth.loading);
    assert_eq!(
        told(&app),
        (TextKey::ManagedAuthWorkerUnavailable, ToastKind::Warning)
    );

    let mut closed = Outbox::new(Link::Closed);
    managed_auth_remove(&mut app, &mut closed, "codex".to_string(), "2".to_string());
    assert!(!app.managed_auth.loading);
    assert_eq!(told(&app).0, TextKey::ManagedAuthRequestFailed);
}
