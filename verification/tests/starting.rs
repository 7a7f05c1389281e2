use std::cell::Cell;

use cc_switch_tui::app::{ConfirmAction, Overlay};
use cc_switch_tui::app_type::{AppNames, AppType};
use cc_switch_tui::data::UiData;
use cc_switch_tui::key::{
    is_initial_loading_quit_key, Event, KeyCode, KeyEvent, KeyEventKind, KeyModifiers,
    MouseEventKind,
};
use cc_switch_tui::startup::{
    initial_loading_event_requests_quit, initialize_app_shell, initialize_app_state_with,
    preseed_apps, record_initial_loading_quit_event, resolve_initial_app_type,
    should_exit_after_initial_loading, should_poll_initial_loading_input, InitialDrain,
    InitialLoading, InitialStep, VisibleAppsStartup, INITIAL_DRAIN_MAX_EVENTS,
    INITIAL_DRAIN_TIME_BUDGET,
};
use cc_switch_tui::text::{Text, TextKey, ToastKind};

fn names() -> AppNames {
    let name = |app_type: AppType| format!("{app_type:?}").to_lowercase();
    AppNames {
        claude: name(AppType::Claude),
        codex: name(AppType::Codex),
        gemini: name(AppType::Gemini),
        open_code: name(AppType::OpenCode),
        hermes: name(AppType::Hermes),
        open_claw: name(AppType::OpenClaw),
    }
}

fn press(code: KeyCode) -> KeyEvent {
    KeyEvent::new(code, KeyModifiers::none())
}

fn quiet() -> VisibleAppsStartup {
    VisibleAppsStartup {
        should_prompt: false,
        notices: vec![],
    }
}

#[test]
fn initial_loading_input_polling_stops_after_success_or_failure() {
    assert!(should_poll_initial_loading_input(true, false));
    assert!(!should_poll_initial_loading_input(false, false));
    assert!(!should_poll_initial_loading_input(true, true));
    assert!(!should_poll_initial_loading_input(false, true));
}

#[test]
fn initial_loading_quit_waits_for_success_and_never_hides_error() {
    assert!(!should_exit_after_initial_loading(true, false, true));
    assert!(!should_exit_after_initial_loading(false, true, true));
    assert!(!should_exit_after_initial_loading(false, false, false));
    assert!(should_exit_after_initial_loading(false, false, true));
}

#[test]
fn initial_loading_only_accepts_quit_keys() {
    assert!(is_initial_loading_quit_key(&press(KeyCode::Char('q'))));
    assert!(is_initial_loading_quit_key(&press(KeyCode::Char('Q'))));
    assert!(is_initial_loading_quit_key(&press(KeyCode::Esc)));
    assert!(is_initial_loading_quit_key(&KeyEvent::new(
        KeyCode::Char('c'),
        KeyModifiers::control(),
    )));
    assert!(!is_initial_loading_quit_key(&press(KeyCode::Char('1'))));
    assert!(!is_initial_loading_quit_key(&press(KeyCode::Enter)));
    assert!(!is_initial_loading_quit_key(&press(KeyCode::Char('c'))));
}

#[test]
fn initial_loading_event_quit_detection_only_uses_pressed_quit_keys() {
    let pressed_quit = Event::Key(press(KeyCode::Esc));
    assert!(initial_loading_event_requests_quit(&pressed_quit));

    let mut released_quit = press(KeyCode::Esc);
    released_quit.kind = KeyEventKind::Release;
    assert!(!initial_loading_event_requests_quit(&Event::Key(
        released_quit
    )));

    assert!(!initial_loading_event_requests_quit(&Event::Mouse(
        MouseEventKind::ScrollDown
    )));
}

#[test]
fn initial_loading_quit_recording_ignores_non_quit_events() {
    let mut quit_requested = false;

    record_initial_loading_quit_event(
        &mut quit_requested,
        &Event::Key(press(KeyCode::Char('1'))),
    );
    assert!(!quit_requested);

    record_initial_loading_quit_event(
        &mut quit_requested,
        &Event::Key(press(KeyCode::Char('q'))),
    );
    assert!(quit_requested);
}

#[test]
fn startup_hidden_requested_app_bootstrap_uses_visible_app_normalization_before_loading_data() {
    let visible = vec![
        AppType::Claude,
        AppType::Codex,
        AppType::OpenCode,
        AppType::OpenClaw,
    ];

    let loaded_app_type = Cell::new(None);
    let (app, _data) = initialize_app_state_with(
        Some(AppType::Gemini),
        names(),
        &visible,
        quiet(),
        false,
        false,
        |app_type| {
            loaded_app_type.set(Some(app_type));
            Ok(UiData::empty())
        },
    )
    .expect("bootstrap app state");

    assert_eq!(loaded_app_type.get(), Some(AppType::OpenCode));
    assert_eq!(app.app_type, AppType::OpenCode);
}

#[test]
fn startup_reads_persisted_common_config_notice_confirmation() {
    let (app, _data) = initialize_app_state_with(
        Some(AppType::Claude),
        names(),
        &vec![AppType::Claude],
        quiet(),
        true,
        false,
        |_| Ok(UiData::empty()),
    )
    .expect("bootstrap app state");

    assert!(app.common_config_notice_confirmed);
}

#[test]
fn data_that_cannot_be_read_stops_the_start() {
    let error = initialize_app_state_with(
        None,
        names(),
        &vec![AppType::Claude],
        quiet(),
        false,
        false,
        |_| Err("no database".to_string()),
    )
    .expect_err("the data cannot be read");
    assert_eq!(error, "no database");
}

#[test]
fn the_first_app_wraps_around_to_a_visible_one() {
    assert_eq!(resolve_initial_app_type(None, &vec![]), AppType::Claude);
    assert_eq!(
        resolve_initial_app_type(Some(AppType::OpenClaw), &vec![AppType::Codex]),
        AppType::Codex
    );
    assert_eq!(
        resolve_initial_app_type(Some(AppType::Hermes), &vec![AppType::Hermes]),
        AppType::Hermes
    );
}

#[test]
fn the_shell_asks_and_tells() {
    let app = initialize_app_shell(
        None,
        names(),
        &vec![AppType::Claude],
        VisibleAppsStartup {
            should_prompt: true,
            notices: vec![Text::verbatim("first"), Text::verbatim("last")],
        },
        false,
        true,
    );
    assert!(matches!(
        &app.overlay,
        Overlay::Confirm(confirm) if confirm.action == ConfirmAction::VisibleAppsAutoDetection
    ));
    let toast = app.toast.as_ref().expect("notices are shown");
    assert_eq!(toast.kind, ToastKind::Info);
    assert_eq!(toast.message.key, TextKey::Verbatim);
    assert_eq!(toast.message.args, vec!["last".to_string()]);
    assert!(app.usage_query_notice_confirmed);
}

#[test]
fn only_cheap_visible_apps_are_prepared() {
    let visible = vec![
        AppType::Claude,
        AppType::Codex,
        AppType::OpenCode,
        AppType::Gemini,
    ];
    assert_eq!(
        preseed_apps(&visible, &AppType::Codex),
        vec![AppType::Claude, AppType::Gemini]
    );
}

#[test]
fn piled_up_events_are_looked_at_within_limits() {
    let mut drain = InitialDrain::new();
    assert!(drain.goes_on(0));
    assert!(!drain.goes_on(INITIAL_DRAIN_TIME_BUDGET));
    for _ in 0..INITIAL_DRAIN_MAX_EVENTS {
        drain.take(&Event::Other);
    }
    assert!(!drain.goes_on(0));
    assert!(!drain.quit_requested);
    drain.take(&Event::Key(press(KeyCode::Esc)));
    assert!(drain.quit_requested);
}

#[test]
fn a_wish_to_quit_waits_for_the_data() {
    let mut loading = InitialLoading::start(Ok(()));
    let mut drain = InitialDrain::new();
    drain.take(&Event::Key(press(KeyCode::Char('q'))));
    loading.drained(&drain);
    assert_eq!(loading.step(), InitialStep::Wait);
    assert!(!loading.answered(Ok(false)));
    assert_eq!(loading.step(), InitialStep::Wait);
    assert!(loading.answered(Ok(true)));
    assert_eq!(loading.step(), InitialStep::Exit);

    let mut failing = InitialLoading::start(Ok(()));
    failing.drained(&drain);
    assert!(!failing.answered(Err("boom".to_string())));
    assert_eq!(failing.step(), InitialStep::Proceed);
    assert_eq!(failing.error.as_deref(), Some("boom"));

    let refused = InitialLoading::start(Err("no worker".to_string()));
    assert_eq!(refused.step(), InitialStep::Proceed);
}
