//! What the loop owes the user: input in order, frames in time, and nothing lost
//! at the start.

use vstd::prelude::*;

use crate::app::AppView;
use crate::app_type::AppType;
use crate::event_loop::{
    action_over, login_due, login_polled, poll_sent, refreshes_usage, without_worker, ActionError,
    LoopClock, WorkerKind,
};
use crate::frame::{
    frame_draw_wait, next_loop_timeout, tick_wait, FrameScheduler,
};
use crate::input::{
    DrainPhase, DrainStep, InputReader, Reduction, ScrollDirection, UiInput,
};
use crate::key::{
    is_initial_loading_quit_key, normalized, Event, KeyCode, KeyEvent, KeyEventKind, KeyModifiers,
    MouseEventKind,
};
use crate::managed_auth::{ManagedAuthReq, ManagedAuthView};
use crate::outbox::Link;
use crate::proxy::ProxyReq;
use crate::report_laws::notices;
use crate::request::RequestTracker;
use crate::route::{NavItem, Route};
use crate::settings::{first_visible, next_visible};
use crate::startup::{
    initial_app_type, preseeded, should_exit_after_initial_loading,
    should_poll_initial_loading_input, wants_quit, InitialLoading,
};
use crate::text::{TextKey, ToastKind};

verus! {

// Numbers of requests.

/// A request that is started is the one waited for, under the next number. What
/// is waited for is over once it is given up; an answer belongs to another
/// request where one is waited for and it is not its own.
pub proof fn requests_are_numbered(tracker: RequestTracker, id: u64)
    ensures
        tracker.seq < u64::MAX ==> tracker.started() == (RequestTracker {
            seq: (tracker.seq + 1) as u64,
            active: Some((tracker.seq + 1) as u64),
        }),
        tracker.started().active == Some(tracker.started().seq),
        tracker.started().seq != tracker.seq,
        tracker.idle() == (RequestTracker { seq: tracker.seq, active: None }),
        tracker.active is None ==> !tracker.superseded(id),
        tracker.active matches Some(active) ==> tracker.superseded(id) == (active != id),
{
}

// Keys.

/// Control with the letter H is Backspace, without Control and with the other
/// modifiers as they are; every other key is itself.
pub proof fn keys_stand_for(key: KeyEvent)
    ensures
        key.modifiers.control && key.code == KeyCode::Char('h') ==> {
            let meant = normalized(key);
            &&& meant.code == KeyCode::Backspace
            &&& meant.modifiers == (KeyModifiers { control: false, ..key.modifiers })
            &&& meant.kind == key.kind
        },
        !key.modifiers.control || key.code != KeyCode::Char('h') ==> normalized(key) == key,
{
}

/// While the first data is awaited, Q, Escape and Control with C quit, when they
/// are pressed.
pub proof fn keys_that_quit(key: KeyEvent, quits: bool)
    requires
        call_ensures(is_initial_loading_quit_key, (&key,), quits),
    ensures
        quits <==> key.code == KeyCode::Char('q') || key.code == KeyCode::Char('Q') || key.code
            == KeyCode::Esc || (key.code == KeyCode::Char('c') && key.modifiers.control),
        wants_quit(Event::Key(key)) <==> (quits && key.kind == KeyEventKind::Press),
        forall|event: Event| !(event is Key) ==> !#[trigger] wants_quit(event),
{
}

// Frames and ticks.

/// A frame is drawn where something changed: at once where none was drawn for a
/// sixtieth of a second, or ever, and else when that is over.
pub proof fn frames_are_drawn_in_time(dirty: bool, since: Option<u64>, wait: Option<u64>)
    requires
        call_ensures(frame_draw_wait, (dirty, since), wait),
    ensures
        wait is Some == dirty,
        dirty && since is None ==> wait == Some(0u64),
        dirty ==> (since matches Some(span) ==> {
            &&& span >= 16_667_000 ==> wait == Some(0u64)
            &&& span < 16_667_000 ==> wait->0 + span == 16_667_000
        }),
{
}

/// The loop waits for the next tick or the next frame, whichever comes first. A
/// tick comes a fifth of a second after the last.
pub proof fn the_loop_waits_for_the_next(
    tick: u64,
    frame: Option<u64>,
    timeout: u64,
    now: u64,
    last: u64,
    wait: u64,
)
    requires
        call_ensures(next_loop_timeout, (tick, frame), timeout),
        call_ensures(tick_wait, (now, last), wait),
    ensures
        timeout <= tick,
        frame matches Some(frame) ==> timeout <= frame && (timeout == tick || timeout == frame),
        frame is None ==> timeout == tick,
        now >= last && now - last < 200_000_000 ==> wait + (now - last) == 200_000_000,
        now >= last && now - last >= 200_000_000 ==> wait == 0,
        now < last ==> wait == 200_000_000,
{
}

/// A tick is due a fifth of a second after the last. Figures on screen are
/// refreshed two and a half seconds after the last time, while sessions are
/// being brought in step.
pub proof fn ticks_are_due(clock: LoopClock, sync: RequestTracker, app: AppView, now: u64)
    requires
        now >= clock.last_tick,
        now >= clock.last_usage_refresh,
    ensures
        clock.ticks(now) == (now - clock.last_tick >= 200_000_000),
        refreshes_usage(clock, sync, app, now) <==> {
            &&& sync.active is Some
            &&& app.route is Usage || app.route is UsageLogs || app.route is UsageLogDetail
            &&& now - clock.last_usage_refresh >= 2_500_000_000
        },
{
}

/// A frame that was drawn is due again only when something has changed.
pub proof fn frames_wait_for_changes(scheduler: FrameScheduler, now: u64)
    ensures
        scheduler.wait_at(now) is Some == scheduler.dirty,
        scheduler.dirty && scheduler.last_draw is None ==> scheduler.wait_at(now) == Some(0u64),
        scheduler.dirty ==> (scheduler.last_draw matches Some(last) ==> (now >= last ==> (
        scheduler.wait_at(now) == Some(0u64)) == (now - last >= 16_667_000))),
{
}

// Input.

/// A key that is pressed waits behind all input before it and ends a turn of the
/// wheel; keys that are let go, and other events, are nothing.
pub proof fn pressed_keys_are_input(state: Reduction, key: KeyEvent)
    ensures
        key.kind == KeyEventKind::Press ==> {
            let after = state.event(Event::Key(key));
            &&& after.pending == state.pending + seq![UiInput::Key(key)]
            &&& after.active is None
            &&& after.empty_since is None
            &&& after.next_id == state.next_id
        },
        key.kind != KeyEventKind::Press ==> state.event(Event::Key(key)) == state,
        state.event(Event::Other) == state,
{
    assert(state.pending.push(UiInput::Key(key)) =~= state.pending + seq![UiInput::Key(key)]);
}

/// The wheel goes up where it is turned up and down where it is turned down. A
/// step joins the input before it where that is the same turn in the same
/// direction, and else is an input of its own; a turn has one number until it
/// ends.
pub proof fn turns_of_the_wheel_are_input(state: Reduction, up: bool)
    requires
        state.valid(),
    ensures
        ({
            let direction = if up {
                ScrollDirection::Up
            } else {
                ScrollDirection::Down
            };
            let after = state.event(
                Event::Mouse(
                    if up {
                        MouseEventKind::ScrollUp
                    } else {
                        MouseEventKind::ScrollDown
                    },
                ),
            );
            let n = state.pending.len() as int;
            let joins = n > 0 && (state.pending[n - 1] matches UiInput::Wheel {
                direction: before,
                gesture,
                ..
            } && before == direction && state.active == Some(gesture));
            &&& after.active is Some
            &&& state.active is Some ==> after.active == state.active && after.next_id
                == state.next_id
            &&& state.active is None ==> (after.active->0).0 == state.next_id && after.next_id != 0
                && (state.next_id < u64::MAX ==> after.next_id == state.next_id + 1)
            &&& after.empty_since is None
            &&& joins ==> {
                &&& after.pending.len() == n
                &&& after.pending.take(n - 1) == state.pending.take(n - 1)
                &&& after.pending[n - 1] matches UiInput::Wheel { direction: way, steps, gesture }
                &&& way == direction
                &&& Some(gesture) == after.active
                &&& state.pending[n - 1]->Wheel_steps < u32::MAX ==> steps
                    == state.pending[n - 1]->Wheel_steps + 1
            }
            &&& !joins && (state.active is Some || n == 0 || !(state.pending[n - 1] is Wheel)
                || state.pending[n - 1]->Wheel_gesture.0 != state.next_id) ==> after.pending
                == state.pending + seq![
                UiInput::Wheel { direction, steps: 1, gesture: after.active->0 },
            ]
        }),
{
    let direction = if up {
        ScrollDirection::Up
    } else {
        ScrollDirection::Down
    };
    let after = state.wheel(direction);
    let n = state.pending.len() as int;
    if n > 0 {
        assert(after.pending.len() == n ==> after.pending.take(n - 1) =~= state.pending.take(
            n - 1,
        ));
    }
    let input = UiInput::Wheel { direction, steps: 1, gesture: after.active->0 };
    assert(state.pending.push(input) =~= state.pending + seq![input]);
}

/// The size of the window is the last one told: a size right before it is
/// dropped.
pub proof fn the_last_size_counts(state: Reduction, width: u16, height: u16)
    ensures
        ({
            let after = state.event(Event::Resize { width, height });
            let n = state.pending.len() as int;
            let kept = if n > 0 && state.pending[n - 1] is Resize {
                state.pending.take(n - 1)
            } else {
                state.pending
            };
            &&& after.pending == kept + seq![UiInput::Resize { width, height }]
            &&& after == (Reduction { pending: after.pending, ..state })
        }),
{
    let after = state.event(Event::Resize { width, height });
    let n = state.pending.len() as int;
    let kept = if n > 0 && state.pending[n - 1] is Resize {
        state.pending.take(n - 1)
    } else {
        state.pending
    };
    assert(after.pending =~= kept + seq![UiInput::Resize { width, height }]);
}

/// A turn of the wheel ends when the source was seen empty, and is seen empty
/// again at least a hundred and forty-five milliseconds later. Input in between
/// begins the wait anew.
pub proof fn turns_end_in_silence(state: Reduction, now: u64)
    ensures
        ({
            let after = state.seen_empty(now);
            let quiet = state.empty_since is Some && now >= state.empty_since->0 && now
                - state.empty_since->0 >= 145_000_000;
            &&& after.pending == state.pending
            &&& after.next_id == state.next_id
            &&& state.active is None || quiet ==> after.active is None && after.empty_since is None
            &&& state.active is Some && !quiet ==> after.active == state.active
            &&& state.active is Some && !quiet && state.empty_since is None ==> after.empty_since
                == Some(now)
            &&& state.active is Some && !quiet && state.empty_since is Some ==> after.empty_since
                == state.empty_since
            &&& state.closes_at(now) == (state.active is Some && quiet)
            &&& state.interrupted() == (Reduction { empty_since: None, ..state })
            &&& state.active is Some && state.empty_since is Some && state.empty_since->0
                + 145_000_000 <= u64::MAX ==> state.deadline() == Some(
                (state.empty_since->0 + 145_000_000) as u64,
            )
            &&& state.active is None || state.empty_since is None ==> state.deadline() is None
        }),
{
}

/// A pass reads while there is input, counting from none when it begins. It ends
/// where there is none, which is noted, or where it has reached its bounds, and
/// then more input may have come.
pub proof fn passes_end(
    reader: InputReader,
    available: bool,
    now: u64,
    after: InputReader,
    step: DrainStep,
)
    requires
        reader.polled(available, now, after, step),
        !(reader.phase is Reading),
    ensures
        ({
            let bound = reader.phase matches DrainPhase::Probing { bounded, .. } && bounded;
            &&& step is Read == (available && !bound)
            &&& !(step is Read) ==> step is Finish && after.phase is Idle
            &&& !available ==> after.reducer@ == reader.reducer@.seen_empty(now)
            &&& available && bound ==> after.reducer@ == (Reduction {
                empty_since: None,
                ..reader.reducer@
            })
            &&& step is Read ==> {
                &&& after.reducer@ == reader.reducer@
                &&& after.phase matches DrainPhase::Reading { started, drained }
                &&& reader.phase is Idle ==> started == now && drained == 0
                &&& reader.phase matches DrainPhase::Probing {
                    started: began,
                    drained: so_far,
                    ..
                } ==> started == began && drained == so_far
            }
        }),
{
}

/// An event that is read is reduced. A key that is pressed ends the pass; any
/// other event counts, and the pass is at its bounds when it has read as many as
/// it may, holds sixteen inputs or has taken its time.
pub proof fn events_are_read(
    reader: InputReader,
    event: Event,
    now: u64,
    after: InputReader,
    step: DrainStep,
)
    requires
        reader.valid(),
        reader.phase is Reading,
        now >= reader.phase->Reading_started,
        reader.read(event, now, after, step),
    ensures
        ({
            let pressed = event matches Event::Key(key) && key.kind == KeyEventKind::Press;
            let reduced = reader.reducer@.event(event);
            let read = reader.phase->Reading_drained + 1;
            &&& after.max_drain_events == reader.max_drain_events
            &&& after.drain_budget == reader.drain_budget
            &&& pressed ==> step is Finish && after.phase is Idle && after.reducer@ == (Reduction {
                empty_since: None,
                ..reduced
            })
            &&& !pressed ==> {
                &&& step is Probe
                &&& after.reducer@ == reduced
                &&& after.phase matches DrainPhase::Probing { started, drained, bounded }
                &&& started == reader.phase->Reading_started
                &&& drained == read
                &&& bounded == (read >= reader.max_drain_events || reduced.pending.len() >= 16
                    || now - started >= reader.drain_budget)
            }
        }),
{
}

// The start.

/// An application is the next visible one where it is the first behind another,
/// round the circle, that is visible.
pub open spec fn place_of(app: AppType) -> int {
    match app {
        AppType::Claude => 0,
        AppType::Codex => 1,
        AppType::Gemini => 2,
        AppType::OpenCode => 3,
        AppType::Hermes => 4,
        AppType::OpenClaw => 5,
    }
}

/// How many steps one application lies behind another, round the circle.
pub open spec fn steps_behind(from: AppType, to: AppType) -> int {
    let d = place_of(to) - place_of(from);
    if d > 0 {
        d
    } else {
        d + 6
    }
}

/// The next visible application is the nearest behind, round the circle, that is
/// visible; it comes back to itself only where no other is.
pub proof fn the_next_visible_is_nearest(visible: Seq<AppType>, current: AppType)
    ensures
        next_visible(visible, current) is None ==> forall|app: AppType| !#[trigger]
            visible.contains(app),
        next_visible(visible, current) matches Some(next) ==> {
            &&& visible.contains(next)
            &&& forall|app: AppType| #[trigger]
                visible.contains(app) ==> steps_behind(current, next) <= steps_behind(current, app)
        },
{
    reveal_with_fuel(first_visible, 8);
    assert forall|app: AppType| #[trigger] visible.contains(app) implies next_visible(
        visible,
        current,
    ) is Some && steps_behind(current, next_visible(visible, current)->0) <= steps_behind(
        current,
        app,
    ) by {}
}

/// The interface starts with the application asked for, or the first of all
/// where none is; if that is hidden, with the next visible one.
pub proof fn the_first_application(asked: Option<AppType>, visible: Seq<AppType>)
    ensures
        ({
            let wanted = match asked {
                Some(app) => app,
                None => AppType::Claude,
            };
            let first = initial_app_type(asked, visible);
            &&& visible.contains(wanted) ==> first == wanted
            &&& !visible.contains(wanted) && visible.len() > 0 ==> visible.contains(first)
            &&& !visible.contains(wanted) ==> forall|app: AppType| #[trigger]
                visible.contains(app) ==> steps_behind(wanted, first) <= steps_behind(wanted, app)
            &&& visible.len() == 0 ==> first == wanted
        }),
{
    let wanted = match asked {
        Some(app) => app,
        None => AppType::Claude,
    };
    the_next_visible_is_nearest(visible, wanted);
    if visible.len() > 0 {
        assert(visible.contains(visible[0]));
    }
}

/// The data of the first three applications is prepared at the start, where they
/// are visible and not shown; no other is.
pub proof fn prepared_applications(visible: Seq<AppType>, current: AppType, app: AppType)
    ensures
        preseeded(visible, current).contains(app) <==> {
            &&& visible.contains(app)
            &&& app != current
            &&& app is Claude || app is Codex || app is Gemini
        },
    decreases visible.len(),
{
    if visible.len() > 0 {
        let rest = visible.drop_last();
        prepared_applications(rest, current, app);
        let before = preseeded(rest, current);
        let all = preseeded(visible, current);
        if rest.contains(app) {
            let i = choose|i: int| 0 <= i < rest.len() && rest[i] == app;
            assert(visible[i] == app);
        }
        if before.contains(app) {
            let i = choose|i: int| 0 <= i < before.len() && before[i] == app;
            assert(all[i] == app);
        }
        if all.contains(app) {
            let i = choose|i: int| 0 <= i < all.len() && all[i] == app;
            if i < before.len() {
                assert(before[i] == app);
            }
        }
        if visible.contains(app) && !rest.contains(app) {
            let i = choose|i: int| 0 <= i < visible.len() && visible[i] == app;
            if i < rest.len() {
                assert(rest[i] == app);
            }
            if app != current && (app is Claude || app is Codex || app is Gemini) {
                assert(all[all.len() - 1] == app);
            }
        }
    }
}

/// An answer ends the wait where it brings the data or an error; only the data
/// counts as arrived. The wish to quit is kept.
pub proof fn the_wait_for_the_first_data_ends(
    before: InitialLoading,
    result: Result<bool, String>,
    after: InitialLoading,
    arrived: bool,
)
    requires
        before.after_answer(result, after, arrived),
    ensures
        arrived <==> result == Ok::<bool, String>(true),
        after.quit_requested == before.quit_requested,
        result == Ok::<bool, String>(false) ==> after.loading == before.loading && after.error
            == before.error,
        result == Ok::<bool, String>(true) ==> !after.loading && after.error == before.error,
        result matches Err(error) ==> !after.loading && after.error == Some(error),
{
}

/// The start waits while the data is awaited and nothing failed; then it ends the
/// program where the user wanted that and nothing failed, and else goes on.
pub proof fn the_start_goes_on(loading: InitialLoading, polls: bool, exits: bool)
    requires
        call_ensures(
            should_poll_initial_loading_input,
            (loading.loading, loading.error is Some),
            polls,
        ),
        call_ensures(
            should_exit_after_initial_loading,
            (loading.loading, loading.error is Some, loading.quit_requested),
            exits,
        ),
    ensures
        polls == (loading.loading && loading.error is None),
        exits == (!loading.loading && loading.error is None && loading.quit_requested),
        loading.next() is Wait == polls,
        loading.next() is Exit == exits,
        loading.next() is Proceed == (!polls && !exits),
{
}

// Workers.

/// A worker that cannot be had is told of under its own name, with the reason;
/// nothing is waited for from it.
pub proof fn missing_workers_are_told(before: AppView, worker: WorkerKind, error: Seq<char>)
    ensures
        ({
            let after = without_worker(before, worker, error);
            let tells = |key: TextKey| notices(after, ToastKind::Warning, key, seq![error]);
            &&& after == (AppView {
                toast: after.toast,
                local_env: after.local_env,
                managed_auth: after.managed_auth,
                ..before
            })
            &&& worker is Speedtest ==> tells(TextKey::SpeedtestUnavailable)
            &&& worker is StreamCheck ==> tells(TextKey::StreamCheckUnavailable)
            &&& worker is Skills ==> tells(TextKey::SkillsWorkerUnavailable)
            &&& worker is LocalEnv ==> tells(TextKey::LocalEnvCheckUnavailable)
            &&& worker is Sessions ==> tells(TextKey::SessionsWorkerUnavailable)
            &&& worker is Proxy ==> tells(TextKey::ProxyWorkerUnavailable)
            &&& worker is Quota ==> tells(TextKey::QuotaWorkerUnavailable)
            &&& worker is WebDav ==> tells(TextKey::WebDavWorkerUnavailable)
            &&& worker is Update ==> tells(TextKey::UpdateCheckFailed)
            &&& worker is ModelFetch ==> tells(TextKey::ModelFetchWorkerUnavailable)
            &&& worker is ManagedAuth ==> tells(TextKey::ManagedAuthWorkerUnavailable)
            &&& worker is AppData ==> notices(
                after,
                ToastKind::Warning,
                TextKey::Verbatim,
                seq!["App data worker unavailable: "@ + error],
            )
            &&& worker is UsagePricing ==> notices(
                after,
                ToastKind::Warning,
                TextKey::Verbatim,
                seq!["Usage/pricing worker unavailable: "@ + error],
            )
            &&& worker is SessionUsage ==> after == before
            &&& worker is LocalEnv ==> !after.local_env.loading
            &&& worker is ManagedAuth ==> !after.managed_auth.loading
            &&& !(worker is LocalEnv) ==> after.local_env == before.local_env
            &&& !(worker is ManagedAuth) ==> after.managed_auth == before.managed_auth
            &&& after.local_env.results == before.local_env.results
            &&& after.managed_auth.status == before.managed_auth.status
        }),
{
}

/// A login is checked on when its time has come, and then again an interval
/// later; the check names the service and the code of the login.
pub proof fn logins_are_checked_on(
    before: AppView,
    link: Link,
    sent: Seq<ManagedAuthReq>,
    sent_after: Seq<ManagedAuthReq>,
)
    requires
        poll_sent(before, link, sent, sent_after),
    ensures
        ({
            let due = before.managed_auth.login is Some && before.tick
                >= before.managed_auth.login->0.next_poll_tick;
            let login = before.managed_auth.login->0;
            let after = login_polled(before, link);
            &&& login_due(before) == due
            &&& !due ==> after == before
            &&& !due || link != Link::Open ==> sent_after == sent
            &&& due && link == Link::Open ==> {
                &&& sent_after.len() == sent.len() + 1
                &&& sent_after.drop_last() == sent
                &&& sent_after.last() matches ManagedAuthReq::PollLogin {
                    auth_provider,
                    device_code,
                }
                &&& auth_provider@ == login.auth_provider
                &&& device_code@ == login.device_code
            }
            &&& due ==> {
                &&& after == (AppView {
                    managed_auth: after.managed_auth,
                    toast: after.toast,
                    ..before
                })
                &&& after.managed_auth == (ManagedAuthView {
                    login: after.managed_auth.login,
                    ..before.managed_auth
                })
                &&& after.managed_auth.login matches Some(next)
                &&& next.auth_provider == login.auth_provider
                &&& next.device_code == login.device_code
                &&& next.expires_at_tick == login.expires_at_tick
                &&& next.poll_interval_ticks == login.poll_interval_ticks
                &&& login.poll_interval_ticks > 0 && before.tick + login.poll_interval_ticks
                    <= u64::MAX ==> next.next_poll_tick == before.tick + login.poll_interval_ticks
                &&& login.poll_interval_ticks == 0 && before.tick < u64::MAX
                    ==> next.next_poll_tick == before.tick + 1
                &&& link != Link::Closed ==> after.toast == before.toast
                &&& link == Link::Closed ==> {
                    &&& after.toast matches Some(toast)
                    &&& toast.kind == ToastKind::Warning
                    &&& toast.message.key == TextKey::ManagedAuthRequestFailed
                }
            }
        }),
{
}

/// An action that failed is told, and only a failure of the terminal ends the
/// program. Where another application was turned to, the state of its proxy is
/// asked for, whatever was waited for before.
pub proof fn actions_end(
    before: (AppView, RequestTracker, Seq<ProxyReq>),
    link: Link,
    app_before: AppType,
    result: Result<(), ActionError>,
    after: (AppView, RequestTracker, Seq<ProxyReq>),
    fatal: Option<String>,
)
    requires
        action_over(before, link, app_before, result, after, fatal),
    ensures
        fatal is Some <==> (result is Err && result->Err_0 is Terminal),
        result matches Err(ActionError::Terminal(error)) ==> fatal == Some(error) && after
            == before,
        result matches Err(ActionError::Other(error)) ==> {
            &&& notices(after.0, ToastKind::Error, TextKey::Verbatim, seq![error@])
            &&& after.0 == (AppView { toast: after.0.toast, ..before.0 })
            &&& after.1 == before.1
            &&& after.2 == before.2
        },
        result is Ok ==> after.0 == before.0,
        result is Ok && app_before == before.0.app_type ==> after == before,
        result is Ok && app_before != before.0.app_type ==> {
            &&& link == Link::Open ==> after.1.active == Some(after.1.seq) && after.2 == before.2
                + seq![
                ProxyReq::RefreshSnapshot { request_id: after.1.seq, app_type: before.0.app_type },
            ]
            &&& link != Link::Open ==> after.1.active is None && after.2 == before.2
        },
{
    if result is Ok && app_before != before.0.app_type && link == Link::Open {
        let req = ProxyReq::RefreshSnapshot {
            request_id: after.1.seq,
            app_type: before.0.app_type,
        };
        assert(before.2.push(req) =~= before.2 + seq![req]);
    }
}

// Pages.

/// Every entry of the navigation leads to the page of its name; the last leads
/// out.
pub proof fn entries_lead_to_their_pages()
    ensures
        NavItem::Main.target() == Some(Route::Main),
        NavItem::Providers.target() == Some(Route::Providers),
        NavItem::Usage.target() == Some(Route::Usage),
        NavItem::Sessions.target() == Some(Route::Sessions),
        NavItem::Mcp.target() == Some(Route::Mcp),
        NavItem::Prompts.target() == Some(Route::Prompts),
        NavItem::HermesMemory.target() == Some(Route::HermesMemory),
        NavItem::Config.target() == Some(Route::Config),
        NavItem::Skills.target() == Some(Route::Skills),
        NavItem::OpenClawWorkspace.target() == Some(Route::ConfigOpenClawWorkspace),
        NavItem::OpenClawEnv.target() == Some(Route::ConfigOpenClawEnv),
        NavItem::OpenClawTools.target() == Some(Route::ConfigOpenClawTools),
        NavItem::OpenClawAgents.target() == Some(Route::ConfigOpenClawAgents),
        NavItem::Settings.target() == Some(Route::Settings),
        NavItem::Exit.target() is None,
{
}

/// The entries of the navigation, top to bottom: those that all applications
/// share, with the pages that two of them have of their own.
pub proof fn entries_stand_in_their_order(app: AppType)
    ensures
        app is OpenClaw ==> NavItem::column(app) =~= seq![
            NavItem::Main,
            NavItem::Providers,
            NavItem::Sessions,
            NavItem::OpenClawWorkspace,
            NavItem::OpenClawEnv,
            NavItem::OpenClawTools,
            NavItem::OpenClawAgents,
            NavItem::Usage,
            NavItem::Config,
            NavItem::Settings,
            NavItem::Exit,
        ],
        app is Hermes ==> NavItem::column(app) =~= seq![
            NavItem::Main,
            NavItem::Providers,
            NavItem::Mcp,
            NavItem::Skills,
            NavItem::Sessions,
            NavItem::HermesMemory,
            NavItem::Usage,
            NavItem::Config,
            NavItem::Settings,
            NavItem::Exit,
        ],
        !(app is OpenClaw) && !(app is Hermes) ==> NavItem::column(app) =~= seq![
            NavItem::Main,
            NavItem::Providers,
            NavItem::Mcp,
            NavItem::Skills,
            NavItem::Sessions,
            NavItem::Prompts,
            NavItem::Usage,
            NavItem::Config,
            NavItem::Settings,
            NavItem::Exit,
        ],
{
}

} // verus!
