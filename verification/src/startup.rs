//! Starting the interface: which application it shows first, and what a key does
//! while the first data is still being read.

use vstd::prelude::*;

use crate::app::{App, AppView, ConfirmAction, ConfirmOverlay, Overlay, OverlayView};
use crate::app_type::{is_lightweight_preseed_app, lightweight_preseed, AppNames, AppNamesView, AppType};

use crate::base::views;
use crate::data::UiData;
use crate::key::{
    is_initial_loading_quit_key, normalize_key_event, normalized, quits_initial_loading, Event,
    KeyEventKind,
};
use crate::settings::{is_listed, next_visible, next_visible_app, noticed};
use crate::text::{Text, TextKey, TextView, ToastKind};

verus! {

/// The application that is shown first: the one that was asked for, or the next
/// visible one if it is hidden.
pub open spec fn initial_app_type(asked: Option<AppType>, visible: Seq<AppType>) -> AppType {
    let requested = match asked {
        Some(app_type) => app_type,
        None => AppType::Claude,
    };
    if visible.contains(requested) {
        requested
    } else {
        match next_visible(visible, requested) {
            Some(next) => next,
            None => requested,
        }
    }
}

pub fn resolve_initial_app_type(app_override: Option<AppType>, visible: &Vec<AppType>) -> (app_type:
    AppType)
    ensures
        app_type == initial_app_type(app_override, visible@),
{
    let requested = match app_override {
        Some(app_type) => app_type,
        None => AppType::Claude,
    };
    if is_listed(visible, &requested) {
        return requested;
    }
    match next_visible_app(visible, &requested) {
        Some(next) => next,
        None => requested,
    }
}

/// What was found out of the visible applications when the interface started.
#[derive(Debug)]
pub struct VisibleAppsStartup {
    /// Whether the user is asked how they are to be chosen.
    pub should_prompt: bool,
    pub notices: Vec<Text>,
}

/// The question how the visible applications are to be chosen.
pub open spec fn detection_prompt() -> OverlayView {
    OverlayView::Confirm {
        title: TextView::plain(TextKey::VisibleAppsDetectionTitle),
        message: TextView::plain(TextKey::VisibleAppsDetectionMessage),
        action: ConfirmAction::VisibleAppsAutoDetection,
    }
}

/// The interface before any data was read.
pub open spec fn shell(
    app_type: AppType,
    names: AppNamesView,
    startup: VisibleAppsStartup,
    common_config_confirmed: bool,
    usage_confirmed: bool,
) -> AppView {
    noticed(
        AppView {
            common_config_notice_confirmed: common_config_confirmed,
            usage_query_notice_confirmed: usage_confirmed,
            overlay: if startup.should_prompt {
                detection_prompt()
            } else {
                OverlayView::Absent
            },
            ..AppView::fresh(app_type, names)
        },
        views(startup.notices@),
    )
}

/// Sets the interface up before any data is read.
pub fn initialize_app_shell(
    app_override: Option<AppType>,
    names: AppNames,
    visible: &Vec<AppType>,
    startup: VisibleAppsStartup,
    common_config_confirmed: bool,
    usage_confirmed: bool,
) -> (app: App)
    ensures
        app@ == shell(
            initial_app_type(app_override, visible@),
            names@,
            startup,
            common_config_confirmed,
            usage_confirmed,
        ),
{
    let mut app = App::new(Some(resolve_initial_app_type(app_override, visible)), names);
    app.common_config_notice_confirmed = common_config_confirmed;
    app.usage_query_notice_confirmed = usage_confirmed;
    if startup.should_prompt {
        app.overlay = Overlay::Confirm(
            ConfirmOverlay {
                title: Text::plain(TextKey::VisibleAppsDetectionTitle),
                message: Text::plain(TextKey::VisibleAppsDetectionMessage),
                action: ConfirmAction::VisibleAppsAutoDetection,
            },
        );
    }
    let mut notices = startup.notices;
    let ghost all = notices@;
    match notices.pop() {
        Some(last) => {
            assert(views(all).last() == last@);
            app.push_toast(last, ToastKind::Info);
        },
        None => {},
    }
    app
}

/// Sets the interface up, and reads the data of the application that it shows.
pub fn initialize_app_state_with<L: FnOnce(AppType) -> Result<UiData, String>>(
    app_override: Option<AppType>,
    names: AppNames,
    visible: &Vec<AppType>,
    startup: VisibleAppsStartup,
    common_config_confirmed: bool,
    usage_confirmed: bool,
    load: L,
) -> (result: Result<(App, UiData), String>)
    requires
        load.requires((initial_app_type(app_override, visible@),)),
    ensures
        exists|loaded: Result<UiData, String>|
            {
                &&& #[trigger] load.ensures((initial_app_type(app_override, visible@),), loaded)
                &&& match (loaded, result) {
                    (Ok(data), Ok((app, shown))) => shown == data && app@ == shell(
                        initial_app_type(app_override, visible@),
                        names@,
                        startup,
                        common_config_confirmed,
                        usage_confirmed,
                    ),
                    (Err(error), Err(told)) => told == error,
                    _ => false,
                }
            },
{
    let app = initialize_app_shell(
        app_override,
        names,
        visible,
        startup,
        common_config_confirmed,
        usage_confirmed,
    );
    let loaded = load(app.app_type);
    match loaded {
        Ok(data) => Ok((app, data)),
        Err(error) => Err(error),
    }
}

/// The applications besides the current one whose data is read along with it:
/// the visible ones that it costs little for.
pub open spec fn preseeded(visible: Seq<AppType>, current: AppType) -> Seq<AppType>
    decreases visible.len(),
{
    if visible.len() == 0 {
        Seq::empty()
    } else {
        let before = preseeded(visible.drop_last(), current);
        if visible.last() != current && lightweight_preseed(visible.last()) {
            before.push(visible.last())
        } else {
            before
        }
    }
}

pub fn preseed_apps(visible: &Vec<AppType>, current: &AppType) -> (apps: Vec<AppType>)
    ensures
        apps@ == preseeded(visible@, *current),
{
    let mut apps: Vec<AppType> = Vec::new();
    let mut i: usize = 0;
    while i < visible.len()
        invariant
            i <= visible@.len(),
            apps@ == preseeded(visible@.take(i as int), *current),
        decreases visible@.len() - i,
    {
        assert(visible@.take(i + 1).drop_last() =~= visible@.take(i as int));
        assert(visible@.take(i + 1).last() == visible@[i as int]);
        if visible[i] != *current && is_lightweight_preseed_app(&visible[i]) {
            apps.push(visible[i]);
        }
        i = i + 1;
    }
    assert(visible@.take(i as int) =~= visible@);
    apps
}

/// Nothing that takes long is read before the interface is shown.
pub proof fn startup_reads_little(visible: Seq<AppType>, current: AppType, i: int)
    requires
        0 <= i < preseeded(visible, current).len(),
    ensures
        lightweight_preseed(preseeded(visible, current)[i]),
        preseeded(visible, current)[i] != current,
        visible.contains(preseeded(visible, current)[i]),
    decreases visible.len(),
{
    let before = preseeded(visible.drop_last(), current);
    if i < before.len() {
        startup_reads_little(visible.drop_last(), current, i);
        let at = choose|at: int|
            0 <= at < visible.drop_last().len() && visible.drop_last()[at] == before[i];
        assert(visible[at] == before[i]);
    } else {
        assert(visible.last() == preseeded(visible, current)[i]);
    }
}

// While the first data is read.

/// Whether an event is the user's wish to quit.
pub open spec fn wants_quit(event: Event) -> bool {
    event matches Event::Key(key) && key.kind == KeyEventKind::Press && quits_initial_loading(
        normalized(key),
    )
}

pub fn initial_loading_event_requests_quit(event: &Event) -> (quits: bool)
    ensures
        quits == wants_quit(*event),
{
    match event {
        Event::Key(key) => match key.kind {
            KeyEventKind::Press => is_initial_loading_quit_key(&normalize_key_event(*key)),
            _ => false,
        },
        _ => false,
    }
}

/// A wish to quit is kept, whatever is pressed afterwards.
pub fn record_initial_loading_quit_event(quit_requested: &mut bool, event: &Event)
    ensures
        *final(quit_requested) == (*old(quit_requested) || wants_quit(*event)),
{
    if initial_loading_event_requests_quit(event) {
        *quit_requested = true;
    }
}

/// How many of the events that have piled up are looked at in one go.
pub const INITIAL_DRAIN_MAX_EVENTS: usize = 256;

/// How long they are looked at, in nanoseconds.
pub const INITIAL_DRAIN_TIME_BUDGET: u64 = 4_000_000;

/// Looking through the events that have piled up while the data was read.
#[derive(Debug, Clone, Copy, PartialEq, Eq, Structural)]
pub struct InitialDrain {
    pub drained: usize,
    pub quit_requested: bool,
}

impl InitialDrain {
    pub fn new() -> (drain: InitialDrain)
        ensures
            drain == (InitialDrain { drained: 0, quit_requested: false }),
    {
        InitialDrain { drained: 0, quit_requested: false }
    }

    /// Whether another event may be looked at.
    pub fn goes_on(&self, elapsed: u64) -> (result: bool)
        ensures
            result == (self.drained < INITIAL_DRAIN_MAX_EVENTS && elapsed
                < INITIAL_DRAIN_TIME_BUDGET),
    {
        self.drained < INITIAL_DRAIN_MAX_EVENTS && elapsed < INITIAL_DRAIN_TIME_BUDGET
    }

    pub fn take(&mut self, event: &Event)
        ensures
            final(self).quit_requested == (old(self).quit_requested || wants_quit(*event)),
            final(self).drained == (if old(self).drained < usize::MAX {
                old(self).drained + 1
            } else {
                old(self).drained as int
            }),
    {
        record_initial_loading_quit_event(&mut self.quit_requested, event);
        self.drained = self.drained.saturating_add(1);
    }
}

pub fn should_poll_initial_loading_input(
    initial_data_loading: bool,
    has_initial_data_error: bool,
) -> (polls: bool)
    ensures
        polls == (initial_data_loading && !has_initial_data_error),
{
    initial_data_loading && !has_initial_data_error
}

pub fn should_exit_after_initial_loading(
    initial_data_loading: bool,
    has_initial_data_error: bool,
    quit_requested: bool,
) -> (exits: bool)
    ensures
        exits == (!initial_data_loading && !has_initial_data_error && quit_requested),
{
    !initial_data_loading && !has_initial_data_error && quit_requested
}

/// How far the first data is.
#[derive(Debug)]
pub struct InitialLoading {
    pub loading: bool,
    pub error: Option<String>,
    pub quit_requested: bool,
}

/// What the interface does next while the first data is read.
#[derive(Debug, Clone, Copy, PartialEq, Eq, Structural)]
pub enum InitialStep {
    /// Wait for keys and for data.
    Wait,
    /// Leave: the user wanted to, and the data is there.
    Exit,
    /// Go on: the data is there, or cannot be read.
    Proceed,
}

impl InitialLoading {
    /// The data was asked for.
    pub fn start(asked: Result<(), String>) -> (loading: InitialLoading)
        ensures
            loading.loading == (asked is Ok),
            loading.error == (match asked {
                Ok(()) => None,
                Err(error) => Some(error),
            }),
            !loading.quit_requested,
    {
        match asked {
            Ok(()) => InitialLoading { loading: true, error: None, quit_requested: false },
            Err(error) => InitialLoading {
                loading: false,
                error: Some(error),
                quit_requested: false,
            },
        }
    }

    /// What an answer leads to.
    pub open spec fn after_answer(self, result: Result<bool, String>, after: Self, arrived: bool) -> bool {
        &&& arrived == (result == Ok::<bool, String>(true))
        &&& after.quit_requested == self.quit_requested
        &&& after.loading == (self.loading && result == Ok::<bool, String>(false))
        &&& after.error == (match result {
            Ok(_) => self.error,
            Err(error) => Some(error),
        })
    }

    /// Answers have been looked through; `Ok(true)` means that the data is
    /// there. The result says whether that is so from now on.
    pub fn answered(&mut self, result: Result<bool, String>) -> (arrived: bool)
        ensures
            old(self).after_answer(result, *final(self), arrived),
    {
        match result {
            Ok(arrived) => {
                if arrived {
                    self.loading = false;
                }
                arrived
            },
            Err(error) => {
                self.loading = false;
                self.error = Some(error);
                false
            },
        }
    }

    /// Keys were looked through.
    pub fn drained(&mut self, drain: &InitialDrain)
        ensures
            *final(self) == (InitialLoading {
                quit_requested: old(self).quit_requested || drain.quit_requested,
                ..*old(self)
            }),
    {
        if drain.quit_requested {
            self.quit_requested = true;
        }
    }

    pub open spec fn next(self) -> InitialStep {
        if self.loading && self.error is None {
            InitialStep::Wait
        } else if !self.loading && self.error is None && self.quit_requested {
            InitialStep::Exit
        } else {
            InitialStep::Proceed
        }
    }

    pub fn step(&self) -> (step: InitialStep)
        ensures
            step == self.next(),
    {
        if should_poll_initial_loading_input(self.loading, self.error.is_some()) {
            InitialStep::Wait
        } else if should_exit_after_initial_loading(
            self.loading,
            self.error.is_some(),
            self.quit_requested,
        ) {
            InitialStep::Exit
        } else {
            InitialStep::Proceed
        }
    }
}

/// A wish to quit waits until the data is there, and never hides that it could
/// not be read.
pub proof fn quitting_never_hides_an_error(loading: InitialLoading)
    ensures
        loading.error is Some ==> loading.next() == InitialStep::Proceed,
        loading.loading && loading.error is None ==> loading.next() == InitialStep::Wait,
        loading.next() == InitialStep::Exit ==> !loading.loading && loading.error is None
            && loading.quit_requested,
{
}

} // verus!
