//! The state of the interface itself: what is on the screen and what it waits
//! for.

use vstd::prelude::*;

use crate::app_type::{AppNames, AppNamesView, AppType};
use crate::base::{opt_view, views};
use crate::chars::{lowercase, text_lowercase};
use crate::local_env::{LocalEnv, LocalEnvView};
use crate::managed_auth::{ManagedAuth, ManagedAuthView};
use crate::offset::{byte_len, lemma_offset_ends, lemma_offset_monotonic};
use crate::route::Route;
use crate::sessions::{SessionsState, SessionsView};
use crate::skills::{DiscoveryView, SkillsDiscovery};
use crate::text::{Text, TextView, Toast, ToastKind, ToastView};
use crate::text_edit::{trim, trimmed, TextInput};
use crate::usage::{PagerView, UsageRangePreset, UsageUi, UsageUiView};

verus! {

/// What a loading overlay waits for.
#[derive(Debug, Clone, Copy, PartialEq, Eq, Structural)]
pub enum LoadingKind {
    Generic,
    Proxy,
    WebDav,
    UpdateCheck,
}

/// What happens once a question is answered with yes.
#[derive(Debug, Clone, Copy, PartialEq, Eq, Structural)]
pub enum ConfirmAction {
    VisibleAppsAutoDetection,
    WebDavMigrateV1ToV2,
    ManagedAuthCancelLogin,
    Other,
}

#[derive(Debug)]
pub struct ConfirmOverlay {
    pub title: Text,
    pub message: Text,
    pub action: ConfirmAction,
}

/// What lies over the current screen. Overlays that nothing here looks into
/// are `Other`.
#[derive(Debug)]
pub enum Overlay {
    Absent,
    Other,
    Loading { kind: LoadingKind, title: Text, message: Text },
    Confirm(ConfirmOverlay),
    StreamCheckRunning { provider_id: String, provider_name: String },
    StreamCheckResult { provider_name: String, lines: Vec<Text>, scroll: usize },
    SpeedtestRunning { url: String },
    SpeedtestResult { url: String, lines: Vec<Text>, scroll: usize },
    ModelFetchPicker {
        request_id: u64,
        field: ModelField,
        claude_idx: Option<usize>,
        fetching: bool,
        models: Vec<String>,
        error: Option<Text>,
    },
    UpdateAvailable { current: String, latest: String, selected: usize },
    UpdateDownloading { downloaded: u64, total: Option<u64> },
    UpdateResult { success: bool, message: Text },
    VisibleAppsPicker { selected: usize, apps: Vec<AppType> },
}

/// What lies over the current screen.
#[verifier::ext_equal]
pub enum OverlayView {
    Absent,
    Other,
    Loading { kind: LoadingKind, title: TextView, message: TextView },
    Confirm { title: TextView, message: TextView, action: ConfirmAction },
    StreamCheckRunning { provider_id: Seq<char>, provider_name: Seq<char> },
    StreamCheckResult { provider_name: Seq<char>, lines: Seq<TextView>, scroll: usize },
    SpeedtestRunning { url: Seq<char> },
    SpeedtestResult { url: Seq<char>, lines: Seq<TextView>, scroll: usize },
    ModelFetchPicker {
        request_id: u64,
        field: ModelField,
        claude_idx: Option<usize>,
        fetching: bool,
        models: Seq<Seq<char>>,
        error: Option<TextView>,
    },
    UpdateAvailable { current: Seq<char>, latest: Seq<char>, selected: usize },
    UpdateDownloading { downloaded: u64, total: Option<u64> },
    UpdateResult { success: bool, message: TextView },
    VisibleAppsPicker { selected: usize, apps: Seq<AppType> },
}

impl View for Overlay {
    type V = OverlayView;

    open spec fn view(&self) -> OverlayView {
        match *self {
            Overlay::Absent => OverlayView::Absent,
            Overlay::Other => OverlayView::Other,
            Overlay::Loading { kind, title, message } => OverlayView::Loading {
                kind,
                title: title@,
                message: message@,
            },
            Overlay::Confirm(confirm) => OverlayView::Confirm {
                title: confirm.title@,
                message: confirm.message@,
                action: confirm.action,
            },
            Overlay::StreamCheckRunning { provider_id, provider_name } => {
                OverlayView::StreamCheckRunning {
                    provider_id: provider_id@,
                    provider_name: provider_name@,
                }
            },
            Overlay::StreamCheckResult { provider_name, lines, scroll } => {
                OverlayView::StreamCheckResult {
                    provider_name: provider_name@,
                    lines: views(lines@),
                    scroll,
                }
            },
            Overlay::SpeedtestRunning { url } => OverlayView::SpeedtestRunning { url: url@ },
            Overlay::SpeedtestResult { url, lines, scroll } => OverlayView::SpeedtestResult {
                url: url@,
                lines: views(lines@),
                scroll,
            },
            Overlay::ModelFetchPicker {
                request_id,
                field,
                claude_idx,
                fetching,
                models,
                error,
            } => OverlayView::ModelFetchPicker {
                request_id,
                field,
                claude_idx,
                fetching,
                models: views(models@),
                error: opt_view(error),
            },
            Overlay::UpdateAvailable { current, latest, selected } => OverlayView::UpdateAvailable {
                current: current@,
                latest: latest@,
                selected,
            },
            Overlay::UpdateDownloading { downloaded, total } => OverlayView::UpdateDownloading {
                downloaded,
                total,
            },
            Overlay::UpdateResult { success, message } => OverlayView::UpdateResult {
                success,
                message: message@,
            },
            Overlay::VisibleAppsPicker { selected, apps } => OverlayView::VisibleAppsPicker {
                selected,
                apps: apps@,
            },
        }
    }
}

/// The form field that a list of models is fetched for.
#[derive(Debug, Clone, Copy, PartialEq, Eq, Structural)]
pub enum ModelField {
    CodexModel,
    GeminiModel,
    ClaudeModelConfig,
    OpenCodeModel,
    HermesModels,
    OpenClawModels,
}

/// A change of the proxy indicator.
#[derive(Debug, Clone, Copy, PartialEq, Eq, Structural)]
pub struct ProxyVisualTransition {
    pub from_on: bool,
    pub to_on: bool,
    pub started_tick: u64,
}

/// What the proxy indicator shows: its last state, the change under way, the
/// token counts last seen, and how many tokens the last sight of them added.
#[derive(Debug, Clone, Copy, PartialEq, Eq, Structural)]
pub struct ProxyIndicator {
    pub visual_state: Option<bool>,
    pub transition: Option<ProxyVisualTransition>,
    pub last_input_tokens: Option<u64>,
    pub last_output_tokens: Option<u64>,
    pub input_activity: u64,
    pub output_activity: u64,
}

/// How far a total has grown since it was last seen. A total seen for the first
/// time has not grown, nor has one that started over.
pub open spec fn growth(last: Option<u64>, total: u64) -> u64 {
    match last {
        Some(last) if last < total => (total - last) as u64,
        _ => 0,
    }
}

fn total_growth(last: Option<u64>, total: u64) -> (grown: u64)
    ensures
        grown == growth(last, total),
{
    match last {
        Some(last) => if last < total {
            total - last
        } else {
            0
        },
        None => 0,
    }
}

impl ProxyIndicator {
    /// Nothing has been seen of the proxy.
    pub open spec fn blank() -> ProxyIndicator {
        ProxyIndicator {
            visual_state: None,
            transition: None,
            last_input_tokens: None,
            last_output_tokens: None,
            input_activity: 0,
            output_activity: 0,
        }
    }

    /// Counting of proxy traffic starts over from these totals.
    pub open spec fn counting_from(self, input: u64, output: u64) -> ProxyIndicator {
        ProxyIndicator {
            last_input_tokens: Some(input),
            last_output_tokens: Some(output),
            input_activity: 0,
            output_activity: 0,
            ..self
        }
    }

    /// The totals have been seen: traffic is what they have grown by since.
    pub open spec fn observing(self, input: u64, output: u64) -> ProxyIndicator {
        ProxyIndicator {
            last_input_tokens: Some(input),
            last_output_tokens: Some(output),
            input_activity: growth(self.last_input_tokens, input),
            output_activity: growth(self.last_output_tokens, output),
            ..self
        }
    }

    /// The indicator after the proxy was seen on or off. The first sight is no
    /// change.
    pub open spec fn seeing(self, on: bool, tick: u64) -> ProxyIndicator {
        match self.visual_state {
            None => ProxyIndicator { visual_state: Some(on), ..self },
            Some(was_on) => if was_on == on {
                self
            } else {
                ProxyIndicator {
                    visual_state: Some(on),
                    transition: Some(
                        ProxyVisualTransition { from_on: was_on, to_on: on, started_tick: tick },
                    ),
                    ..self
                }
            },
        }
    }
}

/// What has to be done on the screens once the data shown has changed.
#[derive(Debug, Clone, Copy, PartialEq, Eq, Structural)]
pub struct ViewRequests {
    /// Bring selections back within the lists they belong to.
    pub clamp_selections: bool,
    /// Offer to import a prompt that was found.
    pub prompt_import_candidate: bool,
}

impl ViewRequests {
    pub open spec fn clamping(self) -> ViewRequests {
        ViewRequests { clamp_selections: true, ..self }
    }

    pub open spec fn prompting(self) -> ViewRequests {
        ViewRequests { clamp_selections: true, prompt_import_candidate: true }
    }
}

/// The text by which the current list is narrowed down.
#[derive(Debug)]
pub struct FilterState {
    pub input: TextInput,
}

/// The text of a filter, and the byte that its cursor lies in front of.
#[verifier::ext_equal]
pub struct FilterView {
    pub text: Seq<char>,
    pub cursor: usize,
}

impl View for FilterState {
    type V = FilterView;

    open spec fn view(&self) -> FilterView {
        FilterView { text: self.input.value@, cursor: self.input.cursor }
    }
}

/// What a filter asks for, in lower case; a blank one asks for nothing.
pub open spec fn filter_query(filter: Seq<char>) -> Option<Seq<char>> {
    if trimmed(filter).len() == 0 {
        None
    } else {
        Some(text_lowercase(trimmed(filter)))
    }
}

impl FilterState {
    pub fn query_lower(&self) -> (query: Option<String>)
        ensures
            opt_view(query) == filter_query(self@.text),
    {
        let text = trim(self.input.value.as_str());
        if byte_len(text) == 0 {
            proof {
                lemma_offset_ends(text@);
                if text@.len() > 0 {
                    lemma_offset_monotonic(text@, 0, text@.len() as int);
                }
            }
            None
        } else {
            proof {
                lemma_offset_ends(text@);
            }
            Some(lowercase(text))
        }
    }
}

/// The size of the terminal, in cells.
#[derive(Debug, Clone, Copy, PartialEq, Eq, Structural)]
pub struct TerminalSize {
    pub width: u16,
    pub height: u16,
}

/// The state of the interface.
#[derive(Debug)]
pub struct App {
    pub app_type: AppType,
    pub names: AppNames,
    pub route: Route,
    pub last_size: TerminalSize,
    pub tick: u64,
    pub should_quit: bool,
    pub overlay: Overlay,
    pub toast: Option<Toast>,
    pub view_requests: ViewRequests,
    pub usage: UsageUi,
    pub quota_auto_target_key: Option<String>,
    pub quota_last_auto_tick: Option<u64>,
    pub proxy: ProxyIndicator,
    pub common_config_notice_confirmed: bool,
    pub usage_query_notice_confirmed: bool,
    pub sessions: SessionsState,
    pub filter: FilterState,
    /// The search that is started next.
    pub pending_deep_search: Option<String>,
    pub managed_auth: ManagedAuth,
    pub skills: SkillsDiscovery,
    pub local_env: LocalEnv,
}

/// The state of the interface.
pub struct AppView {
    pub app_type: AppType,
    pub names: AppNamesView,
    pub route: Route,
    pub last_size: TerminalSize,
    pub tick: u64,
    pub should_quit: bool,
    pub overlay: OverlayView,
    pub toast: Option<ToastView>,
    pub view_requests: ViewRequests,
    pub usage: UsageUiView,
    pub quota_auto_target_key: Option<Seq<char>>,
    pub quota_last_auto_tick: Option<u64>,
    pub proxy: ProxyIndicator,
    pub common_config_notice_confirmed: bool,
    pub usage_query_notice_confirmed: bool,
    pub sessions: SessionsView,
    pub filter: FilterView,
    pub pending_deep_search: Option<Seq<char>>,
    pub managed_auth: ManagedAuthView,
    pub skills: DiscoveryView,
    pub local_env: LocalEnvView,
}

impl View for App {
    type V = AppView;

    open spec fn view(&self) -> AppView {
        AppView {
            app_type: self.app_type,
            names: self.names@,
            route: self.route,
            last_size: self.last_size,
            tick: self.tick,
            should_quit: self.should_quit,
            overlay: self.overlay@,
            toast: opt_view(self.toast),
            view_requests: self.view_requests,
            usage: self.usage@,
            quota_auto_target_key: opt_view(self.quota_auto_target_key),
            quota_last_auto_tick: self.quota_last_auto_tick,
            proxy: self.proxy,
            common_config_notice_confirmed: self.common_config_notice_confirmed,
            usage_query_notice_confirmed: self.usage_query_notice_confirmed,
            sessions: self.sessions@,
            filter: self.filter@,
            pending_deep_search: opt_view(self.pending_deep_search),
            managed_auth: self.managed_auth@,
            skills: self.skills@,
            local_env: self.local_env@,
        }
    }
}

impl AppView {
    /// The interface at the start.
    pub open spec fn fresh(app_type: AppType, names: AppNamesView) -> AppView {
        AppView {
            app_type,
            names,
            route: Route::Main,
            last_size: TerminalSize { width: 0, height: 0 },
            tick: 0,
            should_quit: false,
            overlay: OverlayView::Absent,
            toast: None,
            view_requests: ViewRequests {
                clamp_selections: false,
                prompt_import_candidate: false,
            },
            usage: UsageUiView {
                range: UsageRangePreset::SevenDays,
                loading: Map::empty(),
                pager: PagerView::nothing(),
                detail_request: None,
                detail: None,
            },
            quota_auto_target_key: None,
            quota_last_auto_tick: None,
            proxy: ProxyIndicator::blank(),
            common_config_notice_confirmed: false,
            usage_query_notice_confirmed: false,
            sessions: SessionsView::nothing(),
            filter: FilterView { text: Seq::empty(), cursor: 0 },
            pending_deep_search: None,
            managed_auth: ManagedAuthView::nothing(),
            skills: DiscoveryView::nothing(),
            local_env: LocalEnvView::nothing(),
        }
    }

    /// A notice has been shown.
    pub open spec fn told(self, kind: ToastKind, message: TextView) -> AppView {
        AppView { toast: Some(ToastView { message, kind, persistent: false }), ..self }
    }
}

impl App {
    /// The interface at the start, with an application chosen.
    pub fn new(app_type: Option<AppType>, names: AppNames) -> (app: App)
        ensures
            app@ == AppView::fresh(
                match app_type {
                    Some(app_type) => app_type,
                    None => AppType::Claude,
                },
                names@,
            ),
    {
        App {
            app_type: match app_type {
                Some(app_type) => app_type,
                None => AppType::Claude,
            },
            names,
            route: Route::Main,
            last_size: TerminalSize { width: 0, height: 0 },
            tick: 0,
            should_quit: false,
            overlay: Overlay::Absent,
            toast: None,
            view_requests: ViewRequests {
                clamp_selections: false,
                prompt_import_candidate: false,
            },
            usage: UsageUi::new(),
            quota_auto_target_key: None,
            quota_last_auto_tick: None,
            proxy: ProxyIndicator {
                visual_state: None,
                transition: None,
                last_input_tokens: None,
                last_output_tokens: None,
                input_activity: 0,
                output_activity: 0,
            },
            common_config_notice_confirmed: false,
            usage_query_notice_confirmed: false,
            sessions: SessionsState::new(),
            filter: FilterState { input: TextInput::default() },
            pending_deep_search: None,
            managed_auth: ManagedAuth::new(),
            skills: SkillsDiscovery::new(),
            local_env: LocalEnv::new(),
        }
    }

    /// Shows a notice in place of the one that is shown.
    pub fn push_toast(&mut self, message: Text, kind: ToastKind)
        ensures
            final(self)@ == old(self)@.told(kind, message@),
            *final(self) == (App { toast: final(self).toast, ..*old(self) }),
    {
        self.toast = Some(Toast { message, kind, persistent: false });
    }

    /// Shows a notice that stays.
    pub fn push_persistent_toast(&mut self, message: Text, kind: ToastKind)
        ensures
            *final(self) == (App { toast: final(self).toast, ..*old(self) }),
            final(self).toast matches Some(t) && t@ == (ToastView {
                message: message@,
                kind,
                persistent: true,
            }),
    {
        self.toast = Some(Toast { message, kind, persistent: true });
    }

    pub fn reset_proxy_activity(&mut self, input: u64, output: u64)
        ensures
            *final(self) == (App {
                proxy: old(self).proxy.counting_from(input, output),
                ..*old(self)
            }),
    {
        self.proxy.last_input_tokens = Some(input);
        self.proxy.last_output_tokens = Some(output);
        self.proxy.input_activity = 0;
        self.proxy.output_activity = 0;
    }

    /// The token totals of the proxy have been seen.
    pub fn observe_proxy_token_activity(&mut self, input: u64, output: u64)
        ensures
            *final(self) == (App {
                proxy: old(self).proxy.observing(input, output),
                ..*old(self)
            }),
    {
        self.proxy.input_activity = total_growth(self.proxy.last_input_tokens, input);
        self.proxy.output_activity = total_growth(self.proxy.last_output_tokens, output);
        self.proxy.last_input_tokens = Some(input);
        self.proxy.last_output_tokens = Some(output);
    }

    pub fn observe_proxy_visual_state(&mut self, on: bool)
        ensures
            *final(self) == (App {
                proxy: old(self).proxy.seeing(on, old(self).tick),
                ..*old(self)
            }),
    {
        match self.proxy.visual_state {
            None => {
                self.proxy.visual_state = Some(on);
            },
            Some(was_on) => {
                if was_on != on {
                    self.proxy.visual_state = Some(on);
                    self.proxy.transition = Some(
                        ProxyVisualTransition {
                            from_on: was_on,
                            to_on: on,
                            started_tick: self.tick,
                        },
                    );
                }
            },
        }
    }

    /// Asks for the selections to be brought back within their lists.
    pub fn clamp_selections(&mut self)
        ensures
            *final(self) == (App {
                view_requests: old(self).view_requests.clamping(),
                ..*old(self)
            }),
    {
        self.view_requests.clamp_selections = true;
    }

    /// Asks for the selections to be brought back within their lists, and for
    /// an import to be offered where there is one.
    pub fn clamp_and_prompt(&mut self)
        ensures
            *final(self) == (App {
                view_requests: old(self).view_requests.prompting(),
                ..*old(self)
            }),
    {
        self.view_requests.clamp_selections = true;
        self.view_requests.prompt_import_candidate = true;
    }
}

} // verus!
