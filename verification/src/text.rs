//! Texts for the user: which message, with which words in it. What a message
//! reads like in a language is decided where it is displayed.

use vstd::prelude::*;
use vstd::string::*;

use crate::app_type::AppType;
use crate::base::{duplicate_all, views, Duplicate};
use crate::help_words::HelpLabel;

verus! {

/// A message.
#[derive(Debug, Clone, Copy, PartialEq, Eq, Structural)]
pub enum TextKey {
    /// The argument itself, in every language.
    Verbatim,
    // Application data, usage and quota.
    QuotaWorkerUnavailable,
    QuotaRefreshFailed,
    QuotaRefreshStarted,
    QuotaRefreshFinished,
    QuotaNotAvailable,
    // Sessions.
    SessionsWorkerUnavailable,
    SessionsRefreshFailed,
    SessionsMessagesFailed,
    SessionsDeleteFinished,
    SessionsDeleteFailed,
    // Local environment.
    LocalEnvCheckUnavailable,
    LocalEnvCheckRequestFailed,
    // Stream check and speed test.
    StreamCheckUnavailable,
    StreamCheckFinished,
    StreamCheckFailed,
    SpeedtestUnavailable,
    SpeedtestFinished,
    SpeedtestFailed,
    SpeedtestLineUrl,
    SpeedtestLineLatency,
    SpeedtestLineStatus,
    SpeedtestLineError,
    NotAvailable,
    StreamCheckLineProvider,
    StreamCheckLineStatus,
    StreamCheckLineModel,
    StreamCheckLineResponseTime,
    StreamCheckLineHttpStatus,
    StreamCheckLineRetries,
    StreamCheckLineMessage,
    // Model list.
    ModelFetchWorkerUnavailable,
    ModelFetchNoModels,
    ModelFetchErrorHint,
    // Managed accounts.
    ManagedAuthWorkerUnavailable,
    ManagedAuthWorkerNotRunning,
    ManagedAuthRequestFailed,
    ManagedAuthRefreshFailed,
    ManagedAuthLoginInProgress,
    ManagedAuthLoginFailed,
    ManagedAuthLoginFinished,
    ManagedAuthDefaultUpdated,
    ManagedAuthDefaultFailed,
    ManagedAuthAccountRemoved,
    ManagedAuthRemoveFailed,
    // Skills.
    SkillsWorkerUnavailable,
    SkillsDiscoverFinished(usize),
    SkillsDiscoverFailed,
    SkillInstalled,
    SkillInstallFailed,
    // WebDAV.
    WebDavWorkerUnavailable,
    WebDavConnectionOk,
    WebDavUploadOk,
    WebDavDownloadOk,
    WebDavV1MigrationOk,
    WebDavV1MigrationTitle,
    WebDavV1MigrationMessage,
    WebDavJianguoyunConfigured,
    WebDavQuickSetupFailed,
    WebDavCheckConnectionFailed,
    WebDavUploadFailed,
    WebDavDownloadFailed,
    WebDavV1MigrationFailed,
    WebDavQuickSetupActionFailed,
    // Proxy.
    ProxyWorkerUnavailable,
    ProxyManagedCurrentAppUpdated { app_type: AppType, enabled: bool },
    LocalProxySwitched { enabled: bool },
    AutoFailoverSwitched { enabled: bool },
    ProxyAndAutoFailoverEnabled,
    ProxySettingsSaved,
    ProxySettingsStopAppRouteBeforeEditPort,
    ProxySettingsStopProxyBeforeEditAddress,
    // Updates.
    AlreadyLatest,
    UpdateHomebrewRequired,
    UpdateDowngrade,
    UpdateCheckFailed,
    UpdateSuccess,
    UpdateCheckFirst,
    // Visible applications.
    VisibleAppsSaved,
    VisibleAppsModeSaved { automatic: bool },
    VisibleAppsZeroSelection,
    VisibleAppsNotice,
    VisibleAppsDetectionTitle,
    VisibleAppsDetectionMessage,
    // OpenClaw.
    OpenClawConfigDirSaved,
    OpenClawConfigDirSyncSkipped,
    OpenClawConfigDirSyncFailed,
    // Help.
    Help(HelpLabel),
}

/// A message with the words that go into it.
#[derive(Debug)]
pub struct Text {
    pub key: TextKey,
    pub args: Vec<String>,
}

/// A message with the words that go into it.
pub struct TextView {
    pub key: TextKey,
    pub args: Seq<Seq<char>>,
}

impl TextView {
    pub open spec fn plain(key: TextKey) -> TextView {
        TextView { key, args: Seq::empty() }
    }

    pub open spec fn with(key: TextKey, arg: Seq<char>) -> TextView {
        TextView { key, args: seq![arg] }
    }

    pub open spec fn with_two(key: TextKey, first: Seq<char>, second: Seq<char>) -> TextView {
        TextView { key, args: seq![first, second] }
    }

    pub open spec fn verbatim(text: Seq<char>) -> TextView {
        TextView { key: TextKey::Verbatim, args: seq![text] }
    }
}

impl View for Text {
    type V = TextView;

    open spec fn view(&self) -> TextView {
        TextView { key: self.key, args: views(self.args@) }
    }
}

impl Duplicate for Text {
    fn duplicate(&self) -> (copy: Text) {
        Text { key: self.key, args: duplicate_all(&self.args) }
    }
}

impl Text {
    pub fn plain(key: TextKey) -> (text: Text)
        ensures
            text@ == TextView::plain(key),
    {
        let text = Text { key, args: Vec::new() };
        assert(text@.args =~= Seq::<Seq<char>>::empty());
        text
    }

    pub fn with(key: TextKey, arg: &str) -> (text: Text)
        ensures
            text@ == TextView::with(key, arg@),
    {
        let mut args: Vec<String> = Vec::new();
        args.push(arg.to_owned());
        let text = Text { key, args };
        assert(text@.args =~= seq![arg@]);
        text
    }

    pub fn with_two(key: TextKey, first: &str, second: &str) -> (text: Text)
        ensures
            text@ == TextView::with_two(key, first@, second@),
    {
        let mut args: Vec<String> = Vec::new();
        args.push(first.to_owned());
        args.push(second.to_owned());
        let text = Text { key, args };
        assert(text@.args =~= seq![first@, second@]);
        text
    }

    pub fn with_all(key: TextKey, args: Vec<String>) -> (text: Text)
        ensures
            text@ == (TextView { key, args: views(args@) }),
    {
        Text { key, args }
    }

    /// A text that reads the same in every language.
    pub fn verbatim(text: &str) -> (result: Text)
        ensures
            result@ == TextView::verbatim(text@),
    {
        Text::with(TextKey::Verbatim, text)
    }
}

/// A lead-in followed by a detail.
pub fn joined(lead: &str, detail: &str) -> (text: String)
    ensures
        text@ == lead@ + detail@,
{
    let mut text = lead.to_owned();
    text.append(detail);
    text
}

/// A digit.
pub open spec fn digit(d: nat) -> char {
    if d == 0 {
        '0'
    } else if d == 1 {
        '1'
    } else if d == 2 {
        '2'
    } else if d == 3 {
        '3'
    } else if d == 4 {
        '4'
    } else if d == 5 {
        '5'
    } else if d == 6 {
        '6'
    } else if d == 7 {
        '7'
    } else if d == 8 {
        '8'
    } else {
        '9'
    }
}

/// A number in decimal digits.
pub open spec fn decimal_text(n: nat) -> Seq<char>
    decreases n,
{
    if n < 10 {
        seq![digit(n)]
    } else {
        decimal_text(n / 10).push(digit(n % 10))
    }
}

fn push_digit(text: &mut String, d: u64)
    requires
        d < 10,
    ensures
        final(text)@ == old(text)@.push(digit(d as nat)),
{
    let c = if d == 0 {
        '0'
    } else if d == 1 {
        '1'
    } else if d == 2 {
        '2'
    } else if d == 3 {
        '3'
    } else if d == 4 {
        '4'
    } else if d == 5 {
        '5'
    } else if d == 6 {
        '6'
    } else if d == 7 {
        '7'
    } else if d == 8 {
        '8'
    } else {
        '9'
    };
    text.push(c);
}

/// Writes a number in decimal digits.
pub fn decimal(n: u64) -> (text: String)
    ensures
        text@ == decimal_text(n as nat),
    decreases n,
{
    if n < 10 {
        let mut text = String::new();
        push_digit(&mut text, n);
        assert(text@ =~= decimal_text(n as nat));
        text
    } else {
        let mut text = decimal(n / 10);
        push_digit(&mut text, n % 10);
        text
    }
}

/// How serious a notice is.
#[derive(Debug, Clone, Copy, PartialEq, Eq, Structural)]
pub enum ToastKind {
    Info,
    Success,
    Warning,
    Error,
}

/// A notice at the edge of the screen. A persistent one stays until it is
/// taken away or replaced.
#[derive(Debug)]
pub struct Toast {
    pub message: Text,
    pub kind: ToastKind,
    pub persistent: bool,
}

/// A notice at the edge of the screen.
pub struct ToastView {
    pub message: TextView,
    pub kind: ToastKind,
    pub persistent: bool,
}

impl View for Toast {
    type V = ToastView;

    open spec fn view(&self) -> ToastView {
        ToastView { message: self.message@, kind: self.kind, persistent: self.persistent }
    }
}

} // verus!
