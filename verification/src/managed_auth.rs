//! Accounts that are logged in through a device code.

use vstd::prelude::*;

use crate::app::{App, AppView, ConfirmAction, Overlay, OverlayView};
use crate::base::{lemma_skip_one, lemma_views_first, lemma_views_push, opt_view, reads, views, Duplicate};
use crate::frame::TUI_TICK_RATE;
use crate::text::{Text, TextKey, TextView, ToastKind, ToastView};
use crate::time::NANOS_PER_MILLI;

verus! {

#[derive(Debug)]
pub struct ManagedAccount {
    pub id: String,
    pub login: String,
}

#[verifier::ext_equal]
pub struct AccountView {
    pub id: Seq<char>,
    pub login: Seq<char>,
}

impl View for ManagedAccount {
    type V = AccountView;

    open spec fn view(&self) -> AccountView {
        AccountView { id: self.id@, login: self.login@ }
    }
}

/// The accounts with a provider.
#[derive(Debug)]
pub struct ManagedAuthStatus {
    pub provider: String,
    pub authenticated: bool,
    pub default_account_id: Option<String>,
    pub migration_error: Option<String>,
    pub accounts: Vec<ManagedAccount>,
}

#[verifier::ext_equal]
pub struct AuthStatusView {
    pub provider: Seq<char>,
    pub authenticated: bool,
    pub default_account_id: Option<Seq<char>>,
    pub migration_error: Option<Seq<char>>,
    pub accounts: Seq<AccountView>,
}

impl View for ManagedAuthStatus {
    type V = AuthStatusView;

    open spec fn view(&self) -> AuthStatusView {
        AuthStatusView {
            provider: self.provider@,
            authenticated: self.authenticated,
            default_account_id: opt_view(self.default_account_id),
            migration_error: opt_view(self.migration_error),
            accounts: views(self.accounts@),
        }
    }
}

/// A login that waits for the user to enter a code elsewhere.
#[derive(Debug)]
pub struct ManagedAuthLoginState {
    pub auth_provider: String,
    pub device_code: String,
    pub expires_at_tick: u64,
    pub poll_interval_ticks: u64,
    pub next_poll_tick: u64,
}

#[verifier::ext_equal]
pub struct LoginView {
    pub auth_provider: Seq<char>,
    pub device_code: Seq<char>,
    pub expires_at_tick: u64,
    pub poll_interval_ticks: u64,
    pub next_poll_tick: u64,
}

impl View for ManagedAuthLoginState {
    type V = LoginView;

    open spec fn view(&self) -> LoginView {
        LoginView {
            auth_provider: self.auth_provider@,
            device_code: self.device_code@,
            expires_at_tick: self.expires_at_tick,
            poll_interval_ticks: self.poll_interval_ticks,
            next_poll_tick: self.next_poll_tick,
        }
    }
}

/// What the screens know of managed accounts.
#[derive(Debug)]
pub struct ManagedAuth {
    pub loading: bool,
    pub status: Option<ManagedAuthStatus>,
    pub login: Option<ManagedAuthLoginState>,
    /// The row that is selected in the settings.
    pub accounts_idx: usize,
    /// The account that the provider form is bound to.
    pub codex_oauth_binding: Option<String>,
}

#[verifier::ext_equal]
pub struct ManagedAuthView {
    pub loading: bool,
    pub status: Option<AuthStatusView>,
    pub login: Option<LoginView>,
    pub accounts_idx: usize,
    pub codex_oauth_binding: Option<Seq<char>>,
}

impl View for ManagedAuth {
    type V = ManagedAuthView;

    open spec fn view(&self) -> ManagedAuthView {
        ManagedAuthView {
            loading: self.loading,
            status: opt_view(self.status),
            login: opt_view(self.login),
            accounts_idx: self.accounts_idx,
            codex_oauth_binding: opt_view(self.codex_oauth_binding),
        }
    }
}

impl ManagedAuthView {
    pub open spec fn nothing() -> ManagedAuthView {
        ManagedAuthView {
            loading: false,
            status: None,
            login: None,
            accounts_idx: 0,
            codex_oauth_binding: None,
        }
    }
}

impl ManagedAuth {
    pub fn new() -> (auth: ManagedAuth)
        ensures
            auth@ == ManagedAuthView::nothing(),
    {
        ManagedAuth {
            loading: false,
            status: None,
            login: None,
            accounts_idx: 0,
            codex_oauth_binding: None,
        }
    }
}

/// A code for the user to enter elsewhere.
#[derive(Debug)]
pub struct DeviceCode {
    pub device_code: String,
    pub user_code: String,
    pub verification_uri: String,
    /// Seconds.
    pub expires_in: u64,
    /// Seconds between two polls.
    pub interval: u64,
}

/// A request to the worker.
#[allow(inconsistent_fields)]
#[derive(Debug)]
pub enum ManagedAuthReq {
    Refresh { auth_provider: String },
    StartLogin { auth_provider: String },
    PollLogin { auth_provider: String, device_code: String },
    SetDefault { auth_provider: String, account_id: String },
    Remove { auth_provider: String, account_id: String },
}

/// An answer of the worker.
#[allow(inconsistent_fields)]
#[derive(Debug)]
pub enum ManagedAuthMsg {
    Status { auth_provider: String, result: Result<ManagedAuthStatus, String> },
    LoginStarted { auth_provider: String, result: Result<DeviceCode, String> },
    /// No account means that the user has not entered the code yet.
    LoginPolled {
        auth_provider: String,
        device_code: String,
        result: Result<Option<ManagedAccount>, String>,
    },
    DefaultSet {
        auth_provider: String,
        account_id: String,
        result: Result<ManagedAuthStatus, String>,
    },
    Removed {
        auth_provider: String,
        account_id: String,
        result: Result<ManagedAuthStatus, String>,
    },
}

// Time.

/// Ticks that cover a time, rounded up.
pub open spec fn ticks_for(seconds: u64) -> int {
    let millis: int = if seconds * 1000 > u64::MAX {
        u64::MAX as int
    } else {
        seconds * 1000
    };
    (millis + 199) / 200
}

pub fn seconds_to_tui_ticks(seconds: u64) -> (ticks: u64)
    ensures
        ticks == ticks_for(seconds),
{
    let millis = match seconds.checked_mul(1000) {
        Some(millis) => millis,
        None => u64::MAX,
    };
    let tick_millis: u64 = TUI_TICK_RATE / NANOS_PER_MILLI;
    assert(tick_millis == 200);
    let whole = millis / tick_millis;
    if millis % tick_millis == 0 {
        whole
    } else {
        whole + 1
    }
}

/// Ticks that cover a time, one at least.
pub open spec fn some_ticks(seconds: u64) -> int {
    if ticks_for(seconds) == 0 {
        1
    } else {
        ticks_for(seconds)
    }
}

// Reports.

impl AppView {
    pub open spec fn with_auth(self, managed_auth: ManagedAuthView) -> AppView {
        AppView { managed_auth, ..self }
    }

    /// The login is not on the screen any more: neither the code to enter nor
    /// the question whether to give it up.
    pub open spec fn without_login(self) -> AppView {
        AppView {
            toast: match self.toast {
                Some(toast) => if toast.message.key == TextKey::ManagedAuthLoginInProgress {
                    None
                } else {
                    Some(toast)
                },
                None => None,
            },
            overlay: if self.overlay matches OverlayView::Confirm { action, .. } && action
                == ConfirmAction::ManagedAuthCancelLogin {
                OverlayView::Absent
            } else {
                self.overlay
            },
            ..self
        }
    }
}

fn clear_login(app: &mut App)
    ensures
        final(app)@ == old(app)@.without_login(),
{
    let asked = match &app.toast {
        Some(toast) => match toast.message.key {
            TextKey::ManagedAuthLoginInProgress => true,
            _ => false,
        },
        None => false,
    };
    if asked {
        app.toast = None;
    }
    let asking = match &app.overlay {
        Overlay::Confirm(confirm) => match confirm.action {
            ConfirmAction::ManagedAuthCancelLogin => true,
            _ => false,
        },
        _ => false,
    };
    if asking {
        app.overlay = Overlay::Absent;
    }
}

/// The accounts are known. Where they could not be asked for, those of another
/// provider are forgotten.
pub open spec fn status_received(
    app: AppView,
    auth_provider: Seq<char>,
    result: Result<ManagedAuthStatus, String>,
) -> AppView {
    let auth = app.managed_auth;
    match result {
        Ok(status) => app.with_auth(
            ManagedAuthView { loading: false, status: Some(status@), ..auth },
        ),
        Err(error) => app.with_auth(
            ManagedAuthView {
                loading: false,
                status: match auth.status {
                    Some(status) => if status.provider == auth_provider {
                        Some(status)
                    } else {
                        None
                    },
                    None => None,
                },
                ..auth
            },
        ).told(ToastKind::Warning, TextView::with(TextKey::ManagedAuthRefreshFailed, error@)),
    }
}

fn take_status(app: &mut App, auth_provider: String, result: Result<ManagedAuthStatus, String>)
    ensures
        final(app)@ == status_received(old(app)@, auth_provider@, result),
{
    app.managed_auth.loading = false;
    match result {
        Ok(status) => {
            app.managed_auth.status = Some(status);
        },
        Err(error) => {
            app.push_toast(
                Text::with(TextKey::ManagedAuthRefreshFailed, error.as_str()),
                ToastKind::Warning,
            );
            let other = match &app.managed_auth.status {
                Some(status) => status.provider != auth_provider,
                None => true,
            };
            if other {
                app.managed_auth.status = None;
            }
        },
    }
}

pub open spec fn added(a: u64, b: int) -> u64 {
    if a + b > u64::MAX {
        u64::MAX
    } else {
        (a + b) as u64
    }
}

/// A login has begun: the code to enter stays on the screen, and is polled from
/// now on.
pub open spec fn login_started(
    app: AppView,
    auth_provider: Seq<char>,
    result: Result<DeviceCode, String>,
) -> AppView {
    let auth = app.managed_auth;
    match result {
        Ok(device) => AppView {
            managed_auth: ManagedAuthView {
                loading: false,
                login: Some(
                    LoginView {
                        auth_provider,
                        device_code: device.device_code@,
                        expires_at_tick: added(app.tick, some_ticks(device.expires_in)),
                        poll_interval_ticks: some_ticks(device.interval) as u64,
                        next_poll_tick: app.tick,
                    },
                ),
                ..auth
            },
            toast: Some(
                ToastView {
                    message: TextView::with_two(
                        TextKey::ManagedAuthLoginInProgress,
                        device.user_code@,
                        device.verification_uri@,
                    ),
                    kind: ToastKind::Info,
                    persistent: true,
                },
            ),
            ..app
        },
        Err(error) => app.with_auth(
            ManagedAuthView { loading: false, login: None, ..auth },
        ).without_login().told(
            ToastKind::Error,
            TextView::with(TextKey::ManagedAuthLoginFailed, error@),
        ),
    }
}

fn at_least_one(ticks: u64) -> (some: u64)
    ensures
        some == (if ticks == 0 {
            1
        } else {
            ticks
        }),
{
    if ticks == 0 {
        1
    } else {
        ticks
    }
}

fn take_login_started(app: &mut App, auth_provider: String, result: Result<DeviceCode, String>)
    ensures
        final(app)@ == login_started(old(app)@, auth_provider@, result),
{
    app.managed_auth.loading = false;
    match result {
        Ok(device) => {
            let now = app.tick;
            let expires = at_least_one(seconds_to_tui_ticks(device.expires_in));
            let interval = at_least_one(seconds_to_tui_ticks(device.interval));
            let message = Text::with_two(
                TextKey::ManagedAuthLoginInProgress,
                device.user_code.as_str(),
                device.verification_uri.as_str(),
            );
            app.managed_auth.login = Some(
                ManagedAuthLoginState {
                    auth_provider,
                    device_code: device.device_code,
                    expires_at_tick: now.saturating_add(expires),
                    poll_interval_ticks: interval,
                    next_poll_tick: now,
                },
            );
            app.push_persistent_toast(message, ToastKind::Info);
        },
        Err(error) => {
            app.managed_auth.login = None;
            clear_login(app);
            app.push_toast(
                Text::with(TextKey::ManagedAuthLoginFailed, error.as_str()),
                ToastKind::Error,
            );
        },
    }
}

/// The accounts without one of them.
pub open spec fn without_account(accounts: Seq<AccountView>, id: Seq<char>) -> Seq<AccountView>
    decreases accounts.len(),
{
    if accounts.len() == 0 {
        accounts
    } else {
        let rest = without_account(accounts.drop_last(), id);
        if accounts.last().id == id {
            rest
        } else {
            rest.push(accounts.last())
        }
    }
}

/// An account comes first. The first account ever becomes the default.
pub open spec fn with_account(
    status: Option<AuthStatusView>,
    auth_provider: Seq<char>,
    account: AccountView,
) -> Option<AuthStatusView> {
    match status {
        Some(status) => Some(
            if status.provider == auth_provider {
                AuthStatusView {
                    authenticated: true,
                    default_account_id: match status.default_account_id {
                        Some(id) => Some(id),
                        None => Some(account.id),
                    },
                    accounts: seq![account] + without_account(status.accounts, account.id),
                    ..status
                }
            } else {
                status
            },
        ),
        None => Some(
            AuthStatusView {
                provider: auth_provider,
                authenticated: true,
                default_account_id: Some(account.id),
                migration_error: None,
                accounts: seq![account],
            },
        ),
    }
}

/// What is made of a poll. Only the login that is under way counts.
pub open spec fn login_polled(
    app: AppView,
    auth_provider: Seq<char>,
    device_code: Seq<char>,
    result: Result<Option<ManagedAccount>, String>,
) -> AppView {
    let auth = app.managed_auth;
    let awaited = auth.login matches Some(login) && login.device_code == device_code;
    if !awaited {
        app
    } else {
        match result {
            Ok(None) => app,
            Ok(Some(account)) => {
                let shown = app.without_login();
                shown.with_auth(
                    ManagedAuthView {
                        loading: false,
                        login: None,
                        status: with_account(auth.status, auth_provider, account@),
                        accounts_idx: 0,
                        ..auth
                    },
                ).told(
                    ToastKind::Success,
                    TextView::with(TextKey::ManagedAuthLoginFinished, account.login@),
                )
            },
            Err(error) => app.without_login().with_auth(
                ManagedAuthView { loading: false, login: None, ..auth },
            ).told(ToastKind::Error, TextView::with(TextKey::ManagedAuthLoginFailed, error@)),
        }
    }
}

fn add_account(
    status: Option<ManagedAuthStatus>,
    auth_provider: String,
    account: ManagedAccount,
) -> (after: Option<ManagedAuthStatus>)
    ensures
        opt_view(after) == with_account(opt_view(status), auth_provider@, account@),
{
    match status {
        None => {
            let mut accounts: Vec<ManagedAccount> = Vec::new();
            let id = account.id.duplicate();
            let ghost first = account@;
            accounts.push(account);
            assert(views(accounts@) =~= seq![first]);
            Some(
                ManagedAuthStatus {
                    provider: auth_provider,
                    authenticated: true,
                    default_account_id: Some(id),
                    migration_error: None,
                    accounts,
                },
            )
        },
        Some(status) => {
            let mut status = status;
            if status.provider != auth_provider {
                return Some(status);
            }
            let ghost former = status@;
            let ghost first = account@;
            status.authenticated = true;
            if status.default_account_id.is_none() {
                status.default_account_id = Some(account.id.duplicate());
            }
            let id = account.id.duplicate();
            let mut accounts: Vec<ManagedAccount> = Vec::new();
            accounts.push(account);
            assert(views(accounts@) =~= seq![first]);
            let mut rest: Vec<ManagedAccount> = Vec::new();
            rest.append(&mut status.accounts);
            let ghost all = views(rest@);
            assert(all =~= former.accounts);
            let ghost mut seen: int = 0;
            assert(all.skip(0) =~= all);
            assert(all.take(0) =~= Seq::<AccountView>::empty());
            assert(seq![first] + all.take(0) =~= seq![first]);
            while rest.len() > 0
                invariant
                    0 <= seen <= all.len(),
                    id@ == first.id,
                    views(rest@) == all.skip(seen),
                    views(accounts@) == seq![first] + without_account(all.take(seen), first.id),
                decreases rest@.len(),
            {
                proof {
                    lemma_views_first(rest@);
                    lemma_skip_one(all, seen);
                }
                let next = rest.remove(0);
                proof {
                    seen = seen + 1;
                }
                if next.id != id {
                    proof {
                        lemma_views_push(accounts@, next);
                        assert((seq![first] + without_account(all.take(seen - 1), first.id)).push(
                            next@,
                        ) =~= seq![first] + without_account(all.take(seen), first.id));
                    }
                    accounts.push(next);
                }
            }
            assert(all.take(seen) =~= all);
            status.accounts = accounts;
            Some(status)
        },
    }
}

fn take_account(app: &mut App, auth_provider: String, account: ManagedAccount)
    ensures
        final(app)@ == old(app)@.without_login().with_auth(
            ManagedAuthView {
                loading: false,
                login: None,
                status: with_account(
                    old(app)@.managed_auth.status,
                    auth_provider@,
                    account@,
                ),
                accounts_idx: 0,
                ..old(app)@.managed_auth
            },
        ).told(
            ToastKind::Success,
            TextView::with(TextKey::ManagedAuthLoginFinished, account.login@),
        ),
{
    app.managed_auth.login = None;
    app.managed_auth.loading = false;
    clear_login(app);
    let message = Text::with(TextKey::ManagedAuthLoginFinished, account.login.as_str());
    let status = app.managed_auth.status.take();
    app.managed_auth.status = add_account(status, auth_provider, account);
    app.managed_auth.accounts_idx = 0;
    app.push_toast(message, ToastKind::Success);
}

fn take_login_polled(
    app: &mut App,
    auth_provider: String,
    device_code: String,
    result: Result<Option<ManagedAccount>, String>,
)
    ensures
        final(app)@ == login_polled(old(app)@, auth_provider@, device_code@, result),
{
    let awaited = match &app.managed_auth.login {
        Some(login) => login.device_code == device_code,
        None => false,
    };
    if !awaited {
        return ;
    }
    match result {
        Ok(None) => {},
        Ok(Some(account)) => take_account(app, auth_provider, account),
        Err(error) => {
            app.managed_auth.login = None;
            app.managed_auth.loading = false;
            clear_login(app);
            app.push_toast(
                Text::with(TextKey::ManagedAuthLoginFailed, error.as_str()),
                ToastKind::Error,
            );
        },
    }
}

/// What is made of a change of the default account.
pub open spec fn default_set(app: AppView, result: Result<ManagedAuthStatus, String>) -> AppView {
    let auth = app.managed_auth;
    match result {
        Ok(status) => app.with_auth(
            ManagedAuthView { loading: false, status: Some(status@), ..auth },
        ).told(ToastKind::Success, TextView::plain(TextKey::ManagedAuthDefaultUpdated)),
        Err(error) => app.with_auth(ManagedAuthView { loading: false, ..auth }).told(
            ToastKind::Error,
            TextView::with(TextKey::ManagedAuthDefaultFailed, error@),
        ),
    }
}

/// What is made of the removal of an account. A form that is bound to it is
/// bound no more.
pub open spec fn account_removed(
    app: AppView,
    account_id: Seq<char>,
    result: Result<ManagedAuthStatus, String>,
) -> AppView {
    let auth = app.managed_auth;
    match result {
        Ok(status) => app.with_auth(
            ManagedAuthView {
                loading: false,
                status: Some(status@),
                codex_oauth_binding: if auth.codex_oauth_binding == Some(account_id) {
                    None
                } else {
                    auth.codex_oauth_binding
                },
                ..auth
            },
        ).told(ToastKind::Success, TextView::plain(TextKey::ManagedAuthAccountRemoved)),
        Err(error) => app.with_auth(ManagedAuthView { loading: false, ..auth }).told(
            ToastKind::Error,
            TextView::with(TextKey::ManagedAuthRemoveFailed, error@),
        ),
    }
}

/// What is made of an answer of the worker.
pub open spec fn auth_received(app: AppView, msg: ManagedAuthMsg) -> AppView {
    match msg {
        ManagedAuthMsg::Status { auth_provider, result } => status_received(
            app,
            auth_provider@,
            result,
        ),
        ManagedAuthMsg::LoginStarted { auth_provider, result } => login_started(
            app,
            auth_provider@,
            result,
        ),
        ManagedAuthMsg::LoginPolled { auth_provider, device_code, result } => login_polled(
            app,
            auth_provider@,
            device_code@,
            result,
        ),
        ManagedAuthMsg::DefaultSet { result, .. } => default_set(app, result),
        ManagedAuthMsg::Removed { account_id, result, .. } => account_removed(
            app,
            account_id@,
            result,
        ),
    }
}

fn take_default_set(app: &mut App, result: Result<ManagedAuthStatus, String>)
    ensures
        final(app)@ == default_set(old(app)@, result),
{
    app.managed_auth.loading = false;
    match result {
        Ok(status) => {
            app.managed_auth.status = Some(status);
            app.push_toast(Text::plain(TextKey::ManagedAuthDefaultUpdated), ToastKind::Success);
        },
        Err(error) => {
            app.push_toast(
                Text::with(TextKey::ManagedAuthDefaultFailed, error.as_str()),
                ToastKind::Error,
            );
        },
    }
}

fn take_removed(app: &mut App, account_id: String, result: Result<ManagedAuthStatus, String>)
    ensures
        final(app)@ == account_removed(old(app)@, account_id@, result),
{
    app.managed_auth.loading = false;
    match result {
        Ok(status) => {
            if reads(&app.managed_auth.codex_oauth_binding, &account_id) {
                app.managed_auth.codex_oauth_binding = None;
            }
            app.managed_auth.status = Some(status);
            app.push_toast(Text::plain(TextKey::ManagedAuthAccountRemoved), ToastKind::Success);
        },
        Err(error) => {
            app.push_toast(
                Text::with(TextKey::ManagedAuthRemoveFailed, error.as_str()),
                ToastKind::Error,
            );
        },
    }
}

/// The worker has answered.
pub fn handle_managed_auth_msg(app: &mut App, msg: ManagedAuthMsg)
    ensures
        final(app)@ == auth_received(old(app)@, msg),
{
    match msg {
        ManagedAuthMsg::Status { auth_provider, result } => {
            take_status(app, auth_provider, result);
        },
        ManagedAuthMsg::LoginStarted { auth_provider, result } => {
            take_login_started(app, auth_provider, result);
        },
        ManagedAuthMsg::LoginPolled { auth_provider, device_code, result } => {
            take_login_polled(app, auth_provider, device_code, result);
        },
        ManagedAuthMsg::DefaultSet { result, .. } => take_default_set(app, result),
        ManagedAuthMsg::Removed { account_id, result, .. } => {
            take_removed(app, account_id, result);
        },
    }
}

/// What is answered where the worker cannot work at all.
pub fn refuse_managed_auth_req(req: ManagedAuthReq, error: String) -> (msg: ManagedAuthMsg)
    ensures
        msg == (match req {
            ManagedAuthReq::Refresh { auth_provider } => ManagedAuthMsg::Status {
                auth_provider,
                result: Err(error),
            },
            ManagedAuthReq::StartLogin { auth_provider } => ManagedAuthMsg::LoginStarted {
                auth_provider,
                result: Err(error),
            },
            ManagedAuthReq::PollLogin { auth_provider, device_code } => {
                ManagedAuthMsg::LoginPolled { auth_provider, device_code, result: Err(error) }
            },
            ManagedAuthReq::SetDefault { auth_provider, account_id } => {
                ManagedAuthMsg::DefaultSet { auth_provider, account_id, result: Err(error) }
            },
            ManagedAuthReq::Remove { auth_provider, account_id } => ManagedAuthMsg::Removed {
                auth_provider,
                account_id,
                result: Err(error),
            },
        }),
{
    match req {
        ManagedAuthReq::Refresh { auth_provider } => ManagedAuthMsg::Status {
            auth_provider,
            result: Err(error),
        },
        ManagedAuthReq::StartLogin { auth_provider } => ManagedAuthMsg::LoginStarted {
            auth_provider,
            result: Err(error),
        },
        ManagedAuthReq::PollLogin { auth_provider, device_code } => ManagedAuthMsg::LoginPolled {
            auth_provider,
            device_code,
            result: Err(error),
        },
        ManagedAuthReq::SetDefault { auth_provider, account_id } => ManagedAuthMsg::DefaultSet {
            auth_provider,
            account_id,
            result: Err(error),
        },
        ManagedAuthReq::Remove { auth_provider, account_id } => ManagedAuthMsg::Removed {
            auth_provider,
            account_id,
            result: Err(error),
        },
    }
}

/// A poll of a login that was given up changes nothing.
pub proof fn abandoned_logins_are_ignored(
    app: AppView,
    auth_provider: Seq<char>,
    device_code: Seq<char>,
    result: Result<Option<ManagedAccount>, String>,
)
    requires
        app.managed_auth.login is None || app.managed_auth.login->0.device_code != device_code,
    ensures
        login_polled(app, auth_provider, device_code, result) == app,
{
}

/// A tick more than the ticks that cover a time is too many.
pub proof fn ticks_cover_the_time(seconds: u64)
    requires
        seconds * 1000 <= u64::MAX,
    ensures
        ticks_for(seconds) * 200 >= seconds * 1000,
        (ticks_for(seconds) - 1) * 200 < seconds * 1000,
{
}

} // verus!
