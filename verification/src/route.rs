//! Screens of the interface and the entries of its navigation column.

use vstd::prelude::*;

use crate::app_type::AppType;

verus! {

/// A screen that can fill the content pane.
#[derive(Debug, Clone, PartialEq, Eq)]
pub enum Route {
    Main,
    Providers,
    Usage,
    UsageLogs,
    UsageLogDetail { rowid: i64 },
    Pricing,
    Sessions,
    Mcp,
    Prompts,
    HermesMemory,
    Config,
    ConfigOpenClawWorkspace,
    ConfigOpenClawDailyMemory,
    ConfigOpenClawEnv,
    ConfigOpenClawTools,
    ConfigOpenClawAgents,
    ConfigWebDav,
    Skills,
    SkillsDiscover,
    SkillsRepos,
    SkillDetail { directory: String },
    Settings,
    SettingsProxy,
    SettingsManagedAccounts,
}

/// An entry of the navigation column.
#[derive(Debug, Clone, Copy, PartialEq, Eq, Structural)]
pub enum NavItem {
    Main,
    Providers,
    Usage,
    Sessions,
    Mcp,
    Prompts,
    HermesMemory,
    Config,
    Skills,
    OpenClawWorkspace,
    OpenClawEnv,
    OpenClawTools,
    OpenClawAgents,
    Settings,
    Exit,
}

impl NavItem {
    pub const ALL: [NavItem; 10] = [
        NavItem::Main,
        NavItem::Providers,
        NavItem::Mcp,
        NavItem::Skills,
        NavItem::Sessions,
        NavItem::Prompts,
        NavItem::Usage,
        NavItem::Config,
        NavItem::Settings,
        NavItem::Exit,
    ];

    pub const OPENCLAW_ALL: [NavItem; 11] = [
        NavItem::Main,
        NavItem::Providers,
        NavItem::Sessions,
        NavItem::OpenClawWorkspace,
        NavItem::OpenClawEnv,
        NavItem::OpenClawTools,
        NavItem::OpenClawAgents,
        NavItem::Usage,
        NavItem::Config,
        NavItem::Settings,
        NavItem::Exit,
    ];

    pub const HERMES_ALL: [NavItem; 10] = [
        NavItem::Main,
        NavItem::Providers,
        NavItem::Mcp,
        NavItem::Skills,
        NavItem::Sessions,
        NavItem::HermesMemory,
        NavItem::Usage,
        NavItem::Config,
        NavItem::Settings,
        NavItem::Exit,
    ];

    /// The navigation column of an application, top to bottom.
    pub open spec fn column(app_type: AppType) -> Seq<NavItem> {
        match app_type {
            AppType::OpenClaw => Self::OPENCLAW_ALL@,
            AppType::Hermes => Self::HERMES_ALL@,
            _ => Self::ALL@,
        }
    }

    /// The screen that an entry opens; `Exit` opens none.
    pub open spec fn target(self) -> Option<Route> {
        match self {
            NavItem::Main => Some(Route::Main),
            NavItem::Providers => Some(Route::Providers),
            NavItem::Usage => Some(Route::Usage),
            NavItem::Sessions => Some(Route::Sessions),
            NavItem::Mcp => Some(Route::Mcp),
            NavItem::Prompts => Some(Route::Prompts),
            NavItem::HermesMemory => Some(Route::HermesMemory),
            NavItem::Config => Some(Route::Config),
            NavItem::Skills => Some(Route::Skills),
            NavItem::OpenClawWorkspace => Some(Route::ConfigOpenClawWorkspace),
            NavItem::OpenClawEnv => Some(Route::ConfigOpenClawEnv),
            NavItem::OpenClawTools => Some(Route::ConfigOpenClawTools),
            NavItem::OpenClawAgents => Some(Route::ConfigOpenClawAgents),
            NavItem::Settings => Some(Route::Settings),
            NavItem::Exit => None,
        }
    }

    pub fn all_for_app(app_type: &AppType) -> (items: &'static [NavItem])
        ensures
            items@ == Self::column(*app_type),
    {
        match app_type {
            AppType::OpenClaw => &Self::OPENCLAW_ALL,
            AppType::Hermes => &Self::HERMES_ALL,
            _ => &Self::ALL,
        }
    }

    pub fn to_route(self) -> (route: Option<Route>)
        ensures
            route == self.target(),
    {
        match self {
            NavItem::Main => Some(Route::Main),
            NavItem::Providers => Some(Route::Providers),
            NavItem::Usage => Some(Route::Usage),
            NavItem::Sessions => Some(Route::Sessions),
            NavItem::Mcp => Some(Route::Mcp),
            NavItem::Prompts => Some(Route::Prompts),
            NavItem::HermesMemory => Some(Route::HermesMemory),
            NavItem::Config => Some(Route::Config),
            NavItem::Skills => Some(Route::Skills),
            NavItem::OpenClawWorkspace => Some(Route::ConfigOpenClawWorkspace),
            NavItem::OpenClawEnv => Some(Route::ConfigOpenClawEnv),
            NavItem::OpenClawTools => Some(Route::ConfigOpenClawTools),
            NavItem::OpenClawAgents => Some(Route::ConfigOpenClawAgents),
            NavItem::Settings => Some(Route::Settings),
            NavItem::Exit => None,
        }
    }
}

/// Every column starts at the main screen and ends with the way out, and
/// `Exit` is the only entry of it that opens no screen.
pub proof fn column_runs_from_main_to_exit(app_type: AppType)
    ensures
        NavItem::column(app_type).first() == NavItem::Main,
        NavItem::column(app_type).last() == NavItem::Exit,
        forall|i: int|
            0 <= i < NavItem::column(app_type).len() ==> ((#[trigger] NavItem::column(
                app_type,
            )[i]).target() is None <==> i == NavItem::column(app_type).len() - 1),
{
}

/// No entry occurs twice in a column.
pub proof fn column_has_no_duplicates(app_type: AppType)
    ensures
        NavItem::column(app_type).no_duplicates(),
{
}

/// Two different entries never open the same screen.
pub proof fn targets_are_distinct(a: NavItem, b: NavItem)
    requires
        a.target() is Some,
        a.target() == b.target(),
    ensures
        a == b,
{
}

/// The pricing screen is never reached from the navigation column; it is
/// opened from within the usage screen.
pub proof fn pricing_is_not_top_level(app_type: AppType)
    ensures
        forall|i: int|
            0 <= i < NavItem::column(app_type).len() ==> (#[trigger] NavItem::column(
                app_type,
            )[i]).target() != Some(Route::Pricing),
{
}

} // verus!
