//! What the user asked for, and what it means for the data that is kept.

use vstd::prelude::*;

use crate::app_type::AppType;
use crate::cache::CacheInvalidation;
use crate::route::Route;
use crate::usage::UsageCustomRange;

verus! {

/// What an editor was opened for.
#[derive(Debug)]
pub enum EditorSubmit {
    ProviderAdd,
    ProviderEdit { id: String },
    /// Anything that is not a provider.
    Other,
}

/// What the user asked for.
#[allow(inconsistent_fields)]
#[derive(Debug)]
pub enum Action {
    Nothing,
    SwitchRoute(Route),
    Quit,
    SetAppType(AppType),
    LocalEnvRefresh,
    SessionsRefresh,
    SessionsDeepSearch { query: String },
    SessionsDeepSearchCancel,
    SessionMessagesLoad { key: String },
    SessionResume { key: String },
    SessionDelete { key: String },
    ProviderSpeedtest { url: String },
    ProviderLaunchTemporary { id: String },
    ProviderStreamCheck { id: String },
    ProviderQuotaRefresh { id: String },
    ProviderModelFetch { url: String },
    UsageCustomRange { range: UsageCustomRange },
    UsageLogDetailRefresh { rowid: i64 },
    ManagedAuthRefresh { provider: String },
    ManagedAuthStartLogin { provider: String },
    ManagedAuthSetDefault { account_id: String },
    ManagedAuthRemove { account_id: String },
    SkillsInstall { spec: String },
    SkillsDiscover { query: String },
    SkillsOpenImport,
    SkillsScanUnmanaged,
    EditorDiscard,
    EditorOpenExternal,
    EditorFormatCommonSnippet { content: String },
    EditorExtractCommonSnippet { content: String },
    PromptFormOpenExternal,
    PromptOpenImportCandidate { name: String },
    ConfigExport { path: String },
    ConfigShowFull,
    ConfigValidate,
    ConfigOpenProxyHelp,
    ConfirmCommonConfigNotice,
    ConfirmUsageQueryNotice,
    ConfigWebDavCheckConnection,
    ConfigWebDavUpload,
    ConfigWebDavJianguoyunQuickSetup { username: String, password: String },
    OpenClawWorkspaceOpenFile { name: String },
    OpenClawDailyMemoryOpenFile { name: String },
    OpenClawDailyMemorySearch { query: String },
    OpenClawOpenDirectory { name: String },
    HermesMemoryOpen { name: String },
    SetSkipClaudeOnboarding { enabled: bool },
    SetClaudePluginIntegration { enabled: bool },
    SetCodexUnifiedSessionHistory { enabled: bool },
    SetManagedProxyForCurrentApp { enabled: bool },
    SetLanguage(String),
    CheckUpdate,
    ConfirmUpdate,
    CancelUpdate,
    CancelUpdateCheck,
    ConfigImport { path: String },
    ConfigRestoreBackup { id: String },
    ConfigReset,
    ConfigWebDavDownload,
    ConfigWebDavMigrateV1ToV2,
    ProviderSwitch { id: String },
    ProviderRemoveFromConfig { id: String },
    ProviderSetDefaultModel { id: String, model: String },
    ProviderImportLiveConfig,
    ProviderDelete { id: String },
    ProviderSetFailoverQueue { id: String, enabled: bool },
    ProviderMoveFailoverQueue { id: String, up: bool },
    ReloadData,
    SetVisibleAppsMode { automatic: bool },
    SetVisibleApps { apps: Vec<AppType> },
    ConfirmVisibleAppsAutoDetection { enabled: bool },
    SwitchVisibleAppsToManual { apps: Vec<AppType> },
    SkillsToggle { directory: String, enabled: bool },
    SkillsSetApps { directory: String, apps: Vec<AppType> },
    SkillsUninstall { directory: String },
    SkillsSync { app: Option<AppType> },
    SkillsSetSyncMethod { copy: bool },
    SkillsRepoAdd { spec: String },
    SkillsRepoRemove { owner: String, name: String },
    SkillsRepoToggleEnabled { owner: String, name: String, enabled: bool },
    SkillsImportFromApps { directories: Vec<String> },
    PricingDelete { model: String },
    McpToggle { id: String, enabled: bool },
    McpSetApps { id: String, apps: Vec<AppType> },
    McpDelete { id: String },
    McpImport,
    PromptActivate { id: String },
    PromptDeactivate { id: String },
    PromptUpdateMetadata { id: String, name: String },
    PromptSave { id: String, content: String },
    PromptDelete { id: String },
    ConfigBackup { name: Option<String> },
    ConfigWebDavReset,
    OpenClawDailyMemoryDelete { name: String },
    HermesMemorySetEnabled { enabled: bool },
    HermesOpenMemoryDirectory,
    EditorSubmit { submit: EditorSubmit, content: String },
    SetProxyEnabled { enabled: bool },
    SetProxyListenAddress { address: String },
    SetProxyListenPort { port: u16 },
    SetProxyAutoFailover { enabled: bool },
    EnableProxyAndAutoFailover { enabled: bool },
    SetOpenClawConfigDir { path: Option<String> },
}

/// Replaces the whole configuration, and with it the application state.
pub open spec fn replaces_state(action: Action) -> bool {
    ||| action is ConfigImport
    ||| action is ConfigRestoreBackup
    ||| action is ConfigReset
    ||| action is ConfigWebDavDownload
    ||| action is ConfigWebDavMigrateV1ToV2
}

/// Changes providers of the current application only.
pub open spec fn changes_current_app(action: Action) -> bool {
    ||| action is ProviderSwitch
    ||| action is ProviderRemoveFromConfig
    ||| action is ProviderSetDefaultModel
    ||| action is ProviderImportLiveConfig
    ||| action is ProviderDelete
    ||| action is ProviderSetFailoverQueue
    ||| action is ProviderMoveFailoverQueue
    ||| (action matches Action::EditorSubmit { submit, .. } && !(submit is Other))
}

/// Changes what several applications share.
pub open spec fn changes_shared_data(action: Action) -> bool {
    ||| action is ReloadData
    ||| action is SetVisibleAppsMode
    ||| action is SetVisibleApps
    ||| action is ConfirmVisibleAppsAutoDetection
    ||| action is SwitchVisibleAppsToManual
    ||| action is SkillsToggle
    ||| action is SkillsSetApps
    ||| action is SkillsUninstall
    ||| action is SkillsSync
    ||| action is SkillsSetSyncMethod
    ||| action is SkillsRepoAdd
    ||| action is SkillsRepoRemove
    ||| action is SkillsRepoToggleEnabled
    ||| action is SkillsImportFromApps
    ||| action is PricingDelete
    ||| action is McpToggle
    ||| action is McpSetApps
    ||| action is McpDelete
    ||| action is McpImport
    ||| action is PromptActivate
    ||| action is PromptDeactivate
    ||| action is PromptUpdateMetadata
    ||| action is PromptSave
    ||| action is PromptDelete
    ||| action is ConfigBackup
    ||| action is ConfigWebDavReset
    ||| action is OpenClawDailyMemoryDelete
    ||| action is HermesMemorySetEnabled
    ||| action is HermesOpenMemoryDirectory
    ||| action is SetProxyEnabled
    ||| action is SetProxyListenAddress
    ||| action is SetProxyListenPort
    ||| action is SetProxyAutoFailover
    ||| action is EnableProxyAndAutoFailover
    ||| action is SetOpenClawConfigDir
    ||| (action matches Action::EditorSubmit { submit, .. } && submit is Other)
}

/// What an action may invalidate, once it has reloaded data.
pub open spec fn invalidation_of(action: Action) -> CacheInvalidation {
    if replaces_state(action) {
        CacheInvalidation::AppStateRecreated
    } else if changes_current_app(action) {
        CacheInvalidation::CurrentAppDataChanged
    } else if changes_shared_data(action) {
        CacheInvalidation::DataReloaded
    } else {
        CacheInvalidation::Nothing
    }
}

pub fn cache_invalidation_for_action(action: &Action) -> (invalidation: CacheInvalidation)
    ensures
        invalidation == invalidation_of(*action),
{
    match action {
        Action::Nothing
        | Action::SwitchRoute(_)
        | Action::Quit
        | Action::SetAppType(_)
        | Action::LocalEnvRefresh
        | Action::SessionsRefresh
        | Action::SessionsDeepSearch { .. }
        | Action::SessionsDeepSearchCancel
        | Action::SessionMessagesLoad { .. }
        | Action::SessionResume { .. }
        | Action::SessionDelete { .. }
        | Action::ProviderSpeedtest { .. }
        | Action::ProviderLaunchTemporary { .. }
        | Action::ProviderStreamCheck { .. }
        | Action::ProviderQuotaRefresh { .. }
        | Action::ProviderModelFetch { .. }
        | Action::UsageCustomRange { .. }
        | Action::UsageLogDetailRefresh { .. }
        | Action::ManagedAuthRefresh { .. }
        | Action::ManagedAuthStartLogin { .. }
        | Action::ManagedAuthSetDefault { .. }
        | Action::ManagedAuthRemove { .. }
        | Action::SkillsInstall { .. }
        | Action::SkillsDiscover { .. }
        | Action::SkillsOpenImport
        | Action::SkillsScanUnmanaged
        | Action::EditorDiscard
        | Action::EditorOpenExternal
        | Action::EditorFormatCommonSnippet { .. }
        | Action::EditorExtractCommonSnippet { .. }
        | Action::PromptFormOpenExternal
        | Action::PromptOpenImportCandidate { .. }
        | Action::ConfigExport { .. }
        | Action::ConfigShowFull
        | Action::ConfigValidate
        | Action::ConfigOpenProxyHelp
        | Action::ConfirmCommonConfigNotice
        | Action::ConfirmUsageQueryNotice
        | Action::ConfigWebDavCheckConnection
        | Action::ConfigWebDavUpload
        | Action::ConfigWebDavJianguoyunQuickSetup { .. }
        | Action::OpenClawWorkspaceOpenFile { .. }
        | Action::OpenClawDailyMemoryOpenFile { .. }
        | Action::OpenClawDailyMemorySearch { .. }
        | Action::OpenClawOpenDirectory { .. }
        | Action::HermesMemoryOpen { .. }
        | Action::SetSkipClaudeOnboarding { .. }
        | Action::SetClaudePluginIntegration { .. }
        | Action::SetCodexUnifiedSessionHistory { .. }
        | Action::SetManagedProxyForCurrentApp { .. }
        | Action::SetLanguage(_)
        | Action::CheckUpdate
        | Action::ConfirmUpdate
        | Action::CancelUpdate
        | Action::CancelUpdateCheck => CacheInvalidation::Nothing,
        Action::ConfigImport { .. }
        | Action::ConfigRestoreBackup { .. }
        | Action::ConfigReset
        | Action::ConfigWebDavDownload
        | Action::ConfigWebDavMigrateV1ToV2 => CacheInvalidation::AppStateRecreated,
        Action::ProviderSwitch { .. }
        | Action::ProviderRemoveFromConfig { .. }
        | Action::ProviderSetDefaultModel { .. }
        | Action::ProviderImportLiveConfig
        | Action::ProviderDelete { .. }
        | Action::ProviderSetFailoverQueue { .. }
        | Action::ProviderMoveFailoverQueue { .. }
        | Action::EditorSubmit {
            submit: EditorSubmit::ProviderAdd | EditorSubmit::ProviderEdit { .. },
            ..
        } => CacheInvalidation::CurrentAppDataChanged,
        Action::ReloadData
        | Action::SetVisibleAppsMode { .. }
        | Action::SetVisibleApps { .. }
        | Action::ConfirmVisibleAppsAutoDetection { .. }
        | Action::SwitchVisibleAppsToManual { .. }
        | Action::SkillsToggle { .. }
        | Action::SkillsSetApps { .. }
        | Action::SkillsUninstall { .. }
        | Action::SkillsSync { .. }
        | Action::SkillsSetSyncMethod { .. }
        | Action::SkillsRepoAdd { .. }
        | Action::SkillsRepoRemove { .. }
        | Action::SkillsRepoToggleEnabled { .. }
        | Action::SkillsImportFromApps { .. }
        | Action::PricingDelete { .. }
        | Action::McpToggle { .. }
        | Action::McpSetApps { .. }
        | Action::McpDelete { .. }
        | Action::McpImport
        | Action::PromptActivate { .. }
        | Action::PromptDeactivate { .. }
        | Action::PromptUpdateMetadata { .. }
        | Action::PromptSave { .. }
        | Action::PromptDelete { .. }
        | Action::ConfigBackup { .. }
        | Action::ConfigWebDavReset
        | Action::OpenClawDailyMemoryDelete { .. }
        | Action::HermesMemorySetEnabled { .. }
        | Action::HermesOpenMemoryDirectory
        | Action::EditorSubmit { .. }
        | Action::SetProxyEnabled { .. }
        | Action::SetProxyListenAddress { .. }
        | Action::SetProxyListenPort { .. }
        | Action::SetProxyAutoFailover { .. }
        | Action::EnableProxyAndAutoFailover { .. }
        | Action::SetOpenClawConfigDir { .. } => CacheInvalidation::DataReloaded,
    }
}

} // verus!
