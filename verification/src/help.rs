//! The help that belongs to the item in focus.

use vstd::prelude::*;
use vstd::string::*;

use crate::app_type::AppType;
use crate::base::{duplicate_all, lemma_views_push, views};
use crate::help_words::{
    tr, worded, HelpLabel, HelpTopic, Language, EYEBROW_EN, EYEBROW_ZH, NO_HELP_EN, NO_HELP_ZH,
};
use crate::route::Route;
use crate::text::{joined, Text, TextKey, TextView};

verus! {

// What is shown.

#[derive(Debug)]
pub struct HelpContent {
    pub title: Text,
    pub eyebrow: String,
    pub lines: Vec<String>,
}

#[verifier::ext_equal]
pub struct HelpContentView {
    pub title: TextView,
    pub eyebrow: Seq<char>,
    pub lines: Seq<Seq<char>>,
}

impl View for HelpContent {
    type V = HelpContentView;

    open spec fn view(&self) -> HelpContentView {
        HelpContentView { title: self.title@, eyebrow: self.eyebrow@, lines: views(self.lines@) }
    }
}

/// Help on the screen, and how far it was scrolled.
#[derive(Debug)]
pub struct HelpState {
    pub content: HelpContent,
    pub scroll: usize,
}

impl HelpState {
    pub fn new(content: HelpContent) -> (state: Self)
        ensures
            state.content == content,
            state.scroll == 0,
    {
        HelpState { content, scroll: 0 }
    }
}

/// Every help has the same line above its title.
pub open spec fn headed(
    title: TextView,
    language: Language,
    lines: Seq<Seq<char>>,
) -> HelpContentView {
    HelpContentView { title, eyebrow: worded(language, EYEBROW_ZH, EYEBROW_EN), lines }
}

/// There is no help for the item in focus.
pub open spec fn no_help(language: Language) -> HelpContentView {
    headed(
        TextView::plain(TextKey::Help(HelpLabel::Help)),
        language,
        seq![worded(language, NO_HELP_ZH, NO_HELP_EN)],
    )
}

impl HelpContent {
    fn new(title: Text, language: Language, lines: Vec<String>) -> (content: HelpContent)
        ensures
            content@ == headed(title@, language, views(lines@)),
    {
        HelpContent { title, eyebrow: tr(language, EYEBROW_ZH, EYEBROW_EN).to_owned(), lines }
    }

    fn empty(language: Language) -> (content: HelpContent)
        ensures
            content@ == no_help(language),
    {
        let lines: Vec<String> = vec![tr(language, NO_HELP_ZH, NO_HELP_EN).to_owned()];
        assert(views(lines@) =~= seq![worded(language, NO_HELP_ZH, NO_HELP_EN)]);
        HelpContent::new(Text::plain(TextKey::Help(HelpLabel::Help)), language, lines)
    }
}

// Lines.

/// The lines of a text, behind what has been read of the current one. A line
/// ends with a line feed, which a carriage return may come before; the last
/// line need not end.
pub open spec fn lines_behind(current: Seq<char>, rest: Seq<char>) -> Seq<Seq<char>>
    decreases rest.len(),
{
    if rest.len() == 0 {
        if current.len() == 0 {
            Seq::empty()
        } else {
            seq![current]
        }
    } else if rest[0] == '\n' {
        seq![current] + lines_behind(Seq::empty(), rest.skip(1))
    } else if rest[0] == '\r' && rest.len() > 1 && rest[1] == '\n' {
        seq![current] + lines_behind(Seq::empty(), rest.skip(2))
    } else {
        lines_behind(current.push(rest[0]), rest.skip(1))
    }
}

/// The lines of a text.
pub open spec fn lines_of(text: Seq<char>) -> Seq<Seq<char>> {
    lines_behind(Seq::empty(), text)
}

pub fn text_lines(text: &str) -> (lines: Vec<String>)
    ensures
        views(lines@) == lines_of(text@),
{
    let len = text.unicode_len();
    let mut lines: Vec<String> = Vec::new();
    let mut current = String::new();
    let mut i: usize = 0;
    assert(text@.skip(0) =~= text@);
    assert(current@ =~= Seq::<char>::empty());
    assert(views(lines@) + lines_behind(current@, text@) =~= lines_of(text@));
    while i < len
        invariant
            i <= len == text@.len(),
            views(lines@) + lines_behind(current@, text@.skip(i as int)) == lines_of(text@),
        decreases len - i,
    {
        let ghost rest = text@.skip(i as int);
        assert(rest[0] == text@[i as int]);
        assert(rest.skip(1) =~= text@.skip(i + 1));
        let c = text.get_char(i);
        let ends = if c == '\n' {
            1
        } else if c == '\r' && len - i > 1 && text.get_char(i + 1) == '\n' {
            2
        } else {
            0usize
        };
        if ends == 0 {
            current.push(c);
            i = i + 1;
        } else {
            proof {
                if ends == 2 {
                    assert(rest[1] == text@[i + 1]);
                    assert(rest.skip(2) =~= text@.skip(i + 2));
                }
                lemma_views_push(lines@, current);
            }
            let ghost before = views(lines@);
            let ghost line = current@;
            lines.push(current);
            current = String::new();
            assert(current@ =~= Seq::<char>::empty());
            i = i + ends;
            assert(before + (seq![line] + lines_behind(current@, text@.skip(i as int)))
                =~= before.push(line) + lines_behind(current@, text@.skip(i as int)));
        }
    }
    assert(text@.skip(i as int).len() == 0);
    if !current.as_str().is_empty() {
        proof {
            lemma_views_push(lines@, current);
            assert(views(lines@) + seq![current@] =~= views(lines@).push(current@));
        }
        lines.push(current);
    } else {
        assert(views(lines@) + Seq::<Seq<char>>::empty() =~= views(lines@));
    }
    lines
}

// What is in focus.

#[derive(Debug, Clone, Copy, PartialEq, Eq, Structural)]
pub enum FormMode {
    Add,
    Edit,
}

#[derive(Debug, Clone, Copy, PartialEq, Eq, Structural)]
pub enum FormFocus {
    Templates,
    Fields,
    JsonPreview,
    Content,
}

#[derive(Debug, Clone, Copy, PartialEq, Eq, Structural)]
pub enum ProviderFormPage {
    Main,
    UsageQuery,
    CodexLocalRouting,
    LocalProxySettings,
    CodexModelCatalog,
    ClaudeQuickConfig,
    CodexQuickConfig,
}

#[derive(Debug, Clone, Copy, PartialEq, Eq, Structural)]
pub enum CodexPreviewSection {
    Auth,
    Config,
}

#[derive(Debug, Clone, Copy, PartialEq, Eq, Structural)]
pub enum CodexLocalRoutingField {
    Enabled,
    SupportsThinking,
    SupportsEffort,
    ModelCatalog,
}

#[derive(Debug, Clone, Copy, PartialEq, Eq, Structural)]
pub enum LocalProxySettingsField {
    UserAgent,
    HeaderOverrides,
    BodyOverrides,
}

#[derive(Debug, Clone, Copy, PartialEq, Eq, Structural)]
pub enum CodexModelCatalogField {
    Model,
    DisplayName,
    ContextWindow,
}

#[derive(Debug, Clone, Copy, PartialEq, Eq, Structural)]
pub enum UsageQueryTemplate {
    Custom,
    General,
    NewApi,
    Balance,
    GitHubCopilot,
    TokenPlan,
}

#[derive(Debug, Clone, Copy, PartialEq, Eq, Structural)]
pub enum UsageQueryField {
    Enabled,
    Template,
    ApiKey,
    BaseUrl,
    AccessToken,
    UserId,
    Timeout,
    AutoInterval,
    CodingPlanProvider,
    Script,
}

/// A field of the form for a provider.
#[derive(Debug, Clone, Copy, PartialEq, Eq, Structural)]
pub enum ProviderAddField {
    Id,
    Name,
    WebsiteUrl,
    Notes,
    ClaudeBaseUrl,
    ClaudeApiFormat,
    ClaudeApiKey,
    ClaudeModelConfig,
    ClaudeFallbackModel,
    ClaudeQuickConfig,
    ClaudeHideAttribution,
    ClaudeTeammates,
    ClaudeToolSearch,
    ClaudeDisableAutoUpgrade,
    ClaudeAdvancedDivider,
    CodexBaseUrl,
    CodexModel,
    CodexLocalRouting,
    CodexQuickConfig,
    CodexGoalMode,
    CodexRemoteCompaction,
    CodexOAuthAccount,
    CodexFastMode,
    CodexWireApi,
    CodexRequiresOpenaiAuth,
    CodexEnvKey,
    CodexApiKey,
    CodexAdvancedDivider,
    LocalProxySettings,
    GeminiAuthType,
    GeminiApiKey,
    GeminiBaseUrl,
    GeminiModel,
    OpenClawApiProtocol,
    OpenClawUserAgent,
    OpenClawModels,
    OpenCodeNpmPackage,
    OpenCodeApiKey,
    OpenCodeBaseUrl,
    OpenCodeModelId,
    OpenCodeModelName,
    OpenCodeModelContextLimit,
    OpenCodeModelOutputLimit,
    HermesApiMode,
    HermesApiKey,
    HermesBaseUrl,
    HermesModels,
    HermesRateLimitDelay,
    HermesAdvancedDivider,
    CommonConfigDivider,
    CommonSnippet,
    IncludeCommonConfig,
    UsageQueryDivider,
    UsageQuery,
}

/// The form for a provider, as far as help depends on it.
#[derive(Debug)]
pub struct ProviderForm {
    pub app_type: AppType,
    pub mode: FormMode,
    pub page: ProviderFormPage,
    pub focus: FormFocus,
    /// The fields of the main page.
    pub fields: Vec<ProviderAddField>,
    pub field_idx: usize,
    pub codex_preview_section: CodexPreviewSection,
    pub usage_query_template: UsageQueryTemplate,
    pub usage_query_field: Option<UsageQueryField>,
    pub usage_query_extractor_available: bool,
    pub codex_local_routing_field: Option<CodexLocalRoutingField>,
    pub local_proxy_settings_field: Option<LocalProxySettingsField>,
    pub codex_model_catalog_field: CodexModelCatalogField,
    pub claude_quick_config_field: Option<ProviderAddField>,
    pub codex_quick_config_field: Option<ProviderAddField>,
}

/// The form that is open.
#[derive(Debug)]
pub enum OpenForm {
    Absent,
    Provider(ProviderForm),
    Other,
}

/// What lies over the screen, as far as help depends on it.
#[derive(Debug, Clone, Copy, PartialEq, Eq, Structural)]
pub enum HelpOverlay {
    Absent,
    Help,
    UsageQueryTemplatePicker,
    ClaudeApiFormatPicker,
    UserAgentPicker,
    ClaudeModelPicker,
    HermesModelsPicker,
    ManagedAccountPicker,
    ManagedAccountActionPicker,
    SessionProjectPicker,
    Other,
}

/// What help depends on.
#[derive(Debug)]
pub struct HelpFocus {
    pub app_type: AppType,
    pub overlay: HelpOverlay,
    pub editor_open: bool,
    pub filter_active: bool,
    pub route: Route,
    pub form: OpenForm,
}

/// What the help is about.
#[allow(inconsistent_fields)]
#[derive(Debug, Clone, Copy, PartialEq, Eq, Structural)]
pub enum HelpTarget {
    Global,
    Sessions,
    ProviderTemplate,
    ProviderField { app_type: AppType, field: ProviderAddField },
    ProviderPreview { app_type: AppType, section: Option<CodexPreviewSection> },
    UsageQueryField { template: UsageQueryTemplate, field: UsageQueryField },
    CodexLocalRoutingField { field: CodexLocalRoutingField },
    LocalProxySettingsField { field: LocalProxySettingsField },
    CodexModelCatalogField { field: CodexModelCatalogField },
    UsageQueryExtractor { template: UsageQueryTemplate },
    UsageQueryInstructions,
    Empty,
}

/// A text with the product's name at each `{}`.
pub open spec fn named(words: Seq<char>, product: Seq<char>) -> Seq<char>
    decreases words.len(),
{
    if words.len() == 0 {
        Seq::empty()
    } else if words.len() > 1 && words[0] == '{' && words[1] == '}' {
        product + named(words.skip(2), product)
    } else {
        seq![words[0]] + named(words.skip(1), product)
    }
}

/// Puts the product's name into a text.
pub fn with_product(words: &str, product: &str) -> (text: String)
    ensures
        text@ == named(words@, product@),
{
    let len = words.unicode_len();
    let mut text = String::new();
    let mut i: usize = 0;
    assert(words@.skip(0) =~= words@);
    assert(text@ + named(words@, product@) =~= named(words@, product@));
    while i < len
        invariant
            i <= len == words@.len(),
            text@ + named(words@.skip(i as int), product@) == named(words@, product@),
        decreases len - i,
    {
        let ghost rest = words@.skip(i as int);
        let ghost before = text@;
        assert(rest[0] == words@[i as int]);
        let c = words.get_char(i);
        if c == '{' && len - i > 1 && words.get_char(i + 1) == '}' {
            assert(rest[1] == words@[i + 1]);
            assert(rest.skip(2) =~= words@.skip(i + 2));
            text.append(product);
            i = i + 2;
            assert(before + (product@ + named(words@.skip(i as int), product@)) =~= text@ + named(
                words@.skip(i as int),
                product@,
            ));
        } else {
            proof {
                if rest.len() > 1 {
                    assert(rest[1] == words@[i + 1]);
                }
            }
            assert(rest.skip(1) =~= words@.skip(i + 1));
            text.push(c);
            i = i + 1;
            assert(before + (seq![c] + named(words@.skip(i as int), product@)) =~= text@ + named(
                words@.skip(i as int),
                product@,
            ));
        }
    }
    assert(words@.skip(i as int).len() == 0);
    assert(text@ + Seq::<char>::empty() =~= text@);
    text
}

pub open spec fn is_divider(field: ProviderAddField) -> bool {
    ||| field == ProviderAddField::ClaudeAdvancedDivider
    ||| field == ProviderAddField::CodexAdvancedDivider
    ||| field == ProviderAddField::HermesAdvancedDivider
    ||| field == ProviderAddField::CommonConfigDivider
    ||| field == ProviderAddField::UsageQueryDivider
}

fn provider_field_is_divider(field: ProviderAddField) -> (result: bool)
    ensures
        result == is_divider(field),
{
    match field {
        ProviderAddField::ClaudeAdvancedDivider
        | ProviderAddField::CodexAdvancedDivider
        | ProviderAddField::HermesAdvancedDivider
        | ProviderAddField::CommonConfigDivider
        | ProviderAddField::UsageQueryDivider => true,
        _ => false,
    }
}

impl ProviderForm {
    /// The field of the main page that is selected. A selection behind the last
    /// field counts as the last.
    pub open spec fn selected(self) -> Option<ProviderAddField> {
        let len = self.fields@.len();
        if len == 0 {
            None
        } else if self.field_idx < len {
            Some(self.fields@[self.field_idx as int])
        } else {
            Some(self.fields@[len - 1])
        }
    }

    /// Help for a field, if one is selected.
    pub open spec fn field_target(self, field: Option<ProviderAddField>) -> HelpTarget {
        match field {
            Some(field) => HelpTarget::ProviderField { app_type: self.app_type, field },
            None => HelpTarget::Empty,
        }
    }

    /// What the help is about while the form is in focus.
    pub open spec fn target(self) -> HelpTarget {
        let fields = self.focus == FormFocus::Fields;
        match self.page {
            ProviderFormPage::UsageQuery => match self.focus {
                FormFocus::Fields => match self.usage_query_field {
                    Some(field) => HelpTarget::UsageQueryField {
                        template: self.usage_query_template,
                        field,
                    },
                    None => HelpTarget::Empty,
                },
                FormFocus::JsonPreview => if self.usage_query_extractor_available {
                    HelpTarget::UsageQueryExtractor { template: self.usage_query_template }
                } else {
                    HelpTarget::Empty
                },
                FormFocus::Content => if self.usage_query_extractor_available {
                    HelpTarget::UsageQueryInstructions
                } else {
                    HelpTarget::Empty
                },
                FormFocus::Templates => HelpTarget::Empty,
            },
            ProviderFormPage::CodexLocalRouting => match self.codex_local_routing_field {
                Some(field) if fields => HelpTarget::CodexLocalRoutingField { field },
                _ => HelpTarget::Empty,
            },
            ProviderFormPage::LocalProxySettings => match self.local_proxy_settings_field {
                Some(field) if fields => HelpTarget::LocalProxySettingsField { field },
                _ => HelpTarget::Empty,
            },
            ProviderFormPage::CodexModelCatalog => if fields {
                HelpTarget::CodexModelCatalogField { field: self.codex_model_catalog_field }
            } else {
                HelpTarget::Empty
            },
            ProviderFormPage::ClaudeQuickConfig => if fields {
                self.field_target(self.claude_quick_config_field)
            } else {
                HelpTarget::Empty
            },
            ProviderFormPage::CodexQuickConfig => if fields {
                self.field_target(self.codex_quick_config_field)
            } else {
                HelpTarget::Empty
            },
            ProviderFormPage::Main => match self.focus {
                FormFocus::Templates => if self.mode == FormMode::Add {
                    HelpTarget::ProviderTemplate
                } else {
                    HelpTarget::Empty
                },
                FormFocus::Fields => match self.selected() {
                    Some(field) => if is_divider(field) {
                        HelpTarget::Empty
                    } else {
                        HelpTarget::ProviderField { app_type: self.app_type, field }
                    },
                    None => HelpTarget::Empty,
                },
                FormFocus::JsonPreview => HelpTarget::ProviderPreview {
                    app_type: self.app_type,
                    section: if self.app_type == AppType::Codex {
                        Some(self.codex_preview_section)
                    } else {
                        None
                    },
                },
                FormFocus::Content => HelpTarget::Empty,
            },
        }
    }

    fn selected_field(&self) -> (field: Option<ProviderAddField>)
        ensures
            field == self.selected(),
    {
        let len = self.fields.len();
        if len == 0 {
            return None;
        }
        let at = if self.field_idx < len {
            self.field_idx
        } else {
            len - 1
        };
        Some(self.fields[at])
    }

    fn help_target_of(&self, field: Option<ProviderAddField>) -> (target: HelpTarget)
        ensures
            target == self.field_target(field),
    {
        match field {
            Some(field) => HelpTarget::ProviderField { app_type: self.app_type, field },
            None => HelpTarget::Empty,
        }
    }

    fn usage_query_target(&self) -> (target: HelpTarget)
        requires
            self.page == ProviderFormPage::UsageQuery,
        ensures
            target == self.target(),
    {
        match self.focus {
            FormFocus::Fields => match self.usage_query_field {
                Some(field) => HelpTarget::UsageQueryField {
                    template: self.usage_query_template,
                    field,
                },
                None => HelpTarget::Empty,
            },
            FormFocus::JsonPreview => if self.usage_query_extractor_available {
                HelpTarget::UsageQueryExtractor { template: self.usage_query_template }
            } else {
                HelpTarget::Empty
            },
            FormFocus::Content => if self.usage_query_extractor_available {
                HelpTarget::UsageQueryInstructions
            } else {
                HelpTarget::Empty
            },
            FormFocus::Templates => HelpTarget::Empty,
        }
    }

    fn main_target(&self) -> (target: HelpTarget)
        requires
            self.page == ProviderFormPage::Main,
        ensures
            target == self.target(),
    {
        match self.focus {
            FormFocus::Templates => if self.mode == FormMode::Add {
                HelpTarget::ProviderTemplate
            } else {
                HelpTarget::Empty
            },
            FormFocus::Fields => match self.selected_field() {
                Some(field) => if provider_field_is_divider(field) {
                    HelpTarget::Empty
                } else {
                    HelpTarget::ProviderField { app_type: self.app_type, field }
                },
                None => HelpTarget::Empty,
            },
            FormFocus::JsonPreview => HelpTarget::ProviderPreview {
                app_type: self.app_type,
                section: if self.app_type == AppType::Codex {
                    Some(self.codex_preview_section)
                } else {
                    None
                },
            },
            FormFocus::Content => HelpTarget::Empty,
        }
    }

    fn help_target(&self) -> (target: HelpTarget)
        ensures
            target == self.target(),
    {
        let fields = self.focus == FormFocus::Fields;
        match self.page {
            ProviderFormPage::UsageQuery => self.usage_query_target(),
            ProviderFormPage::Main => self.main_target(),
            _ => if !fields {
                HelpTarget::Empty
            } else {
                match self.page {
                    ProviderFormPage::CodexLocalRouting => match self.codex_local_routing_field {
                        Some(field) => HelpTarget::CodexLocalRoutingField { field },
                        None => HelpTarget::Empty,
                    },
                    ProviderFormPage::LocalProxySettings => {
                        match self.local_proxy_settings_field {
                            Some(field) => HelpTarget::LocalProxySettingsField { field },
                            None => HelpTarget::Empty,
                        }
                    },
                    ProviderFormPage::CodexModelCatalog => HelpTarget::CodexModelCatalogField {
                        field: self.codex_model_catalog_field,
                    },
                    ProviderFormPage::ClaudeQuickConfig => self.help_target_of(
                        self.claude_quick_config_field,
                    ),
                    _ => self.help_target_of(self.codex_quick_config_field),
                }
            },
        }
    }
}

impl HelpFocus {
    /// Help for a field of the provider form that a picker is open for.
    pub open spec fn picked_field(self, field: ProviderAddField) -> HelpTarget {
        match self.form {
            OpenForm::Provider(form) => HelpTarget::ProviderField {
                app_type: form.app_type,
                field,
            },
            _ => HelpTarget::Global,
        }
    }

    /// What the help is about while something lies over the screen.
    pub open spec fn overlay_target(self) -> HelpTarget {
        match self.overlay {
            HelpOverlay::UsageQueryTemplatePicker => match self.form {
                OpenForm::Provider(form) => HelpTarget::UsageQueryField {
                    template: form.usage_query_template,
                    field: UsageQueryField::Template,
                },
                _ => HelpTarget::Global,
            },
            HelpOverlay::UserAgentPicker => if self.form is Provider {
                HelpTarget::LocalProxySettingsField { field: LocalProxySettingsField::UserAgent }
            } else {
                HelpTarget::Global
            },
            HelpOverlay::ClaudeApiFormatPicker => self.picked_field(
                ProviderAddField::ClaudeApiFormat,
            ),
            HelpOverlay::ClaudeModelPicker => self.picked_field(
                ProviderAddField::ClaudeModelConfig,
            ),
            HelpOverlay::HermesModelsPicker => self.picked_field(ProviderAddField::HermesModels),
            HelpOverlay::ManagedAccountPicker
            | HelpOverlay::ManagedAccountActionPicker => self.picked_field(
                ProviderAddField::CodexOAuthAccount,
            ),
            HelpOverlay::SessionProjectPicker => HelpTarget::Sessions,
            HelpOverlay::Absent | HelpOverlay::Help | HelpOverlay::Other => HelpTarget::Global,
        }
    }

    /// What the help is about. While text is typed into an editor or a filter
    /// there is none.
    pub open spec fn target(self) -> HelpTarget {
        if self.overlay != HelpOverlay::Absent {
            self.overlay_target()
        } else if self.editor_open || self.filter_active {
            HelpTarget::Empty
        } else if self.route is Sessions {
            HelpTarget::Sessions
        } else {
            match self.form {
                OpenForm::Provider(form) => form.target(),
                _ => HelpTarget::Global,
            }
        }
    }

    fn provider_field_overlay_target(&self, field: ProviderAddField) -> (target: HelpTarget)
        ensures
            target == self.picked_field(field),
    {
        match &self.form {
            OpenForm::Provider(form) => HelpTarget::ProviderField {
                app_type: form.app_type,
                field,
            },
            _ => HelpTarget::Global,
        }
    }

    fn current_overlay_target(&self) -> (target: HelpTarget)
        ensures
            target == self.overlay_target(),
    {
        match self.overlay {
            HelpOverlay::UsageQueryTemplatePicker => match &self.form {
                OpenForm::Provider(form) => HelpTarget::UsageQueryField {
                    template: form.usage_query_template,
                    field: UsageQueryField::Template,
                },
                _ => HelpTarget::Global,
            },
            HelpOverlay::UserAgentPicker => match &self.form {
                OpenForm::Provider(_) => HelpTarget::LocalProxySettingsField {
                    field: LocalProxySettingsField::UserAgent,
                },
                _ => HelpTarget::Global,
            },
            HelpOverlay::ClaudeApiFormatPicker => self.provider_field_overlay_target(
                ProviderAddField::ClaudeApiFormat,
            ),
            HelpOverlay::ClaudeModelPicker => self.provider_field_overlay_target(
                ProviderAddField::ClaudeModelConfig,
            ),
            HelpOverlay::HermesModelsPicker => self.provider_field_overlay_target(
                ProviderAddField::HermesModels,
            ),
            HelpOverlay::ManagedAccountPicker
            | HelpOverlay::ManagedAccountActionPicker => self.provider_field_overlay_target(
                ProviderAddField::CodexOAuthAccount,
            ),
            HelpOverlay::SessionProjectPicker => HelpTarget::Sessions,
            HelpOverlay::Absent | HelpOverlay::Help | HelpOverlay::Other => HelpTarget::Global,
        }
    }

    /// What the help is about.
    pub fn current_help_target(&self) -> (target: HelpTarget)
        ensures
            target == self.target(),
    {
        if self.overlay != HelpOverlay::Absent {
            return self.current_overlay_target();
        }
        if self.editor_open || self.filter_active {
            return HelpTarget::Empty;
        }
        match self.route {
            Route::Sessions => {
                return HelpTarget::Sessions;
            },
            _ => {},
        }
        match &self.form {
            OpenForm::Provider(form) => form.help_target(),
            _ => HelpTarget::Global,
        }
    }
}

// Topics.

/// The help for a field of the provider form, if there is any.
pub open spec fn field_topic(app_type: AppType, field: ProviderAddField) -> Option<HelpTopic> {
    match field {
        ProviderAddField::Id => Some(HelpTopic::ProviderId),
        ProviderAddField::Name => Some(HelpTopic::ProviderName),
        ProviderAddField::WebsiteUrl => Some(HelpTopic::Website),
        ProviderAddField::Notes => Some(HelpTopic::Notes),
        ProviderAddField::ClaudeBaseUrl
        | ProviderAddField::CodexBaseUrl
        | ProviderAddField::GeminiBaseUrl
        | ProviderAddField::OpenCodeBaseUrl
        | ProviderAddField::HermesBaseUrl => if app_type == AppType::Codex {
            Some(HelpTopic::CodexBaseUrl)
        } else {
            Some(HelpTopic::BaseUrl)
        },
        ProviderAddField::ClaudeApiKey
        | ProviderAddField::CodexApiKey
        | ProviderAddField::GeminiApiKey
        | ProviderAddField::OpenCodeApiKey
        | ProviderAddField::HermesApiKey => Some(HelpTopic::ApiKey),
        ProviderAddField::CodexModel => Some(HelpTopic::CodexModel),
        ProviderAddField::CodexLocalRouting => Some(HelpTopic::CodexModelMapping),
        ProviderAddField::LocalProxySettings => Some(HelpTopic::LocalProxySettings),
        ProviderAddField::ClaudeModelConfig => Some(HelpTopic::ClaudeModelConfig),
        ProviderAddField::ClaudeApiFormat => if app_type == AppType::Codex {
            Some(HelpTopic::CodexUpstreamFormat)
        } else {
            Some(HelpTopic::ClaudeApiFormat)
        },
        ProviderAddField::ClaudeFallbackModel => Some(HelpTopic::ClaudeFallbackModel),
        ProviderAddField::ClaudeQuickConfig => Some(HelpTopic::ClaudeQuickConfig),
        ProviderAddField::CodexQuickConfig => Some(HelpTopic::CodexQuickConfig),
        ProviderAddField::CodexGoalMode => Some(HelpTopic::CodexGoalMode),
        ProviderAddField::CodexRemoteCompaction => Some(HelpTopic::CodexRemoteCompaction),
        ProviderAddField::ClaudeHideAttribution => Some(HelpTopic::ClaudeHideAttribution),
        ProviderAddField::ClaudeTeammates => Some(HelpTopic::ClaudeTeammates),
        ProviderAddField::ClaudeToolSearch => Some(HelpTopic::ClaudeToolSearch),
        ProviderAddField::ClaudeDisableAutoUpgrade => Some(HelpTopic::ClaudeDisableAutoUpgrade),
        ProviderAddField::CodexOAuthAccount => Some(HelpTopic::ChatGptAccount),
        ProviderAddField::CodexFastMode => Some(HelpTopic::CodexFastMode),
        ProviderAddField::CommonSnippet => Some(HelpTopic::CommonSnippet),
        ProviderAddField::IncludeCommonConfig => Some(HelpTopic::AttachCommonConfig),
        ProviderAddField::UsageQuery => Some(HelpTopic::UsageQuery),
        ProviderAddField::GeminiAuthType => Some(HelpTopic::GeminiAuthType),
        ProviderAddField::GeminiModel
        | ProviderAddField::OpenCodeModelId
        | ProviderAddField::OpenCodeModelName => Some(HelpTopic::ModelName),
        ProviderAddField::OpenClawApiProtocol => Some(HelpTopic::OpenClawApi),
        ProviderAddField::OpenCodeNpmPackage => Some(HelpTopic::ProviderPackage),
        ProviderAddField::OpenClawUserAgent => Some(HelpTopic::OpenClawUserAgent),
        ProviderAddField::OpenClawModels => Some(HelpTopic::OpenClawModels),
        ProviderAddField::OpenCodeModelContextLimit => Some(HelpTopic::ContextLimit),
        ProviderAddField::OpenCodeModelOutputLimit => Some(HelpTopic::OutputLimit),
        ProviderAddField::HermesApiMode => Some(HelpTopic::HermesApiMode),
        ProviderAddField::HermesModels => Some(HelpTopic::HermesModels),
        ProviderAddField::HermesRateLimitDelay => Some(HelpTopic::HermesRateLimitDelay),
        ProviderAddField::CodexWireApi
        | ProviderAddField::CodexRequiresOpenaiAuth
        | ProviderAddField::CodexEnvKey
        | ProviderAddField::ClaudeAdvancedDivider
        | ProviderAddField::CodexAdvancedDivider
        | ProviderAddField::HermesAdvancedDivider
        | ProviderAddField::CommonConfigDivider
        | ProviderAddField::UsageQueryDivider => None,
    }
}

fn topic_of_field(app_type: AppType, field: ProviderAddField) -> (topic: Option<HelpTopic>)
    ensures
        topic == field_topic(app_type, field),
{
    match field {
        ProviderAddField::Id => Some(HelpTopic::ProviderId),
        ProviderAddField::Name => Some(HelpTopic::ProviderName),
        ProviderAddField::WebsiteUrl => Some(HelpTopic::Website),
        ProviderAddField::Notes => Some(HelpTopic::Notes),
        ProviderAddField::ClaudeBaseUrl
        | ProviderAddField::CodexBaseUrl
        | ProviderAddField::GeminiBaseUrl
        | ProviderAddField::OpenCodeBaseUrl
        | ProviderAddField::HermesBaseUrl => if app_type == AppType::Codex {
            Some(HelpTopic::CodexBaseUrl)
        } else {
            Some(HelpTopic::BaseUrl)
        },
        ProviderAddField::ClaudeApiKey
        | ProviderAddField::CodexApiKey
        | ProviderAddField::GeminiApiKey
        | ProviderAddField::OpenCodeApiKey
        | ProviderAddField::HermesApiKey => Some(HelpTopic::ApiKey),
        ProviderAddField::CodexModel => Some(HelpTopic::CodexModel),
        ProviderAddField::CodexLocalRouting => Some(HelpTopic::CodexModelMapping),
        ProviderAddField::LocalProxySettings => Some(HelpTopic::LocalProxySettings),
        ProviderAddField::ClaudeModelConfig => Some(HelpTopic::ClaudeModelConfig),
        ProviderAddField::ClaudeApiFormat => if app_type == AppType::Codex {
            Some(HelpTopic::CodexUpstreamFormat)
        } else {
            Some(HelpTopic::ClaudeApiFormat)
        },
        ProviderAddField::ClaudeFallbackModel => Some(HelpTopic::ClaudeFallbackModel),
        ProviderAddField::ClaudeQuickConfig => Some(HelpTopic::ClaudeQuickConfig),
        ProviderAddField::CodexQuickConfig => Some(HelpTopic::CodexQuickConfig),
        ProviderAddField::CodexGoalMode => Some(HelpTopic::CodexGoalMode),
        ProviderAddField::CodexRemoteCompaction => Some(HelpTopic::CodexRemoteCompaction),
        ProviderAddField::ClaudeHideAttribution => Some(HelpTopic::ClaudeHideAttribution),
        ProviderAddField::ClaudeTeammates => Some(HelpTopic::ClaudeTeammates),
        ProviderAddField::ClaudeToolSearch => Some(HelpTopic::ClaudeToolSearch),
        ProviderAddField::ClaudeDisableAutoUpgrade => Some(HelpTopic::ClaudeDisableAutoUpgrade),
        ProviderAddField::CodexOAuthAccount => Some(HelpTopic::ChatGptAccount),
        ProviderAddField::CodexFastMode => Some(HelpTopic::CodexFastMode),
        ProviderAddField::CommonSnippet => Some(HelpTopic::CommonSnippet),
        ProviderAddField::IncludeCommonConfig => Some(HelpTopic::AttachCommonConfig),
        ProviderAddField::UsageQuery => Some(HelpTopic::UsageQuery),
        ProviderAddField::GeminiAuthType => Some(HelpTopic::GeminiAuthType),
        ProviderAddField::GeminiModel
        | ProviderAddField::OpenCodeModelId
        | ProviderAddField::OpenCodeModelName => Some(HelpTopic::ModelName),
        ProviderAddField::OpenClawApiProtocol => Some(HelpTopic::OpenClawApi),
        ProviderAddField::OpenCodeNpmPackage => Some(HelpTopic::ProviderPackage),
        ProviderAddField::OpenClawUserAgent => Some(HelpTopic::OpenClawUserAgent),
        ProviderAddField::OpenClawModels => Some(HelpTopic::OpenClawModels),
        ProviderAddField::OpenCodeModelContextLimit => Some(HelpTopic::ContextLimit),
        ProviderAddField::OpenCodeModelOutputLimit => Some(HelpTopic::OutputLimit),
        ProviderAddField::HermesApiMode => Some(HelpTopic::HermesApiMode),
        ProviderAddField::HermesModels => Some(HelpTopic::HermesModels),
        ProviderAddField::HermesRateLimitDelay => Some(HelpTopic::HermesRateLimitDelay),
        ProviderAddField::CodexWireApi
        | ProviderAddField::CodexRequiresOpenaiAuth
        | ProviderAddField::CodexEnvKey
        | ProviderAddField::ClaudeAdvancedDivider
        | ProviderAddField::CodexAdvancedDivider
        | ProviderAddField::HermesAdvancedDivider
        | ProviderAddField::CommonConfigDivider
        | ProviderAddField::UsageQueryDivider => None,
    }
}

pub open spec fn preview_topic(
    app_type: AppType,
    section: Option<CodexPreviewSection>,
) -> HelpTopic {
    if app_type == AppType::Codex && section == Some(CodexPreviewSection::Auth) {
        HelpTopic::CodexAuthPreview
    } else if app_type == AppType::Codex && section == Some(CodexPreviewSection::Config) {
        HelpTopic::CodexConfigPreview
    } else {
        HelpTopic::Preview
    }
}

fn provider_preview_help(app_type: AppType, section: Option<CodexPreviewSection>) -> (topic:
    HelpTopic)
    ensures
        topic == preview_topic(app_type, section),
{
    match (app_type, section) {
        (AppType::Codex, Some(CodexPreviewSection::Auth)) => HelpTopic::CodexAuthPreview,
        (AppType::Codex, Some(CodexPreviewSection::Config)) => HelpTopic::CodexConfigPreview,
        _ => HelpTopic::Preview,
    }
}

pub open spec fn routing_topic(field: CodexLocalRoutingField) -> HelpTopic {
    match field {
        CodexLocalRoutingField::Enabled => HelpTopic::LocalRoutingEnabled,
        CodexLocalRoutingField::SupportsThinking => HelpTopic::LocalRoutingThinking,
        CodexLocalRoutingField::SupportsEffort => HelpTopic::LocalRoutingEffort,
        CodexLocalRoutingField::ModelCatalog => HelpTopic::LocalRoutingCatalog,
    }
}

fn codex_local_routing_field_help(field: CodexLocalRoutingField) -> (topic: HelpTopic)
    ensures
        topic == routing_topic(field),
{
    match field {
        CodexLocalRoutingField::Enabled => HelpTopic::LocalRoutingEnabled,
        CodexLocalRoutingField::SupportsThinking => HelpTopic::LocalRoutingThinking,
        CodexLocalRoutingField::SupportsEffort => HelpTopic::LocalRoutingEffort,
        CodexLocalRoutingField::ModelCatalog => HelpTopic::LocalRoutingCatalog,
    }
}

pub open spec fn proxy_topic(field: LocalProxySettingsField) -> HelpTopic {
    match field {
        LocalProxySettingsField::UserAgent => HelpTopic::ProxyUserAgent,
        LocalProxySettingsField::HeaderOverrides => HelpTopic::ProxyHeaderOverrides,
        LocalProxySettingsField::BodyOverrides => HelpTopic::ProxyBodyOverrides,
    }
}

fn local_proxy_settings_field_help(field: LocalProxySettingsField) -> (topic: HelpTopic)
    ensures
        topic == proxy_topic(field),
{
    match field {
        LocalProxySettingsField::UserAgent => HelpTopic::ProxyUserAgent,
        LocalProxySettingsField::HeaderOverrides => HelpTopic::ProxyHeaderOverrides,
        LocalProxySettingsField::BodyOverrides => HelpTopic::ProxyBodyOverrides,
    }
}

pub open spec fn catalog_topic(field: CodexModelCatalogField) -> HelpTopic {
    match field {
        CodexModelCatalogField::Model => HelpTopic::CatalogModel,
        CodexModelCatalogField::DisplayName => HelpTopic::CatalogDisplayName,
        CodexModelCatalogField::ContextWindow => HelpTopic::CatalogContextWindow,
    }
}

fn codex_model_catalog_field_help(field: CodexModelCatalogField) -> (topic: HelpTopic)
    ensures
        topic == catalog_topic(field),
{
    match field {
        CodexModelCatalogField::Model => HelpTopic::CatalogModel,
        CodexModelCatalogField::DisplayName => HelpTopic::CatalogDisplayName,
        CodexModelCatalogField::ContextWindow => HelpTopic::CatalogContextWindow,
    }
}

pub open spec fn extractor_topic(template: UsageQueryTemplate) -> Option<HelpTopic> {
    match template {
        UsageQueryTemplate::Custom => Some(HelpTopic::CustomExtractor),
        UsageQueryTemplate::General => Some(HelpTopic::GeneralExtractor),
        UsageQueryTemplate::NewApi => Some(HelpTopic::NewApiExtractor),
        UsageQueryTemplate::Balance => Some(HelpTopic::BalanceExtractor),
        UsageQueryTemplate::GitHubCopilot | UsageQueryTemplate::TokenPlan => None,
    }
}

/// What is said of the extractor of a template. Where nothing is known of it,
/// that is said under the extractor's own title.
pub open spec fn extractor_content(
    template: UsageQueryTemplate,
    product: Seq<char>,
    language: Language,
) -> HelpContentView {
    match extractor_topic(template) {
        Some(topic) => topic_content(topic, product, language),
        None => headed(
            TextView::plain(TextKey::Help(HelpLabel::UsageQueryScriptPreview)),
            language,
            seq![worded(language, NO_HELP_ZH, NO_HELP_EN)],
        ),
    }
}

fn usage_query_extractor_help(
    template: UsageQueryTemplate,
    product: &str,
    language: Language,
) -> (content: HelpContent)
    ensures
        content@ == extractor_content(template, product@, language),
{
    match template {
        UsageQueryTemplate::Custom => topic_help(HelpTopic::CustomExtractor, product, language),
        UsageQueryTemplate::General => topic_help(HelpTopic::GeneralExtractor, product, language),
        UsageQueryTemplate::NewApi => topic_help(HelpTopic::NewApiExtractor, product, language),
        UsageQueryTemplate::Balance => topic_help(HelpTopic::BalanceExtractor, product, language),
        UsageQueryTemplate::GitHubCopilot | UsageQueryTemplate::TokenPlan => {
            let lines: Vec<String> = vec![tr(language, NO_HELP_ZH, NO_HELP_EN).to_owned()];
            assert(views(lines@) =~= seq![worded(language, NO_HELP_ZH, NO_HELP_EN)]);
            HelpContent::new(
                Text::plain(TextKey::Help(HelpLabel::UsageQueryScriptPreview)),
                language,
                lines,
            )
        },
    }
}

/// The help for a field of the usage query, but for its script.
pub open spec fn usage_query_topic(
    template: UsageQueryTemplate,
    field: UsageQueryField,
) -> Option<HelpTopic> {
    match field {
        UsageQueryField::Enabled => Some(HelpTopic::UsageQueryEnabled),
        UsageQueryField::Template => Some(HelpTopic::UsageQueryTemplate),
        UsageQueryField::ApiKey => Some(HelpTopic::UsageQueryApiKey),
        UsageQueryField::BaseUrl => if template == UsageQueryTemplate::NewApi {
            Some(HelpTopic::NewApiBaseUrl)
        } else {
            Some(HelpTopic::GeneralBaseUrl)
        },
        UsageQueryField::AccessToken | UsageQueryField::UserId => Some(
            HelpTopic::NewApiCredentials,
        ),
        UsageQueryField::Timeout => Some(HelpTopic::UsageQueryTimeout),
        UsageQueryField::AutoInterval => Some(HelpTopic::UsageQueryInterval),
        UsageQueryField::CodingPlanProvider | UsageQueryField::Script => None,
    }
}

pub open spec fn usage_query_content(
    template: UsageQueryTemplate,
    field: UsageQueryField,
    product: Seq<char>,
    language: Language,
) -> HelpContentView {
    if field == UsageQueryField::Script {
        extractor_content(template, product, language)
    } else {
        optional_content(usage_query_topic(template, field), product, language)
    }
}

fn usage_query_field_help(
    template: UsageQueryTemplate,
    field: UsageQueryField,
    product: &str,
    language: Language,
) -> (content: HelpContent)
    ensures
        content@ == usage_query_content(template, field, product@, language),
{
    let topic = match field {
        UsageQueryField::Enabled => HelpTopic::UsageQueryEnabled,
        UsageQueryField::Template => HelpTopic::UsageQueryTemplate,
        UsageQueryField::ApiKey => HelpTopic::UsageQueryApiKey,
        UsageQueryField::BaseUrl => if template == UsageQueryTemplate::NewApi {
            HelpTopic::NewApiBaseUrl
        } else {
            HelpTopic::GeneralBaseUrl
        },
        UsageQueryField::AccessToken | UsageQueryField::UserId => HelpTopic::NewApiCredentials,
        UsageQueryField::Timeout => HelpTopic::UsageQueryTimeout,
        UsageQueryField::AutoInterval => HelpTopic::UsageQueryInterval,
        UsageQueryField::CodingPlanProvider => {
            return HelpContent::empty(language);
        },
        UsageQueryField::Script => {
            return usage_query_extractor_help(template, product, language);
        },
    };
    topic_help(topic, product, language)
}

// The content of a topic.

pub open spec fn topic_content(
    topic: HelpTopic,
    product: Seq<char>,
    language: Language,
) -> HelpContentView {
    headed(topic.heading(language), language, lines_of(named(topic.body(language), product)))
}

pub open spec fn optional_content(
    topic: Option<HelpTopic>,
    product: Seq<char>,
    language: Language,
) -> HelpContentView {
    match topic {
        Some(topic) => topic_content(topic, product, language),
        None => no_help(language),
    }
}

/// What is said of a topic.
pub fn topic_help(topic: HelpTopic, product: &str, language: Language) -> (content: HelpContent)
    ensures
        content@ == topic_content(topic, product@, language),
{
    let words = with_product(topic.words(language), product);
    HelpContent::new(topic.title(language), language, text_lines(words.as_str()))
}

// The global sheet.

/// A key and what it does.
#[derive(Debug)]
pub struct KeyHint {
    pub display: String,
    pub label: String,
}

/// What the global sheet is made of: its fixed lines, and for each page the keys
/// that it takes at present.
#[derive(Debug)]
pub struct HelpSheet {
    /// The name of the product whose settings are explained.
    pub product: String,
    pub prelude: String,
    pub providers_line: String,
    pub memory_line: String,
    pub config_line: String,
    pub settings_line: String,
    pub mcp: Vec<KeyHint>,
    pub prompts: Vec<KeyHint>,
    pub sessions: Vec<KeyHint>,
    pub skills: Vec<KeyHint>,
    pub usage: Vec<KeyHint>,
    /// How a usage script is written.
    pub usage_script: Vec<String>,
}

pub open spec fn bullet(line: Seq<char>) -> Seq<char> {
    "- "@ + line
}

/// The keys of a page, one after the other.
pub open spec fn hints(items: Seq<KeyHint>, separator: Seq<char>) -> Seq<char>
    decreases items.len(),
{
    if items.len() == 0 {
        Seq::empty()
    } else {
        let last = items.last().display@ + " "@ + items.last().label@;
        if items.len() == 1 {
            last
        } else {
            hints(items.drop_last(), separator) + separator + last
        }
    }
}

pub open spec fn page_line(
    language: Language,
    name: Seq<char>,
    items: Seq<KeyHint>,
) -> Seq<char> {
    let (colon, separator) = match language {
        Language::Chinese => ("："@, "，"@),
        Language::English => (": "@, ", "@),
    };
    "- "@ + name + colon + hints(items, separator)
}

fn keymap_bullet(language: Language, name: &str, items: &Vec<KeyHint>) -> (line: String)
    ensures
        line@ == page_line(language, name@, items@),
{
    let (colon, separator) = match language {
        Language::Chinese => ("：", "，"),
        Language::English => (": ", ", "),
    };
    let mut keys = String::new();
    let mut i: usize = 0;
    assert(keys@ =~= hints(items@.take(0), separator@));
    while i < items.len()
        invariant
            i <= items@.len(),
            keys@ == hints(items@.take(i as int), separator@),
        decreases items@.len() - i,
    {
        let ghost seen = items@.take(i + 1);
        assert(seen.drop_last() =~= items@.take(i as int));
        assert(seen.last() == items@[i as int]);
        if i > 0 {
            keys.append(separator);
        }
        let hint = joined(
            joined(items[i].display.as_str(), " ").as_str(),
            items[i].label.as_str(),
        );
        keys.append(hint.as_str());
        i = i + 1;
        assert(keys@ =~= hints(seen, separator@));
    }
    assert(items@.take(i as int) =~= items@);
    let mut line = joined("- ", name);
    line.append(colon);
    line.append(keys.as_str());
    line
}

/// The global sheet. Hermes has its memory in place of prompts, and no page for
/// its configuration.
pub open spec fn global_lines(
    app_type: AppType,
    sheet: HelpSheet,
    language: Language,
) -> Seq<Seq<char>> {
    let hermes = app_type == AppType::Hermes;
    let first = lines_of(sheet.prelude@).push(bullet(sheet.providers_line@)).push(
        page_line(language, "MCP"@, sheet.mcp@),
    ).push(
        if hermes {
            bullet(sheet.memory_line@)
        } else {
            page_line(language, worded(language, "提示词", "Prompts"), sheet.prompts@)
        },
    ).push(
        page_line(language, worded(language, "会话", "Sessions"), sheet.sessions@),
    ).push(page_line(language, worded(language, "技能", "Skills"), sheet.skills@)).push(
        page_line(language, worded(language, "使用统计", "Usage"), sheet.usage@),
    );
    (if hermes {
        first
    } else {
        first.push(bullet(sheet.config_line@))
    }).push(bullet(sheet.settings_line@))
}

fn add_line(lines: &mut Vec<String>, line: String)
    ensures
        views(final(lines)@) == views(old(lines)@).push(line@),
{
    proof {
        lemma_views_push(lines@, line);
    }
    lines.push(line);
}

fn global_help_lines(app_type: AppType, sheet: &HelpSheet, language: Language) -> (lines: Vec<
    String,
>)
    ensures
        views(lines@) == global_lines(app_type, *sheet, language),
{
    let hermes = app_type == AppType::Hermes;
    let mut lines = text_lines(sheet.prelude.as_str());
    add_line(&mut lines, joined("- ", sheet.providers_line.as_str()));
    add_line(&mut lines, keymap_bullet(language, "MCP", &sheet.mcp));
    if hermes {
        add_line(&mut lines, joined("- ", sheet.memory_line.as_str()));
    } else {
        add_line(
            &mut lines,
            keymap_bullet(language, tr(language, "提示词", "Prompts"), &sheet.prompts),
        );
    }
    add_line(
        &mut lines,
        keymap_bullet(language, tr(language, "会话", "Sessions"), &sheet.sessions),
    );
    add_line(&mut lines, keymap_bullet(language, tr(language, "技能", "Skills"), &sheet.skills));
    add_line(
        &mut lines,
        keymap_bullet(language, tr(language, "使用统计", "Usage"), &sheet.usage),
    );
    if !hermes {
        add_line(&mut lines, joined("- ", sheet.config_line.as_str()));
    }
    add_line(&mut lines, joined("- ", sheet.settings_line.as_str()));
    lines
}

// Help.

/// What is said of a field of the form for a provider.
pub open spec fn field_content(
    app_type: AppType,
    field: ProviderAddField,
    product: Seq<char>,
    language: Language,
) -> HelpContentView {
    optional_content(field_topic(app_type, field), product, language)
}

/// The help for a field of the form for a provider.
pub fn provider_field_help(
    app_type: AppType,
    field: ProviderAddField,
    product: &str,
    language: Language,
) -> (content: HelpContent)
    ensures
        content@ == field_content(app_type, field, product@, language),
{
    match topic_of_field(app_type, field) {
        Some(topic) => topic_help(topic, product, language),
        None => HelpContent::empty(language),
    }
}

/// What is shown of a target.
pub open spec fn target_content(
    target: HelpTarget,
    app_type: AppType,
    sheet: HelpSheet,
    language: Language,
) -> HelpContentView {
    match target {
        HelpTarget::Global => headed(
            TextView::plain(TextKey::Help(HelpLabel::Help)),
            language,
            global_lines(app_type, sheet, language),
        ),
        HelpTarget::Sessions => topic_content(
            HelpTopic::Sessions,
            sheet.product@,
            language,
        ),
        HelpTarget::ProviderTemplate => topic_content(
            HelpTopic::ProviderTemplate,
            sheet.product@,
            language,
        ),
        HelpTarget::ProviderField { app_type, field } => field_content(
            app_type,
            field,
            sheet.product@,
            language,
        ),
        HelpTarget::ProviderPreview { app_type, section } => topic_content(
            preview_topic(app_type, section),
            sheet.product@,
            language,
        ),
        HelpTarget::UsageQueryField { template, field } => usage_query_content(
            template,
            field,
            sheet.product@,
            language,
        ),
        HelpTarget::CodexLocalRoutingField { field } => topic_content(
            routing_topic(field),
            sheet.product@,
            language,
        ),
        HelpTarget::LocalProxySettingsField { field } => topic_content(
            proxy_topic(field),
            sheet.product@,
            language,
        ),
        HelpTarget::CodexModelCatalogField { field } => topic_content(
            catalog_topic(field),
            sheet.product@,
            language,
        ),
        HelpTarget::UsageQueryExtractor { template } => extractor_content(
            template,
            sheet.product@,
            language,
        ),
        HelpTarget::UsageQueryInstructions => headed(
            TextView::plain(TextKey::Help(HelpLabel::UsageQueryScriptHelp)),
            language,
            views(sheet.usage_script@),
        ),
        HelpTarget::Empty => no_help(language),
    }
}

/// The help for a target.
pub fn help_for_target(
    target: HelpTarget,
    app_type: AppType,
    sheet: &HelpSheet,
    language: Language,
) -> (content: HelpContent)
    ensures
        content@ == target_content(target, app_type, *sheet, language),
{
    let product = sheet.product.as_str();
    match target {
        HelpTarget::Global => HelpContent::new(
            Text::plain(TextKey::Help(HelpLabel::Help)),
            language,
            global_help_lines(app_type, sheet, language),
        ),
        HelpTarget::Sessions => topic_help(HelpTopic::Sessions, product, language),
        HelpTarget::ProviderTemplate => topic_help(HelpTopic::ProviderTemplate, product, language),
        HelpTarget::ProviderField { app_type, field } => provider_field_help(
            app_type,
            field,
            product,
            language,
        ),
        HelpTarget::ProviderPreview { app_type, section } => topic_help(
            provider_preview_help(app_type, section),
            product,
            language,
        ),
        HelpTarget::UsageQueryField { template, field } => usage_query_field_help(
            template,
            field,
            product,
            language,
        ),
        HelpTarget::CodexLocalRoutingField { field } => topic_help(
            codex_local_routing_field_help(field),
            product,
            language,
        ),
        HelpTarget::LocalProxySettingsField { field } => topic_help(
            local_proxy_settings_field_help(field),
            product,
            language,
        ),
        HelpTarget::CodexModelCatalogField { field } => topic_help(
            codex_model_catalog_field_help(field),
            product,
            language,
        ),
        HelpTarget::UsageQueryExtractor { template } => usage_query_extractor_help(
            template,
            product,
            language,
        ),
        HelpTarget::UsageQueryInstructions => HelpContent::new(
            Text::plain(TextKey::Help(HelpLabel::UsageQueryScriptHelp)),
            language,
            duplicate_all(&sheet.usage_script),
        ),
        HelpTarget::Empty => HelpContent::empty(language),
    }
}

/// The help for what is in focus.
pub fn context_help_for_app(focus: &HelpFocus, sheet: &HelpSheet, language: Language) -> (content:
    HelpContent)
    ensures
        content@ == target_content(focus.target(), focus.app_type, *sheet, language),
{
    help_for_target(focus.current_help_target(), focus.app_type, sheet, language)
}

/// Help follows the field in focus: the selected field of the form, wherever it
/// stands, is what the help is about.
pub proof fn help_follows_the_field(focus: HelpFocus, form: ProviderForm, at: int)
    requires
        focus.overlay == HelpOverlay::Absent,
        !focus.editor_open && !focus.filter_active,
        !(focus.route is Sessions),
        focus.form == OpenForm::Provider(form),
        form.page == ProviderFormPage::Main,
        form.focus == FormFocus::Fields,
        0 <= at < form.fields@.len(),
        at == form.field_idx,
        !is_divider(form.fields@[at]),
    ensures
        focus.target() == (HelpTarget::ProviderField {
            app_type: form.app_type,
            field: form.fields@[at],
        }),
{
}

/// Lines that only set fields apart never have help, wherever they turn up.
pub proof fn dividers_have_no_help(
    app_type: AppType,
    field: ProviderAddField,
    sheet: HelpSheet,
    language: Language,
)
    requires
        is_divider(field),
    ensures
        target_content(
            HelpTarget::ProviderField { app_type, field },
            app_type,
            sheet,
            language,
        ) == no_help(language),
{
}

/// Only where a provider is reached, and in which format, is explained for each
/// application: what is said of every other field is the same for all of them.
pub proof fn help_is_shared_by_applications(
    one: AppType,
    other: AppType,
    field: ProviderAddField,
    product: Seq<char>,
    language: Language,
)
    requires
        field != ProviderAddField::ClaudeApiFormat,
        field != ProviderAddField::ClaudeBaseUrl,
        field != ProviderAddField::CodexBaseUrl,
        field != ProviderAddField::GeminiBaseUrl,
        field != ProviderAddField::OpenCodeBaseUrl,
        field != ProviderAddField::HermesBaseUrl,
    ensures
        field_content(one, field, product, language) == field_content(
            other,
            field,
            product,
            language,
        ),
{
}

/// Every field is explained, but for the lines that set fields apart and three
/// settings of Codex.
pub proof fn fields_without_help(
    app_type: AppType,
    field: ProviderAddField,
    product: Seq<char>,
    language: Language,
)
    ensures
        field_content(app_type, field, product, language) == no_help(language) <==> {
            ||| is_divider(field)
            ||| field == ProviderAddField::CodexWireApi
            ||| field == ProviderAddField::CodexRequiresOpenaiAuth
            ||| field == ProviderAddField::CodexEnvKey
        },
{
    assert(no_help(language).title.key == TextKey::Help(HelpLabel::Help));
    if let Some(topic) = field_topic(app_type, field) {
        assert(topic.heading(language).key != TextKey::Help(HelpLabel::Help));
        assert(field_content(app_type, field, product, language).title == topic.heading(language));
    }
}

} // verus!
