use cc_switch_tui::app_type::AppType;
use cc_switch_tui::help::{
    context_help_for_app, help_for_target, provider_field_help, text_lines, topic_help,
    with_product, CodexModelCatalogField, CodexPreviewSection, FormFocus, FormMode, HelpFocus, HelpOverlay, HelpSheet, HelpState,
    HelpTarget, KeyHint, LocalProxySettingsField, OpenForm, ProviderAddField, ProviderForm,
    ProviderFormPage, UsageQueryField, UsageQueryTemplate,
};
use cc_switch_tui::help_words::{
    HelpLabel, HelpTopic, Language, EYEBROW_EN, NO_HELP_EN, PROVIDER_TEMPLATE_EN,
    PROVIDER_TEMPLATE_TITLE_EN, SESSIONS_EN,
};
use cc_switch_tui::route::Route;
use cc_switch_tui::text::{Text, TextKey};

fn form(app_type: AppType, focus: FormFocus) -> ProviderForm {
    ProviderForm {
        app_type,
        mode: FormMode::Add,
        page: ProviderFormPage::Main,
        focus,
        fields: vec![
            ProviderAddField::Name,
            ProviderAddField::ClaudeAdvancedDivider,
            ProviderAddField::ClaudeApiKey,
        ],
        field_idx: 0,
        codex_preview_section: CodexPreviewSection::Config,
        usage_query_template: UsageQueryTemplate::General,
        usage_query_field: Some(UsageQueryField::ApiKey),
        usage_query_extractor_available: true,
        codex_local_routing_field: None,
        local_proxy_settings_field: Some(LocalProxySettingsField::HeaderOverrides),
        codex_model_catalog_field: CodexModelCatalogField::ContextWindow,
        claude_quick_config_field: Some(ProviderAddField::ClaudeTeammates),
        codex_quick_config_field: None,
    }
}

fn focus_on(form: ProviderForm) -> HelpFocus {
    HelpFocus {
        app_type: AppType::Claude,
        overlay: HelpOverlay::Absent,
        editor_open: false,
        filter_active: false,
        route: Route::Providers,
        form: OpenForm::Provider(form),
    }
}

fn hint(display: &str, label: &str) -> KeyHint {
    KeyHint {
        display: display.to_string(),
        label: label.to_string(),
    }
}

/// The name of the product that the texts are about.
fn product() -> String {
    format!("{:?}", AppType::Claude)
}

fn sheet() -> HelpSheet {
    HelpSheet {
        product: product(),
        prelude: "Keys\n\nPages".to_string(),
        providers_line: "Providers".to_string(),
        memory_line: "Memory".to_string(),
        config_line: "Config".to_string(),
        settings_line: "Settings".to_string(),
        mcp: vec![hint("a", "add"), hint("d", "delete")],
        prompts: vec![hint("e", "edit")],
        sessions: vec![hint("r", "refresh")],
        skills: Vec::new(),
        usage: vec![hint("u", "usage")],
        usage_script: vec!["first".to_string(), "second".to_string()],
    }
}

fn plain(text: &Text) -> (TextKey, Vec<String>) {
    (text.key, text.args.clone())
}

#[test]
fn lines_end_with_the_text_or_a_break() {
    assert_eq!(text_lines("a\n\nb\r\nc"), vec!["a", "", "b", "c"]);
    assert_eq!(text_lines("a\n"), vec!["a"]);
    assert_eq!(text_lines("a\r"), vec!["a\r"]);
    assert!(text_lines("").is_empty());
}

#[test]
fn texts_name_the_product() {
    assert_eq!(with_product("{} and {}{", "A"), "A and A{");
    assert_eq!(with_product("{a} }{", "A"), "{a} }{");
    let content = help_for_target(
        HelpTarget::ProviderField {
            app_type: AppType::Claude,
            field: ProviderAddField::ClaudeHideAttribution,
        },
        AppType::Claude,
        &sheet(),
        Language::English,
    );
    assert_eq!(
        content.lines,
        vec![format!(
            "Controls whether {} Code adds attribution when writing commits or pull requests.",
            product()
        )]
    );
}

#[test]
fn help_follows_the_selected_field() {
    let mut form = form(AppType::Claude, FormFocus::Fields);
    assert_eq!(
        focus_on(form).current_help_target(),
        HelpTarget::ProviderField {
            app_type: AppType::Claude,
            field: ProviderAddField::Name,
        }
    );
    form = self::form(AppType::Claude, FormFocus::Fields);
    form.field_idx = 1;
    assert_eq!(focus_on(form).current_help_target(), HelpTarget::Empty);
    form = self::form(AppType::Claude, FormFocus::Fields);
    form.field_idx = 9;
    assert_eq!(
        focus_on(form).current_help_target(),
        HelpTarget::ProviderField {
            app_type: AppType::Claude,
            field: ProviderAddField::ClaudeApiKey,
        }
    );
}

#[test]
fn templates_have_help_while_a_provider_is_added() {
    let adding = form(AppType::Claude, FormFocus::Templates);
    assert_eq!(
        focus_on(adding).current_help_target(),
        HelpTarget::ProviderTemplate
    );
    let mut editing = form(AppType::Claude, FormFocus::Templates);
    editing.mode = FormMode::Edit;
    assert_eq!(focus_on(editing).current_help_target(), HelpTarget::Empty);
}

#[test]
fn previews_of_codex_have_sections() {
    assert_eq!(
        focus_on(form(AppType::Codex, FormFocus::JsonPreview)).current_help_target(),
        HelpTarget::ProviderPreview {
            app_type: AppType::Codex,
            section: Some(CodexPreviewSection::Config),
        }
    );
    assert_eq!(
        focus_on(form(AppType::Claude, FormFocus::JsonPreview)).current_help_target(),
        HelpTarget::ProviderPreview {
            app_type: AppType::Claude,
            section: None,
        }
    );
}

#[test]
fn each_page_of_the_form_has_its_own_help() {
    let on = |page: ProviderFormPage, focus: FormFocus| {
        let mut form = form(AppType::Claude, focus);
        form.page = page;
        focus_on(form).current_help_target()
    };
    assert_eq!(
        on(ProviderFormPage::UsageQuery, FormFocus::Fields),
        HelpTarget::UsageQueryField {
            template: UsageQueryTemplate::General,
            field: UsageQueryField::ApiKey,
        }
    );
    assert_eq!(
        on(ProviderFormPage::UsageQuery, FormFocus::JsonPreview),
        HelpTarget::UsageQueryExtractor {
            template: UsageQueryTemplate::General,
        }
    );
    assert_eq!(
        on(ProviderFormPage::UsageQuery, FormFocus::Content),
        HelpTarget::UsageQueryInstructions
    );
    assert_eq!(
        on(ProviderFormPage::CodexLocalRouting, FormFocus::Fields),
        HelpTarget::Empty
    );
    assert_eq!(
        on(ProviderFormPage::LocalProxySettings, FormFocus::Fields),
        HelpTarget::LocalProxySettingsField {
            field: LocalProxySettingsField::HeaderOverrides,
        }
    );
    assert_eq!(
        on(ProviderFormPage::CodexModelCatalog, FormFocus::Fields),
        HelpTarget::CodexModelCatalogField {
            field: CodexModelCatalogField::ContextWindow,
        }
    );
    assert_eq!(
        on(ProviderFormPage::ClaudeQuickConfig, FormFocus::Fields),
        HelpTarget::ProviderField {
            app_type: AppType::Claude,
            field: ProviderAddField::ClaudeTeammates,
        }
    );
    assert_eq!(
        on(ProviderFormPage::ClaudeQuickConfig, FormFocus::JsonPreview),
        HelpTarget::Empty
    );
}

#[test]
fn what_lies_over_the_screen_comes_first() {
    let over = |overlay: HelpOverlay, open: OpenForm| HelpFocus {
        app_type: AppType::Claude,
        overlay,
        editor_open: true,
        filter_active: true,
        route: Route::Sessions,
        form: open,
    };
    assert_eq!(
        over(HelpOverlay::SessionProjectPicker, OpenForm::Absent).current_help_target(),
        HelpTarget::Sessions
    );
    assert_eq!(
        over(HelpOverlay::UserAgentPicker, OpenForm::Other).current_help_target(),
        HelpTarget::Global
    );
    assert_eq!(
        over(
            HelpOverlay::ManagedAccountPicker,
            OpenForm::Provider(form(AppType::Codex, FormFocus::Fields)),
        )
        .current_help_target(),
        HelpTarget::ProviderField {
            app_type: AppType::Codex,
            field: ProviderAddField::CodexOAuthAccount,
        }
    );
    assert_eq!(
        over(HelpOverlay::Absent, OpenForm::Absent).current_help_target(),
        HelpTarget::Empty,
        "there is no help while text is typed"
    );
}

#[test]
fn the_sheet_names_the_keys_of_each_page() {
    let content = help_for_target(
        HelpTarget::Global,
        AppType::Claude,
        &sheet(),
        Language::English,
    );
    assert_eq!(
        plain(&content.title),
        (TextKey::Help(HelpLabel::Help), Vec::new())
    );
    assert_eq!(content.eyebrow, EYEBROW_EN);
    assert_eq!(
        content.lines,
        vec![
            "Keys",
            "",
            "Pages",
            "- Providers",
            "- MCP: a add, d delete",
            "- Prompts: e edit",
            "- Sessions: r refresh",
            "- Skills: ",
            "- Usage: u usage",
            "- Config",
            "- Settings",
        ]
    );
}

#[test]
fn hermes_has_a_memory_and_no_configuration() {
    let content = help_for_target(
        HelpTarget::Global,
        AppType::Hermes,
        &sheet(),
        Language::Chinese,
    );
    assert_eq!(
        content.lines,
        vec![
            "Keys",
            "",
            "Pages",
            "- Providers",
            "- MCP：a add，d delete",
            "- Memory",
            "- 会话：r refresh",
            "- 技能：",
            "- 使用统计：u usage",
            "- Settings",
        ]
    );
}

#[test]
fn topics_have_words_of_their_own() {
    let sessions = topic_help(HelpTopic::Sessions, &product(), Language::English);
    assert_eq!(sessions.lines.join("\n"), SESSIONS_EN.replace("\r\n", "\n"));
    assert_eq!(
        plain(&sessions.title),
        (TextKey::Help(HelpLabel::Sessions), Vec::new())
    );
    let template = help_for_target(
        HelpTarget::ProviderTemplate,
        AppType::Claude,
        &sheet(),
        Language::English,
    );
    assert_eq!(template.lines.join("\n"), PROVIDER_TEMPLATE_EN);
    assert_eq!(
        plain(&template.title),
        (
            TextKey::Verbatim,
            vec![PROVIDER_TEMPLATE_TITLE_EN.to_string()]
        )
    );
    assert_ne!(
        HelpTopic::Sessions.words(Language::Chinese),
        HelpTopic::Sessions.words(Language::English)
    );
}

#[test]
fn where_there_is_no_help_that_is_said() {
    let mut typing = focus_on(form(AppType::Claude, FormFocus::Fields));
    typing.editor_open = true;
    let content = context_help_for_app(&typing, &sheet(), Language::English);
    assert_eq!(content.lines.join("\n"), NO_HELP_EN);
    let state = HelpState::new(content);
    assert_eq!(state.scroll, 0);
    assert_eq!(state.content.eyebrow, EYEBROW_EN);
}

#[test]
fn scripts_are_explained_line_by_line() {
    let content = help_for_target(
        HelpTarget::UsageQueryInstructions,
        AppType::Claude,
        &sheet(),
        Language::English,
    );
    assert_eq!(content.lines, vec!["first", "second"]);
}

#[test]
fn only_addresses_and_formats_differ_between_applications() {
    let help = |app_type: AppType, field: ProviderAddField| {
        provider_field_help(app_type, field, &product(), Language::English).lines
    };
    for field in [
        ProviderAddField::Name,
        ProviderAddField::CodexModel,
        ProviderAddField::HermesApiKey,
        ProviderAddField::UsageQuery,
    ] {
        assert_eq!(help(AppType::Codex, field), help(AppType::Claude, field));
        assert_ne!(help(AppType::Codex, field), help(AppType::Codex, ProviderAddField::CodexEnvKey));
    }
    for field in [
        ProviderAddField::ClaudeApiFormat,
        ProviderAddField::GeminiBaseUrl,
    ] {
        assert_ne!(help(AppType::Codex, field), help(AppType::Claude, field));
    }
    for field in [
        ProviderAddField::CodexWireApi,
        ProviderAddField::CodexRequiresOpenaiAuth,
        ProviderAddField::UsageQueryDivider,
    ] {
        assert_eq!(
            help(AppType::Claude, field),
            help(AppType::Codex, ProviderAddField::CodexEnvKey)
        );
    }
}
