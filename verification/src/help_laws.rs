//! What help says of each field, in its own words.

use vstd::prelude::*;

use crate::app_type::AppType;
use crate::base::views;
use crate::help::{
    field_content, hints, lines_behind, lines_of, named, no_help, target_content,
    CodexLocalRoutingField, CodexModelCatalogField, CodexPreviewSection, FormFocus, FormMode,
    HelpContentView, HelpFocus, HelpOverlay, HelpSheet, HelpTarget, KeyHint,
    LocalProxySettingsField, OpenForm, ProviderAddField, ProviderFormPage, UsageQueryField,
    UsageQueryTemplate,
};
use crate::help_words::{HelpLabel, Language};
use crate::text::{TextKey, TextView};

verus! {

/// One of two wordings.
pub open spec fn said(language: Language, chinese: &'static str, english: &'static str) -> Seq<char> {
    if language == Language::Chinese {
        chinese@
    } else {
        english@
    }
}

pub open spec fn verbatim_title(
    language: Language,
    chinese: &'static str,
    english: &'static str,
) -> TextView {
    TextView { key: TextKey::Verbatim, args: seq![said(language, chinese, english)] }
}

/// The heading and the words of a field of the form for a provider. `{}` stands
/// for the product.
pub open spec fn explained(
    app_type: AppType,
    field: ProviderAddField,
    language: Language,
) -> Option<(TextView, Seq<char>)> {
    match field {
        ProviderAddField::Id => Some(
            (
                verbatim_title(language, "供应商 ID", "Provider ID"),
                said(
                    language,
                    "用于配置文件和数据库里的稳定标识。创建后不要随意改动，避免已有引用找不到这个供应商。",
                    "Stable identifier used in config files and storage. Avoid changing it after creation, or existing references may stop matching this provider.",
                ),
            ),
        ),
        ProviderAddField::Name => Some(
            (
                verbatim_title(language, "名称", "Name"),
                said(
                    language,
                    "显示在供应商列表中的名称。新建时如果 ID 为空，会根据名称自动生成 ID。",
                    "Display name shown in the provider list. When creating a provider, an empty ID is generated from this name.",
                ),
            ),
        ),
        ProviderAddField::WebsiteUrl => Some(
            (
                verbatim_title(language, "网站", "Website"),
                said(
                    language,
                    "供应商的控制台、文档或充值页面地址，仅用于记录和打开查看，不参与请求转发。",
                    "Provider console, docs, or billing URL. It is stored for reference and is not used for request routing.",
                ),
            ),
        ),
        ProviderAddField::Notes => Some(
            (
                verbatim_title(language, "备注", "Notes"),
                said(
                    language,
                    "给自己看的短备注，例如账号用途、套餐或到期信息。它不会写入客户端运行配置。",
                    "Short private note, such as account purpose, plan, or renewal info. It is not written to the live client config.",
                ),
            ),
        ),
        ProviderAddField::ClaudeBaseUrl
        | ProviderAddField::CodexBaseUrl
        | ProviderAddField::GeminiBaseUrl
        | ProviderAddField::OpenCodeBaseUrl
        | ProviderAddField::HermesBaseUrl => if app_type == AppType::Codex {
            Some(
            (
                TextView { key: TextKey::Help(HelpLabel::BaseUrl), args: Seq::empty() },
                said(
                    language,
                    "Codex 原生只支持 OpenAI Responses API 与 GPT 系列模型。\n如果供应商使用 Chat Completions 协议，或模型不是 GPT 系列（如 DeepSeek、Kimi），需要保持本地路由开启，让 cc-switch 做协议和模型路由转换。",
                    "Codex natively supports OpenAI Responses API and GPT-series models.\nIf this provider uses Chat Completions, or the model is not GPT-series, such as DeepSeek or Kimi, keep local routing enabled so cc-switch can translate protocol and model routing.",
                ),
            ),
        )
        } else {
            Some(
            (
                TextView { key: TextKey::Help(HelpLabel::BaseUrl), args: Seq::empty() },
                said(
                    language,
                    "供应商 API 的基础地址。通常不需要在末尾重复补全具体接口路径，除非供应商文档明确要求。",
                    "Base URL for the provider API. Usually you do not need to append the final endpoint path unless the provider docs require it.",
                ),
            ),
        )
        },
        ProviderAddField::ClaudeApiKey
        | ProviderAddField::CodexApiKey
        | ProviderAddField::GeminiApiKey
        | ProviderAddField::OpenCodeApiKey
        | ProviderAddField::HermesApiKey => Some(
            (
                TextView { key: TextKey::Help(HelpLabel::ApiKey), args: Seq::empty() },
                said(
                    language,
                    "供应商 API Key。保存后会按该应用的配置规则写入存储配置；界面会以明文显示当前值。",
                    "Provider API key. After saving, it is written using this app's config rules. The UI shows the current value in plaintext.",
                ),
            ),
        ),
        ProviderAddField::CodexModel => Some(
            (
                TextView { key: TextKey::Help(HelpLabel::Model), args: Seq::empty() },
                said(
                    language,
                    "Codex 默认模型。第三方模型如果不是 GPT 系列，通常需要本地路由。\n上游模型映射会生成 model_catalog_json，让 Codex 的 /model 命令看到第三方模型；修改目录后通常需要重启 Codex 才会刷新。",
                    "Default Codex model. Third-party non-GPT models usually need local routing.\nUpstream model mapping generates model_catalog_json so Codex /model can show third-party models. Restart Codex after catalog changes.",
                ),
            ),
        ),
        ProviderAddField::CodexLocalRouting => Some(
            (
                TextView { key: TextKey::Help(HelpLabel::CodexModelMapping), args: Seq::empty() },
                said(
                    language,
                    "打开模型映射二级页面。填了才生成模型目录：Chat Completions 会生成兼容路由（走本地代理转换），原生 Responses 会生成 model-catalogs.json 供 Codex 直连显示。留空则不生成。\n使用 Chat 格式时，这里还会显示「思考能力」开关。",
                    "Opens the model mapping page. A catalog is generated only when filled: Chat Completions produces compatibility routing (via the local proxy), while native Responses generates model-catalogs.json for Codex direct-connect. Left empty, nothing is generated.\nWith the Chat format, reasoning-capability toggles also appear here.",
                ),
            ),
        ),
        ProviderAddField::LocalProxySettings => Some(
            (
                TextView { key: TextKey::Help(HelpLabel::LocalProxySettings), args: Seq::empty() },
                said(
                    language,
                    "配置仅由本地路由或代理接管使用的出站请求选项，包括自定义 User-Agent、Header 覆盖和 Body 覆盖。直连客户端配置不会受影响。",
                    "Configures outbound request options used only by local routing or proxy takeover, including a custom User-Agent plus header and body overrides. Direct client configuration is unaffected.",
                ),
            ),
        ),
        ProviderAddField::ClaudeModelConfig => Some(
            (
                TextView { key: TextKey::Help(HelpLabel::ClaudeModelConfig), args: Seq::empty() },
                said(
                    language,
                    "配置 {} 的模型分层。在模型列按 Enter 编辑，按 Space 从 API 自动获取。Sonnet 和 Opus 可用 ←→ 移到 1M 列并按 Enter 切换；1M 只向 {} Code 声明百万上下文能力，不会检测上游是否真正支持。底层继续使用模型 ID 的 [1M] 后缀，以兼容现有配置。次要快捷键 a 可将当前模型填充到全部角色。",
                    "Configures {} model tiers. In the model column, press Enter to edit or Space to fetch from the API. For Sonnet and Opus, use ←→ to focus the 1M column and Enter to toggle it. 1M only declares million-token context support to {} Code; it does not detect upstream capability. The existing [1M] model-ID suffix remains the storage format. The secondary a shortcut fills every role from the current model.",
                ),
            ),
        ),
        ProviderAddField::ClaudeApiFormat => if app_type == AppType::Codex {
            Some(
            (
                TextView { key: TextKey::Help(HelpLabel::CodexUpstreamFormat), args: Seq::empty() },
                said(
                    language,
                    "选择上游供应商的 API 格式。供应商原生是 Responses API 就选 Responses（直连，不转换）；使用 Chat Completions 协议就选 Chat（需通过本地路由转换为 Chat Completions）。",
                    "Select the upstream provider's API format. Choose Responses when the provider is natively Responses API (direct, no conversion); choose Chat when it uses Chat Completions (converted via local routing).",
                ),
            ),
        )
        } else {
            Some(
            (
                TextView { key: TextKey::Help(HelpLabel::ClaudeApiFormat), args: Seq::empty() },
                said(
                    language,
                    "选择供应商 API 的输入格式。非 Anthropic 协议通常需要开启本地路由做格式转换。",
                    "Select the input format for the provider's API. Non-Anthropic formats usually need local routing enabled for conversion.",
                ),
            ),
        )
        },
        ProviderAddField::ClaudeFallbackModel => Some(
            (
                TextView { key: TextKey::Help(HelpLabel::ClaudeFallbackModel), args: Seq::empty() },
                said(
                    language,
                    "用于未明确落到具体角色模型（Haiku、Sonnet、Opus 等）的请求。使用第三方/中转端点时建议填写：否则这些请求（含 Haiku 后台子任务）会以原始 {} 模型名透传给上游，可能因上游无此模型而报错。官方端点可留空。",
                    "A fallback for requests that don't clearly map to a specific role model (Haiku, Sonnet, Opus, etc.). Recommended for third-party/relay endpoints—otherwise such requests (including Haiku background subtasks) are forwarded under their original {} model name and may fail if the upstream doesn't host it. Safe to leave blank for official endpoints.",
                ),
            ),
        ),
        ProviderAddField::ClaudeQuickConfig => Some(
            (
                TextView { key: TextKey::Help(HelpLabel::ClaudeQuickConfig), args: Seq::empty() },
                said(
                    language,
                    "打开 {} 快捷配置菜单，集中管理隐藏 AI 署名、Teammates 模式、启用 Tool Search、禁用自动升级等开关。",
                    "Opens the {} quick-config menu that groups the hide-AI-attribution, Teammates, Tool Search, and disable-auto-upgrade toggles.",
                ),
            ),
        ),
        ProviderAddField::CodexQuickConfig => Some(
            (
                TextView { key: TextKey::Help(HelpLabel::CodexQuickConfig), args: Seq::empty() },
                said(
                    language,
                    "打开 Codex 快捷配置菜单，集中管理启用 Goal mode、启用远程压缩等开关。",
                    "Opens the Codex quick-config menu that groups the Goal-mode and remote-compaction toggles.",
                ),
            ),
        ),
        ProviderAddField::CodexGoalMode => Some(
            (
                TextView { key: TextKey::Help(HelpLabel::CodexGoalMode), args: Seq::empty() },
                said(
                    language,
                    "启用 Codex 的 Goal mode，写入 config.toml 的 [features] goals = true；关闭时移除该项。",
                    "Enables Codex Goal mode by writing [features] goals = true to config.toml; turning it off removes it.",
                ),
            ),
        ),
        ProviderAddField::CodexRemoteCompaction => Some(
            (
                TextView { key: TextKey::Help(HelpLabel::CodexRemoteCompaction), args: Seq::empty() },
                said(
                    language,
                    "开启后会将当前 model_providers 条目的 name 写为 OpenAI，使 Codex 尝试使用远程压缩；关闭时恢复原供应商名称。",
                    "When enabled, sets the current model_providers entry's name to \"OpenAI\" so Codex attempts remote compaction; turning it off restores the provider name.",
                ),
            ),
        ),
        ProviderAddField::ClaudeHideAttribution => Some(
            (
                TextView { key: TextKey::Help(HelpLabel::ClaudeHideAttribution), args: Seq::empty() },
                said(
                    language,
                    "控制 {} Code 写入提交或拉取请求时是否附带署名信息。",
                    "Controls whether {} Code adds attribution when writing commits or pull requests.",
                ),
            ),
        ),
        ProviderAddField::ClaudeTeammates => Some(
            (
                TextView { key: TextKey::Help(HelpLabel::ClaudeTeammates), args: Seq::empty() },
                said(
                    language,
                    "启用 {} Code 的实验性 Teammates（多智能体协作）模式，写入 env.CLAUDE_CODE_EXPERIMENTAL_AGENT_TEAMS=1；关闭时移除该变量。",
                    "Enables {} Code's experimental Teammates (multi-agent) mode by writing env.CLAUDE_CODE_EXPERIMENTAL_AGENT_TEAMS=1; turning it off removes the variable.",
                ),
            ),
        ),
        ProviderAddField::ClaudeToolSearch => Some(
            (
                TextView { key: TextKey::Help(HelpLabel::ClaudeToolSearch), args: Seq::empty() },
                said(
                    language,
                    "启用 {} Code 的 Tool Search（工具搜索）能力，写入 env.ENABLE_TOOL_SEARCH=true；关闭时移除该变量。",
                    "Enables {} Code's Tool Search capability by writing env.ENABLE_TOOL_SEARCH=true; turning it off removes the variable.",
                ),
            ),
        ),
        ProviderAddField::ClaudeDisableAutoUpgrade => Some(
            (
                TextView { key: TextKey::Help(HelpLabel::ClaudeDisableAutoUpgrade), args: Seq::empty() },
                said(
                    language,
                    "禁用 {} Code 的自动升级，写入 env.DISABLE_AUTOUPDATER=1；关闭时移除该变量。",
                    "Disables {} Code's auto-upgrade by writing env.DISABLE_AUTOUPDATER=1; turning it off removes the variable.",
                ),
            ),
        ),
        ProviderAddField::CodexOAuthAccount => Some(
            (
                TextView { key: TextKey::Help(HelpLabel::ChatgptAccount), args: Seq::empty() },
                said(
                    language,
                    "绑定 ChatGPT/Codex 官方登录账号。官方账号可用于 Codex 插件、移动端远程操作等官方能力。",
                    "Binds an official ChatGPT/Codex account. Official login can keep Codex plugins, mobile remote control, and other official app features available.",
                ),
            ),
        ),
        ProviderAddField::CodexFastMode => Some(
            (
                TextView { key: TextKey::Help(HelpLabel::CodexFastMode), args: Seq::empty() },
                said(
                    language,
                    "对 Codex OAuth 请求启用优先服务层。只有支持该能力的官方账号或服务才会生效。",
                    "Enables the priority service tier for Codex OAuth requests. It only affects accounts or services that support it.",
                ),
            ),
        ),
        ProviderAddField::CommonSnippet => Some(
            (
                TextView { key: TextKey::Help(HelpLabel::ConfigItemCommonSnippet), args: Seq::empty() },
                said(
                    language,
                    "通用配置片段用于保存插件、环境变量等非敏感 TOML，切换供应商时仍会保留。\n上游建议从当前 config.toml 重新提取通用部分后保存；为空时可以先从已有配置里提取。\n只有勾选添加通用配置时才会写入供应商配置。",
                    "Common config snippets store non-sensitive TOML such as plugins and environment variables, so they survive provider switches.\nUpstream suggests re-extracting the common part from the current config.toml before saving. If it is empty, start by extracting from an existing config.\nIt is written only when Attach Common Config is enabled.",
                ),
            ),
        ),
        ProviderAddField::IncludeCommonConfig => Some(
            (
                TextView { key: TextKey::Help(HelpLabel::FormAttachCommonConfig), args: Seq::empty() },
                said(
                    language,
                    "开启后保存供应商时会把通用配置片段合并进去。关闭后只保存该供应商自己的配置。\n这不会把 API Key 等敏感字段放进通用片段。",
                    "When enabled, saving the provider merges the common config snippet into it. When disabled, only provider-specific config is saved.\nAPI keys and other sensitive fields do not belong in the common snippet.",
                ),
            ),
        ),
        ProviderAddField::UsageQuery => Some(
            (
                TextView { key: TextKey::Help(HelpLabel::ConfigItemUsageQuery), args: Seq::empty() },
                said(
                    language,
                    "打开用量查询的二级页面。启用后可按模板查询余额、额度或剩余用量。\n第一次进入会显示一次确认提示。",
                    "Opens the Usage Query secondary page. When enabled, templates can query balance, quota, or remaining usage.\nThe first entry shows a one-time notice.",
                ),
            ),
        ),
        ProviderAddField::GeminiAuthType => Some(
            (
                TextView { key: TextKey::Help(HelpLabel::AuthType), args: Seq::empty() },
                said(
                    language,
                    "选择 Gemini 使用 OAuth 还是 API Key。切换后相关字段会按所选认证方式显示。",
                    "Selects whether Gemini uses OAuth or API key auth. Related fields change with the selected auth mode.",
                ),
            ),
        ),
        ProviderAddField::GeminiModel
        | ProviderAddField::OpenCodeModelId
        | ProviderAddField::OpenCodeModelName => Some(
            (
                TextView { key: TextKey::Help(HelpLabel::Model), args: Seq::empty() },
                said(
                    language,
                    "供应商请求时使用的模型名称。应与供应商文档或模型列表中的 ID 保持一致。",
                    "Model name sent to the provider. Keep it aligned with the provider docs or model list.",
                ),
            ),
        ),
        ProviderAddField::OpenClawApiProtocol => Some(
            (
                TextView { key: TextKey::Help(HelpLabel::OpenclawApi), args: Seq::empty() },
                said(
                    language,
                    "选择 OpenClaw 使用的协议适配器。不同适配器会影响请求格式。",
                    "Selects the protocol adapter used by OpenClaw. Different adapters affect request shape.",
                ),
            ),
        ),
        ProviderAddField::OpenCodeNpmPackage => Some(
            (
                TextView { key: TextKey::Help(HelpLabel::ProviderPackage), args: Seq::empty() },
                said(
                    language,
                    "选择 OpenCode 使用的供应商包。不同包会影响请求格式。",
                    "Selects the provider package used by OpenCode. Different packages affect request shape.",
                ),
            ),
        ),
        ProviderAddField::OpenClawUserAgent => Some(
            (
                TextView { key: TextKey::Help(HelpLabel::OpenclawUserAgent), args: Seq::empty() },
                said(
                    language,
                    "控制请求中是否发送默认 User-Agent。部分供应商会依赖它识别客户端。",
                    "Controls whether requests include the default User-Agent. Some providers use it to identify the client.",
                ),
            ),
        ),
        ProviderAddField::OpenClawModels => Some(
            (
                TextView { key: TextKey::Help(HelpLabel::OpenclawModels), args: Seq::empty() },
                said(
                    language,
                    "编辑 OpenClaw 模型列表。这里保存的是该供应商暴露给客户端选择的模型配置。",
                    "Edits OpenClaw model entries. These are the models exposed to the client for this provider.",
                ),
            ),
        ),
        ProviderAddField::OpenCodeModelContextLimit => Some(
            (
                TextView { key: TextKey::Help(HelpLabel::ContextLimit), args: Seq::empty() },
                said(
                    language,
                    "模型上下文限制用于告诉客户端可用上下文上限。留空表示不覆盖默认值。",
                    "The model context limit tells the client the usable context cap. Leave blank to avoid overriding defaults.",
                ),
            ),
        ),
        ProviderAddField::OpenCodeModelOutputLimit => Some(
            (
                TextView { key: TextKey::Help(HelpLabel::OutputLimit), args: Seq::empty() },
                said(
                    language,
                    "模型输出限制用于告诉客户端单次响应输出上限。留空表示不覆盖默认值。",
                    "The model output limit tells the client the single-response output cap. Leave blank to avoid overriding defaults.",
                ),
            ),
        ),
        ProviderAddField::HermesApiMode => Some(
            (
                TextView { key: TextKey::Help(HelpLabel::HermesApiMode), args: Seq::empty() },
                said(
                    language,
                    "选择 Hermes 的 API 模式。该模式会影响写入 Hermes 配置的字段形状。",
                    "Selects the Hermes API mode. This affects the field shape written into Hermes config.",
                ),
            ),
        ),
        ProviderAddField::HermesModels => Some(
            (
                TextView { key: TextKey::Help(HelpLabel::HermesModels), args: Seq::empty() },
                said(
                    language,
                    "配置 Hermes 供应商的模型字典。每个模型可包含 ID、显示名和上下文长度。",
                    "Configures the Hermes provider model dictionary. Each model can include ID, display name, and context length.",
                ),
            ),
        ),
        ProviderAddField::HermesRateLimitDelay => Some(
            (
                TextView { key: TextKey::Help(HelpLabel::HermesRateLimitDelay), args: Seq::empty() },
                said(
                    language,
                    "Hermes 请求之间的限速延迟。留空表示不设置；填写时必须是非负数字。",
                    "Rate-limit delay between Hermes requests. Leave blank to unset it. When filled, it must be a non-negative number.",
                ),
            ),
        ),
        ProviderAddField::CodexWireApi
        | ProviderAddField::CodexRequiresOpenaiAuth
        | ProviderAddField::CodexEnvKey
        | ProviderAddField::ClaudeAdvancedDivider
        | ProviderAddField::CodexAdvancedDivider
        | ProviderAddField::HermesAdvancedDivider
        | ProviderAddField::CommonConfigDivider
        | ProviderAddField::UsageQueryDivider => None,
    }
}

/// The heading and the words of a setting of local routing.
pub open spec fn routing_explained(
    field: CodexLocalRoutingField,
    language: Language,
) -> Option<(TextView, Seq<char>)> {
    match field {
        CodexLocalRoutingField::Enabled => Some(
            (
                TextView { key: TextKey::Help(HelpLabel::CodexLocalRoutingEnable), args: Seq::empty() },
                said(
                    language,
                    "切换本地路由。开启后该 Codex 供应商会使用 OpenAI Chat Completions 格式，并依赖本地代理映射到 Codex 可用的配置。",
                    "Toggles local routing. When enabled, this Codex provider uses OpenAI Chat Completions format and relies on the local proxy to map it into Codex-compatible config.",
                ),
            ),
        ),
        CodexLocalRoutingField::SupportsThinking => Some(
            (
                TextView { key: TextKey::Help(HelpLabel::CodexReasoningSupportsThinking), args: Seq::empty() },
                said(
                    language,
                    "标记该路由模型是否支持思考模式。这个值会写入 Codex 配置，用于生成模型能力描述。",
                    "Marks whether the routed model supports thinking mode. This value is written into Codex config for model capability metadata.",
                ),
            ),
        ),
        CodexLocalRoutingField::SupportsEffort => Some(
            (
                TextView { key: TextKey::Help(HelpLabel::CodexReasoningSupportsEffort), args: Seq::empty() },
                said(
                    language,
                    "标记该路由模型是否支持 reasoning effort。只有供应商实际支持按思考等级调节时才应开启。",
                    "Marks whether the routed model supports reasoning effort. Enable it only when the provider actually supports effort levels.",
                ),
            ),
        ),
        CodexLocalRoutingField::ModelCatalog => Some(
            (
                TextView { key: TextKey::Help(HelpLabel::CodexModelCatalog), args: Seq::empty() },
                said(
                    language,
                    "在此把供应商模型映射成 Codex 可见模型。a 添加行，Enter 编辑单元格，←→ 切换列，f 拉取，Del 删除。\n三列：\n· 实际请求模型 —— 发给上游的模型 ID，不能为空（例：deepseek-chat）\n· 显示名 —— /model 菜单里显示的名字，留空用模型 ID（例：DeepSeek Chat）\n· 上下文窗口 —— 该模型的上下文长度，留空不覆盖（例：128000）\n修改后通常需要重启 Codex，/model 列表才会刷新。",
                    "Map provider models into models visible to Codex here. Press a to add a row, Enter to edit a cell, ←→ to switch columns, f to fetch, Del to delete.\nThree columns:\n· Request model — the model ID sent upstream, cannot be empty (e.g. deepseek-chat)\n· Display name — the name shown in the /model menu, empty uses the model ID (e.g. DeepSeek Chat)\n· Context window — this model's context length, empty to not override (e.g. 128000)\nRestart Codex after changes so the /model list refreshes.",
                ),
            ),
        ),
    }
}

/// The heading and the words of a setting of the local proxy.
pub open spec fn proxy_explained(
    field: LocalProxySettingsField,
    language: Language,
) -> Option<(TextView, Seq<char>)> {
    match field {
        LocalProxySettingsField::UserAgent => Some(
            (
                TextView { key: TextKey::Help(HelpLabel::CustomUserAgent), args: Seq::empty() },
                said(
                    language,
                    "替换本地代理转发给供应商 API 的 User-Agent。可选用兼容 {} Code 的预设，也可以手动填写；留空表示不覆盖。控制字符会被标记为无效，但不会阻止保存。",
                    "Replaces the User-Agent forwarded to the provider API by the local proxy. Choose a {} Code-compatible preset or enter a custom value; leave blank for no override. Control characters are flagged as invalid but do not block saving.",
                ),
            ),
        ),
        LocalProxySettingsField::HeaderOverrides => Some(
            (
                TextView { key: TextKey::Help(HelpLabel::LocalProxyHeaderOverrides), args: Seq::empty() },
                said(
                    language,
                    "以 JSON 对象配置协议转换后的上游 Header。名称保存为小写，值必须是字符串；认证、内容类型、连接、转发和追踪等由代理管理的 Header 不能覆盖。",
                    "Uses a JSON object to override upstream headers after protocol conversion. Names are stored lowercase and values must be strings; proxy-managed authentication, content, connection, forwarding, and tracing headers cannot be overridden.",
                ),
            ),
        ),
        LocalProxySettingsField::BodyOverrides => Some(
            (
                TextView { key: TextKey::Help(HelpLabel::LocalProxyBodyOverrides), args: Seq::empty() },
                said(
                    language,
                    "以 JSON 对象覆盖协议转换后的最终上游 Body。适合补充 store: false 等供应商专用字段；顶层 stream 由代理控制，不能覆盖。",
                    "Uses a JSON object to override the final upstream body after protocol conversion. This is suitable for provider-specific fields such as store: false; top-level stream is controlled by the proxy and cannot be overridden.",
                ),
            ),
        ),
    }
}

/// The heading and the words of a column of the model catalog.
pub open spec fn catalog_explained(
    field: CodexModelCatalogField,
    language: Language,
) -> Option<(TextView, Seq<char>)> {
    match field {
        CodexModelCatalogField::Model => Some(
            (
                verbatim_title(language, "模型 ID", "Model ID"),
                said(
                    language,
                    "供应商实际接收的模型 ID。不能为空；可以手动填写，也可以从供应商模型列表抓取后选择。",
                    "Provider model ID sent upstream. It cannot be empty; enter it manually or fetch and select it from the provider model list.",
                ),
            ),
        ),
        CodexModelCatalogField::DisplayName => Some(
            (
                verbatim_title(language, "显示名", "Display Name"),
                said(
                    language,
                    "Codex /model 列表中显示的名称。留空时使用模型 ID。",
                    "Name shown in the Codex /model list. Leave empty to use the model ID.",
                ),
            ),
        ),
        CodexModelCatalogField::ContextWindow => Some(
            (
                verbatim_title(language, "上下文窗口", "Context Window"),
                said(
                    language,
                    "告诉 Codex 该模型的上下文窗口。留空表示不覆盖；填写时应与供应商实际模型能力一致。",
                    "Tells Codex this model's context window. Leave empty to avoid overriding it; filled values should match the provider's actual model capability.",
                ),
            ),
        ),
    }
}

/// The heading and the words of a preview.
pub open spec fn preview_explained(
    app_type: AppType,
    section: Option<CodexPreviewSection>,
    language: Language,
) -> Option<(TextView, Seq<char>)> {
    if app_type == AppType::Codex && section == Some(CodexPreviewSection::Auth) {
        Some(
            (
                TextView { key: TextKey::Help(HelpLabel::CodexAuthJson), args: Seq::empty() },
                said(
                    language,
                    "这里预览将保存的 Codex 认证配置。代理接管时，上游会强调这里是存储配置，不是运行中的 auth.json。",
                    "This previews the Codex auth config to be saved. During proxy takeover, upstream treats this as stored config, not the live auth.json.",
                ),
            ),
        )
    } else if app_type == AppType::Codex && section == Some(CodexPreviewSection::Config) {
        Some(
            (
                TextView { key: TextKey::Help(HelpLabel::CodexConfigToml), args: Seq::empty() },
                said(
                    language,
                    "这里预览将保存的 Codex config.toml。\n本地路由、思考能力、模型目录、目标模式、远程压缩等高级配置通常会体现在这里。预设供应商多数会自动配置；自定义供应商会按名称和地址推断，只有自动识别不准时才需要手动改。",
                    "This previews the Codex config.toml to be saved.\nAdvanced settings such as local routing, reasoning capability, model catalog, Goal mode, and remote compaction are reflected here. Presets are usually configured automatically; custom providers are inferred from name and URL, so manual edits are needed only when detection is wrong.",
                ),
            ),
        )
    } else {
        Some(
            (
                TextView { key: TextKey::Help(HelpLabel::FormJson), args: Seq::empty() },
                said(
                    language,
                    "右侧预览展示保存后的配置形状。按 Enter 可打开编辑器进行高级修改。",
                    "The right preview shows the saved config shape. Press Enter to open the editor for advanced edits.",
                ),
            ),
        )
    }
}

/// The heading and the words of the extractor of a usage query.
pub open spec fn extractor_explained(
    template: UsageQueryTemplate,
    language: Language,
) -> Option<(TextView, Seq<char>)> {
    match template {
        UsageQueryTemplate::Custom => Some(
            (
                TextView { key: TextKey::Help(HelpLabel::UsageQueryScriptPreview), args: Seq::empty() },
                said(
                    language,
                    "自定义模板的提取器可以使用当前供应商变量：`{{baseUrl}}` 和 `{{apiKey}}`。\n返回对象应包含剩余额度字段，例如 `remaining`、`unit`，也可以返回 `planName`、`total`、`used`、`extra`。",
                    "Custom extractor code can use current provider variables: `{{baseUrl}}` and `{{apiKey}}`.\nThe return object should include remaining quota fields such as `remaining` and `unit`; it may also return `planName`, `total`, `used`, and `extra`.",
                ),
            ),
        ),
        UsageQueryTemplate::General => Some(
            (
                TextView { key: TextKey::Help(HelpLabel::UsageQueryScriptPreview), args: Seq::empty() },
                said(
                    language,
                    "通用模板默认请求 `{{baseUrl}}/user/balance`，并从响应中提取余额。\n如供应商返回结构不同，可改写提取器代码。",
                    "The general template queries `{{baseUrl}}/user/balance` by default and extracts balance from the response.\nIf the provider response differs, edit the extractor code.",
                ),
            ),
        ),
        UsageQueryTemplate::NewApi => Some(
            (
                TextView { key: TextKey::Help(HelpLabel::UsageQueryScriptPreview), args: Seq::empty() },
                said(
                    language,
                    "NewAPI 模板默认请求 `{{baseUrl}}/api/user/self`，按 NewAPI 的 quota 字段换算额度。",
                    "The NewAPI template queries `{{baseUrl}}/api/user/self` and converts NewAPI quota fields into usage values.",
                ),
            ),
        ),
        UsageQueryTemplate::Balance => Some(
            (
                TextView { key: TextKey::Help(HelpLabel::UsageQueryScriptPreview), args: Seq::empty() },
                said(
                    language,
                    "余额模板使用内置查询逻辑。通常不需要脚本字段；如果显示提取器预览，只用于说明当前模板行为。",
                    "The balance template uses built-in query logic. It usually does not need script fields; any extractor preview only explains template behavior.",
                ),
            ),
        ),
        UsageQueryTemplate::GitHubCopilot | UsageQueryTemplate::TokenPlan => Some(
            (
                TextView { key: TextKey::Help(HelpLabel::UsageQueryScriptPreview), args: Seq::empty() },
                said(
                    language,
                    "此处无提示",
                    "No help here",
                ),
            ),
        ),
    }
}

/// The heading and the words of a field of the form for a usage query.
pub open spec fn query_explained(
    template: UsageQueryTemplate,
    field: UsageQueryField,
    language: Language,
) -> Option<(TextView, Seq<char>)> {
    match field {
        UsageQueryField::Enabled => Some(
            (
                TextView { key: TextKey::Help(HelpLabel::UsageQueryEnable), args: Seq::empty() },
                said(
                    language,
                    "启用后 cc-switch 会按当前模板查询供应商余额或额度。未启用时不会自动查询。",
                    "When enabled, cc-switch queries provider balance or quota using the selected template. When disabled, no automatic query runs.",
                ),
            ),
        ),
        UsageQueryField::Template => Some(
            (
                TextView { key: TextKey::Help(HelpLabel::UsageQueryTemplate), args: Seq::empty() },
                said(
                    language,
                    "TUI 只提供自定义、通用、NewAPI、余额四种模板。\n计费计划模板不在 TUI 中显示；模板会决定哪些字段可见，以及提取器代码是否可编辑。",
                    "The TUI exposes only custom, general, newapi, and balance.\nToken Plan is not shown in the TUI. The template controls visible fields and whether extractor code can be edited.",
                ),
            ),
        ),
        UsageQueryField::ApiKey => Some(
            (
                TextView { key: TextKey::Help(HelpLabel::UsageQueryCredentialsConfig), args: Seq::empty() },
                said(
                    language,
                    "通用模板的 API Key 和 Base URL 可留空。留空时会自动使用当前供应商配置。",
                    "For the general template, API Key and Base URL can be left empty. Empty fields use the current provider config.",
                ),
            ),
        ),
        UsageQueryField::BaseUrl => if template == UsageQueryTemplate::NewApi {
            Some(
            (
                TextView { key: TextKey::Help(HelpLabel::UsageQueryBaseUrl), args: Seq::empty() },
                said(
                    language,
                    "NewAPI 服务地址。模板会请求这个地址下的 `/api/user/self`，并用访问令牌和用户 ID 读取额度。",
                    "NewAPI service URL. The template queries `/api/user/self` under this URL and uses the access token and user ID for quota data.",
                ),
            ),
        )
        } else {
            Some(
            (
                TextView { key: TextKey::Help(HelpLabel::UsageQueryCredentialsConfig), args: Seq::empty() },
                said(
                    language,
                    "通用模板的 Base URL 可留空。留空时会自动使用当前供应商配置。",
                    "For the general template, Base URL can be left empty. Empty fields use the current provider config.",
                ),
            ),
        )
        },
        UsageQueryField::AccessToken
        | UsageQueryField::UserId => Some(
            (
                TextView { key: TextKey::Help(HelpLabel::UsageQueryCredentialsConfig), args: Seq::empty() },
                said(
                    language,
                    "NewAPI 模板需要访问令牌和用户 ID 来查询 `/api/user/self`。这些字段只对 NewAPI 模板显示。",
                    "The NewAPI template uses access token and user ID to query `/api/user/self`. These fields are shown only for NewAPI.",
                ),
            ),
        ),
        UsageQueryField::Timeout => Some(
            (
                TextView { key: TextKey::Help(HelpLabel::UsageQueryTimeoutSeconds), args: Seq::empty() },
                said(
                    language,
                    "请求超时时间，单位是秒。默认 10 秒；上游运行时会限制在 2-30 秒。",
                    "Request timeout in seconds. Default is 10 seconds; upstream runtime clamps it to 2-30 seconds.",
                ),
            ),
        ),
        UsageQueryField::AutoInterval => Some(
            (
                TextView { key: TextKey::Help(HelpLabel::UsageQueryAutoInterval), args: Seq::empty() },
                said(
                    language,
                    "自动查询间隔，单位是分钟。默认 5 分钟；填 0 表示不自动查询，最大保存为 1440 分钟。",
                    "Automatic query interval in minutes. Default is 5 minutes. Set 0 to disable automatic queries; saved values are capped at 1440 minutes.",
                ),
            ),
        ),
        UsageQueryField::CodingPlanProvider => None,
        UsageQueryField::Script => extractor_explained(template, language),
    }
}

/// Help is headed and worded so, line by line, with the product's name in it;
/// where there are no words, it says that there is no help here.
pub open spec fn says(
    content: HelpContentView,
    words: Option<(TextView, Seq<char>)>,
    product: Seq<char>,
    language: Language,
) -> bool {
    match words {
        Some((heading, text)) => content.title == heading && content.lines == lines_of(
            named(text, product),
        ),
        None => content.title == (TextView {
            key: TextKey::Help(HelpLabel::Help),
            args: Seq::empty(),
        }) && content.lines == seq![said(language, "此处无提示", "No help here")],
    }
}

/// Each field of the form for a provider is explained under its own heading and
/// in its own words.
pub proof fn fields_are_explained_in_their_own_words(
    app_type: AppType,
    field: ProviderAddField,
    product: Seq<char>,
    language: Language,
)
    ensures
        says(
            field_content(app_type, field, product, language),
            explained(app_type, field, language),
            product,
            language,
        ),
{
}

/// Every target of help other than the pages is explained under its own heading
/// and in its own words.
pub proof fn targets_are_explained_in_their_own_words(
    app_type: AppType,
    sheet: HelpSheet,
    language: Language,
    field: ProviderAddField,
    section: Option<CodexPreviewSection>,
    template: UsageQueryTemplate,
    asked: UsageQueryField,
    routing: CodexLocalRoutingField,
    proxy: LocalProxySettingsField,
    column: CodexModelCatalogField,
    other: AppType,
)
    ensures
        says(
            target_content(
                (HelpTarget::ProviderField { app_type, field }),
                other,
                sheet,
                language,
            ),
            explained(app_type, field, language),
            sheet.product@,
            language,
        ),
        says(
            target_content(
                (HelpTarget::ProviderPreview { app_type, section }),
                other,
                sheet,
                language,
            ),
            preview_explained(app_type, section, language),
            sheet.product@,
            language,
        ),
        says(
            target_content(
                (HelpTarget::CodexLocalRoutingField { field: routing }),
                other,
                sheet,
                language,
            ),
            routing_explained(routing, language),
            sheet.product@,
            language,
        ),
        says(
            target_content(
                (HelpTarget::LocalProxySettingsField { field: proxy }),
                other,
                sheet,
                language,
            ),
            proxy_explained(proxy, language),
            sheet.product@,
            language,
        ),
        says(
            target_content(
                (HelpTarget::CodexModelCatalogField { field: column }),
                other,
                sheet,
                language,
            ),
            catalog_explained(column, language),
            sheet.product@,
            language,
        ),
        target_content(HelpTarget::Empty, other, sheet, language) == no_help(language),
        says(no_help(language), None, sheet.product@, language),
{
}

/// Each field of the form for a usage query, and its extractor, is explained
/// under its own heading and in its own words.
pub proof fn queries_are_explained_in_their_own_words(
    sheet: HelpSheet,
    language: Language,
    template: UsageQueryTemplate,
    field: UsageQueryField,
    app_type: AppType,
)
    ensures
        template != UsageQueryTemplate::GitHubCopilot && template != UsageQueryTemplate::TokenPlan
            || field != UsageQueryField::Script ==> says(
            target_content(
                (HelpTarget::UsageQueryField { template, field }),
                app_type,
                sheet,
                language,
            ),
            query_explained(template, field, language),
            sheet.product@,
            language,
        ),
        template != UsageQueryTemplate::GitHubCopilot && template != UsageQueryTemplate::TokenPlan
            ==> says(
            target_content(
                (HelpTarget::UsageQueryExtractor { template }),
                app_type,
                sheet,
                language,
            ),
            extractor_explained(template, language),
            sheet.product@,
            language,
        ),
        template == UsageQueryTemplate::GitHubCopilot || template == UsageQueryTemplate::TokenPlan
            ==> {
            let content = target_content(
                HelpTarget::UsageQueryExtractor { template },
                app_type,
                sheet,
                language,
            );
            &&& content.title == (extractor_explained(template, language)->0).0
            &&& content.lines == seq![said(language, "此处无提示", "No help here")]
            &&& content == target_content(
                HelpTarget::UsageQueryField { template, field: UsageQueryField::Script },
                app_type,
                sheet,
                language,
            )
        },
{
}

/// The sessions page and the choice of a template have help of their own, the
/// usage script has that of the sheet, and every help has the same line above its
/// title.
pub proof fn pages_are_explained_in_their_own_words(
    app_type: AppType,
    sheet: HelpSheet,
    language: Language,
    target: HelpTarget,
)
    ensures
        target_content(target, app_type, sheet, language).eyebrow == said(
            language,
            "点在哪，帮助就在哪",
            "Help follows the focused item",
        ),
        says(
            target_content(HelpTarget::Sessions, app_type, sheet, language),
            Some(
                (
                    (TextView { key: TextKey::Help(HelpLabel::Sessions), args: Seq::empty() }),
                    said(
                        language,
                        "会话始终只显示当前应用，结果由项目范围 × / 搜索共同决定。\n←/→ 切换列表和详情，h/l 是备用键；↑/↓ 逐项移动，PgUp/PgDn 按页移动。p 打开项目选择器；Home/End 跳到首尾，Shift+←/→ 查看完整目录，Shift+Home/End 直达目录两端。\n“未知目录”位于项目列表末尾，只包含缺少项目目录的旧会话；精确项目按词法规范化后的完整目录匹配。",
                        "Sessions always show the current app; results combine Project scope × / Search.\nUse ←/→ to switch between the list and details; h/l are aliases. Use ↑/↓ to move one item and PgUp/PgDn to move by a page. Press p to choose a project; Home/End jumps to either list end, Shift+←/→ reveals the complete directory, and Shift+Home/End jumps to either path end.\nUnknown directory is last and contains only legacy sessions without a project directory; exact projects match the complete lexically normalized directory.",
                    ),
                ),
            ),
            sheet.product@,
            language,
        ),
        says(
            target_content(HelpTarget::ProviderTemplate, app_type, sheet, language),
            Some(
                (
                    verbatim_title(language, "供应商模板", "Provider templates"),
                    said(
                        language,
                        "选择一个预设模板后按 Enter 应用。模板会填入供应商常用的地址、模型和元数据。\n如果没有合适模板，保留自定义后直接填写字段。",
                        "Choose a preset and press Enter to apply it. Templates fill common provider URLs, models, and metadata.\nKeep Custom selected when no preset fits.",
                    ),
                ),
            ),
            sheet.product@,
            language,
        ),
        target_content(HelpTarget::UsageQueryInstructions, app_type, sheet, language).lines
            == views(sheet.usage_script@),
        target_content(HelpTarget::UsageQueryInstructions, app_type, sheet, language).title
            == (TextView {
            key: TextKey::Help(HelpLabel::UsageQueryScriptHelp),
            args: Seq::empty(),
        }),
        target_content(HelpTarget::Global, app_type, sheet, language).title == (TextView {
            key: TextKey::Help(HelpLabel::Help),
            args: Seq::empty(),
        }),
{
}

// The global sheet.

/// The hints of a page stand one behind the other.
pub proof fn hints_are_joined(items: Seq<KeyHint>, more: KeyHint, separator: Seq<char>)
    ensures
        hints(Seq::empty(), separator).len() == 0,
        hints(seq![more], separator) == more.display@ + " "@ + more.label@,
        items.len() > 0 ==> hints(items.push(more), separator) == hints(items, separator)
            + separator + (more.display@ + " "@ + more.label@),
{
    assert(items.push(more).drop_last() =~= items);
    assert(items.push(more).last() == more);
}

/// The keys of a page on one line, with the punctuation of the language.
pub open spec fn keys_line(
    language: Language,
    chinese: &'static str,
    english: &'static str,
    items: Seq<KeyHint>,
) -> Seq<char> {
    if language == Language::Chinese {
        "- "@ + chinese@ + "："@ + hints(items, "，"@)
    } else {
        "- "@ + english@ + ": "@ + hints(items, ", "@)
    }
}

/// The global sheet has the lines that go before, then one line for each page in
/// this order: providers, MCP, prompts, sessions, skills, usage, configuration,
/// settings. Hermes has its memory in place of prompts, and no configuration.
pub proof fn the_sheet_lists_every_page(app_type: AppType, sheet: HelpSheet, language: Language)
    ensures
        ({
            let lines = target_content(HelpTarget::Global, app_type, sheet, language).lines;
            let n = lines_of(sheet.prelude@).len() as int;
            let hermes = app_type == AppType::Hermes;
            &&& lines.len() == n + if hermes {
                7int
            } else {
                8
            }
            &&& lines.take(n) == lines_of(sheet.prelude@)
            &&& lines[n] == "- "@ + sheet.providers_line@
            &&& lines[n + 1] == keys_line(language, "MCP", "MCP", sheet.mcp@)
            &&& hermes ==> lines[n + 2] == "- "@ + sheet.memory_line@
            &&& !hermes ==> lines[n + 2] == keys_line(
                language,
                "提示词",
                "Prompts",
                sheet.prompts@,
            )
            &&& lines[n + 3] == keys_line(language, "会话", "Sessions", sheet.sessions@)
            &&& lines[n + 4] == keys_line(language, "技能", "Skills", sheet.skills@)
            &&& lines[n + 5] == keys_line(language, "使用统计", "Usage", sheet.usage@)
            &&& !hermes ==> lines[n + 6] == "- "@ + sheet.config_line@
            &&& lines[lines.len() - 1] == "- "@ + sheet.settings_line@
        }),
{
    let lines = target_content(HelpTarget::Global, app_type, sheet, language).lines;
    let n = lines_of(sheet.prelude@).len() as int;
    assert(lines.take(n) =~= lines_of(sheet.prelude@));
}

// Lines and the product's name.

/// A text without line ends.
pub open spec fn on_one_line(text: Seq<char>) -> bool {
    forall|i: int| 0 <= i < text.len() ==> (#[trigger] text[i]) != '\n' && text[i] != '\r'
}

proof fn lemma_line_behind(current: Seq<char>, line: Seq<char>, rest: Seq<char>)
    requires
        on_one_line(line),
    ensures
        lines_behind(current, line + seq!['\n'] + rest) == seq![current + line] + lines_behind(
            Seq::empty(),
            rest,
        ),
        line.len() + current.len() > 0 ==> lines_behind(current, line) == seq![current + line],
        line.len() + current.len() == 0 ==> lines_behind(current, line).len() == 0,
    decreases line.len(),
{
    let text = line + seq!['\n'] + rest;
    if line.len() == 0 {
        assert(text.skip(1) =~= rest);
        assert(current + line =~= current);
        assert(text[0] == '\n');
    } else {
        let tail = line.skip(1);
        assert(text[0] == line[0]);
        assert(text.skip(1) =~= tail + seq!['\n'] + rest);
        assert forall|i: int| 0 <= i < tail.len() implies (#[trigger] tail[i]) != '\n' && tail[i]
            != '\r' by {
            assert(tail[i] == line[i + 1]);
        }
        lemma_line_behind(current.push(line[0]), tail, rest);
        assert(current.push(line[0]) + tail =~= current + line);
    }
}

/// A text is broken into lines at its line feeds, and nowhere else: its first
/// line and the lines of what is left behind the line feed. A text without one
/// is a single line, and an empty one is none.
pub proof fn texts_are_broken_into_lines(line: Seq<char>, rest: Seq<char>)
    requires
        on_one_line(line),
    ensures
        lines_of(line + seq!['\n'] + rest) == seq![line] + lines_of(rest),
        line.len() > 0 ==> lines_of(line) == seq![line],
        lines_of(Seq::empty()).len() == 0,
{
    lemma_line_behind(Seq::empty(), line, rest);
    lemma_line_behind(Seq::empty(), Seq::empty(), rest);
    assert(Seq::<char>::empty() + line =~= line);
}

/// The product's name stands wherever a text has braces for it; everything else
/// of the text stays.
pub proof fn the_product_is_named(front: Seq<char>, rest: Seq<char>, product: Seq<char>)
    requires
        forall|i: int| 0 <= i < front.len() ==> (#[trigger] front[i]) != '{',
    ensures
        named(front, product) == front,
        named(front + seq!['{', '}'] + rest, product) == front + product + named(rest, product),
    decreases front.len(),
{
    let text = front + seq!['{', '}'] + rest;
    if front.len() == 0 {
        assert(text[0] == '{' && text[1] == '}');
        assert(text.skip(2) =~= rest);
        assert(front + product + named(rest, product) =~= product + named(rest, product));
    } else {
        let tail = front.skip(1);
        assert forall|i: int| 0 <= i < tail.len() implies (#[trigger] tail[i]) != '{' by {
            assert(tail[i] == front[i + 1]);
        }
        the_product_is_named(tail, rest, product);
        assert(text[0] == front[0]);
        assert(text.skip(1) =~= tail + seq!['{', '}'] + rest);
        assert(seq![front[0]] + tail =~= front);
        assert(seq![front[0]] + (tail + product + named(rest, product)) =~= front + product
            + named(rest, product));
    }
}

// What help is about.

/// An open choice is explained by the field that it is made for; one that
/// belongs to no form is not. Over the list of projects the sessions are.
pub proof fn choices_are_explained_by_their_field(focus: HelpFocus)
    requires
        focus.overlay != HelpOverlay::Absent,
    ensures
        focus.overlay == HelpOverlay::SessionProjectPicker ==> focus.target()
            == HelpTarget::Sessions,
        focus.overlay == HelpOverlay::Help || focus.overlay == HelpOverlay::Other ==> focus.target()
            == HelpTarget::Global,
        !(focus.form is Provider) && focus.overlay != HelpOverlay::SessionProjectPicker
            ==> focus.target() == HelpTarget::Global,
        focus.form matches OpenForm::Provider(form) ==> {
            let app_type = form.app_type;
            &&& focus.overlay == HelpOverlay::ClaudeApiFormatPicker ==> focus.target() == (
            HelpTarget::ProviderField { app_type, field: ProviderAddField::ClaudeApiFormat })
            &&& focus.overlay == HelpOverlay::ClaudeModelPicker ==> focus.target() == (
            HelpTarget::ProviderField { app_type, field: ProviderAddField::ClaudeModelConfig })
            &&& focus.overlay == HelpOverlay::HermesModelsPicker ==> focus.target() == (
            HelpTarget::ProviderField { app_type, field: ProviderAddField::HermesModels })
            &&& focus.overlay == HelpOverlay::ManagedAccountPicker || focus.overlay
                == HelpOverlay::ManagedAccountActionPicker ==> focus.target() == (
            HelpTarget::ProviderField { app_type, field: ProviderAddField::CodexOAuthAccount })
            &&& focus.overlay == HelpOverlay::UserAgentPicker ==> focus.target() == (
            HelpTarget::LocalProxySettingsField { field: LocalProxySettingsField::UserAgent })
            &&& focus.overlay == HelpOverlay::UsageQueryTemplatePicker ==> focus.target() == (
            HelpTarget::UsageQueryField {
                template: form.usage_query_template,
                field: UsageQueryField::Template,
            })
        },
{
}

/// Without an open choice, help is about what has the focus: nothing while a text
/// or a filter is typed, the sessions on their page, the field, preview or script
/// of an open form for a provider, and the whole program everywhere else.
pub proof fn help_is_about_the_focus(focus: HelpFocus)
    requires
        focus.overlay == HelpOverlay::Absent,
    ensures
        focus.editor_open || focus.filter_active ==> focus.target() == HelpTarget::Empty,
        !focus.editor_open && !focus.filter_active && focus.route is Sessions ==> focus.target()
            == HelpTarget::Sessions,
        !focus.editor_open && !focus.filter_active && !(focus.route is Sessions) && !(
        focus.form is Provider) ==> focus.target() == HelpTarget::Global,
        !focus.editor_open && !focus.filter_active && !(focus.route is Sessions) ==> (
        focus.form matches OpenForm::Provider(form) ==> {
            let target = focus.target();
            &&& form.page == ProviderFormPage::CodexLocalRouting && form.focus == FormFocus::Fields
                ==> (form.codex_local_routing_field matches Some(field) ==> target == (
            HelpTarget::CodexLocalRoutingField { field }))
            &&& form.page == ProviderFormPage::LocalProxySettings && form.focus
                == FormFocus::Fields ==> (form.local_proxy_settings_field matches Some(field)
                ==> target == (HelpTarget::LocalProxySettingsField { field }))
            &&& form.page == ProviderFormPage::CodexModelCatalog && form.focus == FormFocus::Fields
                ==> target == (HelpTarget::CodexModelCatalogField {
                field: form.codex_model_catalog_field,
            })
            &&& form.page == ProviderFormPage::ClaudeQuickConfig && form.focus == FormFocus::Fields
                ==> (form.claude_quick_config_field matches Some(field) ==> target == (
            HelpTarget::ProviderField { app_type: form.app_type, field }))
            &&& form.page == ProviderFormPage::CodexQuickConfig && form.focus == FormFocus::Fields
                ==> (form.codex_quick_config_field matches Some(field) ==> target == (
            HelpTarget::ProviderField { app_type: form.app_type, field }))
            &&& form.page == ProviderFormPage::UsageQuery && form.focus == FormFocus::Fields ==> (
            form.usage_query_field matches Some(field) ==> target == (HelpTarget::UsageQueryField {
                template: form.usage_query_template,
                field,
            }))
            &&& form.page == ProviderFormPage::UsageQuery && form.focus == FormFocus::JsonPreview
                && form.usage_query_extractor_available ==> target == (
            HelpTarget::UsageQueryExtractor { template: form.usage_query_template })
            &&& form.page == ProviderFormPage::UsageQuery && form.focus == FormFocus::Content
                && form.usage_query_extractor_available ==> target
                == HelpTarget::UsageQueryInstructions
            &&& form.page == ProviderFormPage::UsageQuery && !form.usage_query_extractor_available
                && form.focus != FormFocus::Fields ==> target == HelpTarget::Empty
            &&& form.page == ProviderFormPage::Main && form.focus == FormFocus::Templates
                && form.mode == FormMode::Add ==> target == HelpTarget::ProviderTemplate
            &&& form.page == ProviderFormPage::Main && form.focus == FormFocus::Templates
                && form.mode != FormMode::Add ==> target == HelpTarget::Empty
            &&& form.page == ProviderFormPage::Main && form.focus == FormFocus::JsonPreview
                ==> target == (HelpTarget::ProviderPreview {
                app_type: form.app_type,
                section: if form.app_type == AppType::Codex {
                    Some(form.codex_preview_section)
                } else {
                    None
                },
            })
            &&& form.page != ProviderFormPage::Main && form.page != ProviderFormPage::UsageQuery
                && form.focus != FormFocus::Fields ==> target == HelpTarget::Empty
            &&& form.page == ProviderFormPage::Main && form.focus == FormFocus::Fields
                && form.fields@.len() == 0 ==> target == HelpTarget::Empty
            &&& form.page == ProviderFormPage::Main && form.focus == FormFocus::Fields
                && form.fields@.len() > 0 && form.field_idx >= form.fields@.len() ==> (target == (
            HelpTarget::ProviderField {
                app_type: form.app_type,
                field: form.fields@[form.fields@.len() - 1],
            }) || target == HelpTarget::Empty)
        }),
{
}

} // verus!
