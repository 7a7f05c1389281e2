//! What help is there, in both languages of the interface.

use vstd::prelude::*;

use crate::text::{Text, TextKey, TextView};

verus! {

/// The language of the interface.
#[derive(Debug, Clone, Copy, PartialEq, Eq, Structural)]
pub enum Language {
    Chinese,
    English,
}

/// One of two wordings.
pub open spec fn worded(language: Language, chinese: &'static str, english: &'static str) -> Seq<char> {
    match language {
        Language::Chinese => chinese@,
        Language::English => english@,
    }
}

pub fn tr(language: Language, chinese: &'static str, english: &'static str) -> (words: &'static str)
    ensures
        words@ == worded(language, chinese, english),
{
    match language {
        Language::Chinese => chinese,
        Language::English => english,
    }
}

/// A heading that the interface uses elsewhere too, for a field or a page.
#[derive(Debug, Clone, Copy, PartialEq, Eq, Structural)]
pub enum HelpLabel {
    Help,
    UsageQueryScriptHelp,
    Sessions,
    BaseUrl,
    ApiKey,
    Model,
    CodexModelMapping,
    LocalProxySettings,
    ClaudeModelConfig,
    CodexUpstreamFormat,
    ClaudeApiFormat,
    ClaudeFallbackModel,
    ClaudeQuickConfig,
    CodexQuickConfig,
    CodexGoalMode,
    CodexRemoteCompaction,
    ClaudeHideAttribution,
    ClaudeTeammates,
    ClaudeToolSearch,
    ClaudeDisableAutoUpgrade,
    ChatgptAccount,
    CodexFastMode,
    ConfigItemCommonSnippet,
    FormAttachCommonConfig,
    ConfigItemUsageQuery,
    AuthType,
    OpenclawApi,
    ProviderPackage,
    OpenclawUserAgent,
    OpenclawModels,
    ContextLimit,
    OutputLimit,
    HermesApiMode,
    HermesModels,
    HermesRateLimitDelay,
    CodexLocalRoutingEnable,
    CodexReasoningSupportsThinking,
    CodexReasoningSupportsEffort,
    CodexModelCatalog,
    CustomUserAgent,
    LocalProxyHeaderOverrides,
    LocalProxyBodyOverrides,
    CodexAuthJson,
    CodexConfigToml,
    FormJson,
    UsageQueryEnable,
    UsageQueryTemplate,
    UsageQueryCredentialsConfig,
    UsageQueryBaseUrl,
    UsageQueryTimeoutSeconds,
    UsageQueryAutoInterval,
    UsageQueryScriptPreview,
}

/// What help can be about. In the words, `{}` stands for the product.
#[derive(Debug, Clone, Copy, PartialEq, Eq, Structural)]
pub enum HelpTopic {
    Sessions,
    ProviderTemplate,
    ProviderId,
    ProviderName,
    Website,
    Notes,
    CodexBaseUrl,
    BaseUrl,
    ApiKey,
    CodexModel,
    CodexModelMapping,
    LocalProxySettings,
    ClaudeModelConfig,
    CodexUpstreamFormat,
    ClaudeApiFormat,
    ClaudeFallbackModel,
    ClaudeQuickConfig,
    CodexQuickConfig,
    CodexGoalMode,
    CodexRemoteCompaction,
    ClaudeHideAttribution,
    ClaudeTeammates,
    ClaudeToolSearch,
    ClaudeDisableAutoUpgrade,
    ChatGptAccount,
    CodexFastMode,
    CommonSnippet,
    AttachCommonConfig,
    UsageQuery,
    GeminiAuthType,
    ModelName,
    OpenClawApi,
    ProviderPackage,
    OpenClawUserAgent,
    OpenClawModels,
    ContextLimit,
    OutputLimit,
    HermesApiMode,
    HermesModels,
    HermesRateLimitDelay,
    LocalRoutingEnabled,
    LocalRoutingThinking,
    LocalRoutingEffort,
    LocalRoutingCatalog,
    ProxyUserAgent,
    ProxyHeaderOverrides,
    ProxyBodyOverrides,
    CatalogModel,
    CatalogDisplayName,
    CatalogContextWindow,
    CodexAuthPreview,
    CodexConfigPreview,
    Preview,
    UsageQueryEnabled,
    UsageQueryTemplate,
    UsageQueryApiKey,
    NewApiBaseUrl,
    GeneralBaseUrl,
    NewApiCredentials,
    UsageQueryTimeout,
    UsageQueryInterval,
    CustomExtractor,
    GeneralExtractor,
    NewApiExtractor,
    BalanceExtractor,
}

pub const EYEBROW_ZH: &'static str = "点在哪，帮助就在哪";

pub const EYEBROW_EN: &'static str = "Help follows the focused item";

pub const NO_HELP_ZH: &'static str = "此处无提示";

pub const NO_HELP_EN: &'static str = "No help here";

pub const SESSIONS_ZH: &'static str =
    "会话始终只显示当前应用，结果由项目范围 × / 搜索共同决定。\n←/→ 切换列表和详情，h/l 是备用键；↑/↓ 逐项移动，PgUp/PgDn 按页移动。p 打开项目选择器；Home/End 跳到首尾，Shift+←/→ 查看完整目录，Shift+Home/End 直达目录两端。\n“未知目录”位于项目列表末尾，只包含缺少项目目录的旧会话；精确项目按词法规范化后的完整目录匹配。";

pub const SESSIONS_EN: &'static str =
    "Sessions always show the current app; results combine Project scope × / Search.\nUse ←/→ to switch between the list and details; h/l are aliases. Use ↑/↓ to move one item and PgUp/PgDn to move by a page. Press p to choose a project; Home/End jumps to either list end, Shift+←/→ reveals the complete directory, and Shift+Home/End jumps to either path end.\nUnknown directory is last and contains only legacy sessions without a project directory; exact projects match the complete lexically normalized directory.";

pub const PROVIDER_TEMPLATE_TITLE_ZH: &'static str = "供应商模板";

pub const PROVIDER_TEMPLATE_TITLE_EN: &'static str = "Provider templates";

pub const PROVIDER_TEMPLATE_ZH: &'static str =
    "选择一个预设模板后按 Enter 应用。模板会填入供应商常用的地址、模型和元数据。\n如果没有合适模板，保留自定义后直接填写字段。";

pub const PROVIDER_TEMPLATE_EN: &'static str =
    "Choose a preset and press Enter to apply it. Templates fill common provider URLs, models, and metadata.\nKeep Custom selected when no preset fits.";

pub const PROVIDER_ID_TITLE_ZH: &'static str = "供应商 ID";

pub const PROVIDER_ID_TITLE_EN: &'static str = "Provider ID";

pub const PROVIDER_ID_ZH: &'static str =
    "用于配置文件和数据库里的稳定标识。创建后不要随意改动，避免已有引用找不到这个供应商。";

pub const PROVIDER_ID_EN: &'static str =
    "Stable identifier used in config files and storage. Avoid changing it after creation, or existing references may stop matching this provider.";

pub const PROVIDER_NAME_TITLE_ZH: &'static str = "名称";

pub const PROVIDER_NAME_TITLE_EN: &'static str = "Name";

pub const PROVIDER_NAME_ZH: &'static str =
    "显示在供应商列表中的名称。新建时如果 ID 为空，会根据名称自动生成 ID。";

pub const PROVIDER_NAME_EN: &'static str =
    "Display name shown in the provider list. When creating a provider, an empty ID is generated from this name.";

pub const WEBSITE_TITLE_ZH: &'static str = "网站";

pub const WEBSITE_TITLE_EN: &'static str = "Website";

pub const WEBSITE_ZH: &'static str =
    "供应商的控制台、文档或充值页面地址，仅用于记录和打开查看，不参与请求转发。";

pub const WEBSITE_EN: &'static str =
    "Provider console, docs, or billing URL. It is stored for reference and is not used for request routing.";

pub const NOTES_TITLE_ZH: &'static str = "备注";

pub const NOTES_TITLE_EN: &'static str = "Notes";

pub const NOTES_ZH: &'static str =
    "给自己看的短备注，例如账号用途、套餐或到期信息。它不会写入客户端运行配置。";

pub const NOTES_EN: &'static str =
    "Short private note, such as account purpose, plan, or renewal info. It is not written to the live client config.";

pub const CODEX_BASE_URL_ZH: &'static str =
    "Codex 原生只支持 OpenAI Responses API 与 GPT 系列模型。\n如果供应商使用 Chat Completions 协议，或模型不是 GPT 系列（如 DeepSeek、Kimi），需要保持本地路由开启，让 cc-switch 做协议和模型路由转换。";

pub const CODEX_BASE_URL_EN: &'static str =
    "Codex natively supports OpenAI Responses API and GPT-series models.\nIf this provider uses Chat Completions, or the model is not GPT-series, such as DeepSeek or Kimi, keep local routing enabled so cc-switch can translate protocol and model routing.";

pub const BASE_URL_ZH: &'static str =
    "供应商 API 的基础地址。通常不需要在末尾重复补全具体接口路径，除非供应商文档明确要求。";

pub const BASE_URL_EN: &'static str =
    "Base URL for the provider API. Usually you do not need to append the final endpoint path unless the provider docs require it.";

pub const API_KEY_ZH: &'static str =
    "供应商 API Key。保存后会按该应用的配置规则写入存储配置；界面会以明文显示当前值。";

pub const API_KEY_EN: &'static str =
    "Provider API key. After saving, it is written using this app's config rules. The UI shows the current value in plaintext.";

pub const CODEX_MODEL_ZH: &'static str =
    "Codex 默认模型。第三方模型如果不是 GPT 系列，通常需要本地路由。\n上游模型映射会生成 model_catalog_json，让 Codex 的 /model 命令看到第三方模型；修改目录后通常需要重启 Codex 才会刷新。";

pub const CODEX_MODEL_EN: &'static str =
    "Default Codex model. Third-party non-GPT models usually need local routing.\nUpstream model mapping generates model_catalog_json so Codex /model can show third-party models. Restart Codex after catalog changes.";

pub const CODEX_MODEL_MAPPING_ZH: &'static str =
    "打开模型映射二级页面。填了才生成模型目录：Chat Completions 会生成兼容路由（走本地代理转换），原生 Responses 会生成 model-catalogs.json 供 Codex 直连显示。留空则不生成。\n使用 Chat 格式时，这里还会显示「思考能力」开关。";

pub const CODEX_MODEL_MAPPING_EN: &'static str =
    "Opens the model mapping page. A catalog is generated only when filled: Chat Completions produces compatibility routing (via the local proxy), while native Responses generates model-catalogs.json for Codex direct-connect. Left empty, nothing is generated.\nWith the Chat format, reasoning-capability toggles also appear here.";

pub const LOCAL_PROXY_SETTINGS_ZH: &'static str =
    "配置仅由本地路由或代理接管使用的出站请求选项，包括自定义 User-Agent、Header 覆盖和 Body 覆盖。直连客户端配置不会受影响。";

pub const LOCAL_PROXY_SETTINGS_EN: &'static str =
    "Configures outbound request options used only by local routing or proxy takeover, including a custom User-Agent plus header and body overrides. Direct client configuration is unaffected.";

pub const CLAUDE_MODEL_CONFIG_ZH: &'static str =
    "配置 {} 的模型分层。在模型列按 Enter 编辑，按 Space 从 API 自动获取。Sonnet 和 Opus 可用 ←→ 移到 1M 列并按 Enter 切换；1M 只向 {} Code 声明百万上下文能力，不会检测上游是否真正支持。底层继续使用模型 ID 的 [1M] 后缀，以兼容现有配置。次要快捷键 a 可将当前模型填充到全部角色。";

pub const CLAUDE_MODEL_CONFIG_EN: &'static str =
    "Configures {} model tiers. In the model column, press Enter to edit or Space to fetch from the API. For Sonnet and Opus, use ←→ to focus the 1M column and Enter to toggle it. 1M only declares million-token context support to {} Code; it does not detect upstream capability. The existing [1M] model-ID suffix remains the storage format. The secondary a shortcut fills every role from the current model.";

pub const CODEX_UPSTREAM_FORMAT_ZH: &'static str =
    "选择上游供应商的 API 格式。供应商原生是 Responses API 就选 Responses（直连，不转换）；使用 Chat Completions 协议就选 Chat（需通过本地路由转换为 Chat Completions）。";

pub const CODEX_UPSTREAM_FORMAT_EN: &'static str =
    "Select the upstream provider's API format. Choose Responses when the provider is natively Responses API (direct, no conversion); choose Chat when it uses Chat Completions (converted via local routing).";

pub const CLAUDE_API_FORMAT_ZH: &'static str =
    "选择供应商 API 的输入格式。非 Anthropic 协议通常需要开启本地路由做格式转换。";

pub const CLAUDE_API_FORMAT_EN: &'static str =
    "Select the input format for the provider's API. Non-Anthropic formats usually need local routing enabled for conversion.";

pub const CLAUDE_FALLBACK_MODEL_ZH: &'static str =
    "用于未明确落到具体角色模型（Haiku、Sonnet、Opus 等）的请求。使用第三方/中转端点时建议填写：否则这些请求（含 Haiku 后台子任务）会以原始 {} 模型名透传给上游，可能因上游无此模型而报错。官方端点可留空。";

pub const CLAUDE_FALLBACK_MODEL_EN: &'static str =
    "A fallback for requests that don't clearly map to a specific role model (Haiku, Sonnet, Opus, etc.). Recommended for third-party/relay endpoints—otherwise such requests (including Haiku background subtasks) are forwarded under their original {} model name and may fail if the upstream doesn't host it. Safe to leave blank for official endpoints.";

pub const CLAUDE_QUICK_CONFIG_ZH: &'static str =
    "打开 {} 快捷配置菜单，集中管理隐藏 AI 署名、Teammates 模式、启用 Tool Search、禁用自动升级等开关。";

pub const CLAUDE_QUICK_CONFIG_EN: &'static str =
    "Opens the {} quick-config menu that groups the hide-AI-attribution, Teammates, Tool Search, and disable-auto-upgrade toggles.";

pub const CODEX_QUICK_CONFIG_ZH: &'static str =
    "打开 Codex 快捷配置菜单，集中管理启用 Goal mode、启用远程压缩等开关。";

pub const CODEX_QUICK_CONFIG_EN: &'static str =
    "Opens the Codex quick-config menu that groups the Goal-mode and remote-compaction toggles.";

pub const CODEX_GOAL_MODE_ZH: &'static str =
    "启用 Codex 的 Goal mode，写入 config.toml 的 [features] goals = true；关闭时移除该项。";

pub const CODEX_GOAL_MODE_EN: &'static str =
    "Enables Codex Goal mode by writing [features] goals = true to config.toml; turning it off removes it.";

pub const CODEX_REMOTE_COMPACTION_ZH: &'static str =
    "开启后会将当前 model_providers 条目的 name 写为 OpenAI，使 Codex 尝试使用远程压缩；关闭时恢复原供应商名称。";

pub const CODEX_REMOTE_COMPACTION_EN: &'static str =
    "When enabled, sets the current model_providers entry's name to \"OpenAI\" so Codex attempts remote compaction; turning it off restores the provider name.";

pub const CLAUDE_HIDE_ATTRIBUTION_ZH: &'static str =
    "控制 {} Code 写入提交或拉取请求时是否附带署名信息。";

pub const CLAUDE_HIDE_ATTRIBUTION_EN: &'static str =
    "Controls whether {} Code adds attribution when writing commits or pull requests.";

pub const CLAUDE_TEAMMATES_ZH: &'static str =
    "启用 {} Code 的实验性 Teammates（多智能体协作）模式，写入 env.CLAUDE_CODE_EXPERIMENTAL_AGENT_TEAMS=1；关闭时移除该变量。";

pub const CLAUDE_TEAMMATES_EN: &'static str =
    "Enables {} Code's experimental Teammates (multi-agent) mode by writing env.CLAUDE_CODE_EXPERIMENTAL_AGENT_TEAMS=1; turning it off removes the variable.";

pub const CLAUDE_TOOL_SEARCH_ZH: &'static str =
    "启用 {} Code 的 Tool Search（工具搜索）能力，写入 env.ENABLE_TOOL_SEARCH=true；关闭时移除该变量。";

pub const CLAUDE_TOOL_SEARCH_EN: &'static str =
    "Enables {} Code's Tool Search capability by writing env.ENABLE_TOOL_SEARCH=true; turning it off removes the variable.";

pub const CLAUDE_DISABLE_AUTO_UPGRADE_ZH: &'static str =
    "禁用 {} Code 的自动升级，写入 env.DISABLE_AUTOUPDATER=1；关闭时移除该变量。";

pub const CLAUDE_DISABLE_AUTO_UPGRADE_EN: &'static str =
    "Disables {} Code's auto-upgrade by writing env.DISABLE_AUTOUPDATER=1; turning it off removes the variable.";

pub const CHAT_GPT_ACCOUNT_ZH: &'static str =
    "绑定 ChatGPT/Codex 官方登录账号。官方账号可用于 Codex 插件、移动端远程操作等官方能力。";

pub const CHAT_GPT_ACCOUNT_EN: &'static str =
    "Binds an official ChatGPT/Codex account. Official login can keep Codex plugins, mobile remote control, and other official app features available.";

pub const CODEX_FAST_MODE_ZH: &'static str =
    "对 Codex OAuth 请求启用优先服务层。只有支持该能力的官方账号或服务才会生效。";

pub const CODEX_FAST_MODE_EN: &'static str =
    "Enables the priority service tier for Codex OAuth requests. It only affects accounts or services that support it.";

pub const COMMON_SNIPPET_ZH: &'static str =
    "通用配置片段用于保存插件、环境变量等非敏感 TOML，切换供应商时仍会保留。\n上游建议从当前 config.toml 重新提取通用部分后保存；为空时可以先从已有配置里提取。\n只有勾选添加通用配置时才会写入供应商配置。";

pub const COMMON_SNIPPET_EN: &'static str =
    "Common config snippets store non-sensitive TOML such as plugins and environment variables, so they survive provider switches.\nUpstream suggests re-extracting the common part from the current config.toml before saving. If it is empty, start by extracting from an existing config.\nIt is written only when Attach Common Config is enabled.";

pub const ATTACH_COMMON_CONFIG_ZH: &'static str =
    "开启后保存供应商时会把通用配置片段合并进去。关闭后只保存该供应商自己的配置。\n这不会把 API Key 等敏感字段放进通用片段。";

pub const ATTACH_COMMON_CONFIG_EN: &'static str =
    "When enabled, saving the provider merges the common config snippet into it. When disabled, only provider-specific config is saved.\nAPI keys and other sensitive fields do not belong in the common snippet.";

pub const USAGE_QUERY_ZH: &'static str =
    "打开用量查询的二级页面。启用后可按模板查询余额、额度或剩余用量。\n第一次进入会显示一次确认提示。";

pub const USAGE_QUERY_EN: &'static str =
    "Opens the Usage Query secondary page. When enabled, templates can query balance, quota, or remaining usage.\nThe first entry shows a one-time notice.";

pub const GEMINI_AUTH_TYPE_ZH: &'static str =
    "选择 Gemini 使用 OAuth 还是 API Key。切换后相关字段会按所选认证方式显示。";

pub const GEMINI_AUTH_TYPE_EN: &'static str =
    "Selects whether Gemini uses OAuth or API key auth. Related fields change with the selected auth mode.";

pub const MODEL_NAME_ZH: &'static str =
    "供应商请求时使用的模型名称。应与供应商文档或模型列表中的 ID 保持一致。";

pub const MODEL_NAME_EN: &'static str =
    "Model name sent to the provider. Keep it aligned with the provider docs or model list.";

pub const OPEN_CLAW_API_ZH: &'static str =
    "选择 OpenClaw 使用的协议适配器。不同适配器会影响请求格式。";

pub const OPEN_CLAW_API_EN: &'static str =
    "Selects the protocol adapter used by OpenClaw. Different adapters affect request shape.";

pub const PROVIDER_PACKAGE_ZH: &'static str =
    "选择 OpenCode 使用的供应商包。不同包会影响请求格式。";

pub const PROVIDER_PACKAGE_EN: &'static str =
    "Selects the provider package used by OpenCode. Different packages affect request shape.";

pub const OPEN_CLAW_USER_AGENT_ZH: &'static str =
    "控制请求中是否发送默认 User-Agent。部分供应商会依赖它识别客户端。";

pub const OPEN_CLAW_USER_AGENT_EN: &'static str =
    "Controls whether requests include the default User-Agent. Some providers use it to identify the client.";

pub const OPEN_CLAW_MODELS_ZH: &'static str =
    "编辑 OpenClaw 模型列表。这里保存的是该供应商暴露给客户端选择的模型配置。";

pub const OPEN_CLAW_MODELS_EN: &'static str =
    "Edits OpenClaw model entries. These are the models exposed to the client for this provider.";

pub const CONTEXT_LIMIT_ZH: &'static str =
    "模型上下文限制用于告诉客户端可用上下文上限。留空表示不覆盖默认值。";

pub const CONTEXT_LIMIT_EN: &'static str =
    "The model context limit tells the client the usable context cap. Leave blank to avoid overriding defaults.";

pub const OUTPUT_LIMIT_ZH: &'static str =
    "模型输出限制用于告诉客户端单次响应输出上限。留空表示不覆盖默认值。";

pub const OUTPUT_LIMIT_EN: &'static str =
    "The model output limit tells the client the single-response output cap. Leave blank to avoid overriding defaults.";

pub const HERMES_API_MODE_ZH: &'static str =
    "选择 Hermes 的 API 模式。该模式会影响写入 Hermes 配置的字段形状。";

pub const HERMES_API_MODE_EN: &'static str =
    "Selects the Hermes API mode. This affects the field shape written into Hermes config.";

pub const HERMES_MODELS_ZH: &'static str =
    "配置 Hermes 供应商的模型字典。每个模型可包含 ID、显示名和上下文长度。";

pub const HERMES_MODELS_EN: &'static str =
    "Configures the Hermes provider model dictionary. Each model can include ID, display name, and context length.";

pub const HERMES_RATE_LIMIT_DELAY_ZH: &'static str =
    "Hermes 请求之间的限速延迟。留空表示不设置；填写时必须是非负数字。";

pub const HERMES_RATE_LIMIT_DELAY_EN: &'static str =
    "Rate-limit delay between Hermes requests. Leave blank to unset it. When filled, it must be a non-negative number.";

pub const LOCAL_ROUTING_ENABLED_ZH: &'static str =
    "切换本地路由。开启后该 Codex 供应商会使用 OpenAI Chat Completions 格式，并依赖本地代理映射到 Codex 可用的配置。";

pub const LOCAL_ROUTING_ENABLED_EN: &'static str =
    "Toggles local routing. When enabled, this Codex provider uses OpenAI Chat Completions format and relies on the local proxy to map it into Codex-compatible config.";

pub const LOCAL_ROUTING_THINKING_ZH: &'static str =
    "标记该路由模型是否支持思考模式。这个值会写入 Codex 配置，用于生成模型能力描述。";

pub const LOCAL_ROUTING_THINKING_EN: &'static str =
    "Marks whether the routed model supports thinking mode. This value is written into Codex config for model capability metadata.";

pub const LOCAL_ROUTING_EFFORT_ZH: &'static str =
    "标记该路由模型是否支持 reasoning effort。只有供应商实际支持按思考等级调节时才应开启。";

pub const LOCAL_ROUTING_EFFORT_EN: &'static str =
    "Marks whether the routed model supports reasoning effort. Enable it only when the provider actually supports effort levels.";

pub const LOCAL_ROUTING_CATALOG_ZH: &'static str =
    "在此把供应商模型映射成 Codex 可见模型。a 添加行，Enter 编辑单元格，←→ 切换列，f 拉取，Del 删除。\n三列：\n· 实际请求模型 —— 发给上游的模型 ID，不能为空（例：deepseek-chat）\n· 显示名 —— /model 菜单里显示的名字，留空用模型 ID（例：DeepSeek Chat）\n· 上下文窗口 —— 该模型的上下文长度，留空不覆盖（例：128000）\n修改后通常需要重启 Codex，/model 列表才会刷新。";

pub const LOCAL_ROUTING_CATALOG_EN: &'static str =
    "Map provider models into models visible to Codex here. Press a to add a row, Enter to edit a cell, ←→ to switch columns, f to fetch, Del to delete.\nThree columns:\n· Request model — the model ID sent upstream, cannot be empty (e.g. deepseek-chat)\n· Display name — the name shown in the /model menu, empty uses the model ID (e.g. DeepSeek Chat)\n· Context window — this model's context length, empty to not override (e.g. 128000)\nRestart Codex after changes so the /model list refreshes.";

pub const PROXY_USER_AGENT_ZH: &'static str =
    "替换本地代理转发给供应商 API 的 User-Agent。可选用兼容 {} Code 的预设，也可以手动填写；留空表示不覆盖。控制字符会被标记为无效，但不会阻止保存。";

pub const PROXY_USER_AGENT_EN: &'static str =
    "Replaces the User-Agent forwarded to the provider API by the local proxy. Choose a {} Code-compatible preset or enter a custom value; leave blank for no override. Control characters are flagged as invalid but do not block saving.";

pub const PROXY_HEADER_OVERRIDES_ZH: &'static str =
    "以 JSON 对象配置协议转换后的上游 Header。名称保存为小写，值必须是字符串；认证、内容类型、连接、转发和追踪等由代理管理的 Header 不能覆盖。";

pub const PROXY_HEADER_OVERRIDES_EN: &'static str =
    "Uses a JSON object to override upstream headers after protocol conversion. Names are stored lowercase and values must be strings; proxy-managed authentication, content, connection, forwarding, and tracing headers cannot be overridden.";

pub const PROXY_BODY_OVERRIDES_ZH: &'static str =
    "以 JSON 对象覆盖协议转换后的最终上游 Body。适合补充 store: false 等供应商专用字段；顶层 stream 由代理控制，不能覆盖。";

pub const PROXY_BODY_OVERRIDES_EN: &'static str =
    "Uses a JSON object to override the final upstream body after protocol conversion. This is suitable for provider-specific fields such as store: false; top-level stream is controlled by the proxy and cannot be overridden.";

pub const CATALOG_MODEL_TITLE_ZH: &'static str = "模型 ID";

pub const CATALOG_MODEL_TITLE_EN: &'static str = "Model ID";

pub const CATALOG_MODEL_ZH: &'static str =
    "供应商实际接收的模型 ID。不能为空；可以手动填写，也可以从供应商模型列表抓取后选择。";

pub const CATALOG_MODEL_EN: &'static str =
    "Provider model ID sent upstream. It cannot be empty; enter it manually or fetch and select it from the provider model list.";

pub const CATALOG_DISPLAY_NAME_TITLE_ZH: &'static str = "显示名";

pub const CATALOG_DISPLAY_NAME_TITLE_EN: &'static str = "Display Name";

pub const CATALOG_DISPLAY_NAME_ZH: &'static str =
    "Codex /model 列表中显示的名称。留空时使用模型 ID。";

pub const CATALOG_DISPLAY_NAME_EN: &'static str =
    "Name shown in the Codex /model list. Leave empty to use the model ID.";

pub const CATALOG_CONTEXT_WINDOW_TITLE_ZH: &'static str = "上下文窗口";

pub const CATALOG_CONTEXT_WINDOW_TITLE_EN: &'static str = "Context Window";

pub const CATALOG_CONTEXT_WINDOW_ZH: &'static str =
    "告诉 Codex 该模型的上下文窗口。留空表示不覆盖；填写时应与供应商实际模型能力一致。";

pub const CATALOG_CONTEXT_WINDOW_EN: &'static str =
    "Tells Codex this model's context window. Leave empty to avoid overriding it; filled values should match the provider's actual model capability.";

pub const CODEX_AUTH_PREVIEW_ZH: &'static str =
    "这里预览将保存的 Codex 认证配置。代理接管时，上游会强调这里是存储配置，不是运行中的 auth.json。";

pub const CODEX_AUTH_PREVIEW_EN: &'static str =
    "This previews the Codex auth config to be saved. During proxy takeover, upstream treats this as stored config, not the live auth.json.";

pub const CODEX_CONFIG_PREVIEW_ZH: &'static str =
    "这里预览将保存的 Codex config.toml。\n本地路由、思考能力、模型目录、目标模式、远程压缩等高级配置通常会体现在这里。预设供应商多数会自动配置；自定义供应商会按名称和地址推断，只有自动识别不准时才需要手动改。";

pub const CODEX_CONFIG_PREVIEW_EN: &'static str =
    "This previews the Codex config.toml to be saved.\nAdvanced settings such as local routing, reasoning capability, model catalog, Goal mode, and remote compaction are reflected here. Presets are usually configured automatically; custom providers are inferred from name and URL, so manual edits are needed only when detection is wrong.";

pub const PREVIEW_ZH: &'static str =
    "右侧预览展示保存后的配置形状。按 Enter 可打开编辑器进行高级修改。";

pub const PREVIEW_EN: &'static str =
    "The right preview shows the saved config shape. Press Enter to open the editor for advanced edits.";

pub const USAGE_QUERY_ENABLED_ZH: &'static str =
    "启用后 cc-switch 会按当前模板查询供应商余额或额度。未启用时不会自动查询。";

pub const USAGE_QUERY_ENABLED_EN: &'static str =
    "When enabled, cc-switch queries provider balance or quota using the selected template. When disabled, no automatic query runs.";

pub const USAGE_QUERY_TEMPLATE_ZH: &'static str =
    "TUI 只提供自定义、通用、NewAPI、余额四种模板。\n计费计划模板不在 TUI 中显示；模板会决定哪些字段可见，以及提取器代码是否可编辑。";

pub const USAGE_QUERY_TEMPLATE_EN: &'static str =
    "The TUI exposes only custom, general, newapi, and balance.\nToken Plan is not shown in the TUI. The template controls visible fields and whether extractor code can be edited.";

pub const USAGE_QUERY_API_KEY_ZH: &'static str =
    "通用模板的 API Key 和 Base URL 可留空。留空时会自动使用当前供应商配置。";

pub const USAGE_QUERY_API_KEY_EN: &'static str =
    "For the general template, API Key and Base URL can be left empty. Empty fields use the current provider config.";

pub const NEW_API_BASE_URL_ZH: &'static str =
    "NewAPI 服务地址。模板会请求这个地址下的 `/api/user/self`，并用访问令牌和用户 ID 读取额度。";

pub const NEW_API_BASE_URL_EN: &'static str =
    "NewAPI service URL. The template queries `/api/user/self` under this URL and uses the access token and user ID for quota data.";

pub const GENERAL_BASE_URL_ZH: &'static str =
    "通用模板的 Base URL 可留空。留空时会自动使用当前供应商配置。";

pub const GENERAL_BASE_URL_EN: &'static str =
    "For the general template, Base URL can be left empty. Empty fields use the current provider config.";

pub const NEW_API_CREDENTIALS_ZH: &'static str =
    "NewAPI 模板需要访问令牌和用户 ID 来查询 `/api/user/self`。这些字段只对 NewAPI 模板显示。";

pub const NEW_API_CREDENTIALS_EN: &'static str =
    "The NewAPI template uses access token and user ID to query `/api/user/self`. These fields are shown only for NewAPI.";

pub const USAGE_QUERY_TIMEOUT_ZH: &'static str =
    "请求超时时间，单位是秒。默认 10 秒；上游运行时会限制在 2-30 秒。";

pub const USAGE_QUERY_TIMEOUT_EN: &'static str =
    "Request timeout in seconds. Default is 10 seconds; upstream runtime clamps it to 2-30 seconds.";

pub const USAGE_QUERY_INTERVAL_ZH: &'static str =
    "自动查询间隔，单位是分钟。默认 5 分钟；填 0 表示不自动查询，最大保存为 1440 分钟。";

pub const USAGE_QUERY_INTERVAL_EN: &'static str =
    "Automatic query interval in minutes. Default is 5 minutes. Set 0 to disable automatic queries; saved values are capped at 1440 minutes.";

pub const CUSTOM_EXTRACTOR_ZH: &'static str =
    "自定义模板的提取器可以使用当前供应商变量：`{{baseUrl}}` 和 `{{apiKey}}`。\n返回对象应包含剩余额度字段，例如 `remaining`、`unit`，也可以返回 `planName`、`total`、`used`、`extra`。";

pub const CUSTOM_EXTRACTOR_EN: &'static str =
    "Custom extractor code can use current provider variables: `{{baseUrl}}` and `{{apiKey}}`.\nThe return object should include remaining quota fields such as `remaining` and `unit`; it may also return `planName`, `total`, `used`, and `extra`.";

pub const GENERAL_EXTRACTOR_ZH: &'static str =
    "通用模板默认请求 `{{baseUrl}}/user/balance`，并从响应中提取余额。\n如供应商返回结构不同，可改写提取器代码。";

pub const GENERAL_EXTRACTOR_EN: &'static str =
    "The general template queries `{{baseUrl}}/user/balance` by default and extracts balance from the response.\nIf the provider response differs, edit the extractor code.";

pub const NEW_API_EXTRACTOR_ZH: &'static str =
    "NewAPI 模板默认请求 `{{baseUrl}}/api/user/self`，按 NewAPI 的 quota 字段换算额度。";

pub const NEW_API_EXTRACTOR_EN: &'static str =
    "The NewAPI template queries `{{baseUrl}}/api/user/self` and converts NewAPI quota fields into usage values.";

pub const BALANCE_EXTRACTOR_ZH: &'static str =
    "余额模板使用内置查询逻辑。通常不需要脚本字段；如果显示提取器预览，只用于说明当前模板行为。";

pub const BALANCE_EXTRACTOR_EN: &'static str =
    "The balance template uses built-in query logic. It usually does not need script fields; any extractor preview only explains template behavior.";

impl HelpTopic {
    /// What the help says, line by line.
    pub open spec fn body(self, language: Language) -> Seq<char> {
        match self {
            HelpTopic::Sessions => worded(language, SESSIONS_ZH, SESSIONS_EN),
            HelpTopic::ProviderTemplate => worded(language, PROVIDER_TEMPLATE_ZH, PROVIDER_TEMPLATE_EN),
            HelpTopic::ProviderId => worded(language, PROVIDER_ID_ZH, PROVIDER_ID_EN),
            HelpTopic::ProviderName => worded(language, PROVIDER_NAME_ZH, PROVIDER_NAME_EN),
            HelpTopic::Website => worded(language, WEBSITE_ZH, WEBSITE_EN),
            HelpTopic::Notes => worded(language, NOTES_ZH, NOTES_EN),
            HelpTopic::CodexBaseUrl => worded(language, CODEX_BASE_URL_ZH, CODEX_BASE_URL_EN),
            HelpTopic::BaseUrl => worded(language, BASE_URL_ZH, BASE_URL_EN),
            HelpTopic::ApiKey => worded(language, API_KEY_ZH, API_KEY_EN),
            HelpTopic::CodexModel => worded(language, CODEX_MODEL_ZH, CODEX_MODEL_EN),
            HelpTopic::CodexModelMapping => worded(language, CODEX_MODEL_MAPPING_ZH, CODEX_MODEL_MAPPING_EN),
            HelpTopic::LocalProxySettings => worded(language, LOCAL_PROXY_SETTINGS_ZH, LOCAL_PROXY_SETTINGS_EN),
            HelpTopic::ClaudeModelConfig => worded(language, CLAUDE_MODEL_CONFIG_ZH, CLAUDE_MODEL_CONFIG_EN),
            HelpTopic::CodexUpstreamFormat => worded(language, CODEX_UPSTREAM_FORMAT_ZH, CODEX_UPSTREAM_FORMAT_EN),
            HelpTopic::ClaudeApiFormat => worded(language, CLAUDE_API_FORMAT_ZH, CLAUDE_API_FORMAT_EN),
            HelpTopic::ClaudeFallbackModel => worded(language, CLAUDE_FALLBACK_MODEL_ZH, CLAUDE_FALLBACK_MODEL_EN),
            HelpTopic::ClaudeQuickConfig => worded(language, CLAUDE_QUICK_CONFIG_ZH, CLAUDE_QUICK_CONFIG_EN),
            HelpTopic::CodexQuickConfig => worded(language, CODEX_QUICK_CONFIG_ZH, CODEX_QUICK_CONFIG_EN),
            HelpTopic::CodexGoalMode => worded(language, CODEX_GOAL_MODE_ZH, CODEX_GOAL_MODE_EN),
            HelpTopic::CodexRemoteCompaction => worded(language, CODEX_REMOTE_COMPACTION_ZH, CODEX_REMOTE_COMPACTION_EN),
            HelpTopic::ClaudeHideAttribution => worded(language, CLAUDE_HIDE_ATTRIBUTION_ZH, CLAUDE_HIDE_ATTRIBUTION_EN),
            HelpTopic::ClaudeTeammates => worded(language, CLAUDE_TEAMMATES_ZH, CLAUDE_TEAMMATES_EN),
            HelpTopic::ClaudeToolSearch => worded(language, CLAUDE_TOOL_SEARCH_ZH, CLAUDE_TOOL_SEARCH_EN),
            HelpTopic::ClaudeDisableAutoUpgrade => worded(language, CLAUDE_DISABLE_AUTO_UPGRADE_ZH, CLAUDE_DISABLE_AUTO_UPGRADE_EN),
            HelpTopic::ChatGptAccount => worded(language, CHAT_GPT_ACCOUNT_ZH, CHAT_GPT_ACCOUNT_EN),
            HelpTopic::CodexFastMode => worded(language, CODEX_FAST_MODE_ZH, CODEX_FAST_MODE_EN),
            HelpTopic::CommonSnippet => worded(language, COMMON_SNIPPET_ZH, COMMON_SNIPPET_EN),
            HelpTopic::AttachCommonConfig => worded(language, ATTACH_COMMON_CONFIG_ZH, ATTACH_COMMON_CONFIG_EN),
            HelpTopic::UsageQuery => worded(language, USAGE_QUERY_ZH, USAGE_QUERY_EN),
            HelpTopic::GeminiAuthType => worded(language, GEMINI_AUTH_TYPE_ZH, GEMINI_AUTH_TYPE_EN),
            HelpTopic::ModelName => worded(language, MODEL_NAME_ZH, MODEL_NAME_EN),
            HelpTopic::OpenClawApi => worded(language, OPEN_CLAW_API_ZH, OPEN_CLAW_API_EN),
            HelpTopic::ProviderPackage => worded(language, PROVIDER_PACKAGE_ZH, PROVIDER_PACKAGE_EN),
            HelpTopic::OpenClawUserAgent => worded(language, OPEN_CLAW_USER_AGENT_ZH, OPEN_CLAW_USER_AGENT_EN),
            HelpTopic::OpenClawModels => worded(language, OPEN_CLAW_MODELS_ZH, OPEN_CLAW_MODELS_EN),
            HelpTopic::ContextLimit => worded(language, CONTEXT_LIMIT_ZH, CONTEXT_LIMIT_EN),
            HelpTopic::OutputLimit => worded(language, OUTPUT_LIMIT_ZH, OUTPUT_LIMIT_EN),
            HelpTopic::HermesApiMode => worded(language, HERMES_API_MODE_ZH, HERMES_API_MODE_EN),
            HelpTopic::HermesModels => worded(language, HERMES_MODELS_ZH, HERMES_MODELS_EN),
            HelpTopic::HermesRateLimitDelay => worded(language, HERMES_RATE_LIMIT_DELAY_ZH, HERMES_RATE_LIMIT_DELAY_EN),
            HelpTopic::LocalRoutingEnabled => worded(language, LOCAL_ROUTING_ENABLED_ZH, LOCAL_ROUTING_ENABLED_EN),
            HelpTopic::LocalRoutingThinking => worded(language, LOCAL_ROUTING_THINKING_ZH, LOCAL_ROUTING_THINKING_EN),
            HelpTopic::LocalRoutingEffort => worded(language, LOCAL_ROUTING_EFFORT_ZH, LOCAL_ROUTING_EFFORT_EN),
            HelpTopic::LocalRoutingCatalog => worded(language, LOCAL_ROUTING_CATALOG_ZH, LOCAL_ROUTING_CATALOG_EN),
            HelpTopic::ProxyUserAgent => worded(language, PROXY_USER_AGENT_ZH, PROXY_USER_AGENT_EN),
            HelpTopic::ProxyHeaderOverrides => worded(language, PROXY_HEADER_OVERRIDES_ZH, PROXY_HEADER_OVERRIDES_EN),
            HelpTopic::ProxyBodyOverrides => worded(language, PROXY_BODY_OVERRIDES_ZH, PROXY_BODY_OVERRIDES_EN),
            HelpTopic::CatalogModel => worded(language, CATALOG_MODEL_ZH, CATALOG_MODEL_EN),
            HelpTopic::CatalogDisplayName => worded(language, CATALOG_DISPLAY_NAME_ZH, CATALOG_DISPLAY_NAME_EN),
            HelpTopic::CatalogContextWindow => worded(language, CATALOG_CONTEXT_WINDOW_ZH, CATALOG_CONTEXT_WINDOW_EN),
            HelpTopic::CodexAuthPreview => worded(language, CODEX_AUTH_PREVIEW_ZH, CODEX_AUTH_PREVIEW_EN),
            HelpTopic::CodexConfigPreview => worded(language, CODEX_CONFIG_PREVIEW_ZH, CODEX_CONFIG_PREVIEW_EN),
            HelpTopic::Preview => worded(language, PREVIEW_ZH, PREVIEW_EN),
            HelpTopic::UsageQueryEnabled => worded(language, USAGE_QUERY_ENABLED_ZH, USAGE_QUERY_ENABLED_EN),
            HelpTopic::UsageQueryTemplate => worded(language, USAGE_QUERY_TEMPLATE_ZH, USAGE_QUERY_TEMPLATE_EN),
            HelpTopic::UsageQueryApiKey => worded(language, USAGE_QUERY_API_KEY_ZH, USAGE_QUERY_API_KEY_EN),
            HelpTopic::NewApiBaseUrl => worded(language, NEW_API_BASE_URL_ZH, NEW_API_BASE_URL_EN),
            HelpTopic::GeneralBaseUrl => worded(language, GENERAL_BASE_URL_ZH, GENERAL_BASE_URL_EN),
            HelpTopic::NewApiCredentials => worded(language, NEW_API_CREDENTIALS_ZH, NEW_API_CREDENTIALS_EN),
            HelpTopic::UsageQueryTimeout => worded(language, USAGE_QUERY_TIMEOUT_ZH, USAGE_QUERY_TIMEOUT_EN),
            HelpTopic::UsageQueryInterval => worded(language, USAGE_QUERY_INTERVAL_ZH, USAGE_QUERY_INTERVAL_EN),
            HelpTopic::CustomExtractor => worded(language, CUSTOM_EXTRACTOR_ZH, CUSTOM_EXTRACTOR_EN),
            HelpTopic::GeneralExtractor => worded(language, GENERAL_EXTRACTOR_ZH, GENERAL_EXTRACTOR_EN),
            HelpTopic::NewApiExtractor => worded(language, NEW_API_EXTRACTOR_ZH, NEW_API_EXTRACTOR_EN),
            HelpTopic::BalanceExtractor => worded(language, BALANCE_EXTRACTOR_ZH, BALANCE_EXTRACTOR_EN),
        }
    }

    /// What the help is headed.
    pub open spec fn heading(self, language: Language) -> TextView {
        match self {
            HelpTopic::Sessions => TextView::plain(TextKey::Help(HelpLabel::Sessions)),
            HelpTopic::ProviderTemplate => TextView::verbatim(worded(language, PROVIDER_TEMPLATE_TITLE_ZH, PROVIDER_TEMPLATE_TITLE_EN)),
            HelpTopic::ProviderId => TextView::verbatim(worded(language, PROVIDER_ID_TITLE_ZH, PROVIDER_ID_TITLE_EN)),
            HelpTopic::ProviderName => TextView::verbatim(worded(language, PROVIDER_NAME_TITLE_ZH, PROVIDER_NAME_TITLE_EN)),
            HelpTopic::Website => TextView::verbatim(worded(language, WEBSITE_TITLE_ZH, WEBSITE_TITLE_EN)),
            HelpTopic::Notes => TextView::verbatim(worded(language, NOTES_TITLE_ZH, NOTES_TITLE_EN)),
            HelpTopic::CodexBaseUrl => TextView::plain(TextKey::Help(HelpLabel::BaseUrl)),
            HelpTopic::BaseUrl => TextView::plain(TextKey::Help(HelpLabel::BaseUrl)),
            HelpTopic::ApiKey => TextView::plain(TextKey::Help(HelpLabel::ApiKey)),
            HelpTopic::CodexModel => TextView::plain(TextKey::Help(HelpLabel::Model)),
            HelpTopic::CodexModelMapping => TextView::plain(TextKey::Help(HelpLabel::CodexModelMapping)),
            HelpTopic::LocalProxySettings => TextView::plain(TextKey::Help(HelpLabel::LocalProxySettings)),
            HelpTopic::ClaudeModelConfig => TextView::plain(TextKey::Help(HelpLabel::ClaudeModelConfig)),
            HelpTopic::CodexUpstreamFormat => TextView::plain(TextKey::Help(HelpLabel::CodexUpstreamFormat)),
            HelpTopic::ClaudeApiFormat => TextView::plain(TextKey::Help(HelpLabel::ClaudeApiFormat)),
            HelpTopic::ClaudeFallbackModel => TextView::plain(TextKey::Help(HelpLabel::ClaudeFallbackModel)),
            HelpTopic::ClaudeQuickConfig => TextView::plain(TextKey::Help(HelpLabel::ClaudeQuickConfig)),
            HelpTopic::CodexQuickConfig => TextView::plain(TextKey::Help(HelpLabel::CodexQuickConfig)),
            HelpTopic::CodexGoalMode => TextView::plain(TextKey::Help(HelpLabel::CodexGoalMode)),
            HelpTopic::CodexRemoteCompaction => TextView::plain(TextKey::Help(HelpLabel::CodexRemoteCompaction)),
            HelpTopic::ClaudeHideAttribution => TextView::plain(TextKey::Help(HelpLabel::ClaudeHideAttribution)),
            HelpTopic::ClaudeTeammates => TextView::plain(TextKey::Help(HelpLabel::ClaudeTeammates)),
            HelpTopic::ClaudeToolSearch => TextView::plain(TextKey::Help(HelpLabel::ClaudeToolSearch)),
            HelpTopic::ClaudeDisableAutoUpgrade => TextView::plain(TextKey::Help(HelpLabel::ClaudeDisableAutoUpgrade)),
            HelpTopic::ChatGptAccount => TextView::plain(TextKey::Help(HelpLabel::ChatgptAccount)),
            HelpTopic::CodexFastMode => TextView::plain(TextKey::Help(HelpLabel::CodexFastMode)),
            HelpTopic::CommonSnippet => TextView::plain(TextKey::Help(HelpLabel::ConfigItemCommonSnippet)),
            HelpTopic::AttachCommonConfig => TextView::plain(TextKey::Help(HelpLabel::FormAttachCommonConfig)),
            HelpTopic::UsageQuery => TextView::plain(TextKey::Help(HelpLabel::ConfigItemUsageQuery)),
            HelpTopic::GeminiAuthType => TextView::plain(TextKey::Help(HelpLabel::AuthType)),
            HelpTopic::ModelName => TextView::plain(TextKey::Help(HelpLabel::Model)),
            HelpTopic::OpenClawApi => TextView::plain(TextKey::Help(HelpLabel::OpenclawApi)),
            HelpTopic::ProviderPackage => TextView::plain(TextKey::Help(HelpLabel::ProviderPackage)),
            HelpTopic::OpenClawUserAgent => TextView::plain(TextKey::Help(HelpLabel::OpenclawUserAgent)),
            HelpTopic::OpenClawModels => TextView::plain(TextKey::Help(HelpLabel::OpenclawModels)),
            HelpTopic::ContextLimit => TextView::plain(TextKey::Help(HelpLabel::ContextLimit)),
            HelpTopic::OutputLimit => TextView::plain(TextKey::Help(HelpLabel::OutputLimit)),
            HelpTopic::HermesApiMode => TextView::plain(TextKey::Help(HelpLabel::HermesApiMode)),
            HelpTopic::HermesModels => TextView::plain(TextKey::Help(HelpLabel::HermesModels)),
            HelpTopic::HermesRateLimitDelay => TextView::plain(TextKey::Help(HelpLabel::HermesRateLimitDelay)),
            HelpTopic::LocalRoutingEnabled => TextView::plain(TextKey::Help(HelpLabel::CodexLocalRoutingEnable)),
            HelpTopic::LocalRoutingThinking => TextView::plain(TextKey::Help(HelpLabel::CodexReasoningSupportsThinking)),
            HelpTopic::LocalRoutingEffort => TextView::plain(TextKey::Help(HelpLabel::CodexReasoningSupportsEffort)),
            HelpTopic::LocalRoutingCatalog => TextView::plain(TextKey::Help(HelpLabel::CodexModelCatalog)),
            HelpTopic::ProxyUserAgent => TextView::plain(TextKey::Help(HelpLabel::CustomUserAgent)),
            HelpTopic::ProxyHeaderOverrides => TextView::plain(TextKey::Help(HelpLabel::LocalProxyHeaderOverrides)),
            HelpTopic::ProxyBodyOverrides => TextView::plain(TextKey::Help(HelpLabel::LocalProxyBodyOverrides)),
            HelpTopic::CatalogModel => TextView::verbatim(worded(language, CATALOG_MODEL_TITLE_ZH, CATALOG_MODEL_TITLE_EN)),
            HelpTopic::CatalogDisplayName => TextView::verbatim(worded(language, CATALOG_DISPLAY_NAME_TITLE_ZH, CATALOG_DISPLAY_NAME_TITLE_EN)),
            HelpTopic::CatalogContextWindow => TextView::verbatim(worded(language, CATALOG_CONTEXT_WINDOW_TITLE_ZH, CATALOG_CONTEXT_WINDOW_TITLE_EN)),
            HelpTopic::CodexAuthPreview => TextView::plain(TextKey::Help(HelpLabel::CodexAuthJson)),
            HelpTopic::CodexConfigPreview => TextView::plain(TextKey::Help(HelpLabel::CodexConfigToml)),
            HelpTopic::Preview => TextView::plain(TextKey::Help(HelpLabel::FormJson)),
            HelpTopic::UsageQueryEnabled => TextView::plain(TextKey::Help(HelpLabel::UsageQueryEnable)),
            HelpTopic::UsageQueryTemplate => TextView::plain(TextKey::Help(HelpLabel::UsageQueryTemplate)),
            HelpTopic::UsageQueryApiKey => TextView::plain(TextKey::Help(HelpLabel::UsageQueryCredentialsConfig)),
            HelpTopic::NewApiBaseUrl => TextView::plain(TextKey::Help(HelpLabel::UsageQueryBaseUrl)),
            HelpTopic::GeneralBaseUrl => TextView::plain(TextKey::Help(HelpLabel::UsageQueryCredentialsConfig)),
            HelpTopic::NewApiCredentials => TextView::plain(TextKey::Help(HelpLabel::UsageQueryCredentialsConfig)),
            HelpTopic::UsageQueryTimeout => TextView::plain(TextKey::Help(HelpLabel::UsageQueryTimeoutSeconds)),
            HelpTopic::UsageQueryInterval => TextView::plain(TextKey::Help(HelpLabel::UsageQueryAutoInterval)),
            HelpTopic::CustomExtractor => TextView::plain(TextKey::Help(HelpLabel::UsageQueryScriptPreview)),
            HelpTopic::GeneralExtractor => TextView::plain(TextKey::Help(HelpLabel::UsageQueryScriptPreview)),
            HelpTopic::NewApiExtractor => TextView::plain(TextKey::Help(HelpLabel::UsageQueryScriptPreview)),
            HelpTopic::BalanceExtractor => TextView::plain(TextKey::Help(HelpLabel::UsageQueryScriptPreview)),
        }
    }

    pub fn words(self, language: Language) -> (words: &'static str)
        ensures
            words@ == self.body(language),
    {
        match self {
            HelpTopic::Sessions => tr(language, SESSIONS_ZH, SESSIONS_EN),
            HelpTopic::ProviderTemplate => tr(language, PROVIDER_TEMPLATE_ZH, PROVIDER_TEMPLATE_EN),
            HelpTopic::ProviderId => tr(language, PROVIDER_ID_ZH, PROVIDER_ID_EN),
            HelpTopic::ProviderName => tr(language, PROVIDER_NAME_ZH, PROVIDER_NAME_EN),
            HelpTopic::Website => tr(language, WEBSITE_ZH, WEBSITE_EN),
            HelpTopic::Notes => tr(language, NOTES_ZH, NOTES_EN),
            HelpTopic::CodexBaseUrl => tr(language, CODEX_BASE_URL_ZH, CODEX_BASE_URL_EN),
            HelpTopic::BaseUrl => tr(language, BASE_URL_ZH, BASE_URL_EN),
            HelpTopic::ApiKey => tr(language, API_KEY_ZH, API_KEY_EN),
            HelpTopic::CodexModel => tr(language, CODEX_MODEL_ZH, CODEX_MODEL_EN),
            HelpTopic::CodexModelMapping => tr(language, CODEX_MODEL_MAPPING_ZH, CODEX_MODEL_MAPPING_EN),
            HelpTopic::LocalProxySettings => tr(language, LOCAL_PROXY_SETTINGS_ZH, LOCAL_PROXY_SETTINGS_EN),
            HelpTopic::ClaudeModelConfig => tr(language, CLAUDE_MODEL_CONFIG_ZH, CLAUDE_MODEL_CONFIG_EN),
            HelpTopic::CodexUpstreamFormat => tr(language, CODEX_UPSTREAM_FORMAT_ZH, CODEX_UPSTREAM_FORMAT_EN),
            HelpTopic::ClaudeApiFormat => tr(language, CLAUDE_API_FORMAT_ZH, CLAUDE_API_FORMAT_EN),
            HelpTopic::ClaudeFallbackModel => tr(language, CLAUDE_FALLBACK_MODEL_ZH, CLAUDE_FALLBACK_MODEL_EN),
            HelpTopic::ClaudeQuickConfig => tr(language, CLAUDE_QUICK_CONFIG_ZH, CLAUDE_QUICK_CONFIG_EN),
            HelpTopic::CodexQuickConfig => tr(language, CODEX_QUICK_CONFIG_ZH, CODEX_QUICK_CONFIG_EN),
            HelpTopic::CodexGoalMode => tr(language, CODEX_GOAL_MODE_ZH, CODEX_GOAL_MODE_EN),
            HelpTopic::CodexRemoteCompaction => tr(language, CODEX_REMOTE_COMPACTION_ZH, CODEX_REMOTE_COMPACTION_EN),
            HelpTopic::ClaudeHideAttribution => tr(language, CLAUDE_HIDE_ATTRIBUTION_ZH, CLAUDE_HIDE_ATTRIBUTION_EN),
            HelpTopic::ClaudeTeammates => tr(language, CLAUDE_TEAMMATES_ZH, CLAUDE_TEAMMATES_EN),
            HelpTopic::ClaudeToolSearch => tr(language, CLAUDE_TOOL_SEARCH_ZH, CLAUDE_TOOL_SEARCH_EN),
            HelpTopic::ClaudeDisableAutoUpgrade => tr(language, CLAUDE_DISABLE_AUTO_UPGRADE_ZH, CLAUDE_DISABLE_AUTO_UPGRADE_EN),
            HelpTopic::ChatGptAccount => tr(language, CHAT_GPT_ACCOUNT_ZH, CHAT_GPT_ACCOUNT_EN),
            HelpTopic::CodexFastMode => tr(language, CODEX_FAST_MODE_ZH, CODEX_FAST_MODE_EN),
            HelpTopic::CommonSnippet => tr(language, COMMON_SNIPPET_ZH, COMMON_SNIPPET_EN),
            HelpTopic::AttachCommonConfig => tr(language, ATTACH_COMMON_CONFIG_ZH, ATTACH_COMMON_CONFIG_EN),
            HelpTopic::UsageQuery => tr(language, USAGE_QUERY_ZH, USAGE_QUERY_EN),
            HelpTopic::GeminiAuthType => tr(language, GEMINI_AUTH_TYPE_ZH, GEMINI_AUTH_TYPE_EN),
            HelpTopic::ModelName => tr(language, MODEL_NAME_ZH, MODEL_NAME_EN),
            HelpTopic::OpenClawApi => tr(language, OPEN_CLAW_API_ZH, OPEN_CLAW_API_EN),
            HelpTopic::ProviderPackage => tr(language, PROVIDER_PACKAGE_ZH, PROVIDER_PACKAGE_EN),
            HelpTopic::OpenClawUserAgent => tr(language, OPEN_CLAW_USER_AGENT_ZH, OPEN_CLAW_USER_AGENT_EN),
            HelpTopic::OpenClawModels => tr(language, OPEN_CLAW_MODELS_ZH, OPEN_CLAW_MODELS_EN),
            HelpTopic::ContextLimit => tr(language, CONTEXT_LIMIT_ZH, CONTEXT_LIMIT_EN),
            HelpTopic::OutputLimit => tr(language, OUTPUT_LIMIT_ZH, OUTPUT_LIMIT_EN),
            HelpTopic::HermesApiMode => tr(language, HERMES_API_MODE_ZH, HERMES_API_MODE_EN),
            HelpTopic::HermesModels => tr(language, HERMES_MODELS_ZH, HERMES_MODELS_EN),
            HelpTopic::HermesRateLimitDelay => tr(language, HERMES_RATE_LIMIT_DELAY_ZH, HERMES_RATE_LIMIT_DELAY_EN),
            HelpTopic::LocalRoutingEnabled => tr(language, LOCAL_ROUTING_ENABLED_ZH, LOCAL_ROUTING_ENABLED_EN),
            HelpTopic::LocalRoutingThinking => tr(language, LOCAL_ROUTING_THINKING_ZH, LOCAL_ROUTING_THINKING_EN),
            HelpTopic::LocalRoutingEffort => tr(language, LOCAL_ROUTING_EFFORT_ZH, LOCAL_ROUTING_EFFORT_EN),
            HelpTopic::LocalRoutingCatalog => tr(language, LOCAL_ROUTING_CATALOG_ZH, LOCAL_ROUTING_CATALOG_EN),
            HelpTopic::ProxyUserAgent => tr(language, PROXY_USER_AGENT_ZH, PROXY_USER_AGENT_EN),
            HelpTopic::ProxyHeaderOverrides => tr(language, PROXY_HEADER_OVERRIDES_ZH, PROXY_HEADER_OVERRIDES_EN),
            HelpTopic::ProxyBodyOverrides => tr(language, PROXY_BODY_OVERRIDES_ZH, PROXY_BODY_OVERRIDES_EN),
            HelpTopic::CatalogModel => tr(language, CATALOG_MODEL_ZH, CATALOG_MODEL_EN),
            HelpTopic::CatalogDisplayName => tr(language, CATALOG_DISPLAY_NAME_ZH, CATALOG_DISPLAY_NAME_EN),
            HelpTopic::CatalogContextWindow => tr(language, CATALOG_CONTEXT_WINDOW_ZH, CATALOG_CONTEXT_WINDOW_EN),
            HelpTopic::CodexAuthPreview => tr(language, CODEX_AUTH_PREVIEW_ZH, CODEX_AUTH_PREVIEW_EN),
            HelpTopic::CodexConfigPreview => tr(language, CODEX_CONFIG_PREVIEW_ZH, CODEX_CONFIG_PREVIEW_EN),
            HelpTopic::Preview => tr(language, PREVIEW_ZH, PREVIEW_EN),
            HelpTopic::UsageQueryEnabled => tr(language, USAGE_QUERY_ENABLED_ZH, USAGE_QUERY_ENABLED_EN),
            HelpTopic::UsageQueryTemplate => tr(language, USAGE_QUERY_TEMPLATE_ZH, USAGE_QUERY_TEMPLATE_EN),
            HelpTopic::UsageQueryApiKey => tr(language, USAGE_QUERY_API_KEY_ZH, USAGE_QUERY_API_KEY_EN),
            HelpTopic::NewApiBaseUrl => tr(language, NEW_API_BASE_URL_ZH, NEW_API_BASE_URL_EN),
            HelpTopic::GeneralBaseUrl => tr(language, GENERAL_BASE_URL_ZH, GENERAL_BASE_URL_EN),
            HelpTopic::NewApiCredentials => tr(language, NEW_API_CREDENTIALS_ZH, NEW_API_CREDENTIALS_EN),
            HelpTopic::UsageQueryTimeout => tr(language, USAGE_QUERY_TIMEOUT_ZH, USAGE_QUERY_TIMEOUT_EN),
            HelpTopic::UsageQueryInterval => tr(language, USAGE_QUERY_INTERVAL_ZH, USAGE_QUERY_INTERVAL_EN),
            HelpTopic::CustomExtractor => tr(language, CUSTOM_EXTRACTOR_ZH, CUSTOM_EXTRACTOR_EN),
            HelpTopic::GeneralExtractor => tr(language, GENERAL_EXTRACTOR_ZH, GENERAL_EXTRACTOR_EN),
            HelpTopic::NewApiExtractor => tr(language, NEW_API_EXTRACTOR_ZH, NEW_API_EXTRACTOR_EN),
            HelpTopic::BalanceExtractor => tr(language, BALANCE_EXTRACTOR_ZH, BALANCE_EXTRACTOR_EN),
        }
    }

    pub fn title(self, language: Language) -> (title: Text)
        ensures
            title@ == self.heading(language),
    {
        match self {
            HelpTopic::Sessions => Text::plain(TextKey::Help(HelpLabel::Sessions)),
            HelpTopic::ProviderTemplate => Text::verbatim(tr(language, PROVIDER_TEMPLATE_TITLE_ZH, PROVIDER_TEMPLATE_TITLE_EN)),
            HelpTopic::ProviderId => Text::verbatim(tr(language, PROVIDER_ID_TITLE_ZH, PROVIDER_ID_TITLE_EN)),
            HelpTopic::ProviderName => Text::verbatim(tr(language, PROVIDER_NAME_TITLE_ZH, PROVIDER_NAME_TITLE_EN)),
            HelpTopic::Website => Text::verbatim(tr(language, WEBSITE_TITLE_ZH, WEBSITE_TITLE_EN)),
            HelpTopic::Notes => Text::verbatim(tr(language, NOTES_TITLE_ZH, NOTES_TITLE_EN)),
            HelpTopic::CodexBaseUrl => Text::plain(TextKey::Help(HelpLabel::BaseUrl)),
            HelpTopic::BaseUrl => Text::plain(TextKey::Help(HelpLabel::BaseUrl)),
            HelpTopic::ApiKey => Text::plain(TextKey::Help(HelpLabel::ApiKey)),
            HelpTopic::CodexModel => Text::plain(TextKey::Help(HelpLabel::Model)),
            HelpTopic::CodexModelMapping => Text::plain(TextKey::Help(HelpLabel::CodexModelMapping)),
            HelpTopic::LocalProxySettings => Text::plain(TextKey::Help(HelpLabel::LocalProxySettings)),
            HelpTopic::ClaudeModelConfig => Text::plain(TextKey::Help(HelpLabel::ClaudeModelConfig)),
            HelpTopic::CodexUpstreamFormat => Text::plain(TextKey::Help(HelpLabel::CodexUpstreamFormat)),
            HelpTopic::ClaudeApiFormat => Text::plain(TextKey::Help(HelpLabel::ClaudeApiFormat)),
            HelpTopic::ClaudeFallbackModel => Text::plain(TextKey::Help(HelpLabel::ClaudeFallbackModel)),
            HelpTopic::ClaudeQuickConfig => Text::plain(TextKey::Help(HelpLabel::ClaudeQuickConfig)),
            HelpTopic::CodexQuickConfig => Text::plain(TextKey::Help(HelpLabel::CodexQuickConfig)),
            HelpTopic::CodexGoalMode => Text::plain(TextKey::Help(HelpLabel::CodexGoalMode)),
            HelpTopic::CodexRemoteCompaction => Text::plain(TextKey::Help(HelpLabel::CodexRemoteCompaction)),
            HelpTopic::ClaudeHideAttribution => Text::plain(TextKey::Help(HelpLabel::ClaudeHideAttribution)),
            HelpTopic::ClaudeTeammates => Text::plain(TextKey::Help(HelpLabel::ClaudeTeammates)),
            HelpTopic::ClaudeToolSearch => Text::plain(TextKey::Help(HelpLabel::ClaudeToolSearch)),
            HelpTopic::ClaudeDisableAutoUpgrade => Text::plain(TextKey::Help(HelpLabel::ClaudeDisableAutoUpgrade)),
            HelpTopic::ChatGptAccount => Text::plain(TextKey::Help(HelpLabel::ChatgptAccount)),
            HelpTopic::CodexFastMode => Text::plain(TextKey::Help(HelpLabel::CodexFastMode)),
            HelpTopic::CommonSnippet => Text::plain(TextKey::Help(HelpLabel::ConfigItemCommonSnippet)),
            HelpTopic::AttachCommonConfig => Text::plain(TextKey::Help(HelpLabel::FormAttachCommonConfig)),
            HelpTopic::UsageQuery => Text::plain(TextKey::Help(HelpLabel::ConfigItemUsageQuery)),
            HelpTopic::GeminiAuthType => Text::plain(TextKey::Help(HelpLabel::AuthType)),
            HelpTopic::ModelName => Text::plain(TextKey::Help(HelpLabel::Model)),
            HelpTopic::OpenClawApi => Text::plain(TextKey::Help(HelpLabel::OpenclawApi)),
            HelpTopic::ProviderPackage => Text::plain(TextKey::Help(HelpLabel::ProviderPackage)),
            HelpTopic::OpenClawUserAgent => Text::plain(TextKey::Help(HelpLabel::OpenclawUserAgent)),
            HelpTopic::OpenClawModels => Text::plain(TextKey::Help(HelpLabel::OpenclawModels)),
            HelpTopic::ContextLimit => Text::plain(TextKey::Help(HelpLabel::ContextLimit)),
            HelpTopic::OutputLimit => Text::plain(TextKey::Help(HelpLabel::OutputLimit)),
            HelpTopic::HermesApiMode => Text::plain(TextKey::Help(HelpLabel::HermesApiMode)),
            HelpTopic::HermesModels => Text::plain(TextKey::Help(HelpLabel::HermesModels)),
            HelpTopic::HermesRateLimitDelay => Text::plain(TextKey::Help(HelpLabel::HermesRateLimitDelay)),
            HelpTopic::LocalRoutingEnabled => Text::plain(TextKey::Help(HelpLabel::CodexLocalRoutingEnable)),
            HelpTopic::LocalRoutingThinking => Text::plain(TextKey::Help(HelpLabel::CodexReasoningSupportsThinking)),
            HelpTopic::LocalRoutingEffort => Text::plain(TextKey::Help(HelpLabel::CodexReasoningSupportsEffort)),
            HelpTopic::LocalRoutingCatalog => Text::plain(TextKey::Help(HelpLabel::CodexModelCatalog)),
            HelpTopic::ProxyUserAgent => Text::plain(TextKey::Help(HelpLabel::CustomUserAgent)),
            HelpTopic::ProxyHeaderOverrides => Text::plain(TextKey::Help(HelpLabel::LocalProxyHeaderOverrides)),
            HelpTopic::ProxyBodyOverrides => Text::plain(TextKey::Help(HelpLabel::LocalProxyBodyOverrides)),
            HelpTopic::CatalogModel => Text::verbatim(tr(language, CATALOG_MODEL_TITLE_ZH, CATALOG_MODEL_TITLE_EN)),
            HelpTopic::CatalogDisplayName => Text::verbatim(tr(language, CATALOG_DISPLAY_NAME_TITLE_ZH, CATALOG_DISPLAY_NAME_TITLE_EN)),
            HelpTopic::CatalogContextWindow => Text::verbatim(tr(language, CATALOG_CONTEXT_WINDOW_TITLE_ZH, CATALOG_CONTEXT_WINDOW_TITLE_EN)),
            HelpTopic::CodexAuthPreview => Text::plain(TextKey::Help(HelpLabel::CodexAuthJson)),
            HelpTopic::CodexConfigPreview => Text::plain(TextKey::Help(HelpLabel::CodexConfigToml)),
            HelpTopic::Preview => Text::plain(TextKey::Help(HelpLabel::FormJson)),
            HelpTopic::UsageQueryEnabled => Text::plain(TextKey::Help(HelpLabel::UsageQueryEnable)),
            HelpTopic::UsageQueryTemplate => Text::plain(TextKey::Help(HelpLabel::UsageQueryTemplate)),
            HelpTopic::UsageQueryApiKey => Text::plain(TextKey::Help(HelpLabel::UsageQueryCredentialsConfig)),
            HelpTopic::NewApiBaseUrl => Text::plain(TextKey::Help(HelpLabel::UsageQueryBaseUrl)),
            HelpTopic::GeneralBaseUrl => Text::plain(TextKey::Help(HelpLabel::UsageQueryCredentialsConfig)),
            HelpTopic::NewApiCredentials => Text::plain(TextKey::Help(HelpLabel::UsageQueryCredentialsConfig)),
            HelpTopic::UsageQueryTimeout => Text::plain(TextKey::Help(HelpLabel::UsageQueryTimeoutSeconds)),
            HelpTopic::UsageQueryInterval => Text::plain(TextKey::Help(HelpLabel::UsageQueryAutoInterval)),
            HelpTopic::CustomExtractor => Text::plain(TextKey::Help(HelpLabel::UsageQueryScriptPreview)),
            HelpTopic::GeneralExtractor => Text::plain(TextKey::Help(HelpLabel::UsageQueryScriptPreview)),
            HelpTopic::NewApiExtractor => Text::plain(TextKey::Help(HelpLabel::UsageQueryScriptPreview)),
            HelpTopic::BalanceExtractor => Text::plain(TextKey::Help(HelpLabel::UsageQueryScriptPreview)),
        }
    }
}

} // verus!
