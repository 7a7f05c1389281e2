//! The data that the screens of one application show.

use vstd::prelude::*;

use crate::app_type::AppType;
use crate::base::{duplicate_all, duplicate_opt, opt_view, views, Duplicate};
use crate::quota::{QuotaStates, QuotaStatesView, QuotaTarget, QuotaTargetView};
use crate::table::{duplicate_table, map_views, Table};
use crate::usage::{ModelPricingRowView, ModelPricingSnapshot, UsageSnapshot, UsageView};

verus! {

impl Duplicate for AppType {
    fn duplicate(&self) -> (copy: AppType) {
        *self
    }
}

/// A provider as it is listed.
#[derive(Debug)]
pub struct ProviderRow {
    pub id: String,
    pub name: String,
    pub is_current: bool,
    /// The service that knows the provider's quota, where there is one.
    pub quota_tool: Option<String>,
}

#[verifier::ext_equal]
pub struct ProviderRowView {
    pub id: Seq<char>,
    pub name: Seq<char>,
    pub is_current: bool,
    pub quota_tool: Option<Seq<char>>,
}

impl View for ProviderRow {
    type V = ProviderRowView;

    open spec fn view(&self) -> ProviderRowView {
        ProviderRowView {
            id: self.id@,
            name: self.name@,
            is_current: self.is_current,
            quota_tool: opt_view(self.quota_tool),
        }
    }
}

impl Duplicate for ProviderRow {
    fn duplicate(&self) -> (copy: ProviderRow) {
        ProviderRow {
            id: self.id.duplicate(),
            name: self.name.duplicate(),
            is_current: self.is_current,
            quota_tool: duplicate_opt(&self.quota_tool),
        }
    }
}

/// The providers of an application. While they load, an empty list does not
/// mean that there are none.
#[derive(Debug)]
pub struct ProvidersSnapshot {
    pub current_id: String,
    pub rows: Vec<ProviderRow>,
    pub loading: bool,
}

#[verifier::ext_equal]
pub struct ProvidersView {
    pub current_id: Seq<char>,
    pub rows: Seq<ProviderRowView>,
    pub loading: bool,
}

impl View for ProvidersSnapshot {
    type V = ProvidersView;

    open spec fn view(&self) -> ProvidersView {
        ProvidersView {
            current_id: self.current_id@,
            rows: views(self.rows@),
            loading: self.loading,
        }
    }
}

impl Duplicate for ProvidersSnapshot {
    fn duplicate(&self) -> (copy: ProvidersSnapshot) {
        ProvidersSnapshot {
            current_id: self.current_id.duplicate(),
            rows: duplicate_all(&self.rows),
            loading: self.loading,
        }
    }
}

/// The configuration that applications share: a snippet for each of them, and
/// the one of the application shown.
#[derive(Debug)]
pub struct ConfigSnapshot {
    pub common_snippets: Table<AppType, String>,
    pub common_snippet: String,
}

#[verifier::ext_equal]
pub struct ConfigView {
    pub common_snippets: Map<AppType, Seq<char>>,
    pub common_snippet: Seq<char>,
}

impl View for ConfigSnapshot {
    type V = ConfigView;

    open spec fn view(&self) -> ConfigView {
        ConfigView {
            common_snippets: map_views(self.common_snippets@),
            common_snippet: self.common_snippet@,
        }
    }
}

impl Duplicate for ConfigSnapshot {
    fn duplicate(&self) -> (copy: ConfigSnapshot) {
        ConfigSnapshot {
            common_snippets: duplicate_table(&self.common_snippets),
            common_snippet: self.common_snippet.duplicate(),
        }
    }
}

/// The proxy as it was last seen.
#[derive(Debug, Clone, Copy, PartialEq, Eq, Structural)]
pub struct ProxySnapshot {
    pub running: bool,
    pub estimated_input_tokens_total: u64,
    pub estimated_output_tokens_total: u64,
}

/// The data that the screens of one application show. The token changes with
/// every reload.
#[derive(Debug)]
pub struct UiData {
    pub providers: ProvidersSnapshot,
    pub config: ConfigSnapshot,
    pub proxy: ProxySnapshot,
    pub usage: UsageSnapshot,
    pub pricing: ModelPricingSnapshot,
    pub quota: QuotaStates,
    pub reload_token: u64,
}

#[verifier::ext_equal]
pub struct UiDataView {
    pub providers: ProvidersView,
    pub config: ConfigView,
    pub proxy: ProxySnapshot,
    pub usage: UsageView,
    pub pricing: Seq<ModelPricingRowView>,
    pub quota: QuotaStatesView,
    pub reload_token: u64,
}

impl View for UiData {
    type V = UiDataView;

    open spec fn view(&self) -> UiDataView {
        UiDataView {
            providers: self.providers@,
            config: self.config@,
            proxy: self.proxy,
            usage: self.usage@,
            pricing: self.pricing@,
            quota: self.quota@,
            reload_token: self.reload_token,
        }
    }
}

impl Duplicate for UiData {
    fn duplicate(&self) -> (copy: UiData) {
        UiData {
            providers: self.providers.duplicate(),
            config: self.config.duplicate(),
            proxy: self.proxy,
            usage: self.usage.duplicate(),
            pricing: self.pricing.duplicate(),
            quota: self.quota.duplicate(),
            reload_token: self.reload_token,
        }
    }
}

impl UiDataView {
    /// Nothing has been loaded.
    pub open spec fn nothing() -> UiDataView {
        UiDataView {
            providers: ProvidersView {
                current_id: Seq::empty(),
                rows: Seq::empty(),
                loading: false,
            },
            config: ConfigView { common_snippets: Map::empty(), common_snippet: Seq::empty() },
            proxy: ProxySnapshot {
                running: false,
                estimated_input_tokens_total: 0,
                estimated_output_tokens_total: 0,
            },
            usage: UsageView::nothing(),
            pricing: Seq::empty(),
            quota: QuotaStatesView { states: Map::empty() },
            reload_token: 0,
        }
    }

    /// What is shown of an application that is switched to before its data is
    /// there: the shared configuration, and providers that are loading.
    pub open spec fn switching_to(self, next: AppType) -> UiDataView {
        UiDataView {
            providers: ProvidersView { loading: true, ..Self::nothing().providers },
            config: ConfigView {
                common_snippet: if self.config.common_snippets.contains_key(next) {
                    self.config.common_snippets[next]
                } else {
                    Seq::empty()
                },
                ..self.config
            },
            ..Self::nothing()
        }
    }

    /// The first provider that is current.
    pub open spec fn current_provider(self) -> Option<ProviderRowView> {
        first_current(self.providers.rows)
    }
}

pub open spec fn first_current(rows: Seq<ProviderRowView>) -> Option<ProviderRowView>
    decreases rows.len(),
{
    if rows.len() == 0 {
        None
    } else if rows[0].is_current {
        Some(rows[0])
    } else {
        first_current(rows.drop_first())
    }
}

/// Where the quota of a provider is asked for.
pub open spec fn quota_target(app_type: AppType, row: ProviderRowView) -> Option<QuotaTargetView> {
    match row.quota_tool {
        Some(tool) => Some(
            QuotaTargetView { app_type, provider_id: row.id, provider_name: row.name, tool },
        ),
        None => None,
    }
}

/// Where the quota of the current provider is asked for.
pub open spec fn current_quota_target(app_type: AppType, data: UiDataView) -> Option<
    QuotaTargetView,
> {
    match data.current_provider() {
        Some(row) => quota_target(app_type, row),
        None => None,
    }
}

pub fn quota_target_for_provider(app_type: &AppType, row: &ProviderRow) -> (target: Option<
    QuotaTarget,
>)
    ensures
        opt_view(target) == quota_target(*app_type, row@),
{
    match &row.quota_tool {
        Some(tool) => Some(
            QuotaTarget {
                app_type: *app_type,
                provider_id: row.id.duplicate(),
                provider_name: row.name.duplicate(),
                tool: tool.duplicate(),
            },
        ),
        None => None,
    }
}

pub fn quota_target_for_current_provider(app_type: &AppType, data: &UiData) -> (target: Option<
    QuotaTarget,
>)
    ensures
        opt_view(target) == current_quota_target(*app_type, data@),
{
    let rows = &data.providers.rows;
    let mut i: usize = 0;
    proof {
        assert(views(rows@).skip(0) =~= views(rows@));
    }
    while i < rows.len()
        invariant
            rows@ == data.providers.rows@,
            i <= rows@.len(),
            first_current(views(rows@)) == first_current(views(rows@).skip(i as int)),
        decreases rows@.len() - i,
    {
        proof {
            assert(views(rows@).skip(i as int)[0] == rows@[i as int]@);
            assert(views(rows@).skip(i as int).drop_first() =~= views(rows@).skip(i + 1));
        }
        if rows[i].is_current {
            return quota_target_for_provider(app_type, &rows[i]);
        }
        i = i + 1;
    }
    None
}

impl UiData {
    /// Nothing has been loaded.
    pub fn empty() -> (data: UiData)
        ensures
            data@ == UiDataView::nothing(),
    {
        let data = UiData {
            providers: ProvidersSnapshot {
                current_id: String::new(),
                rows: Vec::new(),
                loading: false,
            },
            config: ConfigSnapshot {
                common_snippets: Table::new(),
                common_snippet: String::new(),
            },
            proxy: ProxySnapshot {
                running: false,
                estimated_input_tokens_total: 0,
                estimated_output_tokens_total: 0,
            },
            usage: UsageSnapshot::empty(),
            pricing: ModelPricingSnapshot { rows: Vec::new() },
            quota: QuotaStates::new(),
            reload_token: 0,
        };
        assert(data@ =~~= UiDataView::nothing());
        data
    }

    /// What is shown of an application that is switched to before its data is
    /// there.
    pub fn app_switch_loading_projection(&self, next: &AppType) -> (data: UiData)
        ensures
            data@ == self@.switching_to(*next),
    {
        let mut data = UiData::empty();
        data.providers.loading = true;
        data.config.common_snippets = duplicate_table(&self.config.common_snippets);
        data.config.common_snippet = match self.config.common_snippets.get(next) {
            Some(snippet) => snippet.duplicate(),
            None => String::new(),
        };
        assert(data@ =~~= self@.switching_to(*next));
        data
    }
}

} // verus!
