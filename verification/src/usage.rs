//! Usage figures: the ranges they are shown for, what has been loaded, and
//! what the usage screens keep.

use vstd::prelude::*;

use crate::app_type::AppType;
use crate::base::{duplicate_all, duplicate_opt, opt_view, views, Duplicate};
use crate::sessions::{saturated, Pagination};
use crate::table::{
    lemma_map_views, lemma_map_views_removed, map_views, passing, Key, KeyTest, Table,
};

verus! {

/// Rows on one page of the usage log.
pub const USAGE_LOG_PAGE_SIZE: usize = 100;

pub const SECONDS_PER_DAY: i64 = 86_400;

/// A span of days: the first second of the first day and the last of the last,
/// in seconds of the Unix epoch.
#[derive(Debug, Clone, Copy, PartialEq, Eq, Structural)]
pub struct UsageCustomRange {
    pub start: i64,
    pub end: i64,
}

/// What a usage screen covers.
#[derive(Debug, Clone, Copy, PartialEq, Eq, Structural)]
pub enum UsageRangePreset {
    Today,
    SevenDays,
    ThirtyDays,
    Custom(UsageCustomRange),
}

impl UsageRangePreset {
    pub open spec fn spec_is_custom(self) -> bool {
        self is Custom
    }

    pub fn is_custom(self) -> (result: bool)
        ensures
            result == self.spec_is_custom(),
    {
        match self {
            UsageRangePreset::Custom(_) => true,
            _ => false,
        }
    }
}

/// The range that a load for `range` computes. The fixed ranges are computed
/// together, so they share one.
pub open spec fn logical_range(range: UsageRangePreset) -> UsageRangePreset {
    match range {
        UsageRangePreset::Custom(_) => range,
        _ => UsageRangePreset::SevenDays,
    }
}

/// Every fixed request computes the same snapshot of all fixed ranges and the
/// same log head. One range stands for them all, so that switching quickly
/// between ranges cannot queue equivalent scans.
pub fn usage_pricing_logical_range(range: UsageRangePreset) -> (logical: UsageRangePreset)
    ensures
        logical == logical_range(range),
{
    match range {
        UsageRangePreset::Custom(_) => range,
        UsageRangePreset::Today | UsageRangePreset::SevenDays | UsageRangePreset::ThirtyDays => {
            UsageRangePreset::SevenDays
        },
    }
}

/// What a usage load is known by: an application and a range.
pub type UsagePricingLoadKey = (AppType, UsageRangePreset);

impl View for UsageRangePreset {
    type V = UsageRangePreset;

    open spec fn view(&self) -> UsageRangePreset {
        *self
    }
}

impl Key for AppType {
    fn same(&self, other: &AppType) -> (result: bool) {
        *self == *other
    }
}

impl Key for UsagePricingLoadKey {
    fn same(&self, other: &UsagePricingLoadKey) -> (result: bool) {
        self.0 == other.0 && self.1 == other.1
    }
}

pub open spec fn load_key(app_type: AppType, range: UsageRangePreset) -> UsagePricingLoadKey {
    (app_type, logical_range(range))
}

pub fn usage_pricing_load_key(app_type: &AppType, range: UsageRangePreset) -> (key:
    UsagePricingLoadKey)
    ensures
        key == load_key(*app_type, range),
{
    (*app_type, usage_pricing_logical_range(range))
}

/// Whether a loaded range may be shown while `active` is looked at. A custom
/// range shows only under itself; the fixed ones show always.
pub open spec fn matches_active(loaded: UsageRangePreset, active: UsageRangePreset) -> bool {
    loaded.spec_is_custom() ==> loaded == active
}

pub fn usage_pricing_range_matches_active(
    cached_range: UsageRangePreset,
    active_range: UsageRangePreset,
) -> (result: bool)
    ensures
        result == matches_active(cached_range, active_range),
{
    match (cached_range, active_range) {
        (UsageRangePreset::Custom(cached), UsageRangePreset::Custom(active)) => cached == active,
        (UsageRangePreset::Custom(_), _) => false,
        _ => true,
    }
}

/// Whether what was loaded for one range is all that another needs: any fixed
/// range covers any other, a custom range only itself, and neither kind the
/// other.
pub open spec fn satisfies(cached: UsageRangePreset, requested: UsageRangePreset) -> bool {
    logical_range(cached) == logical_range(requested)
}

pub fn usage_pricing_cache_satisfies(
    cached: UsageRangePreset,
    requested: UsageRangePreset,
) -> (result: bool)
    ensures
        result == satisfies(cached, requested),
{
    match (cached, requested) {
        (UsageRangePreset::Custom(cached), UsageRangePreset::Custom(requested)) => cached
            == requested,
        (UsageRangePreset::Custom(_), _) | (_, UsageRangePreset::Custom(_)) => false,
        _ => true,
    }
}

/// The fixed ranges of an application are one load; a custom range is a load
/// of its own.
pub proof fn fixed_ranges_share_a_load(app_type: AppType, a: UsageRangePreset, b: UsageRangePreset)
    ensures
        !a.spec_is_custom() && !b.spec_is_custom() ==> load_key(app_type, a) == load_key(
            app_type,
            b,
        ),
        a.spec_is_custom() ==> (load_key(app_type, a) == load_key(app_type, b) <==> a == b),
        satisfies(a, b) <==> load_key(app_type, a) == load_key(app_type, b),
        logical_range(logical_range(a)) == logical_range(a),
{
}

#[derive(Debug, Clone, Copy, PartialEq, Eq, Structural)]
pub struct UsageSummary {
    pub total_requests: u64,
    /// Millionths of a dollar.
    pub total_cost_micro_usd: u64,
}

impl UsageSummary {
    pub open spec fn spec_zero() -> UsageSummary {
        UsageSummary { total_requests: 0, total_cost_micro_usd: 0 }
    }

    pub fn zero() -> (summary: UsageSummary)
        ensures
            summary == Self::spec_zero(),
    {
        UsageSummary { total_requests: 0, total_cost_micro_usd: 0 }
    }
}

/// A row of the usage log. Its row number is what it is found by again.
#[derive(Debug)]
pub struct UsageLogRow {
    pub request_id: String,
    pub model: String,
    pub created_at: i64,
    pub cursor_rowid: i64,
}

pub struct UsageLogRowView {
    pub request_id: Seq<char>,
    pub model: Seq<char>,
    pub created_at: i64,
    pub cursor_rowid: i64,
}

impl View for UsageLogRow {
    type V = UsageLogRowView;

    open spec fn view(&self) -> UsageLogRowView {
        UsageLogRowView {
            request_id: self.request_id@,
            model: self.model@,
            created_at: self.created_at,
            cursor_rowid: self.cursor_rowid,
        }
    }
}

impl Duplicate for UsageLogRow {
    fn duplicate(&self) -> (copy: UsageLogRow) {
        UsageLogRow {
            request_id: self.request_id.duplicate(),
            model: self.model.duplicate(),
            created_at: self.created_at,
            cursor_rowid: self.cursor_rowid,
        }
    }
}

/// A place in the usage log from which a page is read.
#[derive(Debug, Clone, Copy, PartialEq, Eq, Structural)]
pub struct UsageLogCursor {
    pub created_at: i64,
    pub rowid: i64,
}

impl UsageLogCursor {
    /// The place of a row.
    pub fn from_row(row: &UsageLogRow) -> (cursor: UsageLogCursor)
        ensures
            cursor == (UsageLogCursor { created_at: row.created_at, rowid: row.cursor_rowid }),
    {
        UsageLogCursor { created_at: row.created_at, rowid: row.cursor_rowid }
    }
}

/// Where a page lies from its cursor.
#[derive(Debug, Clone, Copy, PartialEq, Eq, Structural)]
pub enum UsageLogPageDirection {
    Older,
    Newer,
}

#[derive(Debug)]
pub struct UsageLogPage {
    pub rows: Vec<UsageLogRow>,
    pub next_cursor: Option<UsageLogCursor>,
    pub has_more: bool,
}

pub struct UsageLogPageView {
    pub rows: Seq<UsageLogRowView>,
    pub next_cursor: Option<UsageLogCursor>,
    pub has_more: bool,
}

impl View for UsageLogPage {
    type V = UsageLogPageView;

    open spec fn view(&self) -> UsageLogPageView {
        UsageLogPageView {
            rows: views(self.rows@),
            next_cursor: self.next_cursor,
            has_more: self.has_more,
        }
    }
}

impl Duplicate for UsageLogPage {
    fn duplicate(&self) -> (copy: UsageLogPage) {
        UsageLogPage {
            rows: duplicate_all(&self.rows),
            next_cursor: self.next_cursor,
            has_more: self.has_more,
        }
    }
}

impl UsageLogPageView {
    /// How many rows the log is known to have once this page heads it: the
    /// rows of the page, and one more where there is more.
    pub open spec fn known_total(self) -> u64 {
        let total = self.rows.len() + (if self.has_more {
            1int
        } else {
            0
        });
        if total > u64::MAX {
            u64::MAX
        } else {
            total as u64
        }
    }
}

/// Usage figures of one application.
#[derive(Debug)]
pub struct UsageSnapshot {
    pub summary_today: UsageSummary,
    pub summary_7d: UsageSummary,
    pub summary_30d: UsageSummary,
    pub recent_logs: Vec<UsageLogRow>,
    pub logs_total: u64,
    pub custom_range: Option<UsageCustomRange>,
    pub summary_custom: UsageSummary,
    pub trends_custom: Vec<UsageSummary>,
    pub recent_logs_custom: Vec<UsageLogRow>,
    pub logs_total_custom: u64,
}

/// The figures of the fixed ranges.
#[verifier::ext_equal]
pub struct FixedUsage {
    pub today: UsageSummary,
    pub seven_days: UsageSummary,
    pub thirty_days: UsageSummary,
    pub logs: Seq<UsageLogRowView>,
    pub logs_total: u64,
}

/// The figures of a custom range.
#[verifier::ext_equal]
pub struct CustomUsage {
    pub range: Option<UsageCustomRange>,
    pub summary: UsageSummary,
    pub trends: Seq<UsageSummary>,
    pub logs: Seq<UsageLogRowView>,
    pub logs_total: u64,
}

#[verifier::ext_equal]
pub struct UsageView {
    pub fixed: FixedUsage,
    pub custom: CustomUsage,
}

impl View for UsageSnapshot {
    type V = UsageView;

    open spec fn view(&self) -> UsageView {
        UsageView {
            fixed: FixedUsage {
                today: self.summary_today,
                seven_days: self.summary_7d,
                thirty_days: self.summary_30d,
                logs: views(self.recent_logs@),
                logs_total: self.logs_total,
            },
            custom: CustomUsage {
                range: self.custom_range,
                summary: self.summary_custom,
                trends: self.trends_custom@,
                logs: views(self.recent_logs_custom@),
                logs_total: self.logs_total_custom,
            },
        }
    }
}

/// Number of days in a range.
pub open spec fn days_in(range: UsageCustomRange) -> nat {
    if range.start <= range.end {
        ((range.end - range.start) / SECONDS_PER_DAY as int + 1) as nat
    } else {
        0
    }
}

impl CustomUsage {
    /// A custom range nothing is known of yet: every day counts zero.
    pub open spec fn begun(range: UsageCustomRange) -> CustomUsage {
        CustomUsage {
            range: Some(range),
            summary: UsageSummary::spec_zero(),
            trends: Seq::new(days_in(range), |i: int| UsageSummary::spec_zero()),
            logs: Seq::empty(),
            logs_total: 0,
        }
    }
}

impl UsageView {
    /// The figures with the part for `range` taken from a newer load. A load
    /// that counts log rows without bringing any leaves those of the fixed
    /// ranges as they are.
    pub open spec fn merged(self, range: UsageRangePreset, newer: UsageView) -> UsageView {
        match range {
            UsageRangePreset::Custom(custom) => UsageView {
                custom: CustomUsage { range: Some(custom), ..newer.custom },
                ..self
            },
            _ => UsageView {
                fixed: FixedUsage {
                    logs: if newer.fixed.logs.len() == 0 && newer.fixed.logs_total > 0 {
                        self.fixed.logs
                    } else {
                        newer.fixed.logs
                    },
                    ..newer.fixed
                },
                ..self
            },
        }
    }

    /// The figures with the newest log rows replaced. The number of rows is
    /// what the page shows, or stays where it is known exactly.
    pub open spec fn with_log_head(
        self,
        range: UsageRangePreset,
        page: UsageLogPageView,
        exact_total_known: bool,
    ) -> UsageView {
        match range {
            UsageRangePreset::Custom(_) => UsageView {
                custom: CustomUsage {
                    logs: page.rows,
                    logs_total: if exact_total_known {
                        self.custom.logs_total
                    } else {
                        page.known_total()
                    },
                    ..self.custom
                },
                ..self
            },
            _ => UsageView {
                fixed: FixedUsage {
                    logs: page.rows,
                    logs_total: if exact_total_known {
                        self.fixed.logs_total
                    } else {
                        page.known_total()
                    },
                    ..self.fixed
                },
                ..self
            },
        }
    }

    /// The figures as they may be shown while `active` is looked at: those of
    /// another custom range give way to an empty one.
    pub open spec fn aligned(self, active: UsageRangePreset) -> UsageView {
        match active {
            UsageRangePreset::Custom(range) => if self.custom.range == Some(range) {
                self
            } else {
                UsageView { custom: CustomUsage::begun(range), ..self }
            },
            _ => self,
        }
    }
}

impl Duplicate for UsageSnapshot {
    fn duplicate(&self) -> (copy: UsageSnapshot) {
        let copy = UsageSnapshot {
            summary_today: self.summary_today,
            summary_7d: self.summary_7d,
            summary_30d: self.summary_30d,
            recent_logs: duplicate_all(&self.recent_logs),
            logs_total: self.logs_total,
            custom_range: self.custom_range,
            summary_custom: self.summary_custom,
            trends_custom: copy_summaries(&self.trends_custom),
            recent_logs_custom: duplicate_all(&self.recent_logs_custom),
            logs_total_custom: self.logs_total_custom,
        };
        copy
    }
}

fn copy_summaries(items: &Vec<UsageSummary>) -> (copies: Vec<UsageSummary>)
    ensures
        copies@ == items@,
{
    let mut copies: Vec<UsageSummary> = Vec::new();
    let mut i: usize = 0;
    while i < items.len()
        invariant
            i <= items@.len(),
            copies@ =~= items@.take(i as int),
        decreases items@.len() - i,
    {
        copies.push(items[i]);
        i = i + 1;
    }
    copies
}

impl UsageLogPage {
    fn total_so_far(&self) -> (total: u64)
        ensures
            total == self@.known_total(),
    {
        let rows = self.rows.len() as u64;
        if self.has_more {
            rows.saturating_add(1)
        } else {
            rows
        }
    }
}

impl UsageSnapshot {
    /// Figures nothing is known of.
    pub fn empty() -> (usage: UsageSnapshot)
        ensures
            usage@ == UsageView::nothing(),
    {
        let usage = UsageSnapshot {
            summary_today: UsageSummary::zero(),
            summary_7d: UsageSummary::zero(),
            summary_30d: UsageSummary::zero(),
            recent_logs: Vec::new(),
            logs_total: 0,
            custom_range: None,
            summary_custom: UsageSummary::zero(),
            trends_custom: Vec::new(),
            recent_logs_custom: Vec::new(),
            logs_total_custom: 0,
        };
        assert(usage@ =~= UsageView::nothing());
        usage
    }

    /// Turns to a custom range of which nothing is known yet.
    pub fn begin_custom_range(&mut self, range: UsageCustomRange)
        ensures
            final(self)@ == (UsageView { custom: CustomUsage::begun(range), ..old(self)@ }),
    {
        let mut trends: Vec<UsageSummary> = Vec::new();
        let mut day = range.start;
        if range.start <= range.end {
            loop
                invariant_except_break
                    range.start <= day <= range.end,
                    day - range.start == trends@.len() * SECONDS_PER_DAY,
                    forall|i: int|
                        0 <= i < trends@.len() ==> #[trigger] trends@[i] == UsageSummary::spec_zero(),
                ensures
                    trends@.len() == days_in(range),
                    forall|i: int|
                        0 <= i < trends@.len() ==> #[trigger] trends@[i] == UsageSummary::spec_zero(),
                decreases range.end - day,
            {
                trends.push(UsageSummary::zero());
                if day > i64::MAX - SECONDS_PER_DAY || day + SECONDS_PER_DAY > range.end {
                    break;
                }
                day = day + SECONDS_PER_DAY;
            }
        }
        self.custom_range = Some(range);
        self.summary_custom = UsageSummary::zero();
        self.trends_custom = trends;
        self.recent_logs_custom = Vec::new();
        self.logs_total_custom = 0;
        assert(self@.custom =~= CustomUsage::begun(range));
    }

    /// Takes the part for `range` from a newer load.
    pub fn merge_range(&mut self, range: UsageRangePreset, newer: UsageSnapshot)
        ensures
            final(self)@ == old(self)@.merged(range, newer@),
    {
        match range {
            UsageRangePreset::Custom(custom) => {
                self.custom_range = Some(custom);
                self.summary_custom = newer.summary_custom;
                self.trends_custom = newer.trends_custom;
                self.recent_logs_custom = newer.recent_logs_custom;
                self.logs_total_custom = newer.logs_total_custom;
            },
            _ => {
                self.summary_today = newer.summary_today;
                self.summary_7d = newer.summary_7d;
                self.summary_30d = newer.summary_30d;
                if !(newer.recent_logs.is_empty() && newer.logs_total > 0) {
                    self.recent_logs = newer.recent_logs;
                }
                self.logs_total = newer.logs_total;
            },
        }
    }

    /// Replaces the newest log rows, and their number with what they show.
    pub fn merge_log_head(&mut self, range: UsageRangePreset, page: UsageLogPage)
        ensures
            final(self)@ == old(self)@.with_log_head(range, page@, false),
    {
        let total = page.total_so_far();
        match range {
            UsageRangePreset::Custom(_) => {
                self.recent_logs_custom = page.rows;
                self.logs_total_custom = total;
            },
            _ => {
                self.recent_logs = page.rows;
                self.logs_total = total;
            },
        }
    }

    /// Replaces the newest log rows; their number is known better.
    pub fn merge_log_head_preserving_exact_total(
        &mut self,
        range: UsageRangePreset,
        page: UsageLogPage,
    )
        ensures
            final(self)@ == old(self)@.with_log_head(range, page@, true),
    {
        match range {
            UsageRangePreset::Custom(_) => {
                self.recent_logs_custom = page.rows;
            },
            _ => {
                self.recent_logs = page.rows;
            },
        }
    }

    /// The newest log rows of a range.
    pub fn recent_logs_for(&self, range: UsageRangePreset) -> (rows: &Vec<UsageLogRow>)
        ensures
            views(rows@) == (if range.spec_is_custom() {
                self@.custom.logs
            } else {
                self@.fixed.logs
            }),
    {
        match range {
            UsageRangePreset::Custom(_) => &self.recent_logs_custom,
            _ => &self.recent_logs,
        }
    }

    /// The number of log rows of a range.
    pub fn logs_total_for(&self, range: UsageRangePreset) -> (total: u64)
        ensures
            total == (if range.spec_is_custom() {
                self@.custom.logs_total
            } else {
                self@.fixed.logs_total
            }),
    {
        match range {
            UsageRangePreset::Custom(_) => self.logs_total_custom,
            _ => self.logs_total,
        }
    }
}

impl UsageView {
    pub open spec fn nothing() -> UsageView {
        UsageView {
            fixed: FixedUsage {
                today: UsageSummary::spec_zero(),
                seven_days: UsageSummary::spec_zero(),
                thirty_days: UsageSummary::spec_zero(),
                logs: Seq::empty(),
                logs_total: 0,
            },
            custom: CustomUsage {
                range: None,
                summary: UsageSummary::spec_zero(),
                trends: Seq::empty(),
                logs: Seq::empty(),
                logs_total: 0,
            },
        }
    }
}

/// Makes figures fit to be shown while `active_range` is looked at.
pub fn align_usage_to_active_range(usage: &mut UsageSnapshot, active_range: UsageRangePreset)
    ensures
        final(usage)@ == old(usage)@.aligned(active_range),
{
    if let UsageRangePreset::Custom(active_custom_range) = active_range {
        let aligned = match usage.custom_range {
            Some(range) => range == active_custom_range,
            None => false,
        };
        if !aligned {
            usage.begin_custom_range(active_custom_range);
        }
    }
}

/// What a model costs.
#[derive(Debug)]
pub struct ModelPricingRow {
    pub model_id: String,
    pub display_name: String,
    /// Millionths of a dollar.
    pub recent_total_cost_micro_usd: u64,
}

pub struct ModelPricingRowView {
    pub model_id: Seq<char>,
    pub display_name: Seq<char>,
    pub recent_total_cost_micro_usd: u64,
}

impl View for ModelPricingRow {
    type V = ModelPricingRowView;

    open spec fn view(&self) -> ModelPricingRowView {
        ModelPricingRowView {
            model_id: self.model_id@,
            display_name: self.display_name@,
            recent_total_cost_micro_usd: self.recent_total_cost_micro_usd,
        }
    }
}

impl Duplicate for ModelPricingRow {
    fn duplicate(&self) -> (copy: ModelPricingRow) {
        ModelPricingRow {
            model_id: self.model_id.duplicate(),
            display_name: self.display_name.duplicate(),
            recent_total_cost_micro_usd: self.recent_total_cost_micro_usd,
        }
    }
}

#[derive(Debug)]
pub struct ModelPricingSnapshot {
    pub rows: Vec<ModelPricingRow>,
}

impl View for ModelPricingSnapshot {
    type V = Seq<ModelPricingRowView>;

    open spec fn view(&self) -> Seq<ModelPricingRowView> {
        views(self.rows@)
    }
}

impl Duplicate for ModelPricingSnapshot {
    fn duplicate(&self) -> (copy: ModelPricingSnapshot) {
        ModelPricingSnapshot { rows: duplicate_all(&self.rows) }
    }
}

/// What a usage load brings. Only a load for the fixed ranges brings prices.
#[derive(Debug)]
pub struct UsagePricingData {
    pub usage: UsageSnapshot,
    pub pricing: Option<ModelPricingSnapshot>,
}

pub struct UsagePricingView {
    pub usage: UsageView,
    pub pricing: Option<Seq<ModelPricingRowView>>,
}

impl View for UsagePricingData {
    type V = UsagePricingView;

    open spec fn view(&self) -> UsagePricingView {
        UsagePricingView { usage: self.usage@, pricing: opt_view(self.pricing) }
    }
}

impl Duplicate for UsagePricingData {
    fn duplicate(&self) -> (copy: UsagePricingData) {
        UsagePricingData { usage: self.usage.duplicate(), pricing: duplicate_opt(&self.pricing) }
    }
}

/// The keys of other applications than one.
pub struct OtherApps {
    pub app_type: AppType,
}

impl KeyTest<UsagePricingLoadKey> for OtherApps {
    open spec fn passes(self, key: UsagePricingLoadKey) -> bool {
        key.0 != self.app_type
    }

    fn check(&self, key: &UsagePricingLoadKey) -> (result: bool) {
        key.0 != self.app_type
    }
}

/// All keys but those of an application's custom ranges.
pub struct NotCustomOf {
    pub app_type: AppType,
}

impl KeyTest<UsagePricingLoadKey> for NotCustomOf {
    open spec fn passes(self, key: UsagePricingLoadKey) -> bool {
        key.0 != self.app_type || !key.1.spec_is_custom()
    }

    fn check(&self, key: &UsagePricingLoadKey) -> (result: bool) {
        key.0 != self.app_type || !key.1.is_custom()
    }
}

/// The keys of an application whose load covers a range.
pub struct Covering {
    pub app_type: AppType,
    pub range: UsageRangePreset,
}

impl KeyTest<UsagePricingLoadKey> for Covering {
    open spec fn passes(self, key: UsagePricingLoadKey) -> bool {
        key.0 == self.app_type && satisfies(key.1, self.range)
    }

    fn check(&self, key: &UsagePricingLoadKey) -> (result: bool) {
        key.0 == self.app_type && usage_pricing_cache_satisfies(key.1, self.range)
    }
}

/// A page of the usage log that has been asked for.
#[derive(Debug, Clone, Copy, PartialEq, Eq, Structural)]
pub struct PendingLogPage {
    pub request_id: u64,
    pub direction: UsageLogPageDirection,
}

/// What a usage log is read for.
#[derive(Debug, Clone, Copy, PartialEq, Eq, Structural)]
pub struct LogContext {
    pub app_type: AppType,
    pub range: UsageRangePreset,
}

/// The position in the usage log, and its pages beyond the first: which are
/// there, which have been asked for, and which could not be read.
#[derive(Debug)]
pub struct UsageLogPager {
    pub context: Option<LogContext>,
    pub gate: Pagination,
    /// Where the first page ends.
    pub first_end: Option<UsageLogCursor>,
    pub pages: Table<usize, UsageLogPage>,
    pub pending: Table<usize, PendingLogPage>,
    pub errors: Table<usize, String>,
}

/// The position in the usage log, and its pages beyond the first.
#[verifier::ext_equal]
pub struct PagerView {
    pub context: Option<LogContext>,
    pub gate: Pagination,
    pub first_end: Option<UsageLogCursor>,
    pub pages: Map<usize, UsageLogPageView>,
    pub pending: Map<usize, PendingLogPage>,
    pub errors: Map<usize, Seq<char>>,
}

impl View for UsageLogPager {
    type V = PagerView;

    open spec fn view(&self) -> PagerView {
        PagerView {
            context: self.context,
            gate: self.gate,
            first_end: self.first_end,
            pages: map_views(self.pages@),
            pending: self.pending@,
            errors: map_views(self.errors@),
        }
    }
}

impl PagerView {
    /// Whether an answer is the one that a page waits for.
    pub open spec fn awaits(
        self,
        page: usize,
        request_id: u64,
        direction: UsageLogPageDirection,
    ) -> bool {
        self.pending.contains_key(page) && self.pending[page] == (PendingLogPage {
            request_id,
            direction,
        })
    }

    pub open spec fn requested(
        self,
        page: usize,
        request_id: u64,
        direction: UsageLogPageDirection,
    ) -> PagerView {
        PagerView {
            pending: self.pending.insert(page, PendingLogPage { request_id, direction }),
            errors: self.errors.remove(page),
            ..self
        }
    }

    pub open spec fn cancelled(
        self,
        page: usize,
        request_id: u64,
        direction: UsageLogPageDirection,
    ) -> PagerView {
        if self.awaits(page, request_id, direction) {
            PagerView { pending: self.pending.remove(page), ..self }
        } else {
            self
        }
    }

    pub open spec fn finished(
        self,
        page: usize,
        request_id: u64,
        direction: UsageLogPageDirection,
        loaded: UsageLogPageView,
    ) -> PagerView {
        if self.awaits(page, request_id, direction) {
            PagerView {
                pending: self.pending.remove(page),
                pages: self.pages.insert(page, loaded),
                errors: self.errors.remove(page),
                ..self
            }
        } else {
            self
        }
    }

    pub open spec fn failed(
        self,
        page: usize,
        request_id: u64,
        direction: UsageLogPageDirection,
        error: Seq<char>,
    ) -> PagerView {
        if self.awaits(page, request_id, direction) {
            PagerView {
                pending: self.pending.remove(page),
                errors: self.errors.insert(page, error),
                ..self
            }
        } else {
            self
        }
    }

    pub open spec fn nothing() -> PagerView {
        PagerView {
            context: None,
            gate: Pagination::spec_new(),
            first_end: None,
            pages: Map::empty(),
            pending: Map::empty(),
            errors: Map::empty(),
        }
    }

    /// The log of an application's range, with this first page and this many
    /// rows. Pages of another log are forgotten; of the same one they are kept,
    /// and the selection stays within its rows.
    pub open spec fn synced(
        self,
        context: LogContext,
        first_page: Seq<UsageLogRowView>,
        total: u64,
    ) -> PagerView {
        let kept = if self.context == Some(context) {
            self
        } else {
            PagerView { context: Some(context), ..PagerView::nothing() }
        };
        let resized = kept.gate.resized(saturated(total as int));
        PagerView {
            gate: if resized.selected is None && total > 0 {
                Pagination { selected: Some(0), ..resized }
            } else {
                resized
            },
            first_end: if first_page.len() == 0 {
                None
            } else {
                Some(
                    UsageLogCursor {
                        created_at: first_page.last().created_at,
                        rowid: first_page.last().cursor_rowid,
                    },
                )
            },
            ..kept
        }
    }

    /// The page that the selected row stands on.
    pub open spec fn shown_page(self) -> usize {
        match self.gate.selected {
            Some(at) => at / USAGE_LOG_PAGE_SIZE,
            None => 0,
        }
    }
}

impl UsageLogPager {
    pub fn new() -> (pager: UsageLogPager)
        ensures
            pager@ == PagerView::nothing(),
    {
        let pager = UsageLogPager {
            context: None,
            gate: Pagination { len: 0, selected: None, row_focused: false },
            first_end: None,
            pages: Table::new(),
            pending: Table::new(),
            errors: Table::new(),
        };
        assert(pager@ =~~= PagerView::nothing());
        pager
    }

    pub fn clear(&mut self)
        ensures
            final(self)@ == PagerView::nothing(),
    {
        self.context = None;
        self.gate = Pagination { len: 0, selected: None, row_focused: false };
        self.first_end = None;
        self.pages.clear();
        self.pending.clear();
        self.errors.clear();
        assert(self@ =~~= PagerView::nothing());
    }

    fn is_awaited(
        &self,
        page: usize,
        request_id: u64,
        direction: UsageLogPageDirection,
    ) -> (result: bool)
        ensures
            result == self@.awaits(page, request_id, direction),
    {
        match self.pending.get(&page) {
            Some(pending) => *pending == PendingLogPage { request_id, direction },
            None => false,
        }
    }

    /// Notes that a page is asked for, unless it already is. The result tells
    /// whether it was noted.
    pub fn start_request(
        &mut self,
        page: usize,
        request_id: u64,
        direction: UsageLogPageDirection,
    ) -> (started: bool)
        ensures
            started == !old(self)@.pending.contains_key(page),
            final(self)@ == (if started {
                old(self)@.requested(page, request_id, direction)
            } else {
                old(self)@
            }),
    {
        if self.pending.contains_key(&page) {
            return false;
        }
        proof {
            lemma_map_views_removed(self.errors@, page);
        }
        self.pending.insert(page, PendingLogPage { request_id, direction });
        let _ = self.errors.remove(&page);
        true
    }

    pub fn cancel_request(
        &mut self,
        page: usize,
        request_id: u64,
        direction: UsageLogPageDirection,
    )
        ensures
            final(self)@ == old(self)@.cancelled(page, request_id, direction),
    {
        if self.is_awaited(page, request_id, direction) {
            let _ = self.pending.remove(&page);
        }
    }

    /// A page has come. It is dropped unless it was asked for.
    pub fn finish_request(
        &mut self,
        page: usize,
        request_id: u64,
        direction: UsageLogPageDirection,
        loaded: UsageLogPage,
    ) -> (finished: bool)
        ensures
            finished == old(self)@.awaits(page, request_id, direction),
            final(self)@ == old(self)@.finished(page, request_id, direction, loaded@),
    {
        if !self.is_awaited(page, request_id, direction) {
            return false;
        }
        proof {
            lemma_map_views(self.pages@, page, loaded);
            lemma_map_views_removed(self.errors@, page);
        }
        let _ = self.pending.remove(&page);
        self.pages.insert(page, loaded);
        let _ = self.errors.remove(&page);
        true
    }

    pub fn fail_request(
        &mut self,
        page: usize,
        request_id: u64,
        direction: UsageLogPageDirection,
        error: String,
    )
        ensures
            final(self)@ == old(self)@.failed(page, request_id, direction, error@),
    {
        if self.is_awaited(page, request_id, direction) {
            proof {
                lemma_map_views(self.errors@, page, error);
            }
            let _ = self.pending.remove(&page);
            self.errors.insert(page, error);
        }
    }

    /// Brings the pager in line with the log of an application's range.
    pub fn sync(&mut self, context: LogContext, first_page: &Vec<UsageLogRow>, total: u64)
        ensures
            final(self)@ == old(self)@.synced(context, views(first_page@), total),
    {
        let same = match self.context {
            Some(before) => before == context,
            None => false,
        };
        if !same {
            self.clear();
            self.context = Some(context);
        }
        let len: usize = if total > usize::MAX as u64 {
            usize::MAX
        } else {
            total as usize
        };
        self.gate.sync_len(len);
        if self.gate.selected.is_none() && total > 0 {
            self.gate.selected = Some(0);
        }
        self.first_end = if first_page.len() == 0 {
            None
        } else {
            Some(UsageLogCursor::from_row(&first_page[first_page.len() - 1]))
        };
    }

    pub fn current_page(&self) -> (page: usize)
        ensures
            page == self@.shown_page(),
    {
        match self.gate.selected {
            Some(at) => at / USAGE_LOG_PAGE_SIZE,
            None => 0,
        }
    }

    pub fn page_is_available(&self, page: usize) -> (result: bool)
        ensures
            result == self@.pages.contains_key(page),
    {
        self.pages.contains_key(&page)
    }

    pub fn page_is_pending(&self, page: usize) -> (result: bool)
        ensures
            result == self@.pending.contains_key(page),
    {
        self.pending.contains_key(&page)
    }

    pub fn page_error(&self, page: usize) -> (error: Option<&String>)
        ensures
            match error {
                Some(e) => self@.errors.contains_key(page) && e@ == self@.errors[page],
                None => !self@.errors.contains_key(page),
            },
    {
        self.errors.get(&page)
    }
}

/// A log row that is looked at in full, and where it was found.
#[derive(Debug)]
pub struct UsageLogDetail {
    pub app_type: AppType,
    pub range: UsageRangePreset,
    pub row: UsageLogRow,
}

/// A log row that is looked at in full, and where it was found.
#[verifier::ext_equal]
pub struct UsageLogDetailView {
    pub app_type: AppType,
    pub range: UsageRangePreset,
    pub row: UsageLogRowView,
}

impl View for UsageLogDetail {
    type V = UsageLogDetailView;

    open spec fn view(&self) -> UsageLogDetailView {
        UsageLogDetailView { app_type: self.app_type, range: self.range, row: self.row@ }
    }
}

impl UsageLogDetail {
    /// The row, if it is the one of this number in this place.
    pub fn row_for(&self, app_type: &AppType, range: UsageRangePreset, rowid: i64) -> (row: Option<
        &UsageLogRow,
    >)
        ensures
            row == (if self.app_type == *app_type && self.range == range && self.row.cursor_rowid
                == rowid {
                Some(&self.row)
            } else {
                None
            }),
    {
        if self.app_type == *app_type && self.range == range && self.row.cursor_rowid == rowid {
            Some(&self.row)
        } else {
            None
        }
    }
}

/// What the usage screens keep.
#[derive(Debug)]
pub struct UsageUi {
    pub range: UsageRangePreset,
    pub loading: Table<UsagePricingLoadKey, ()>,
    pub log_pager: UsageLogPager,
    pub log_detail_request: Option<u64>,
    pub log_detail_snapshot: Option<UsageLogDetail>,
}

/// What the usage screens keep.
#[verifier::ext_equal]
pub struct UsageUiView {
    pub range: UsageRangePreset,
    pub loading: Map<UsagePricingLoadKey, ()>,
    pub pager: PagerView,
    pub detail_request: Option<u64>,
    pub detail: Option<UsageLogDetailView>,
}

impl View for UsageUi {
    type V = UsageUiView;

    open spec fn view(&self) -> UsageUiView {
        UsageUiView {
            range: self.range,
            loading: self.loading@,
            pager: self.log_pager@,
            detail_request: self.log_detail_request,
            detail: opt_view(self.log_detail_snapshot),
        }
    }
}

impl UsageUiView {
    /// A load of an application's range is under way.
    pub open spec fn loads(self, app_type: AppType, range: UsageRangePreset) -> UsageUiView {
        UsageUiView { loading: self.loading.insert(load_key(app_type, range), ()), ..self }
    }

    /// A load of an application's range has ended.
    pub open spec fn loaded(self, app_type: AppType, range: UsageRangePreset) -> UsageUiView {
        UsageUiView { loading: self.loading.remove(load_key(app_type, range)), ..self }
    }

    pub open spec fn is_loading(self, app_type: AppType, range: UsageRangePreset) -> bool {
        self.loading.contains_key(load_key(app_type, range))
    }
}

impl UsageUi {
    pub fn new() -> (usage: UsageUi)
        ensures
            usage@ == (UsageUiView {
                range: UsageRangePreset::SevenDays,
                loading: Map::empty(),
                pager: PagerView::nothing(),
                detail_request: None,
                detail: None,
            }),
    {
        UsageUi {
            range: UsageRangePreset::SevenDays,
            loading: Table::new(),
            log_pager: UsageLogPager::new(),
            log_detail_request: None,
            log_detail_snapshot: None,
        }
    }

    /// Brings the pager in line with the first page of an application's range
    /// and the number of its rows.
    pub fn sync_log_pager(
        &mut self,
        app_type: &AppType,
        range: UsageRangePreset,
        first_page: &Vec<UsageLogRow>,
        total: u64,
    )
        ensures
            final(self)@ == (UsageUiView {
                pager: old(self)@.pager.synced(
                    LogContext { app_type: *app_type, range },
                    views(first_page@),
                    total,
                ),
                ..old(self)@
            }),
    {
        self.log_pager.sync(LogContext { app_type: *app_type, range }, first_page, total);
    }

    pub fn start_loading(&mut self, app_type: AppType, range: UsageRangePreset)
        ensures
            final(self)@ == old(self)@.loads(app_type, range),
    {
        self.loading.insert(usage_pricing_load_key(&app_type, range), ());
    }

    pub fn finish_loading(&mut self, app_type: &AppType, range: UsageRangePreset)
        ensures
            final(self)@ == old(self)@.loaded(*app_type, range),
    {
        let _ = self.loading.remove(&usage_pricing_load_key(app_type, range));
    }

    pub fn is_loading_for(&self, app_type: &AppType, range: UsageRangePreset) -> (result: bool)
        ensures
            result == self@.is_loading(*app_type, range),
    {
        self.loading.contains_key(&usage_pricing_load_key(app_type, range))
    }

    pub fn clear_loading(&mut self)
        ensures
            final(self)@ == (UsageUiView { loading: Map::empty(), ..old(self)@ }),
    {
        self.loading.clear();
    }

    pub fn clear_custom_loading_for_app(&mut self, app_type: &AppType)
        ensures
            final(self)@ == (UsageUiView {
                loading: passing::<UsagePricingLoadKey, (), NotCustomOf>(old(self)@.loading, NotCustomOf { app_type: *app_type }),
                ..old(self)@
            }),
    {
        self.loading.retain(&NotCustomOf { app_type: *app_type });
    }

    /// Forgets the pages of the log beyond the first.
    pub fn invalidate_log_pages(&mut self)
        ensures
            final(self)@ == (UsageUiView { pager: PagerView::nothing(), ..old(self)@ }),
    {
        self.log_pager.clear();
    }

    pub fn start_log_detail_refresh(&mut self, request_id: u64)
        ensures
            final(self)@ == (UsageUiView { detail_request: Some(request_id), ..old(self)@ }),
    {
        self.log_detail_request = Some(request_id);
    }

    /// An answer to a refresh of the row looked at has come. The result tells
    /// whether it was waited for.
    pub fn finish_log_detail_refresh(&mut self, request_id: u64) -> (finished: bool)
        ensures
            finished == (old(self)@.detail_request == Some(request_id)),
            final(self)@ == (if finished {
                UsageUiView { detail_request: None, ..old(self)@ }
            } else {
                old(self)@
            }),
    {
        match self.log_detail_request {
            Some(active) => {
                if active == request_id {
                    self.log_detail_request = None;
                    true
                } else {
                    false
                }
            },
            None => false,
        }
    }

    pub fn remember_log_detail(
        &mut self,
        app_type: AppType,
        range: UsageRangePreset,
        row: UsageLogRow,
    )
        ensures
            final(self)@ == (UsageUiView {
                detail: Some(UsageLogDetailView { app_type, range, row: row@ }),
                ..old(self)@
            }),
    {
        self.log_detail_snapshot = Some(UsageLogDetail { app_type, range, row });
    }
}

} // verus!
