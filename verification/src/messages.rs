//! What is asked of the background workers that load data, and what they
//! answer.

use vstd::prelude::*;

use crate::app_type::AppType;
use crate::data::UiData;
use crate::usage::{
    UsageLogCursor, UsageLogPage, UsageLogPageDirection, UsageLogRow, UsagePricingData,
    UsageRangePreset,
};

verus! {

/// How much of an application's data is loaded.
#[derive(Debug, Clone, Copy, PartialEq, Eq, Structural)]
pub enum AppDataLoadKind {
    /// What the first screen needs, at startup.
    Initial,
    /// What a switch to the application needs.
    Snapshot,
    /// Everything.
    Full,
}

/// A request to the worker that loads applications' data.
#[derive(Debug)]
pub enum AppDataReq {
    Load { request_id: u64, generation: u64, app_state_epoch: u64, app_type: AppType },
    FullLoad { request_id: u64, generation: u64, app_state_epoch: u64, app_type: AppType },
    InitialLoad {
        request_id: u64,
        generation: u64,
        app_state_epoch: u64,
        app_type: AppType,
        /// Further applications to prepare, each with a request of its own.
        extras: Vec<(AppType, u64)>,
    },
    /// Let go of the application state that is held.
    DropState,
}

#[derive(Debug)]
pub struct AppDataLoaded {
    pub kind: AppDataLoadKind,
    pub request_id: u64,
    pub generation: u64,
    pub app_state_epoch: u64,
    pub app_type: AppType,
    pub result: Result<UiData, String>,
}

/// A request to the worker that computes usage figures.
#[derive(Debug, Clone, Copy, PartialEq, Eq, Structural)]
pub enum UsagePricingReq {
    Load {
        request_id: u64,
        generation: u64,
        app_state_epoch: u64,
        app_type: AppType,
        range: UsageRangePreset,
    },
    LoadLogPage {
        request_id: u64,
        generation: u64,
        app_state_epoch: u64,
        app_type: AppType,
        range: UsageRangePreset,
        page: usize,
        cursor: UsageLogCursor,
        direction: UsageLogPageDirection,
        limit: usize,
    },
    LoadLogDetail {
        request_id: u64,
        generation: u64,
        app_state_epoch: u64,
        app_type: AppType,
        range: UsageRangePreset,
        log_rowid: i64,
    },
    /// Let go of the application state that is held.
    DropState,
}

/// Why an aggregate was not computed.
#[derive(Debug)]
pub enum UsagePricingLoadError {
    Cancelled,
    Failed(String),
}

/// Why a part of the usage log was not read.
#[derive(Debug)]
pub enum UsageLogLoadError {
    Cancelled,
    Failed(String),
}

/// An answer of the worker that computes usage figures.
#[allow(inconsistent_fields)]
#[derive(Debug)]
pub enum UsagePricingMsg {
    LogHeadLoaded {
        request_id: u64,
        generation: u64,
        app_state_epoch: u64,
        app_type: AppType,
        range: UsageRangePreset,
        result: Result<UsageLogPage, UsageLogLoadError>,
    },
    Loaded {
        request_id: u64,
        generation: u64,
        app_state_epoch: u64,
        app_type: AppType,
        range: UsageRangePreset,
        result: Result<UsagePricingData, UsagePricingLoadError>,
    },
    LogPageLoaded {
        request_id: u64,
        generation: u64,
        app_state_epoch: u64,
        app_type: AppType,
        range: UsageRangePreset,
        page: usize,
        direction: UsageLogPageDirection,
        result: Result<UsageLogPage, UsageLogLoadError>,
    },
    LogDetailLoaded {
        request_id: u64,
        generation: u64,
        app_state_epoch: u64,
        app_type: AppType,
        range: UsageRangePreset,
        log_rowid: i64,
        result: Result<Option<UsageLogRow>, UsageLogLoadError>,
    },
}

} // verus!
