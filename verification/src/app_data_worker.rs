//! The worker that loads application data, and the one that imports usage from
//! session logs.

use vstd::prelude::*;

use crate::app_type::AppType;
use crate::data::UiData;
use crate::messages::{AppDataLoadKind, AppDataLoaded, AppDataReq};
use crate::text::{decimal, decimal_text, joined};
use crate::usage_loads::SessionUsageSyncMsg;

verus! {

/// Where data is loaded from.
#[derive(Debug, Clone, Copy, PartialEq, Eq, Structural)]
pub enum AppDataSource {
    /// The application state that the worker holds. `reload` tells whether its
    /// configuration is read anew first.
    HeldState { reload: bool },
    /// The store, without the usage figures: those are computed where they are
    /// looked at.
    Store,
}

/// One load.
#[derive(Debug, Clone, Copy, PartialEq, Eq, Structural)]
pub struct AppDataLoad {
    pub kind: AppDataLoadKind,
    pub request_id: u64,
    pub generation: u64,
    pub app_state_epoch: u64,
    pub app_type: AppType,
    pub source: AppDataSource,
}

/// The loads of further applications at startup, all from the state that was
/// just read.
pub open spec fn extra_loads(
    extras: Seq<(AppType, u64)>,
    generation: u64,
    app_state_epoch: u64,
) -> Seq<AppDataLoad> {
    Seq::new(
        extras.len(),
        |i: int|
            AppDataLoad {
                kind: AppDataLoadKind::Initial,
                request_id: extras[i].1,
                generation,
                app_state_epoch,
                app_type: extras[i].0,
                source: AppDataSource::HeldState { reload: false },
            },
    )
}

/// The loads that a request asks for, in order: the application that is shown
/// comes first.
pub open spec fn loads_of(req: AppDataReq) -> Seq<AppDataLoad> {
    match req {
        AppDataReq::InitialLoad { request_id, generation, app_state_epoch, app_type, extras } => {
            seq![
                AppDataLoad {
                    kind: AppDataLoadKind::Initial,
                    request_id,
                    generation,
                    app_state_epoch,
                    app_type,
                    source: AppDataSource::HeldState { reload: true },
                },
            ] + extra_loads(extras@, generation, app_state_epoch)
        },
        AppDataReq::Load { request_id, generation, app_state_epoch, app_type } => seq![
            AppDataLoad {
                kind: AppDataLoadKind::Snapshot,
                request_id,
                generation,
                app_state_epoch,
                app_type,
                source: AppDataSource::HeldState { reload: true },
            },
        ],
        AppDataReq::FullLoad { request_id, generation, app_state_epoch, app_type } => seq![
            AppDataLoad {
                kind: AppDataLoadKind::Full,
                request_id,
                generation,
                app_state_epoch,
                app_type,
                source: AppDataSource::Store,
            },
        ],
        AppDataReq::DropState => seq![],
    }
}

/// The loads that a request asks for.
pub fn app_data_loads(req: &AppDataReq) -> (loads: Vec<AppDataLoad>)
    ensures
        loads@ == loads_of(*req),
{
    match req {
        AppDataReq::InitialLoad { request_id, generation, app_state_epoch, app_type, extras } => {
            let mut loads = vec![
                AppDataLoad {
                    kind: AppDataLoadKind::Initial,
                    request_id: *request_id,
                    generation: *generation,
                    app_state_epoch: *app_state_epoch,
                    app_type: *app_type,
                    source: AppDataSource::HeldState { reload: true },
                },
            ];
            let ghost first = loads@;
            let mut i: usize = 0;
            while i < extras.len()
                invariant
                    i <= extras@.len(),
                    first.len() == 1,
                    loads@.len() == 1 + i,
                    loads@[0] == first[0],
                    forall|j: int|
                        0 <= j < i ==> loads@[1 + j] == (#[trigger] extra_loads(
                            extras@,
                            *generation,
                            *app_state_epoch,
                        )[j]),
                decreases extras@.len() - i,
            {
                let (extra, extra_id) = extras[i];
                loads.push(
                    AppDataLoad {
                        kind: AppDataLoadKind::Initial,
                        request_id: extra_id,
                        generation: *generation,
                        app_state_epoch: *app_state_epoch,
                        app_type: extra,
                        source: AppDataSource::HeldState { reload: false },
                    },
                );
                i = i + 1;
            }
            assert(loads@ =~= loads_of(*req)) by {
                let rest = extra_loads(extras@, *generation, *app_state_epoch);
                assert forall|k: int| 0 <= k < loads@.len() implies loads@[k] == (first + rest)[k] by {
                    if k > 0 {
                        assert(loads@[1 + (k - 1)] == rest[k - 1]);
                    }
                }
            }
            loads
        },
        AppDataReq::Load { request_id, generation, app_state_epoch, app_type } => vec![
            AppDataLoad {
                kind: AppDataLoadKind::Snapshot,
                request_id: *request_id,
                generation: *generation,
                app_state_epoch: *app_state_epoch,
                app_type: *app_type,
                source: AppDataSource::HeldState { reload: true },
            },
        ],
        AppDataReq::FullLoad { request_id, generation, app_state_epoch, app_type } => vec![
            AppDataLoad {
                kind: AppDataLoadKind::Full,
                request_id: *request_id,
                generation: *generation,
                app_state_epoch: *app_state_epoch,
                app_type: *app_type,
                source: AppDataSource::Store,
            },
        ],
        AppDataReq::DropState => Vec::new(),
    }
}

/// What is answered to a load.
pub fn app_data_answer(load: AppDataLoad, result: Result<UiData, String>) -> (msg: AppDataLoaded)
    ensures
        msg == (AppDataLoaded {
            kind: load.kind,
            request_id: load.request_id,
            generation: load.generation,
            app_state_epoch: load.app_state_epoch,
            app_type: load.app_type,
            result,
        }),
{
    AppDataLoaded {
        kind: load.kind,
        request_id: load.request_id,
        generation: load.generation,
        app_state_epoch: load.app_state_epoch,
        app_type: load.app_type,
        result,
    }
}

/// Whether the application state has to be made anew for an epoch.
pub fn needs_state_for_epoch(held: Option<u64>, epoch: u64) -> (result: bool)
    ensures
        result == (held != Some(epoch)),
{
    match held {
        Some(held) => held != epoch,
        None => true,
    }
}

/// At startup the state is read once, for the application that is shown; the
/// others are prepared from it.
pub proof fn startup_reads_the_state_once(req: AppDataReq, i: int)
    requires
        req is InitialLoad,
        0 <= i < loads_of(req).len(),
    ensures
        loads_of(req)[i].source == (AppDataSource::HeldState { reload: i == 0 }),
        loads_of(req)[i].kind == AppDataLoadKind::Initial,
        loads_of(req)[i].app_state_epoch == req->InitialLoad_app_state_epoch,
{
}

// Imports from session logs.

/// What is said of an import that met errors.
pub open spec fn sync_error(count: nat, first: Seq<char>) -> Seq<char> {
    decimal_text(count) + " session usage sync error(s); first: "@ + first
}

/// What is answered to a request for an import: one that met errors failed.
pub fn session_usage_sync_answer(request_id: u64, result: Result<Vec<String>, String>) -> (msg:
    SessionUsageSyncMsg)
    ensures
        msg.request_id == request_id,
        match result {
            Err(error) => msg.result == Err::<(), String>(error),
            Ok(errors) => if errors@.len() == 0 {
                msg.result == Ok::<(), String>(())
            } else {
                msg.result matches Err(error) && error@ == sync_error(
                    errors@.len(),
                    errors@[0]@,
                )
            },
        },
{
    let result = match result {
        Err(error) => Err(error),
        Ok(errors) => {
            if errors.len() == 0 {
                Ok(())
            } else {
                let count = decimal(errors.len() as u64);
                let lead = joined(count.as_str(), " session usage sync error(s); first: ");
                Err(joined(lead.as_str(), errors[0].as_str()))
            }
        },
    };
    SessionUsageSyncMsg { request_id, result }
}

} // verus!
