//! What is installed on this machine, checked in the background.

use vstd::prelude::*;

use crate::app::{App, AppView};
use crate::base::{opt_view, views};
use crate::outbox::{Link, Outbox, TOKIO_CHANNEL_CLOSED};
use crate::request::{following, next_number};
use crate::text::{Text, TextKey, TextView, ToastKind};

verus! {

/// What was found of one tool.
#[derive(Debug)]
pub struct ToolCheckResult {
    pub tool: String,
    pub version: Option<String>,
    pub error: Option<String>,
}

#[verifier::ext_equal]
pub struct ToolCheckView {
    pub tool: Seq<char>,
    pub version: Option<Seq<char>>,
    pub error: Option<Seq<char>>,
}

impl View for ToolCheckResult {
    type V = ToolCheckView;

    open spec fn view(&self) -> ToolCheckView {
        ToolCheckView {
            tool: self.tool@,
            version: opt_view(self.version),
            error: opt_view(self.error),
        }
    }
}

/// The checks as the screen shows them.
#[derive(Debug)]
pub struct LocalEnv {
    pub results: Vec<ToolCheckResult>,
    pub loading: bool,
    /// Counts the checks that were asked for.
    pub generation: u64,
}

#[verifier::ext_equal]
pub struct LocalEnvView {
    pub results: Seq<ToolCheckView>,
    pub loading: bool,
    pub generation: u64,
}

impl View for LocalEnv {
    type V = LocalEnvView;

    open spec fn view(&self) -> LocalEnvView {
        LocalEnvView {
            results: views(self.results@),
            loading: self.loading,
            generation: self.generation,
        }
    }
}

impl LocalEnvView {
    pub open spec fn nothing() -> LocalEnvView {
        LocalEnvView { results: Seq::empty(), loading: false, generation: 0 }
    }
}

impl LocalEnv {
    pub fn new() -> (env: LocalEnv)
        ensures
            env@ == LocalEnvView::nothing(),
    {
        let env = LocalEnv { results: Vec::new(), loading: false, generation: 0 };
        assert(env@ =~= LocalEnvView::nothing());
        env
    }
}

#[derive(Debug, Clone, Copy, PartialEq, Eq, Structural)]
pub enum LocalEnvReq {
    Refresh { generation: u64 },
}

#[derive(Debug)]
pub struct LocalEnvMsg {
    pub result: Vec<ToolCheckResult>,
}

/// What was found on the machine is shown.
pub open spec fn env_checked(app: AppView, results: Seq<ToolCheckView>) -> AppView {
    AppView { local_env: LocalEnvView { results, loading: false, ..app.local_env }, ..app }
}

/// A check is over.
pub fn handle_local_env_msg(app: &mut App, msg: LocalEnvMsg)
    ensures
        final(app)@ == env_checked(old(app)@, views(msg.result@)),
{
    app.local_env.results = msg.result;
    app.local_env.loading = false;
}

/// What is shown once a check was asked for.
pub open spec fn env_asked(app: AppView, link: Link) -> AppView {
    let env = app.local_env;
    let asked = |loading: bool|
        AppView {
            local_env: LocalEnvView { loading, generation: following(env.generation), ..env },
            ..app
        };
    match link {
        Link::Missing => AppView { local_env: LocalEnvView { loading: false, ..env }, ..app },
        Link::Closed => asked(false).told(
            ToastKind::Warning,
            TextView::with(TextKey::LocalEnvCheckRequestFailed, TOKIO_CHANNEL_CLOSED@),
        ),
        Link::Open => asked(true),
    }
}

pub open spec fn sent_after_env_asked(
    env: LocalEnvView,
    link: Link,
    sent: Seq<LocalEnvReq>,
) -> Seq<LocalEnvReq> {
    if link == Link::Open {
        sent.push(LocalEnvReq::Refresh { generation: following(env.generation) })
    } else {
        sent
    }
}

/// Asks for a check. Without a worker nothing is waited for; one that has
/// stopped is reported.
pub fn queue_local_env_refresh_if_available(app: &mut App, worker: &mut Outbox<LocalEnvReq>)
    ensures
        final(worker).link == old(worker).link,
        final(app)@ == env_asked(old(app)@, old(worker).link),
        final(worker).sent@ == sent_after_env_asked(
            old(app)@.local_env,
            old(worker).link,
            old(worker).sent@,
        ),
{
    if worker.is_missing() {
        app.local_env.loading = false;
        return ;
    }
    let generation = next_number(app.local_env.generation);
    app.local_env.generation = generation;
    app.local_env.loading = true;
    if !worker.send(LocalEnvReq::Refresh { generation }) {
        app.local_env.loading = false;
        app.push_toast(
            Text::with(TextKey::LocalEnvCheckRequestFailed, TOKIO_CHANNEL_CLOSED),
            ToastKind::Warning,
        );
    }
}

} // verus!
