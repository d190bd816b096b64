use vstd::prelude::*;
use crate::config::{Config, LoaderCommand};
use crate::report::{CodeStats, CommitReport, LoaderData, LoaderError};

verus! {

/// A commit handed over by the ancestry walk.
pub struct CommitMeta {
    /// Full hexadecimal commit id.
    pub hash: String,
    /// Commit time, seconds since the epoch.
    pub time: i64,
}

/// Where the worker stands.
pub enum LoaderState {
    /// No workspace; waiting for a command.
    Idle,
    /// Waiting for the workspace of this request.
    Provisioning(Config),
    /// Waiting for the remote-tracking reference of `branch`.
    ResolvingRemote { branch: String, depth: usize },
    /// Waiting for the local reference of `branch`.
    ResolvingLocal { branch: String, depth: usize },
    /// Waiting for the next commit of the walk; `remaining` more are wanted.
    Walking { remaining: usize },
    /// Waiting for the statistics of `commit`; `remaining` counts it too.
    Measuring { remaining: usize, commit: CommitMeta },
    /// Shut down.
    Terminal,
}

/// The outside work the worker asks for next.
pub enum Request {
    /// Take the next command from the command queue.
    AwaitCommand,
    /// Create a fresh workspace for this request and open the repository in it.
    Provision(Config),
    /// Look up the remote-tracking reference of this branch.
    ResolveRemote(String),
    /// Look up the local reference of this branch.
    ResolveLocal(String),
    /// Start the ancestry walk at this commit and hand over its first entry.
    StartWalk(String),
    /// Hand over the next entry of the walk.
    NextCommit,
    /// Check this commit out into the workspace and measure it.
    Measure(String),
    /// Stop the worker.
    Exit,
}

/// The answer to a request.
pub enum LoaderEvent {
    Command(LoaderCommand),
    Provisioned(Result<(), LoaderError>),
    /// The commit id the looked-up reference points at, if it exists.
    RefLookup(Option<String>),
    /// The next entry of the walk, `None` once history is exhausted.
    WalkItem(Option<Result<CommitMeta, LoaderError>>),
    Measured(Result<Vec<CodeStats>, LoaderError>),
}

/// One move of the worker: its new state, what it emits on the result queue,
/// whether it drops the workspace, and the work it asks for next.
pub struct Transition {
    pub state: LoaderState,
    pub emit: Option<Result<LoaderData, LoaderError>>,
    pub release: bool,
    pub request: Request,
}

/// A run is in flight: the worker does not take commands.
pub open spec fn is_running(s: LoaderState) -> bool {
    !(s is Idle) && !(s is Terminal)
}

/// The request that a state waits on.
pub open spec fn pending(s: LoaderState) -> Request {
    match s {
        LoaderState::Idle => Request::AwaitCommand,
        LoaderState::Provisioning(cfg) => Request::Provision(cfg),
        LoaderState::ResolvingRemote { branch, depth } => Request::ResolveRemote(branch),
        LoaderState::ResolvingLocal { branch, depth } => Request::ResolveLocal(branch),
        LoaderState::Walking { remaining } => Request::NextCommit,
        LoaderState::Measuring { remaining, commit } => Request::Measure(commit.hash),
        LoaderState::Terminal => Request::Exit,
    }
}

/// Back to Idle, emitting `emit` and dropping the workspace.
pub open spec fn to_idle(emit: Option<Result<LoaderData, LoaderError>>) -> Transition {
    Transition { state: LoaderState::Idle, emit, release: true, request: Request::AwaitCommand }
}

/// The report of a measured commit.
pub open spec fn report_of(commit: CommitMeta, stats: Vec<CodeStats>) -> CommitReport {
    CommitReport { commit_date: commit.time, commit_hash: commit.hash, stats }
}

/// What the worker does once the branch tip is known.
pub open spec fn begin_walk(tip: String, depth: usize) -> Transition {
    if depth == 0 {
        to_idle(None)
    } else {
        Transition {
            state: LoaderState::Walking { remaining: depth },
            emit: None,
            release: false,
            request: Request::StartWalk(tip),
        }
    }
}

/// An event that does not answer the pending request changes nothing.
pub open spec fn unchanged(s: LoaderState) -> Transition {
    Transition { state: s, emit: None, release: false, request: pending(s) }
}

/// The worker's rule: from a state and the answer to its request, the next move.
pub open spec fn step_spec(s: LoaderState, e: LoaderEvent) -> Transition {
    match s {
        LoaderState::Idle => match e {
            LoaderEvent::Command(LoaderCommand::Config(cfg)) => Transition {
                state: LoaderState::Provisioning(cfg),
                emit: None,
                release: false,
                request: Request::Provision(cfg),
            },
            LoaderEvent::Command(LoaderCommand::Die) => Transition {
                state: LoaderState::Terminal,
                emit: None,
                release: false,
                request: Request::Exit,
            },
            _ => unchanged(s),
        },
        LoaderState::Provisioning(cfg) => match e {
            LoaderEvent::Provisioned(Ok(())) => Transition {
                state: LoaderState::ResolvingRemote { branch: cfg.repo_branch, depth: cfg.depth },
                emit: None,
                release: false,
                request: Request::ResolveRemote(cfg.repo_branch),
            },
            LoaderEvent::Provisioned(Err(err)) => to_idle(Some(Err(err))),
            _ => unchanged(s),
        },
        LoaderState::ResolvingRemote { branch, depth } => match e {
            LoaderEvent::RefLookup(Some(tip)) => begin_walk(tip, depth),
            LoaderEvent::RefLookup(None) => Transition {
                state: LoaderState::ResolvingLocal { branch, depth },
                emit: None,
                release: false,
                request: Request::ResolveLocal(branch),
            },
            _ => unchanged(s),
        },
        LoaderState::ResolvingLocal { branch, depth } => match e {
            LoaderEvent::RefLookup(Some(tip)) => begin_walk(tip, depth),
            LoaderEvent::RefLookup(None) => to_idle(Some(Err(LoaderError::Resolution(branch)))),
            _ => unchanged(s),
        },
        LoaderState::Walking { remaining } => match e {
            LoaderEvent::WalkItem(None) => to_idle(None),
            LoaderEvent::WalkItem(Some(Err(err))) => to_idle(Some(Err(err))),
            LoaderEvent::WalkItem(Some(Ok(commit))) => Transition {
                state: LoaderState::Measuring { remaining, commit },
                emit: None,
                release: false,
                request: Request::Measure(commit.hash),
            },
            _ => unchanged(s),
        },
        LoaderState::Measuring { remaining, commit } => match e {
            LoaderEvent::Measured(Err(err)) => to_idle(Some(Err(err))),
            LoaderEvent::Measured(Ok(stats)) => {
                let emit = Some(Ok(LoaderData::CommitReport(report_of(commit, stats))));
                if remaining <= 1 {
                    to_idle(emit)
                } else {
                    Transition {
                        state: LoaderState::Walking { remaining: (remaining - 1) as usize },
                        emit,
                        release: false,
                        request: Request::NextCommit,
                    }
                }
            },
            _ => unchanged(s),
        },
        LoaderState::Terminal => unchanged(s),
    }
}

/// The request that `s` waits on.
pub fn pending_request(s: &LoaderState) -> (r: Request)
    ensures
        r == pending(*s),
{
    match s {
        LoaderState::Idle => Request::AwaitCommand,
        LoaderState::Provisioning(cfg) => Request::Provision(cfg.duplicate()),
        LoaderState::ResolvingRemote { branch, depth } => Request::ResolveRemote(branch.clone()),
        LoaderState::ResolvingLocal { branch, depth } => Request::ResolveLocal(branch.clone()),
        LoaderState::Walking { remaining } => Request::NextCommit,
        LoaderState::Measuring { remaining, commit } => Request::Measure(commit.hash.clone()),
        LoaderState::Terminal => Request::Exit,
    }
}

fn idle_with(emit: Option<Result<LoaderData, LoaderError>>) -> (t: Transition)
    ensures
        t == to_idle(emit),
{
    Transition { state: LoaderState::Idle, emit, release: true, request: Request::AwaitCommand }
}

fn stay(s: LoaderState) -> (t: Transition)
    ensures
        t == unchanged(s),
{
    let request = pending_request(&s);
    Transition { state: s, emit: None, release: false, request }
}

fn start_walk(tip: String, depth: usize) -> (t: Transition)
    ensures
        t == begin_walk(tip, depth),
{
    if depth == 0 {
        idle_with(None)
    } else {
        Transition {
            state: LoaderState::Walking { remaining: depth },
            emit: None,
            release: false,
            request: Request::StartWalk(tip),
        }
    }
}

/// The worker's decision on one answer: the new state, what to emit, whether
/// to drop the workspace, and what to ask for next.
pub fn step(s: LoaderState, e: LoaderEvent) -> (t: Transition)
    ensures
        t == step_spec(s, e),
{
    match s {
        LoaderState::Idle => match e {
            LoaderEvent::Command(LoaderCommand::Config(cfg)) => {
                let request = Request::Provision(cfg.duplicate());
                Transition {
                    state: LoaderState::Provisioning(cfg),
                    emit: None,
                    release: false,
                    request,
                }
            },
            LoaderEvent::Command(LoaderCommand::Die) => Transition {
                state: LoaderState::Terminal,
                emit: None,
                release: false,
                request: Request::Exit,
            },
            _ => stay(LoaderState::Idle),
        },
        LoaderState::Provisioning(cfg) => match e {
            LoaderEvent::Provisioned(Ok(())) => {
                let request = Request::ResolveRemote(cfg.repo_branch.clone());
                Transition {
                    state: LoaderState::ResolvingRemote {
                        branch: cfg.repo_branch,
                        depth: cfg.depth,
                    },
                    emit: None,
                    release: false,
                    request,
                }
            },
            LoaderEvent::Provisioned(Err(err)) => idle_with(Some(Err(err))),
            _ => stay(LoaderState::Provisioning(cfg)),
        },
        LoaderState::ResolvingRemote { branch, depth } => match e {
            LoaderEvent::RefLookup(Some(tip)) => start_walk(tip, depth),
            LoaderEvent::RefLookup(None) => {
                let request = Request::ResolveLocal(branch.clone());
                Transition {
                    state: LoaderState::ResolvingLocal { branch, depth },
                    emit: None,
                    release: false,
                    request,
                }
            },
            _ => stay(LoaderState::ResolvingRemote { branch, depth }),
        },
        LoaderState::ResolvingLocal { branch, depth } => match e {
            LoaderEvent::RefLookup(Some(tip)) => start_walk(tip, depth),
            LoaderEvent::RefLookup(None) => idle_with(Some(Err(LoaderError::Resolution(branch)))),
            _ => stay(LoaderState::ResolvingLocal { branch, depth }),
        },
        LoaderState::Walking { remaining } => match e {
            LoaderEvent::WalkItem(None) => idle_with(None),
            LoaderEvent::WalkItem(Some(Err(err))) => idle_with(Some(Err(err))),
            LoaderEvent::WalkItem(Some(Ok(commit))) => {
                let request = Request::Measure(commit.hash.clone());
                Transition {
                    state: LoaderState::Measuring { remaining, commit },
                    emit: None,
                    release: false,
                    request,
                }
            },
            _ => stay(LoaderState::Walking { remaining }),
        },
        LoaderState::Measuring { remaining, commit } => match e {
            LoaderEvent::Measured(Err(err)) => idle_with(Some(Err(err))),
            LoaderEvent::Measured(Ok(stats)) => {
                let report = CommitReport {
                    commit_date: commit.time,
                    commit_hash: commit.hash,
                    stats,
                };
                let emit = Some(Ok(LoaderData::CommitReport(report)));
                if remaining <= 1 {
                    idle_with(emit)
                } else {
                    Transition {
                        state: LoaderState::Walking { remaining: remaining - 1 },
                        emit,
                        release: false,
                        request: Request::NextCommit,
                    }
                }
            },
            _ => stay(LoaderState::Measuring { remaining, commit }),
        },
        LoaderState::Terminal => stay(LoaderState::Terminal),
    }
}

} // verus!
