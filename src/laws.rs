use vstd::prelude::*;
use crate::config::{Config, LoaderCommand};
use crate::loader::{is_running, report_of, step_spec, unchanged, CommitMeta, LoaderEvent, LoaderState, Request, Transition};
use crate::report::{CodeStats, LoaderData, LoaderError};

verus! {

/// The events of a run that the worker consumes, starting in `s`: it stops
/// taking events once it is back in Idle or has shut down.
pub open spec fn run_end(s: LoaderState, evs: Seq<LoaderEvent>) -> LoaderState
    decreases evs.len(),
{
    if evs.len() == 0 {
        s
    } else {
        let t = step_spec(s, evs[0]);
        if is_running(t.state) {
            run_end(t.state, evs.drop_first())
        } else {
            t.state
        }
    }
}

/// What a transition puts on the result queue.
pub open spec fn emitted_by(t: Transition) -> Seq<Result<LoaderData, LoaderError>> {
    match t.emit {
        Some(x) => seq![x],
        None => seq![],
    }
}

/// Everything a run starting in `s` emits, in order.
pub open spec fn run_emits(s: LoaderState, evs: Seq<LoaderEvent>) -> Seq<Result<LoaderData, LoaderError>>
    decreases evs.len(),
{
    if evs.len() == 0 {
        seq![]
    } else {
        let t = step_spec(s, evs[0]);
        if is_running(t.state) {
            emitted_by(t) + run_emits(t.state, evs.drop_first())
        } else {
            emitted_by(t)
        }
    }
}

/// Every request a run starting in `s` makes, in order.
pub open spec fn run_requests(s: LoaderState, evs: Seq<LoaderEvent>) -> Seq<Request>
    decreases evs.len(),
{
    if evs.len() == 0 {
        seq![]
    } else {
        let t = step_spec(s, evs[0]);
        if is_running(t.state) {
            seq![t.request] + run_requests(t.state, evs.drop_first())
        } else {
            seq![t.request]
        }
    }
}

pub open spec fn is_report(x: Result<LoaderData, LoaderError>) -> bool {
    x matches Ok(LoaderData::CommitReport(_))
}

/// The state a request moves the worker into from Idle.
pub open spec fn accepted(cmd: LoaderCommand) -> LoaderState {
    step_spec(LoaderState::Idle, LoaderEvent::Command(cmd)).state
}

/// The answers of a walk over `cs` whose commits measure as `ss`.
pub open spec fn walk_events(cs: Seq<CommitMeta>, ss: Seq<Vec<CodeStats>>) -> Seq<LoaderEvent>
    decreases cs.len(),
{
    if cs.len() == 0 || ss.len() == 0 {
        seq![]
    } else {
        seq![
            LoaderEvent::WalkItem(Some(Ok(cs[0]))),
            LoaderEvent::Measured(Ok(ss[0])),
        ] + walk_events(cs.drop_first(), ss.drop_first())
    }
}

spec fn zero_depth(s: LoaderState) -> bool {
    match s {
        LoaderState::Provisioning(cfg) => cfg.depth == 0,
        LoaderState::ResolvingRemote { branch, depth } => depth == 0,
        LoaderState::ResolvingLocal { branch, depth } => depth == 0,
        _ => false,
    }
}

proof fn lemma_zero_depth(s: LoaderState, evs: Seq<LoaderEvent>)
    requires
        zero_depth(s),
    ensures
        forall|i: int| 0 <= i < run_emits(s, evs).len() ==> !is_report(#[trigger] run_emits(s, evs)[i]),
        forall|i: int| 0 <= i < run_requests(s, evs).len() ==> !(#[trigger] run_requests(s, evs)[i] is Measure),
    decreases evs.len(),
{
    if evs.len() > 0 {
        let t = step_spec(s, evs[0]);
        assert(t.emit is None || t.emit->Some_0 is Err);
        if is_running(t.state) {
            lemma_zero_depth(t.state, evs.drop_first());
            let rest = run_emits(t.state, evs.drop_first());
            assert(forall|i: int| 0 <= i < rest.len() ==> !is_report(#[trigger] rest[i]));
            assert(forall|i: int|
                0 <= i < emitted_by(t).len() ==> !is_report(#[trigger] emitted_by(t)[i]));
            assert(run_emits(s, evs) == emitted_by(t) + rest);
        }
    }
}

/// A request of depth zero measures nothing and reports nothing, whatever the
/// outside answers; once provisioned and resolved it is back in Idle.
pub proof fn depth_zero_reports_nothing(cfg: Config, tip: String, evs: Seq<LoaderEvent>)
    requires
        cfg.depth == 0,
    ensures
        forall|i: int|
            0 <= i < run_emits(accepted(LoaderCommand::Config(cfg)), evs).len() ==> !is_report(
                #[trigger] run_emits(accepted(LoaderCommand::Config(cfg)), evs)[i],
            ),
        forall|i: int|
            0 <= i < run_requests(accepted(LoaderCommand::Config(cfg)), evs).len() ==> !(
            #[trigger] run_requests(accepted(LoaderCommand::Config(cfg)), evs)[i] is Measure),
        run_end(
            accepted(LoaderCommand::Config(cfg)),
            seq![LoaderEvent::Provisioned(Ok(())), LoaderEvent::RefLookup(Some(tip))],
        ) is Idle,
        run_emits(
            accepted(LoaderCommand::Config(cfg)),
            seq![LoaderEvent::Provisioned(Ok(())), LoaderEvent::RefLookup(Some(tip))],
        ).len() == 0,
{
    lemma_zero_depth(accepted(LoaderCommand::Config(cfg)), evs);
    let evs2 = seq![LoaderEvent::Provisioned(Ok(())), LoaderEvent::RefLookup(Some(tip))];
    let s1 = accepted(LoaderCommand::Config(cfg));
    assert(s1 == LoaderState::Provisioning(cfg));
    let s2 = LoaderState::ResolvingRemote { branch: cfg.repo_branch, depth: cfg.depth };
    assert(step_spec(s1, evs2[0]).state == s2);
    assert(evs2.drop_first() =~= seq![LoaderEvent::RefLookup(Some(tip))]);
    assert(evs2.drop_first().drop_first() =~= Seq::<LoaderEvent>::empty());
    assert(step_spec(s2, evs2.drop_first()[0]).state is Idle);
    assert(run_end(s2, evs2.drop_first()) is Idle);
    assert(run_emits(s2, evs2.drop_first()).len() == 0);
}

/// The report a run emits for `commit` measured as `stats`.
pub open spec fn report_event(commit: CommitMeta, stats: Vec<CodeStats>) -> Result<LoaderData, LoaderError> {
    Ok(LoaderData::CommitReport(report_of(commit, stats)))
}

proof fn lemma_walk(r: usize, cs: Seq<CommitMeta>, ss: Seq<Vec<CodeStats>>)
    requires
        r >= 1,
        cs.len() == r,
        ss.len() == r,
    ensures
        run_emits(LoaderState::Walking { remaining: r }, walk_events(cs, ss)).len() == r,
        forall|i: int|
            0 <= i < r ==> #[trigger] run_emits(
                LoaderState::Walking { remaining: r },
                walk_events(cs, ss),
            )[i] == report_event(cs[i], ss[i]),
        run_end(LoaderState::Walking { remaining: r }, walk_events(cs, ss)) is Idle,
    decreases r,
{
    let w = LoaderState::Walking { remaining: r };
    let evs = walk_events(cs, ss);
    let rest = walk_events(cs.drop_first(), ss.drop_first());
    assert(evs[0] == LoaderEvent::WalkItem(Some(Ok(cs[0]))));
    assert(evs.drop_first() =~= seq![LoaderEvent::Measured(Ok(ss[0]))] + rest);
    let m = LoaderState::Measuring { remaining: r, commit: cs[0] };
    assert(step_spec(w, evs[0]).state == m);
    let evs1 = evs.drop_first();
    assert(evs1[0] == LoaderEvent::Measured(Ok(ss[0])));
    assert(evs1.drop_first() =~= rest);
    let t = step_spec(m, evs1[0]);
    assert(emitted_by(t) == seq![report_event(cs[0], ss[0])]);
    if r == 1 {
        assert(t.state is Idle);
        assert(run_emits(w, evs) == run_emits(m, evs1));
        assert(run_emits(m, evs1) == emitted_by(t));
        assert(run_end(w, evs) == run_end(m, evs1));
    } else {
        let r1 = (r - 1) as usize;
        assert(t.state == LoaderState::Walking { remaining: r1 });
        lemma_walk(r1, cs.drop_first(), ss.drop_first());
        assert(run_emits(w, evs) == run_emits(m, evs1));
        assert(run_emits(m, evs1) == emitted_by(t) + run_emits(t.state, rest));
        assert(run_end(w, evs) == run_end(m, evs1));
        assert(run_end(m, evs1) == run_end(t.state, rest));
    }
}

/// A request of depth `k >= 1` on a history with at least `k` commits from the
/// branch tip emits exactly `k` reports, the `i`-th for the `i`-th commit of
/// the walk, and then returns to Idle.
pub proof fn depth_k_reports_walk(
    cfg: Config,
    tip: String,
    cs: Seq<CommitMeta>,
    ss: Seq<Vec<CodeStats>>,
)
    requires
        cfg.depth >= 1,
        cs.len() >= cfg.depth,
        ss.len() >= cfg.depth,
    ensures
        ({
            let evs = seq![LoaderEvent::Provisioned(Ok(())), LoaderEvent::RefLookup(Some(tip))]
                + walk_events(cs.take(cfg.depth as int), ss.take(cfg.depth as int));
            let out = run_emits(accepted(LoaderCommand::Config(cfg)), evs);
            &&& out.len() == cfg.depth
            &&& forall|i: int| 0 <= i < cfg.depth ==> #[trigger] out[i] == report_event(cs[i], ss[i])
            &&& forall|i: int| 0 <= i < cfg.depth ==> (#[trigger] out[i])->Ok_0->CommitReport_0.commit_hash == cs[i].hash
            &&& run_end(accepted(LoaderCommand::Config(cfg)), evs) is Idle
        }),
{
    let k = cfg.depth;
    let cs_k = cs.take(k as int);
    let ss_k = ss.take(k as int);
    let walk = walk_events(cs_k, ss_k);
    let evs = seq![LoaderEvent::Provisioned(Ok(())), LoaderEvent::RefLookup(Some(tip))] + walk;
    let s1 = accepted(LoaderCommand::Config(cfg));
    assert(s1 == LoaderState::Provisioning(cfg));
    let s2 = LoaderState::ResolvingRemote { branch: cfg.repo_branch, depth: k };
    assert(evs[0] == LoaderEvent::Provisioned(Ok(())));
    assert(step_spec(s1, evs[0]).state == s2);
    let evs1 = evs.drop_first();
    assert(evs1 =~= seq![LoaderEvent::RefLookup(Some(tip))] + walk);
    assert(evs1[0] == LoaderEvent::RefLookup(Some(tip)));
    assert(evs1.drop_first() =~= walk);
    let w = LoaderState::Walking { remaining: k };
    assert(step_spec(s2, evs1[0]).state == w);
    lemma_walk(k, cs_k, ss_k);
    assert(run_emits(s1, evs) == run_emits(s2, evs1));
    assert(run_emits(s2, evs1) == run_emits(w, walk));
    assert(run_end(s1, evs) == run_end(s2, evs1));
    assert(run_end(s2, evs1) == run_end(w, walk));
}

/// While a run is in flight a command changes nothing: whatever position it is
/// slipped in at, the run emits the same events and ends in the same state.
pub proof fn command_during_run_is_ignored(
    s: LoaderState,
    evs: Seq<LoaderEvent>,
    pos: int,
    cmd: LoaderCommand,
)
    requires
        is_running(s),
        0 <= pos <= evs.len(),
    ensures
        run_emits(s, evs.insert(pos, LoaderEvent::Command(cmd))) == run_emits(s, evs),
        run_end(s, evs.insert(pos, LoaderEvent::Command(cmd))) == run_end(s, evs),
        step_spec(s, LoaderEvent::Command(cmd)) == unchanged(s),
    decreases evs.len(),
{
    let c = LoaderEvent::Command(cmd);
    let evs2 = evs.insert(pos, c);
    assert(step_spec(s, c) == unchanged(s));
    if pos == 0 {
        assert(evs2[0] == c);
        assert(evs2.drop_first() =~= evs);
    } else {
        assert(evs2[0] == evs[0]);
        assert(evs2.drop_first() =~= evs.drop_first().insert(pos - 1, c));
        let t = step_spec(s, evs[0]);
        if is_running(t.state) {
            command_during_run_is_ignored(t.state, evs.drop_first(), pos - 1, cmd);
        }
    }
}

/// A branch with neither a remote-tracking nor a local reference ends the run
/// with exactly one error, a resolution error, no report, and the worker back
/// in Idle waiting for commands.
pub proof fn unresolvable_branch_one_error(cfg: Config)
    ensures
        ({
            let evs = seq![
                LoaderEvent::Command(LoaderCommand::Config(cfg)),
                LoaderEvent::Provisioned(Ok(())),
                LoaderEvent::RefLookup(None),
                LoaderEvent::RefLookup(None),
            ];
            &&& run_emits(LoaderState::Idle, evs) == seq![
                Err::<LoaderData, LoaderError>(LoaderError::Resolution(cfg.repo_branch)),
            ]
            &&& run_end(LoaderState::Idle, evs) is Idle
            &&& run_requests(LoaderState::Idle, evs).last() is AwaitCommand
        }),
{
    let evs = seq![
        LoaderEvent::Command(LoaderCommand::Config(cfg)),
        LoaderEvent::Provisioned(Ok(())),
        LoaderEvent::RefLookup(None),
        LoaderEvent::RefLookup(None),
    ];
    let e1 = evs.drop_first();
    let e2 = e1.drop_first();
    let e3 = e2.drop_first();
    assert(e1 =~= seq![evs[1], evs[2], evs[3]]);
    assert(e2 =~= seq![evs[2], evs[3]]);
    assert(e3 =~= seq![evs[3]]);
    assert(e3.drop_first() =~= Seq::<LoaderEvent>::empty());
    let s1 = LoaderState::Provisioning(cfg);
    let s2 = LoaderState::ResolvingRemote { branch: cfg.repo_branch, depth: cfg.depth };
    let s3 = LoaderState::ResolvingLocal { branch: cfg.repo_branch, depth: cfg.depth };
    assert(step_spec(LoaderState::Idle, evs[0]).state == s1);
    assert(step_spec(s1, e1[0]).state == s2);
    assert(step_spec(s2, e2[0]).state == s3);
    let t = step_spec(s3, e3[0]);
    assert(t.state is Idle);
    assert(run_emits(s3, e3) == emitted_by(t));
    assert(run_emits(s2, e2) =~= run_emits(s3, e3));
    assert(run_emits(s1, e1) =~= run_emits(s2, e2));
    assert(run_emits(LoaderState::Idle, evs) =~= run_emits(s1, e1));
    assert(run_end(s3, e3) is Idle);
    assert(run_end(s2, e2) == run_end(s3, e3));
    assert(run_end(s1, e1) == run_end(s2, e2));
    assert(run_end(LoaderState::Idle, evs) == run_end(s1, e1));
    assert(run_requests(s3, e3) == seq![Request::AwaitCommand]);
    assert(run_requests(s2, e2) =~= seq![Request::ResolveLocal(cfg.repo_branch), Request::AwaitCommand]);
    assert(run_requests(s1, e1) =~= seq![
        Request::ResolveRemote(cfg.repo_branch),
        Request::ResolveLocal(cfg.repo_branch),
        Request::AwaitCommand,
    ]);
    assert(run_requests(LoaderState::Idle, evs) =~= seq![
        Request::Provision(cfg),
        Request::ResolveRemote(cfg.repo_branch),
        Request::ResolveLocal(cfg.repo_branch),
        Request::AwaitCommand,
    ]);
}

/// The workspace of a run is dropped on every way out of it, success or
/// failure, and never while the run goes on; a run never shuts the worker down.
pub proof fn run_exit_releases_workspace(s: LoaderState, e: LoaderEvent)
    requires
        is_running(s),
    ensures
        step_spec(s, e).release <==> step_spec(s, e).state is Idle,
        !(step_spec(s, e).state is Terminal),
{
}

} // verus!
