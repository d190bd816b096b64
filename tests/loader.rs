use oshmornegar::config::{Config, LoaderCommand};
use oshmornegar::loader::{step, CommitMeta, LoaderEvent, LoaderState, Request, Transition};
use oshmornegar::report::{CodeStats, CommitReport, LoaderData, LoaderError};
use oshmornegar::series::{language_series, language_value, Metric};

fn cfg(depth: usize) -> Config {
    Config {
        depth,
        repo_url: "https://example.com/repo.git".to_string(),
        repo_branch: "main".to_string(),
    }
}

fn commit(hash: &str, time: i64) -> CommitMeta {
    CommitMeta {
        hash: hash.to_string(),
        time,
    }
}

fn rust_stats(code: usize) -> Vec<CodeStats> {
    vec![CodeStats {
        language: tokei::LanguageType::Rust,
        files: 1,
        code,
        comments: 2,
        blanks: 3,
    }]
}

/// Feeds the events in turn, collecting what is emitted.
fn drive(
    mut state: LoaderState,
    events: Vec<LoaderEvent>,
) -> (LoaderState, Request, Vec<Result<LoaderData, LoaderError>>, usize) {
    let mut emitted = Vec::new();
    let mut request = Request::AwaitCommand;
    let mut releases = 0;
    for e in events {
        let Transition {
            state: s,
            emit,
            release,
            request: r,
        } = step(state, e);
        if let Some(x) = emit {
            emitted.push(x);
        }
        if release {
            releases += 1;
        }
        state = s;
        request = r;
    }
    (state, request, emitted, releases)
}

fn report_hashes(emitted: &[Result<LoaderData, LoaderError>]) -> Vec<String> {
    emitted
        .iter()
        .filter_map(|x| match x {
            Ok(LoaderData::CommitReport(r)) => Some(r.commit_hash.clone()),
            _ => None,
        })
        .collect()
}

#[test]
fn command_starts_provisioning() {
    let t = step(
        LoaderState::Idle,
        LoaderEvent::Command(LoaderCommand::Config(cfg(2))),
    );
    assert!(matches!(t.state, LoaderState::Provisioning(ref c) if c.depth == 2));
    assert!(matches!(t.request, Request::Provision(ref c) if c.repo_branch == "main"));
    assert!(t.emit.is_none());
    assert!(!t.release);
}

#[test]
fn die_when_idle_terminates() {
    let t = step(LoaderState::Idle, LoaderEvent::Command(LoaderCommand::Die));
    assert!(matches!(t.state, LoaderState::Terminal));
    assert!(matches!(t.request, Request::Exit));
}

#[test]
fn depth_zero_yields_no_report_and_no_measure() {
    let (state, request, emitted, releases) = drive(
        LoaderState::Idle,
        vec![
            LoaderEvent::Command(LoaderCommand::Config(cfg(0))),
            LoaderEvent::Provisioned(Ok(())),
            LoaderEvent::RefLookup(Some("abc".to_string())),
        ],
    );
    assert!(matches!(state, LoaderState::Idle));
    assert!(matches!(request, Request::AwaitCommand));
    assert!(emitted.is_empty());
    assert_eq!(releases, 1);
}

#[test]
fn depth_two_reports_in_walk_order() {
    let (state, request, emitted, releases) = drive(
        LoaderState::Idle,
        vec![
            LoaderEvent::Command(LoaderCommand::Config(cfg(2))),
            LoaderEvent::Provisioned(Ok(())),
            LoaderEvent::RefLookup(Some("c3".to_string())),
            LoaderEvent::WalkItem(Some(Ok(commit("c3", 300)))),
            LoaderEvent::Measured(Ok(rust_stats(30))),
            LoaderEvent::WalkItem(Some(Ok(commit("c2", 200)))),
            LoaderEvent::Measured(Ok(rust_stats(20))),
        ],
    );
    assert!(matches!(state, LoaderState::Idle));
    assert!(matches!(request, Request::AwaitCommand));
    assert_eq!(releases, 1);
    assert_eq!(report_hashes(&emitted), vec!["c3".to_string(), "c2".to_string()]);
    match &emitted[1] {
        Ok(LoaderData::CommitReport(r)) => {
            assert_eq!(r.commit_date, 200);
            assert_eq!(r.stats.len(), 1);
            assert_eq!(r.stats[0].code, 20);
            assert_eq!(r.stats[0].language, tokei::LanguageType::Rust);
        }
        _ => panic!("expected a report"),
    }
}

#[test]
fn walk_asks_for_commits_in_turn() {
    let t = step(
        LoaderState::ResolvingRemote {
            branch: "main".to_string(),
            depth: 3,
        },
        LoaderEvent::RefLookup(Some("tip".to_string())),
    );
    assert!(matches!(t.request, Request::StartWalk(ref h) if h == "tip"));
    let t = step(t.state, LoaderEvent::WalkItem(Some(Ok(commit("tip", 5)))));
    assert!(matches!(t.request, Request::Measure(ref h) if h == "tip"));
    let t = step(t.state, LoaderEvent::Measured(Ok(rust_stats(1))));
    assert!(matches!(t.state, LoaderState::Walking { remaining: 2 }));
    assert!(matches!(t.request, Request::NextCommit));
    assert!(!t.release);
}

#[test]
fn short_history_ends_without_error() {
    let (state, _, emitted, releases) = drive(
        LoaderState::Walking { remaining: 5 },
        vec![
            LoaderEvent::WalkItem(Some(Ok(commit("only", 1)))),
            LoaderEvent::Measured(Ok(Vec::new())),
            LoaderEvent::WalkItem(None),
        ],
    );
    assert!(matches!(state, LoaderState::Idle));
    assert_eq!(report_hashes(&emitted), vec!["only".to_string()]);
    assert_eq!(emitted.len(), 1);
    assert_eq!(releases, 1);
}

#[test]
fn command_during_run_is_not_observed() {
    let (state, request, emitted, _) = drive(
        LoaderState::Idle,
        vec![
            LoaderEvent::Command(LoaderCommand::Config(cfg(2))),
            LoaderEvent::Provisioned(Ok(())),
            LoaderEvent::RefLookup(Some("c3".to_string())),
            LoaderEvent::WalkItem(Some(Ok(commit("c3", 300)))),
            LoaderEvent::Command(LoaderCommand::Config(cfg(7))),
            LoaderEvent::Measured(Ok(rust_stats(30))),
            LoaderEvent::Command(LoaderCommand::Die),
            LoaderEvent::WalkItem(Some(Ok(commit("c2", 200)))),
            LoaderEvent::Measured(Ok(rust_stats(20))),
        ],
    );
    assert!(matches!(state, LoaderState::Idle));
    assert!(matches!(request, Request::AwaitCommand));
    assert_eq!(report_hashes(&emitted), vec!["c3".to_string(), "c2".to_string()]);
}

#[test]
fn unresolvable_branch_gives_one_error() {
    let (state, request, emitted, releases) = drive(
        LoaderState::Idle,
        vec![
            LoaderEvent::Command(LoaderCommand::Config(cfg(3))),
            LoaderEvent::Provisioned(Ok(())),
            LoaderEvent::RefLookup(None),
            LoaderEvent::RefLookup(None),
        ],
    );
    assert!(matches!(state, LoaderState::Idle));
    assert!(matches!(request, Request::AwaitCommand));
    assert_eq!(releases, 1);
    assert_eq!(emitted.len(), 1);
    assert!(matches!(&emitted[0], Err(LoaderError::Resolution(b)) if b == "main"));
}

#[test]
fn local_branch_is_fallback() {
    let t = step(
        LoaderState::ResolvingRemote {
            branch: "dev".to_string(),
            depth: 1,
        },
        LoaderEvent::RefLookup(None),
    );
    assert!(matches!(t.request, Request::ResolveLocal(ref b) if b == "dev"));
    let t = step(t.state, LoaderEvent::RefLookup(Some("d1".to_string())));
    assert!(matches!(t.request, Request::StartWalk(ref h) if h == "d1"));
}

#[test]
fn provision_failure_is_one_error() {
    let (state, _, emitted, _) = drive(
        LoaderState::Idle,
        vec![
            LoaderEvent::Command(LoaderCommand::Config(cfg(3))),
            LoaderEvent::Provisioned(Err(LoaderError::Provision("no network".to_string()))),
        ],
    );
    assert!(matches!(state, LoaderState::Idle));
    assert_eq!(emitted.len(), 1);
    assert!(matches!(&emitted[0], Err(LoaderError::Provision(m)) if m == "no network"));
}

#[test]
fn walk_error_aborts_run() {
    let (state, _, emitted, releases) = drive(
        LoaderState::Walking { remaining: 4 },
        vec![
            LoaderEvent::WalkItem(Some(Ok(commit("a", 1)))),
            LoaderEvent::Measured(Ok(Vec::new())),
            LoaderEvent::WalkItem(Some(Err(LoaderError::Walk("broken".to_string())))),
        ],
    );
    assert!(matches!(state, LoaderState::Idle));
    assert_eq!(emitted.len(), 2);
    assert!(matches!(&emitted[1], Err(LoaderError::Walk(_))));
    assert_eq!(releases, 1);
}

#[test]
fn checkout_and_stats_errors_abort_run() {
    for err in [
        LoaderError::Checkout("tree".to_string()),
        LoaderError::Stats("read".to_string()),
    ] {
        let t = step(
            LoaderState::Measuring {
                remaining: 3,
                commit: commit("x", 9),
            },
            LoaderEvent::Measured(Err(err)),
        );
        assert!(matches!(t.state, LoaderState::Idle));
        assert!(t.release);
        assert!(matches!(t.emit, Some(Err(_))));
    }
}

#[test]
fn terminal_stays_terminal() {
    let t = step(
        LoaderState::Terminal,
        LoaderEvent::Command(LoaderCommand::Config(cfg(1))),
    );
    assert!(matches!(t.state, LoaderState::Terminal));
    assert!(matches!(t.request, Request::Exit));
    assert!(t.emit.is_none());
}

#[test]
fn error_message_is_kept() {
    let e = LoaderError::Checkout("bad tree".to_string());
    assert_eq!(e.message(), "bad tree");
}

#[test]
fn duplicate_copies_every_field() {
    let c = cfg(4);
    let d = c.duplicate();
    assert_eq!(d.depth, 4);
    assert_eq!(d.repo_url, c.repo_url);
    assert_eq!(d.repo_branch, c.repo_branch);
}

#[test]
fn series_follows_reports() {
    let reports = vec![
        CommitReport {
            commit_date: 10,
            commit_hash: "a".to_string(),
            stats: Vec::new(),
        },
        CommitReport {
            commit_date: 20,
            commit_hash: "b".to_string(),
            stats: rust_stats(7),
        },
        CommitReport {
            commit_date: 30,
            commit_hash: "c".to_string(),
            stats: rust_stats(9),
        },
    ];
    let code = language_series(&reports, &tokei::LanguageType::Rust, Metric::Code);
    assert_eq!(code, vec![(20, 7), (30, 9)]);
    let blanks = language_series(&reports, &tokei::LanguageType::Rust, Metric::Blanks);
    assert_eq!(blanks, vec![(20, 3), (30, 3)]);
    assert!(language_series(&reports, &tokei::LanguageType::Python, Metric::Code).is_empty());
    assert_eq!(
        language_value(&reports[1].stats, &tokei::LanguageType::Rust, Metric::Comments),
        Some(2)
    );
    assert_eq!(
        language_value(&reports[1].stats, &tokei::LanguageType::Rust, Metric::Files),
        Some(1)
    );
    assert_eq!(
        language_value(&reports[0].stats, &tokei::LanguageType::Rust, Metric::Code),
        None
    );
}
