use teahub::config::{CGitHub, CGitea, Config};
use teahub::error::SyncError;
use teahub::listing::Fetched;
use teahub::mirror::MigrateRepoOptions;
use teahub::repo::{Repo, RepoOwner};
use teahub::request::{HttpRequest, Method};
use teahub::run::{Action, Event, Posted, Step, Run};

fn config(keep_private: bool, include_starred: bool) -> Config {
    Config {
        gitea: CGitea {
            token: "gt".to_string(),
            user: "bob".to_string(),
            url: "https://git.example.org".to_string(),
            keep_private,
        },
        github: CGitHub {
            token: "ht".to_string(),
            user: "alice".to_string(),
            include_starred,
            include_private: true,
        },
    }
}

fn repo(owner: &str, name: &str, private: bool) -> Repo {
    Repo {
        private,
        fork: false,
        clone_url: format!("https://github.com/{}/{}.git", owner, name),
        name: name.to_string(),
        full_name: format!("{}/{}", owner, name),
        owner: RepoOwner { login: owner.to_string() },
    }
}

fn listed(repos: Vec<Repo>) -> Event {
    Event::Fetched(Fetched::Response { status: 200, repos: Some(repos) })
}

fn status(code: u16) -> Event {
    Event::Posted(Posted::Status(code))
}

fn fetch(step: &Step) -> &HttpRequest {
    match &step.action {
        Action::Fetch(request) => request,
        other => panic!("no fetch: {:?}", other),
    }
}

fn encode(step: &Step) -> &MigrateRepoOptions {
    match &step.action {
        Action::Encode(options) => options,
        other => panic!("no encode: {:?}", other),
    }
}

fn post(step: &Step) -> &HttpRequest {
    match &step.action {
        Action::Post(request) => request,
        other => panic!("no post: {:?}", other),
    }
}

fn source() -> Vec<Repo> {
    vec![repo("alice", "repoA", false), repo("orgX", "repoB", true)]
}

/// Runs up to the first migration: the source holds `owned`, the
/// destination `existing`.
fn up_to_mirroring(config: Config, owned: Vec<Repo>, existing: Vec<Repo>) -> (Run, Step) {
    let (run, step) = Run::start(config);
    assert_eq!(fetch(&step).url, "https://api.github.com/user/repos?per_page=100&page=1");
    assert!(step.log.is_empty());
    let (run, step) = run.step(listed(owned));
    assert_eq!(
        fetch(&step).url,
        "https://git.example.org/api/v1/user/repos?per_page=100&page=1"
    );
    assert!(step.log.is_empty());
    run.step(listed(existing))
}

#[test]
fn two_repositories_and_an_empty_destination_give_two_migrations() {
    let (run, step) = up_to_mirroring(config(false, false), source(), Vec::new());
    assert_eq!(step.log, vec!["Mirroring alice/repoA to bob/repoA".to_string()]);
    let first = encode(&step);
    assert_eq!(first.repo_name, "repoA");
    assert!(!first.private);

    let (run, step) = run.step(Event::Encoded("{\"a\":1}".to_string()));
    let request = post(&step);
    assert_eq!(request.method, Method::Post);
    assert_eq!(request.url, "https://git.example.org/api/v1/repos/migrate");
    assert_eq!(request.body, Some("{\"a\":1}".to_string()));
    assert_eq!(request.headers[1].value, "7");

    let (run, step) = run.step(status(201));
    assert_eq!(step.log, vec!["Mirroring orgX/repoB to bob/orgX_repoB".to_string()]);
    let second = encode(&step);
    assert_eq!(second.repo_name, "orgX_repoB");
    assert!(second.private);

    let (run, step) = run.step(Event::Encoded("{\"b\":22}".to_string()));
    assert_eq!(post(&step).body, Some("{\"b\":22}".to_string()));
    assert_eq!(post(&step).headers[1].value, "8");

    let (_, step) = run.step(status(201));
    assert_eq!(step.action, Action::Done);
    assert!(step.log.is_empty());
}

#[test]
fn keep_private_makes_both_migrations_private() {
    let (run, step) = up_to_mirroring(config(true, false), source(), Vec::new());
    assert!(encode(&step).private);
    let (run, _) = run.step(Event::Encoded("{}".to_string()));
    let (_, step) = run.step(status(201));
    assert!(encode(&step).private);
}

#[test]
fn conflict_is_reported_and_the_run_goes_on() {
    let owned = vec![repo("alice", "repo1", false), repo("alice", "repo2", false)];
    let (run, step) = up_to_mirroring(config(false, false), owned, Vec::new());
    assert_eq!(encode(&step).repo_name, "repo1");
    let (run, _) = run.step(Event::Encoded("{}".to_string()));
    let (run, step) = run.step(status(409));
    assert_eq!(
        step.log,
        vec!["repo1 already exists".to_string(), "Mirroring alice/repo2 to bob/repo2".to_string()]
    );
    assert_eq!(encode(&step).repo_name, "repo2");
    let (run, _) = run.step(Event::Encoded("{}".to_string()));
    let (_, step) = run.step(status(201));
    assert_eq!(step.action, Action::Done);
}

#[test]
fn conflict_on_the_last_repository_completes_the_run() {
    let owned = vec![repo("alice", "repo1", false)];
    let (run, _) = up_to_mirroring(config(false, false), owned, Vec::new());
    let (run, _) = run.step(Event::Encoded("{}".to_string()));
    let (_, step) = run.step(status(409));
    assert_eq!(step.log, vec!["repo1 already exists".to_string()]);
    assert_eq!(step.action, Action::Done);
}

#[test]
fn unexpected_status_aborts_the_run() {
    let (run, _) = up_to_mirroring(config(false, false), source(), Vec::new());
    let (run, _) = run.step(Event::Encoded("{}".to_string()));
    let (run, step) = run.step(status(500));
    assert_eq!(step.action, Action::Abort(SyncError::UnexpectedStatus(500)));
    let (_, step) = run.step(status(201));
    assert_eq!(step.action, Action::Abort(SyncError::UnexpectedStatus(500)));
}

#[test]
fn status_200_on_migrate_aborts_the_run() {
    let (run, _) = up_to_mirroring(config(false, false), source(), Vec::new());
    let (run, _) = run.step(Event::Encoded("{}".to_string()));
    let (_, step) = run.step(status(200));
    assert_eq!(step.action, Action::Abort(SyncError::UnexpectedStatus(200)));
}

#[test]
fn transport_failure_on_migrate_aborts_the_run() {
    let (run, _) = up_to_mirroring(config(false, false), source(), Vec::new());
    let (run, _) = run.step(Event::Encoded("{}".to_string()));
    let (_, step) = run.step(Event::Posted(Posted::TransportFailure));
    assert_eq!(step.action, Action::Abort(SyncError::Transport));
}

#[test]
fn failure_of_the_source_listing_aborts_the_run() {
    let (run, _) = Run::start(config(false, false));
    let (_, step) = run.step(Event::Fetched(Fetched::TransportFailure));
    assert_eq!(step.action, Action::Abort(SyncError::Transport));
}

#[test]
fn malformed_destination_listing_aborts_the_run() {
    let (run, _) = Run::start(config(false, false));
    let (run, _) = run.step(listed(source()));
    let (_, step) = run.step(Event::Fetched(Fetched::Response { status: 200, repos: None }));
    assert_eq!(step.action, Action::Abort(SyncError::Malformed));
}

#[test]
fn event_out_of_turn_aborts_the_run() {
    let (run, _) = Run::start(config(false, false));
    let (_, step) = run.step(status(201));
    assert_eq!(step.action, Action::Abort(SyncError::OutOfTurn));

    let (run, _) = up_to_mirroring(config(false, false), source(), Vec::new());
    let (_, step) = run.step(listed(Vec::new()));
    assert_eq!(step.action, Action::Abort(SyncError::OutOfTurn));

    let (run, _) = up_to_mirroring(config(false, false), source(), Vec::new());
    let (run, _) = run.step(Event::Encoded("{}".to_string()));
    let (_, step) = run.step(Event::Encoded("{}".to_string()));
    assert_eq!(step.action, Action::Abort(SyncError::OutOfTurn));
}

#[test]
fn complete_run_stays_complete() {
    let (run, step) = up_to_mirroring(config(false, false), Vec::new(), Vec::new());
    assert_eq!(step.action, Action::Done);
    let (run, step) = run.step(status(201));
    assert_eq!(step.action, Action::Done);
    let (_, step) = run.step(listed(Vec::new()));
    assert_eq!(step.action, Action::Done);
}

#[test]
fn repositories_at_the_destination_are_passed_over() {
    let existing = vec![repo("bob", "repoA", false), repo("bob", "orgX_repoB", true)];
    let (_, step) = up_to_mirroring(config(false, false), source(), existing);
    assert_eq!(
        step.log,
        vec!["repoA already exists".to_string(), "repoB already exists".to_string()]
    );
    assert_eq!(step.action, Action::Done);
}

#[test]
fn second_run_after_a_complete_one_migrates_nothing() {
    let (run, step) = up_to_mirroring(config(false, false), source(), Vec::new());
    let mut created = vec![repo("bob", &encode(&step).repo_name, false)];
    let (run, _) = run.step(Event::Encoded("{}".to_string()));
    let (run, step) = run.step(status(201));
    created.push(repo("bob", &encode(&step).repo_name, false));
    let (run, _) = run.step(Event::Encoded("{}".to_string()));
    let (_, step) = run.step(status(201));
    assert_eq!(step.action, Action::Done);

    let (_, step) = up_to_mirroring(config(false, false), source(), created);
    assert_eq!(step.action, Action::Done);
    assert_eq!(step.log.len(), 2);
}

#[test]
fn starred_repositories_are_listed_before_the_destination() {
    let (run, _) = Run::start(config(false, true));
    let (run, step) = run.step(listed(vec![repo("alice", "repoA", false)]));
    assert_eq!(fetch(&step).url, "https://api.github.com/user/starred?per_page=100&page=1");
    let (run, step) = run.step(listed(vec![repo("orgX", "repoB", false)]));
    assert_eq!(
        fetch(&step).url,
        "https://git.example.org/api/v1/user/repos?per_page=100&page=1"
    );
    let (run, step) = run.step(listed(vec![repo("bob", "repoA", false)]));
    assert_eq!(
        step.log,
        vec![
            "repoA already exists".to_string(),
            "Mirroring orgX/repoB to bob/orgX_repoB".to_string()
        ]
    );
    let (run, _) = run.step(Event::Encoded("{}".to_string()));
    let (_, step) = run.step(status(201));
    assert_eq!(step.action, Action::Done);
}

#[test]
fn long_destination_listing_is_read_to_its_end() {
    let mut full = Vec::new();
    for i in 0..100 {
        full.push(repo("bob", &format!("r{}", i), false));
    }
    let (run, _) = Run::start(config(false, false));
    let (run, _) = run.step(listed(source()));
    let (run, step) = run.step(listed(full));
    assert_eq!(
        fetch(&step).url,
        "https://git.example.org/api/v1/user/repos?per_page=100&page=2"
    );
    let (_, step) = run.step(listed(vec![repo("bob", "repoA", false)]));
    assert_eq!(
        step.log,
        vec![
            "repoA already exists".to_string(),
            "Mirroring orgX/repoB to bob/orgX_repoB".to_string()
        ]
    );
    assert_eq!(encode(&step).repo_name, "orgX_repoB");
}

#[test]
fn repository_owned_and_starred_is_migrated_twice() {
    let (run, _) = Run::start(config(false, true));
    let (run, _) = run.step(listed(vec![repo("alice", "both", false)]));
    let (run, _) = run.step(listed(vec![repo("alice", "both", false)]));
    let (run, step) = run.step(listed(Vec::new()));
    assert_eq!(encode(&step).repo_name, "both");
    let (run, _) = run.step(Event::Encoded("{}".to_string()));
    let (run, step) = run.step(status(201));
    assert_eq!(encode(&step).repo_name, "both");
    let (run, _) = run.step(Event::Encoded("{}".to_string()));
    let (_, step) = run.step(status(409));
    assert_eq!(step.log, vec!["both already exists".to_string()]);
    assert_eq!(step.action, Action::Done);
}

#[test]
fn fork_is_a_candidate_like_any_other() {
    let mut fork = repo("alice", "forked", false);
    fork.fork = true;
    let (_, step) = up_to_mirroring(config(false, false), vec![fork], Vec::new());
    assert_eq!(encode(&step).repo_name, "forked");
}
