use teahub::config::{CGitHub, CGitea, Config};
use teahub::mirror::resolve_name;
use teahub::orchestrator::{contains_name, is_mirrored, repo_names, partition_candidates};
use teahub::repo::{Repo, RepoOwner};

fn config() -> Config {
    Config {
        gitea: CGitea {
            token: "gt".to_string(),
            user: "bob".to_string(),
            url: "https://git.example.org".to_string(),
            keep_private: false,
        },
        github: CGitHub {
            token: "ht".to_string(),
            user: "alice".to_string(),
            include_starred: true,
            include_private: true,
        },
    }
}

fn repo(owner: &str, name: &str) -> Repo {
    Repo {
        private: false,
        fork: false,
        clone_url: format!("https://github.com/{}/{}.git", owner, name),
        name: name.to_string(),
        full_name: format!("{}/{}", owner, name),
        owner: RepoOwner { login: owner.to_string() },
    }
}

fn names(list: &[&str]) -> Vec<String> {
    list.iter().map(|name| name.to_string()).collect()
}

#[test]
fn contains_name_compares_whole_names() {
    let existing = names(&["repoA", "orgX_repoB"]);
    assert!(contains_name(&existing, &"repoA".to_string()));
    assert!(contains_name(&existing, &"orgX_repoB".to_string()));
    assert!(!contains_name(&existing, &"repo".to_string()));
    assert!(!contains_name(&existing, &"repoAA".to_string()));
    assert!(!contains_name(&Vec::new(), &"repoA".to_string()));
}

#[test]
fn repository_is_present_under_its_plain_name() {
    assert!(is_mirrored(&repo("orgX", "repo1"), &names(&["repo1"])));
    assert!(is_mirrored(&repo("alice", "repo1"), &names(&["other", "repo1"])));
}

#[test]
fn repository_is_present_under_its_prefixed_name() {
    assert!(is_mirrored(&repo("orgX", "repo1"), &names(&["orgX_repo1"])));
    assert!(is_mirrored(&repo("alice", "repo1"), &names(&["alice_repo1"])));
}

#[test]
fn repository_is_absent_under_any_other_name() {
    assert!(!is_mirrored(&repo("orgX", "repo1"), &names(&[])));
    assert!(!is_mirrored(&repo("orgX", "repo1"), &names(&["repo2", "orgY_repo1", "orgX"])));
}

#[test]
fn names_are_taken_in_order() {
    let listed = vec![repo("bob", "one"), repo("bob", "two"), repo("bob", "one")];
    assert_eq!(repo_names(&listed), names(&["one", "two", "one"]));
    assert_eq!(repo_names(&Vec::new()), Vec::<String>::new());
}

#[test]
fn candidates_are_parted_in_order() {
    let candidates = vec![
        repo("alice", "kept"),
        repo("alice", "new1"),
        repo("orgX", "there"),
        repo("orgX", "new2"),
    ];
    let (create, log) = partition_candidates(candidates, &names(&["kept", "orgX_there"]));
    assert_eq!(create, vec![repo("alice", "new1"), repo("orgX", "new2")]);
    assert_eq!(log, names(&["kept already exists", "there already exists"]));
}

#[test]
fn nothing_exists_so_everything_is_created() {
    let candidates = vec![repo("alice", "repoA"), repo("orgX", "repoB")];
    let (create, log) = partition_candidates(candidates.clone(), &Vec::new());
    assert_eq!(create, candidates);
    assert!(log.is_empty());
}

#[test]
fn duplicate_candidates_are_both_kept() {
    let candidates = vec![repo("alice", "both"), repo("alice", "both")];
    let (create, _) = partition_candidates(candidates.clone(), &Vec::new());
    assert_eq!(create, candidates);
}

#[test]
fn second_run_finds_nothing_to_create() {
    let config = config();
    let candidates = vec![
        repo("alice", "repoA"),
        repo("orgX", "repoB"),
        repo("alice", "old"),
        repo("orgY", "repoA"),
    ];
    let mut existing = names(&["old", "unrelated"]);
    let (create, _) = partition_candidates(candidates.clone(), &existing);
    assert_eq!(create.len(), 3);
    for created in &create {
        existing.push(resolve_name(created, &config));
    }
    let (again, log) = partition_candidates(candidates, &existing);
    assert!(again.is_empty());
    assert_eq!(log.len(), 4);
}
