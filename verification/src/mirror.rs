//! What is asked of the destination for one repository: the name and the
//! visibility of the mirror, the migration options, and what the
//! destination's answer means.

use vstd::prelude::*;
use crate::config::{Config, ConfigView};
use crate::error::SyncError;
use crate::repo::{Repo, RepoView};
use crate::request::join;

verus! {

/// The options of one migration, as the destination's migrate endpoint takes
/// them. The field names are the keys of the JSON body.
#[derive(Debug, Clone, PartialEq, Eq)]
pub struct MigrateRepoOptions {
    pub auth_token: String,
    pub clone_addr: String,
    pub description: String,
    pub issues: bool,
    pub lfs: bool,
    pub mirror: bool,
    pub mirror_interval: String,
    pub private: bool,
    pub pull_requests: bool,
    pub releases: bool,
    pub repo_name: String,
    pub repo_owner: String,
    pub wiki: bool,
}

/// The options of one migration, with texts as sequences of characters.
pub struct MigrateRepoOptionsView {
    pub auth_token: Seq<char>,
    pub clone_addr: Seq<char>,
    pub description: Seq<char>,
    pub issues: bool,
    pub lfs: bool,
    pub mirror: bool,
    pub mirror_interval: Seq<char>,
    pub private: bool,
    pub pull_requests: bool,
    pub releases: bool,
    pub repo_name: Seq<char>,
    pub repo_owner: Seq<char>,
    pub wiki: bool,
}

impl View for MigrateRepoOptions {
    type V = MigrateRepoOptionsView;

    open spec fn view(&self) -> MigrateRepoOptionsView {
        MigrateRepoOptionsView {
            auth_token: self.auth_token@,
            clone_addr: self.clone_addr@,
            description: self.description@,
            issues: self.issues,
            lfs: self.lfs,
            mirror: self.mirror,
            mirror_interval: self.mirror_interval@,
            private: self.private,
            pull_requests: self.pull_requests,
            releases: self.releases,
            repo_name: self.repo_name@,
            repo_owner: self.repo_owner@,
            wiki: self.wiki,
        }
    }
}

/// The name of `repo` with its owner's login and an underscore in front.
pub open spec fn prefixed_name(repo: RepoView) -> Seq<char> {
    repo.owner_login + "_"@ + repo.name
}

/// The name under which `repo` is mirrored: its own name where it belongs
/// to `source_user`, its prefixed name where it belongs to anyone else.
pub open spec fn destination_name(repo: RepoView, source_user: Seq<char>) -> Seq<char> {
    if repo.owner_login == source_user {
        repo.name
    } else {
        prefixed_name(repo)
    }
}

/// Whether the mirror of `repo` is private: always where `keep_private` is
/// set, else exactly where `repo` is.
pub open spec fn destination_private(repo: RepoView, keep_private: bool) -> bool {
    keep_private || repo.is_private
}

/// The migration options for `repo` under `config`. The mirror belongs to
/// the destination user, is fetched with the source token, and brings
/// issues, wiki, releases, pull requests and LFS objects along.
pub open spec fn mirror_options(repo: RepoView, config: ConfigView) -> MigrateRepoOptionsView {
    MigrateRepoOptionsView {
        auth_token: config.github.token,
        clone_addr: repo.clone_url,
        description: "Mirror of "@ + repo.clone_url,
        issues: true,
        lfs: true,
        mirror: true,
        mirror_interval: "2h"@,
        private: destination_private(repo, config.gitea.keep_private),
        pull_requests: true,
        releases: true,
        repo_name: destination_name(repo, config.github.user),
        repo_owner: config.gitea.user,
        wiki: true,
    }
}

/// The line that announces the migration of `repo`.
pub open spec fn mirroring_message(repo: RepoView, config: ConfigView) -> Seq<char> {
    "Mirroring "@ + repo.full_name + " to "@ + config.gitea.user + "/"@ + destination_name(
        repo,
        config.github.user,
    )
}

/// The line that reports `repo` as present at the destination.
pub open spec fn exists_message(repo: RepoView) -> Seq<char> {
    repo.name + " already exists"@
}

/// What the destination made of a migrate request.
#[derive(Debug, Clone, Copy, PartialEq, Eq)]
pub enum MigrateOutcome {
    /// The migration was accepted; the destination clones on its own.
    Created,
    /// A repository of that name is there already.
    AlreadyExists,
}

/// The meaning of the status of an answer to a migrate request.
pub open spec fn migrate_status(status: u16) -> Result<MigrateOutcome, SyncError> {
    if status == 201 {
        Ok(MigrateOutcome::Created)
    } else if status == 409 {
        Ok(MigrateOutcome::AlreadyExists)
    } else {
        Err(SyncError::UnexpectedStatus(status))
    }
}

/// Computes the prefixed name of `repo`.
pub fn prefix_name(repo: &Repo) -> (name: String)
    ensures
        name@ == prefixed_name(repo@),
{
    let mut name = join(repo.owner.login.as_str(), "_");
    name.append(repo.name.as_str());
    name
}

/// Computes the name under which `repo` is mirrored.
pub fn resolve_name(repo: &Repo, config: &Config) -> (name: String)
    ensures
        name@ == destination_name(repo@, config@.github.user),
{
    if repo.owner.login == config.github.user {
        repo.name.clone()
    } else {
        prefix_name(repo)
    }
}

/// Builds the migration options for `repo`.
///
/// The mirror is named after the repository alone where the source user
/// owns it, and after owner and repository where anyone else does. It is
/// private wherever the settings keep mirrors private, and has the
/// visibility of the source wherever they do not. It belongs to the
/// destination user.
pub fn mirror_repo(repo: &Repo, config: &Config) -> (options: MigrateRepoOptions)
    ensures
        options@ == mirror_options(repo@, config@),
        repo.owner.login@ == config.github.user@ ==> options.repo_name@ == repo.name@,
        repo.owner.login@ != config.github.user@ ==> options.repo_name@ == repo.owner.login@
            + "_"@ + repo.name@,
        config.gitea.keep_private ==> options.private,
        !config.gitea.keep_private ==> options.private == repo.private,
        options.repo_owner@ == config.gitea.user@,
{
    MigrateRepoOptions {
        auth_token: config.github.token.clone(),
        clone_addr: repo.clone_url.clone(),
        description: join("Mirror of ", repo.clone_url.as_str()),
        issues: true,
        lfs: true,
        mirror: true,
        mirror_interval: String::from_str("2h"),
        private: config.gitea.keep_private || repo.private,
        pull_requests: true,
        releases: true,
        repo_name: resolve_name(repo, config),
        repo_owner: config.gitea.user.clone(),
        wiki: true,
    }
}

/// Writes the line that announces the migration of `repo`.
pub fn announce(repo: &Repo, config: &Config) -> (line: String)
    ensures
        line@ == mirroring_message(repo@, config@),
{
    let mut line = join("Mirroring ", repo.full_name.as_str());
    line.append(" to ");
    line.append(config.gitea.user.as_str());
    line.append("/");
    let name = resolve_name(repo, config);
    line.append(name.as_str());
    line
}

/// Writes the line that reports `repo` as present at the destination.
pub fn report_existing(repo: &Repo) -> (line: String)
    ensures
        line@ == exists_message(repo@),
{
    join(repo.name.as_str(), " already exists")
}

/// Reads the status of an answer to a migrate request: 201 is a migration
/// accepted, 409 a repository that exists already, anything else an error.
pub fn migrate_outcome(status: u16) -> (outcome: Result<MigrateOutcome, SyncError>)
    ensures
        outcome == migrate_status(status),
{
    if status == 201 {
        Ok(MigrateOutcome::Created)
    } else if status == 409 {
        Ok(MigrateOutcome::AlreadyExists)
    } else {
        Err(SyncError::UnexpectedStatus(status))
    }
}

} // verus!
