//! Repositories as the listing endpoints of both hosts describe them.

use vstd::prelude::*;

verus! {

/// The account that owns a repository.
#[derive(Debug, Clone, PartialEq, Eq)]
pub struct RepoOwner {
    pub login: String,
}

/// One repository of a listing. `full_name` is taken from the host as it is;
/// nothing here checks it against `owner.login` and `name`.
#[derive(Debug, Clone, PartialEq, Eq)]
pub struct Repo {
    pub private: bool,
    pub fork: bool,
    pub clone_url: String,
    pub name: String,
    pub full_name: String,
    pub owner: RepoOwner,
}

/// The host that a listing is asked of.
#[derive(Debug, Clone, Copy, PartialEq, Eq)]
pub enum RepoType {
    Gitea,
    GitHub,
}

/// A repository, with texts as sequences of characters.
pub struct RepoView {
    pub owner_login: Seq<char>,
    pub name: Seq<char>,
    pub full_name: Seq<char>,
    pub clone_url: Seq<char>,
    pub is_private: bool,
    pub is_fork: bool,
}

impl View for Repo {
    type V = RepoView;

    open spec fn view(&self) -> RepoView {
        RepoView {
            owner_login: self.owner.login@,
            name: self.name@,
            full_name: self.full_name@,
            clone_url: self.clone_url@,
            is_private: self.private,
            is_fork: self.fork,
        }
    }
}

/// The views of a sequence of strings, in the same order.
pub open spec fn string_views(strings: Seq<String>) -> Seq<Seq<char>> {
    strings.map_values(|s: String| s@)
}

} // verus!
