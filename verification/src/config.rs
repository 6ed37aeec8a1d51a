//! Settings of a run: credentials and toggles for the two hosts.

use vstd::prelude::*;

verus! {

/// Destination host: the Gitea instance that receives the mirrors.
#[derive(Debug, Clone, PartialEq, Eq)]
pub struct CGitea {
    pub token: String,
    pub user: String,
    pub url: String,
    pub keep_private: bool,
}

/// Source host: the GitHub account whose repositories are mirrored.
#[derive(Debug, Clone, PartialEq, Eq)]
pub struct CGitHub {
    pub token: String,
    pub user: String,
    pub include_starred: bool,
    pub include_private: bool,
}

/// Settings of both hosts. Read-only for the duration of a run.
#[derive(Debug, Clone, PartialEq, Eq)]
pub struct Config {
    pub gitea: CGitea,
    pub github: CGitHub,
}

/// The settings of the destination host, with texts as sequences of
/// characters.
pub struct CGiteaView {
    pub token: Seq<char>,
    pub user: Seq<char>,
    pub url: Seq<char>,
    pub keep_private: bool,
}

/// The settings of the source host, with texts as sequences of characters.
pub struct CGitHubView {
    pub token: Seq<char>,
    pub user: Seq<char>,
    pub include_starred: bool,
    pub include_private: bool,
}

/// The settings of both hosts, with texts as sequences of characters.
pub struct ConfigView {
    pub gitea: CGiteaView,
    pub github: CGitHubView,
}

impl View for CGitea {
    type V = CGiteaView;

    open spec fn view(&self) -> CGiteaView {
        CGiteaView {
            token: self.token@,
            user: self.user@,
            url: self.url@,
            keep_private: self.keep_private,
        }
    }
}

impl View for CGitHub {
    type V = CGitHubView;

    open spec fn view(&self) -> CGitHubView {
        CGitHubView {
            token: self.token@,
            user: self.user@,
            include_starred: self.include_starred,
            include_private: self.include_private,
        }
    }
}

impl View for Config {
    type V = ConfigView;

    open spec fn view(&self) -> ConfigView {
        ConfigView { gitea: self.gitea@, github: self.github@ }
    }
}

} // verus!
