//! The candidates for mirroring: the repositories that the source account
//! owns and, where the settings ask for them, those that it has starred.

use vstd::prelude::*;
use crate::config::{Config, ConfigView};
use crate::listing::{
    first_page, lemma_whole_listing_tail, listing_request, listing_step, page_of, pages_joined,
    whole_listing, Fetched, Listing, ListingView, Progress, ProgressView,
};
use crate::repo::{Repo, RepoType};
use crate::request::HttpRequest;

verus! {

/// A collection under way: the listing that is being asked for, whether the
/// starred repositories are still to be listed after it, and the
/// repositories of the listing that is done.
#[derive(Debug, PartialEq, Eq)]
pub struct Collector {
    listing: Listing,
    starred_next: bool,
    collected: Vec<Repo>,
}

/// A collection under way, over the view of its listing.
pub struct CollectorView {
    pub listing: ListingView,
    pub starred_next: bool,
    pub collected: Seq<Repo>,
}

impl View for Collector {
    type V = CollectorView;

    closed spec fn view(&self) -> CollectorView {
        CollectorView {
            listing: self.listing@,
            starred_next: self.starred_next,
            collected: self.collected@,
        }
    }
}

/// The endpoint that lists the repositories of the account: all of them
/// where private ones are wanted, the public ones where they are not.
pub open spec fn owned_endpoint(include_private: bool) -> Seq<char> {
    if include_private {
        "/user/repos"@
    } else {
        "/user/repos?visibility=public"@
    }
}

/// The endpoint that lists the repositories that the account has starred.
pub open spec fn starred_endpoint() -> Seq<char> {
    "/user/starred"@
}

/// A collection of which nothing has been asked yet.
pub open spec fn collection(config: ConfigView) -> CollectorView {
    CollectorView {
        listing: first_page(owned_endpoint(config.github.include_private), RepoType::GitHub),
        starred_next: config.github.include_starred,
        collected: Seq::empty(),
    }
}

/// What `collector` comes to on `reply`. The answer goes to the listing
/// under way. When that listing ends, its repositories are put behind those
/// collected before; then the starred repositories are listed, where they
/// are still to come, and else the collection is complete. Nothing is left
/// out: a repository that is listed twice is collected twice.
pub open spec fn collector_step(collector: CollectorView, reply: Fetched) -> ProgressView<
    CollectorView,
> {
    match listing_step(collector.listing, reply) {
        ProgressView::More(listing) => ProgressView::More(
            CollectorView {
                listing,
                starred_next: collector.starred_next,
                collected: collector.collected,
            },
        ),
        ProgressView::Complete(repos) => if collector.starred_next {
            ProgressView::More(
                CollectorView {
                    listing: first_page(starred_endpoint(), RepoType::GitHub),
                    starred_next: false,
                    collected: collector.collected + repos,
                },
            )
        } else {
            ProgressView::Complete(collector.collected + repos)
        },
        ProgressView::Failed(error) => ProgressView::Failed(error),
    }
}

/// What `collector` comes to when its requests are answered by `replies` in
/// order. Answers behind the one that ends the collection are not looked at.
pub open spec fn collector_run(collector: CollectorView, replies: Seq<Fetched>) -> ProgressView<
    CollectorView,
>
    decreases replies.len(),
{
    if replies.len() == 0 {
        ProgressView::More(collector)
    } else {
        match collector_step(collector, replies[0]) {
            ProgressView::More(next) => collector_run(next, replies.drop_first()),
            end => end,
        }
    }
}

/// While the listing under way goes on, the collection goes on with it; when
/// the pages of that listing are through, its repositories are collected
/// and the run goes on with what follows.
proof fn lemma_collector_follows_listing(
    collector: CollectorView,
    replies: Seq<Fetched>,
    rest: Seq<Fetched>,
)
    requires
        whole_listing(replies),
    ensures
        collector_run(collector, replies + rest) == if collector.starred_next {
            collector_run(
                (CollectorView {
                    listing: first_page(starred_endpoint(), RepoType::GitHub),
                    starred_next: false,
                    collected: collector.collected + (collector.listing.repos + pages_joined(
                        replies,
                    )),
                }),
                rest,
            )
        } else {
            ProgressView::<CollectorView>::Complete(
                collector.collected + (collector.listing.repos + pages_joined(replies)),
            )
        },
    decreases replies.len(),
{
    let all = replies + rest;
    let tail = replies.drop_first();
    assert(all.drop_first() =~= tail + rest);
    if replies.len() == 1 {
        assert(collector.listing.repos + pages_joined(replies) =~= collector.listing.repos
            + page_of(replies[0])) by {
            assert(pages_joined(tail) =~= Seq::<Repo>::empty());
        }
    } else {
        lemma_whole_listing_tail(replies);
        let next = listing_step(collector.listing, replies[0])->More_0;
        let following = CollectorView {
            listing: next,
            starred_next: collector.starred_next,
            collected: collector.collected,
        };
        lemma_collector_follows_listing(following, tail, rest);
        assert(next.repos + pages_joined(tail) =~= collector.listing.repos + pages_joined(
            replies,
        ));
    }
}

/// The candidates are the owned repositories, in the order of their
/// listing, and behind them, where the settings include them, the starred
/// ones in the order of theirs. The starred listing is asked for only where
/// the settings include it, and nothing is left out of either.
pub proof fn lemma_collects_owned_then_starred(
    config: ConfigView,
    owned: Seq<Fetched>,
    starred: Seq<Fetched>,
)
    requires
        whole_listing(owned),
        config.github.include_starred ==> whole_listing(starred),
    ensures
        config.github.include_starred ==> collector_run(collection(config), owned + starred)
            == ProgressView::<CollectorView>::Complete(
            pages_joined(owned) + pages_joined(starred),
        ),
        !config.github.include_starred ==> collector_run(collection(config), owned)
            == ProgressView::<CollectorView>::Complete(pages_joined(owned)),
{
    let start = collection(config);
    if config.github.include_starred {
        lemma_collector_follows_listing(start, owned, starred);
        let second = CollectorView {
            listing: first_page(starred_endpoint(), RepoType::GitHub),
            starred_next: false,
            collected: pages_joined(owned),
        };
        lemma_collector_follows_listing(second, starred, Seq::empty());
    } else {
        lemma_collector_follows_listing(start, owned, Seq::empty());
    }
}

/// Begins the collection of the candidates: the owned repositories are
/// listed first.
pub fn collect_github_repos(config: &Config) -> (collector: Collector)
    ensures
        collector@ == collection(config@),
{
    let endpoint = if config.github.include_private {
        "/user/repos"
    } else {
        "/user/repos?visibility=public"
    };
    Collector {
        listing: Listing::start(endpoint, RepoType::GitHub),
        starred_next: config.github.include_starred,
        collected: Vec::new(),
    }
}

impl Collector {
    /// Describes the request that is to be sent next.
    pub fn request(&self, config: &Config) -> (request: HttpRequest)
        ensures
            request@ == listing_request(self@.listing, config@),
    {
        self.listing.request(config)
    }

    /// Takes the answer to the last request.
    pub fn accept(self, reply: Fetched) -> (step: Progress<Collector>)
        ensures
            step@ == collector_step(self@, reply),
    {
        let Collector { listing, starred_next, mut collected } = self;
        match listing.accept(reply) {
            Progress::More(listing) => Progress::More(
                Collector { listing, starred_next, collected },
            ),
            Progress::Complete(mut repos) => {
                collected.append(&mut repos);
                if starred_next {
                    Progress::More(
                        Collector {
                            listing: Listing::start("/user/starred", RepoType::GitHub),
                            starred_next: false,
                            collected,
                        },
                    )
                } else {
                    Progress::Complete(collected)
                }
            },
            Progress::Failed(error) => Progress::Failed(error),
        }
    }
}

} // verus!
