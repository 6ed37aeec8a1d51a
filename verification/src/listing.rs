//! A paginated listing: pages are asked for one after the other, from page
//! one on, until a page comes back short.

use vstd::prelude::*;
use crate::config::{Config, ConfigView};
use crate::error::SyncError;
use crate::repo::{Repo, RepoType};
use crate::request::{
    get_gitea, get_github, gitea_request, github_request, page_endpoint, paged, HttpRequest,
    HttpRequestView, PAGE_SIZE,
};

verus! {

/// What came back for a listing request.
#[derive(Debug, Clone, PartialEq, Eq)]
pub enum Fetched {
    /// The request could not be carried out.
    TransportFailure,
    /// The host answered with `status`. `repos` is the listing that the body
    /// holds, `None` where the body is no listing.
    Response { status: u16, repos: Option<Vec<Repo>> },
}

/// Where a piece of work stands after an answer: it goes on as `S`, it has
/// come to its repositories, or it has failed.
#[derive(Debug, Clone, PartialEq, Eq)]
pub enum Progress<S> {
    More(S),
    Complete(Vec<Repo>),
    Failed(SyncError),
}

/// Where a piece of work stands, over the view of what goes on.
pub enum ProgressView<V> {
    More(V),
    Complete(Seq<Repo>),
    Failed(SyncError),
}

impl<S: View> View for Progress<S> {
    type V = ProgressView<S::V>;

    open spec fn view(&self) -> ProgressView<S::V> {
        match self {
            Progress::More(s) => ProgressView::More(s@),
            Progress::Complete(repos) => ProgressView::Complete(repos@),
            Progress::Failed(e) => ProgressView::Failed(*e),
        }
    }
}

/// A listing under way: the page that is asked for next, and the items of
/// the pages before it.
#[derive(Debug, PartialEq, Eq)]
pub struct Listing {
    endpoint: String,
    repo_type: RepoType,
    page: u64,
    repos: Vec<Repo>,
}

/// A listing under way: its endpoint and host, the number of the page that
/// is asked for next, counted from one, and the items held so far.
pub struct ListingView {
    pub endpoint: Seq<char>,
    pub repo_type: RepoType,
    pub page: nat,
    pub repos: Seq<Repo>,
}

/// A listing of `endpoint` of which nothing has been asked yet.
pub open spec fn first_page(endpoint: Seq<char>, repo_type: RepoType) -> ListingView {
    ListingView { endpoint, repo_type, page: 1, repos: Seq::empty() }
}

/// Whether `status` reports success.
pub open spec fn status_ok(status: u16) -> bool {
    200 <= status < 300
}

/// The request for the page that `listing` asks for next.
pub open spec fn listing_request(listing: ListingView, config: ConfigView) -> HttpRequestView {
    match listing.repo_type {
        RepoType::GitHub => github_request(
            config.github.token,
            page_endpoint(listing.endpoint, listing.page),
        ),
        RepoType::Gitea => gitea_request(
            config.gitea,
            page_endpoint(listing.endpoint, listing.page),
        ),
    }
}

/// What `listing` comes to on `reply`. A page is added behind the items
/// held so far. A page of fewer than `PAGE_SIZE` items, an empty one too, is
/// the last; after any other the next page is asked for. A failed request,
/// a status outside 200 to 299 and a body that is no listing each end the
/// listing with nothing.
pub open spec fn listing_step(listing: ListingView, reply: Fetched) -> ProgressView<ListingView> {
    match reply {
        Fetched::TransportFailure => ProgressView::Failed(SyncError::Transport),
        Fetched::Response { status, repos } => if !status_ok(status) {
            ProgressView::Failed(SyncError::UnexpectedStatus(status))
        } else {
            match repos {
                None => ProgressView::Failed(SyncError::Malformed),
                Some(page) => if page@.len() < PAGE_SIZE {
                    ProgressView::Complete(listing.repos + page@)
                } else {
                    ProgressView::More(
                        ListingView {
                            endpoint: listing.endpoint,
                            repo_type: listing.repo_type,
                            page: listing.page + 1,
                            repos: listing.repos + page@,
                        },
                    )
                },
            }
        },
    }
}

/// Whether `reply` is an answer that holds a listing.
pub open spec fn is_page(reply: Fetched) -> bool {
    reply matches Fetched::Response { status, repos: Some(_) } && status_ok(status)
}

/// The items that `reply` holds; none where it holds no listing.
pub open spec fn page_of(reply: Fetched) -> Seq<Repo> {
    match reply {
        Fetched::Response { status, repos: Some(page) } => page@,
        _ => Seq::empty(),
    }
}

/// Whether `replies` are the pages of one whole listing: each holds a
/// listing, the last is short and none before it is.
pub open spec fn whole_listing(replies: Seq<Fetched>) -> bool {
    &&& replies.len() >= 1
    &&& forall|i: int| 0 <= i < replies.len() ==> is_page(#[trigger] replies[i])
    &&& forall|i: int|
        0 <= i < replies.len() - 1 ==> page_of(#[trigger] replies[i]).len() >= PAGE_SIZE
    &&& page_of(replies.last()).len() < PAGE_SIZE
}

/// The items of all `replies`, in order.
pub open spec fn pages_joined(replies: Seq<Fetched>) -> Seq<Repo>
    decreases replies.len(),
{
    if replies.len() == 0 {
        Seq::empty()
    } else {
        page_of(replies[0]) + pages_joined(replies.drop_first())
    }
}

/// What `listing` comes to when its requests are answered by `replies` in
/// order. Answers behind the one that ends the listing are not looked at:
/// no request is made for them.
pub open spec fn listing_run(listing: ListingView, replies: Seq<Fetched>) -> ProgressView<
    ListingView,
>
    decreases replies.len(),
{
    if replies.len() == 0 {
        ProgressView::More(listing)
    } else {
        match listing_step(listing, replies[0]) {
            ProgressView::More(next) => listing_run(next, replies.drop_first()),
            end => end,
        }
    }
}

/// All but the first of the pages of a whole listing of more than one page
/// are a whole listing again, and the first page is a full one.
pub proof fn lemma_whole_listing_tail(replies: Seq<Fetched>)
    requires
        whole_listing(replies),
        replies.len() > 1,
    ensures
        whole_listing(replies.drop_first()),
        is_page(replies[0]),
        page_of(replies[0]).len() >= PAGE_SIZE,
{
}

/// A listing ends with its first short page and yields every item of every
/// page up to there, in order. Before that page it has not ended: after `n`
/// full pages it asks for the page `n` further on. So a first page that is
/// empty ends the listing at once, with one request and no item.
pub proof fn lemma_listing_ends_with_first_short_page(listing: ListingView, replies: Seq<Fetched>)
    requires
        whole_listing(replies),
    ensures
        listing_run(listing, replies) == ProgressView::<ListingView>::Complete(
            listing.repos + pages_joined(replies),
        ),
        forall|n: int|
            0 <= n < replies.len() ==> #[trigger] listing_run(listing, replies.take(n))
                == ProgressView::<ListingView>::More(
                (ListingView {
                    endpoint: listing.endpoint,
                    repo_type: listing.repo_type,
                    page: (listing.page + n) as nat,
                    repos: listing.repos + pages_joined(replies.take(n)),
                }),
            ),
    decreases replies.len(),
{
    let rest = replies.drop_first();
    if replies.len() == 1 {
        assert(pages_joined(rest) =~= Seq::<Repo>::empty());
    } else {
        lemma_whole_listing_tail(replies);
        let next = listing_step(listing, replies[0])->More_0;
        lemma_listing_ends_with_first_short_page(next, rest);
        assert(next.repos + pages_joined(rest) =~= listing.repos + pages_joined(replies));
        assert forall|n: int| 0 <= n < replies.len() implies #[trigger] listing_run(
            listing,
            replies.take(n),
        ) == ProgressView::<ListingView>::More(
            ListingView {
                endpoint: listing.endpoint,
                repo_type: listing.repo_type,
                page: (listing.page + n) as nat,
                repos: listing.repos + pages_joined(replies.take(n)),
            },
        ) by {
            if n > 0 {
                let taken = replies.take(n);
                assert(taken.drop_first() =~= rest.take(n - 1));
                assert(listing_run(listing, taken) == listing_run(next, rest.take(n - 1)));
                assert(next.repos + pages_joined(rest.take(n - 1)) =~= listing.repos
                    + pages_joined(taken));
            }
        }
    }
}

/// A first page that is empty ends the listing at once: one request has
/// been made, and no item is yielded.
pub proof fn lemma_empty_first_page_ends_listing(
    endpoint: Seq<char>,
    repo_type: RepoType,
    reply: Fetched,
)
    requires
        is_page(reply),
        page_of(reply).len() == 0,
    ensures
        listing_step(first_page(endpoint, repo_type), reply) == ProgressView::<
            ListingView,
        >::Complete(Seq::empty()),
{
}

impl View for Listing {
    type V = ListingView;

    closed spec fn view(&self) -> ListingView {
        ListingView {
            endpoint: self.endpoint@,
            repo_type: self.repo_type,
            page: self.page as nat,
            repos: self.repos@,
        }
    }
}

impl Listing {
    /// Every page before the one asked for next was a full one.
    #[verifier::type_invariant]
    spec fn well_formed(self) -> bool {
        &&& self.page >= 1
        &&& self.repos@.len() >= PAGE_SIZE * (self.page - 1)
    }

    /// Begins a listing of `endpoint` on the host `repo_type`.
    pub fn start(endpoint: &str, repo_type: RepoType) -> (listing: Listing)
        ensures
            listing@ == first_page(endpoint@, repo_type),
    {
        Listing { endpoint: String::from_str(endpoint), repo_type, page: 1, repos: Vec::new() }
    }

    /// Describes the request for the page that is asked for next.
    pub fn request(&self, config: &Config) -> (request: HttpRequest)
        ensures
            request@ == listing_request(self@, config@),
    {
        let endpoint = paged(self.endpoint.as_str(), self.page);
        match self.repo_type {
            RepoType::GitHub => get_github(config.github.token.as_str(), endpoint.as_str()),
            RepoType::Gitea => get_gitea(&config.gitea, endpoint.as_str()),
        }
    }

    /// Takes the answer to the last request.
    pub fn accept(self, reply: Fetched) -> (step: Progress<Listing>)
        ensures
            step@ == listing_step(self@, reply),
    {
        proof {
            use_type_invariant(&self);
        }
        match reply {
            Fetched::TransportFailure => Progress::Failed(SyncError::Transport),
            Fetched::Response { status, repos } => {
                if status < 200 || status >= 300 {
                    return Progress::Failed(SyncError::UnexpectedStatus(status));
                }
                match repos {
                    None => Progress::Failed(SyncError::Malformed),
                    Some(mut page) => {
                        let count = page.len();
                        let Listing { endpoint, repo_type, page: number, mut repos } = self;
                        repos.append(&mut page);
                        if count < PAGE_SIZE {
                            Progress::Complete(repos)
                        } else {
                            let total = repos.len();
                            Progress::More(Listing { endpoint, repo_type, page: number + 1, repos })
                        }
                    },
                }
            },
        }
    }
}

} // verus!
