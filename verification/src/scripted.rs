//! Whole runs: what a run asks for, from its start to its end, when all that
//! it is told is laid down in advance.

use vstd::prelude::*;
use crate::collector::{collection, starred_endpoint, CollectorView};
use crate::config::ConfigView;
use crate::listing::{
    first_page, lemma_whole_listing_tail, listing_step, page_of, pages_joined, whole_listing,
    Fetched, ListingView,
};
use crate::mirror::{destination_name, mirror_options, MigrateRepoOptionsView};
use crate::orchestrator::{
    lemma_second_run_creates_nothing, names_of, skipped_lines, to_create,
};
use crate::repo::{Repo, RepoType};
use crate::request::{migration_request, HttpRequestView};
use crate::run::{
    destination_endpoint, mirror_from, run_start, run_step, ActionView, Event, Posted, RunView,
    StageView,
};

verus! {

/// What `run` has become when it has been told `events`, in order.
pub open spec fn run_after(run: RunView, events: Seq<Event>) -> RunView
    decreases events.len(),
{
    if events.len() == 0 {
        run
    } else {
        run_after(run_step(run, events[0]).0, events.drop_first())
    }
}

/// The options that `run` asks to have written out while it is told
/// `events`, in order.
pub open spec fn encoded_on(run: RunView, events: Seq<Event>) -> Seq<MigrateRepoOptionsView>
    decreases events.len(),
{
    if events.len() == 0 {
        Seq::empty()
    } else {
        let (next, step) = run_step(run, events[0]);
        let rest = encoded_on(next, events.drop_first());
        match step.action {
            ActionView::Encode(options) => seq![options] + rest,
            _ => rest,
        }
    }
}

/// The migrate requests that `run` asks to have sent while it is told
/// `events`, in order.
pub open spec fn posted_on(run: RunView, events: Seq<Event>) -> Seq<HttpRequestView>
    decreases events.len(),
{
    if events.len() == 0 {
        Seq::empty()
    } else {
        let (next, step) = run_step(run, events[0]);
        let rest = posted_on(next, events.drop_first());
        match step.action {
            ActionView::Post(request) => seq![request] + rest,
            _ => rest,
        }
    }
}

/// The answers `replies` as the events that tell of them.
pub open spec fn fetched_events(replies: Seq<Fetched>) -> Seq<Event> {
    replies.map_values(|reply: Fetched| Event::Fetched(reply))
}

/// The events of as many migrations as there are `bodies`: the options of
/// each come back as its body, and its request is answered with its status.
pub open spec fn migration_events(bodies: Seq<String>, statuses: Seq<u16>) -> Seq<Event>
    decreases bodies.len(),
{
    if bodies.len() == 0 {
        Seq::empty()
    } else {
        seq![Event::Encoded(bodies[0]), Event::Posted(Posted::Status(statuses[0]))]
            + migration_events(bodies.drop_first(), statuses.drop_first())
    }
}

/// Whether each of `statuses` lets the run go on: the migration was
/// accepted, or the repository is there already.
pub open spec fn all_accepted(statuses: Seq<u16>) -> bool {
    forall|i: int| 0 <= i < statuses.len() ==> statuses[i] == 201 || statuses[i] == 409
}

/// The candidates that the listings `owned` and `starred` give under
/// `config`.
pub open spec fn candidates_of(
    config: ConfigView,
    owned: Seq<Fetched>,
    starred: Seq<Fetched>,
) -> Seq<Repo> {
    if config.github.include_starred {
        pages_joined(owned) + pages_joined(starred)
    } else {
        pages_joined(owned)
    }
}

/// The events of the three listings of a run: the owned repositories, the
/// starred ones where the settings include them, and the destination.
pub open spec fn listing_events(
    config: ConfigView,
    owned: Seq<Fetched>,
    starred: Seq<Fetched>,
    destination: Seq<Fetched>,
) -> Seq<Event> {
    if config.github.include_starred {
        fetched_events(owned) + fetched_events(starred) + fetched_events(destination)
    } else {
        fetched_events(owned) + fetched_events(destination)
    }
}

/// The options of each of `queue`, in order.
pub open spec fn options_of(queue: Seq<Repo>, config: ConfigView) -> Seq<MigrateRepoOptionsView> {
    queue.map_values(|repo: Repo| mirror_options(repo@, config))
}

/// The options of the first of `queue`; nothing where the queue is empty.
spec fn first_options(queue: Seq<Repo>, config: ConfigView) -> Seq<MigrateRepoOptionsView> {
    if queue.len() > 0 {
        seq![mirror_options(queue[0]@, config)]
    } else {
        Seq::empty()
    }
}

/// The migrate request for each of `bodies`, in order.
pub open spec fn requests_of(bodies: Seq<String>, config: ConfigView) -> Seq<HttpRequestView> {
    bodies.map_values(|body: String| migration_request(config.gitea, body@))
}

/// Telling a run of one thing after another is telling it of the first
/// lot and then of the second.
proof fn lemma_run_splits(run: RunView, first: Seq<Event>, second: Seq<Event>)
    ensures
        run_after(run, first + second) == run_after(run_after(run, first), second),
        encoded_on(run, first + second) == encoded_on(run, first) + encoded_on(
            run_after(run, first),
            second,
        ),
        posted_on(run, first + second) == posted_on(run, first) + posted_on(
            run_after(run, first),
            second,
        ),
    decreases first.len(),
{
    let all = first + second;
    if first.len() > 0 {
        let next = run_step(run, first[0]).0;
        let tail = first.drop_first();
        assert(all.drop_first() =~= tail + second);
        lemma_run_splits(next, tail, second);
    }
}

/// The stage that follows a listing of the source: the starred
/// repositories are listed where they are still to come, the destination
/// where they are not.
spec fn after_source_listing(collector: CollectorView, replies: Seq<Fetched>) -> StageView {
    let collected = collector.collected + (collector.listing.repos + pages_joined(replies));
    if collector.starred_next {
        StageView::Collecting(
            CollectorView {
                listing: first_page(starred_endpoint(), RepoType::GitHub),
                starred_next: false,
                collected,
            },
        )
    } else {
        StageView::ListingDestination {
            candidates: collected,
            listing: first_page(destination_endpoint(), RepoType::Gitea),
        }
    }
}

/// A listing of the source is read to its end; nothing is migrated
/// meanwhile.
proof fn lemma_source_listing_runs(
    config: ConfigView,
    collector: CollectorView,
    replies: Seq<Fetched>,
)
    requires
        whole_listing(replies),
    ensures
        ({
            let run = RunView { config, stage: StageView::Collecting(collector) };
            let events = fetched_events(replies);
            &&& run_after(run, events) == (RunView {
                config,
                stage: after_source_listing(collector, replies),
            })
            &&& encoded_on(run, events) == Seq::<MigrateRepoOptionsView>::empty()
            &&& posted_on(run, events) == Seq::<HttpRequestView>::empty()
        }),
    decreases replies.len(),
{
    reveal_with_fuel(run_after, 3);
    reveal_with_fuel(encoded_on, 3);
    reveal_with_fuel(posted_on, 3);
    let tail = replies.drop_first();
    assert(fetched_events(replies).drop_first() =~= fetched_events(tail));
    if replies.len() == 1 {
        assert(collector.listing.repos + pages_joined(replies) =~= collector.listing.repos
            + page_of(replies[0])) by {
            assert(pages_joined(tail) =~= Seq::<Repo>::empty());
        }
    } else {
        lemma_whole_listing_tail(replies);
        let next = listing_step(collector.listing, replies[0])->More_0;
        let following = CollectorView {
            listing: next,
            starred_next: collector.starred_next,
            collected: collector.collected,
        };
        lemma_source_listing_runs(config, following, tail);
        assert(next.repos + pages_joined(tail) =~= collector.listing.repos + pages_joined(
            replies,
        ));
    }
}

/// The listing of the destination is read to its end. Then the candidates
/// that it lacks form the queue, and the options of the first of them are
/// asked for; nothing is posted meanwhile.
proof fn lemma_destination_listing_runs(
    config: ConfigView,
    candidates: Seq<Repo>,
    listing: ListingView,
    replies: Seq<Fetched>,
)
    requires
        whole_listing(replies),
    ensures
        ({
            let run = RunView {
                config,
                stage: StageView::ListingDestination { candidates, listing },
            };
            let existing = names_of(listing.repos + pages_joined(replies));
            let queue = to_create(candidates, existing);
            &&& run_after(run, fetched_events(replies)).config == config
            &&& run_after(run, fetched_events(replies)).stage == mirror_from(
                config,
                queue,
                0,
                skipped_lines(candidates, existing),
            ).0
            &&& encoded_on(run, fetched_events(replies)) == first_options(queue, config)
            &&& posted_on(run, fetched_events(replies)) == Seq::<HttpRequestView>::empty()
        }),
    decreases replies.len(),
{
    reveal_with_fuel(run_after, 3);
    reveal_with_fuel(encoded_on, 3);
    reveal_with_fuel(posted_on, 3);
    let tail = replies.drop_first();
    assert(fetched_events(replies).drop_first() =~= fetched_events(tail));
    if replies.len() == 1 {
        assert(listing.repos + pages_joined(replies) =~= listing.repos + page_of(replies[0])) by {
            assert(pages_joined(tail) =~= Seq::<Repo>::empty());
        }
    } else {
        lemma_whole_listing_tail(replies);
        let next = listing_step(listing, replies[0])->More_0;
        lemma_destination_listing_runs(config, candidates, next, tail);
        assert(next.repos + pages_joined(tail) =~= listing.repos + pages_joined(replies));
    }
}

/// From a repository of the queue on, every repository is posted with the
/// body that came back for it, and the options of each that follows are
/// asked for, as long as every status is 201 or 409. Then the run is
/// complete.
proof fn lemma_migrations_run(
    config: ConfigView,
    queue: Seq<Repo>,
    index: nat,
    bodies: Seq<String>,
    statuses: Seq<u16>,
)
    requires
        index < queue.len(),
        bodies.len() == queue.len() - index,
        statuses.len() == bodies.len(),
        all_accepted(statuses),
    ensures
        ({
            let run = RunView { config, stage: StageView::Encoding { queue, index } };
            let events = migration_events(bodies, statuses);
            &&& run_after(run, events) == (RunView { config, stage: StageView::Finished })
            &&& encoded_on(run, events) == options_of(queue.skip(index as int + 1), config)
            &&& posted_on(run, events) == requests_of(bodies, config)
        }),
    decreases bodies.len(),
{
    reveal_with_fuel(run_after, 3);
    reveal_with_fuel(encoded_on, 3);
    reveal_with_fuel(posted_on, 3);
    reveal_with_fuel(migration_events, 2);
    let events = migration_events(bodies, statuses);
    let later = migration_events(bodies.drop_first(), statuses.drop_first());
    assert(events.drop_first().drop_first() =~= later);
    if bodies.len() > 1 {
        lemma_migrations_run(
            config,
            queue,
            index + 1,
            bodies.drop_first(),
            statuses.drop_first(),
        );
    }
}

/// The three listings of a run are read one after the other. Then the
/// candidates that the destination lacks form the queue.
proof fn lemma_listings_run(
    config: ConfigView,
    owned: Seq<Fetched>,
    starred: Seq<Fetched>,
    destination: Seq<Fetched>,
)
    requires
        whole_listing(owned),
        config.github.include_starred ==> whole_listing(starred),
        whole_listing(destination),
    ensures
        ({
            let start = run_start(config).0;
            let events = listing_events(config, owned, starred, destination);
            let candidates = candidates_of(config, owned, starred);
            let existing = names_of(pages_joined(destination));
            let queue = to_create(candidates, existing);
            &&& run_after(start, events).config == config
            &&& run_after(start, events).stage == mirror_from(
                config,
                queue,
                0,
                skipped_lines(candidates, existing),
            ).0
            &&& encoded_on(start, events) == first_options(queue, config)
            &&& posted_on(start, events) == Seq::<HttpRequestView>::empty()
        }),
{
    let start = run_start(config).0;
    let candidates = candidates_of(config, owned, starred);
    let listing = first_page(destination_endpoint(), RepoType::Gitea);
    lemma_source_listing_runs(config, collection(config), owned);
    lemma_destination_listing_runs(config, candidates, listing, destination);
    if config.github.include_starred {
        let second = CollectorView {
            listing: first_page(starred_endpoint(), RepoType::GitHub),
            starred_next: false,
            collected: pages_joined(owned),
        };
        lemma_source_listing_runs(config, second, starred);
        lemma_run_splits(start, fetched_events(owned), fetched_events(starred));
        lemma_run_splits(
            start,
            fetched_events(owned) + fetched_events(starred),
            fetched_events(destination),
        );
    } else {
        lemma_run_splits(start, fetched_events(owned), fetched_events(destination));
    }
}

/// A run in which nothing fails migrates exactly the candidates that the
/// destination lacks, each once and in their order. The owned repositories
/// are listed, the starred ones where the settings include them, and the
/// destination. For each candidate that the destination has under neither
/// of its names, and for no other, the options are written out and then
/// posted, with the body that came back for them. After the last one the
/// run is complete.
pub proof fn lemma_run_migrates_what_is_missing(
    config: ConfigView,
    owned: Seq<Fetched>,
    starred: Seq<Fetched>,
    destination: Seq<Fetched>,
    bodies: Seq<String>,
    statuses: Seq<u16>,
)
    requires
        whole_listing(owned),
        config.github.include_starred ==> whole_listing(starred),
        whole_listing(destination),
        bodies.len() == to_create(
            candidates_of(config, owned, starred),
            names_of(pages_joined(destination)),
        ).len(),
        statuses.len() == bodies.len(),
        all_accepted(statuses),
    ensures
        ({
            let start = run_start(config).0;
            let events = listing_events(config, owned, starred, destination) + migration_events(
                bodies,
                statuses,
            );
            let queue = to_create(
                candidates_of(config, owned, starred),
                names_of(pages_joined(destination)),
            );
            &&& run_after(start, events) == (RunView { config, stage: StageView::Finished })
            &&& encoded_on(start, events) == options_of(queue, config)
            &&& posted_on(start, events) == requests_of(bodies, config)
        }),
{
    let start = run_start(config).0;
    let listings = listing_events(config, owned, starred, destination);
    let migrations = migration_events(bodies, statuses);
    let queue = to_create(
        candidates_of(config, owned, starred),
        names_of(pages_joined(destination)),
    );
    lemma_listings_run(config, owned, starred, destination);
    lemma_run_splits(start, listings, migrations);
    if queue.len() > 0 {
        lemma_migrations_run(config, queue, 0, bodies, statuses);
    }
}

/// A run that follows a complete one, on a source that has not changed,
/// migrates nothing. Let the destination hold `before` at the first run
/// and `after` at the second, let nothing have gone in between, and let
/// every repository that the first run was to create be there under the
/// name that was chosen for it. Then the second run is complete as soon as
/// its listings are read: it writes out no options and posts no request.
pub proof fn lemma_second_run_migrates_nothing(
    config: ConfigView,
    owned: Seq<Fetched>,
    starred: Seq<Fetched>,
    before: Seq<Fetched>,
    after: Seq<Fetched>,
)
    requires
        whole_listing(owned),
        config.github.include_starred ==> whole_listing(starred),
        whole_listing(before),
        whole_listing(after),
        forall|name: Seq<char>|
            names_of(pages_joined(before)).contains(name) ==> names_of(
                pages_joined(after),
            ).contains(name),
        forall|i: int|
            0 <= i < to_create(
                candidates_of(config, owned, starred),
                names_of(pages_joined(before)),
            ).len() ==> names_of(pages_joined(after)).contains(
                destination_name(
                    #[trigger] to_create(
                        candidates_of(config, owned, starred),
                        names_of(pages_joined(before)),
                    )[i]@,
                    config.github.user,
                ),
            ),
    ensures
        ({
            let start = run_start(config).0;
            let events = listing_events(config, owned, starred, after);
            &&& run_after(start, events) == (RunView { config, stage: StageView::Finished })
            &&& encoded_on(start, events) == Seq::<MigrateRepoOptionsView>::empty()
            &&& posted_on(start, events) == Seq::<HttpRequestView>::empty()
        }),
{
    let candidates = candidates_of(config, owned, starred);
    lemma_second_run_creates_nothing(
        candidates,
        config.github.user,
        names_of(pages_joined(before)),
        names_of(pages_joined(after)),
    );
    lemma_listings_run(config, owned, starred, after);
}

} // verus!
