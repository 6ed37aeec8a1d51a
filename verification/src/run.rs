//! One synchronisation run, as a machine that is told what came back and
//! answers with what to do next. The candidates are collected from the
//! source, the destination is listed, and each candidate that the
//! destination lacks is migrated, one after the other.

use vstd::prelude::*;
use crate::collector::{collect_github_repos, collection, collector_step, Collector, CollectorView};
use crate::config::{Config, ConfigView};
use crate::error::SyncError;
use crate::listing::{
    first_page, listing_request, listing_step, Fetched, Listing, ListingView, Progress,
    ProgressView,
};
use crate::mirror::{
    announce, exists_message, migrate_outcome, migrate_status, mirror_options, mirror_repo,
    mirroring_message, report_existing, MigrateOutcome, MigrateRepoOptions,
    MigrateRepoOptionsView,
};
use crate::orchestrator::{
    names_of, partition_candidates, repo_names, skipped_lines, to_create,
};
use crate::repo::{string_views, Repo, RepoType};
use crate::request::{migrate_request, migration_request, HttpRequest, HttpRequestView};

verus! {

/// What came back for a migrate request.
#[derive(Debug, Clone, Copy, PartialEq, Eq)]
pub enum Posted {
    /// The request could not be carried out.
    TransportFailure,
    /// The destination answered with this status.
    Status(u16),
}

/// What the run is told: the outcome of the action that it asked for last.
#[derive(Debug, Clone, PartialEq, Eq)]
pub enum Event {
    /// The outcome of `Action::Fetch`.
    Fetched(Fetched),
    /// The outcome of `Action::Encode`: the JSON text of the options.
    Encoded(String),
    /// The outcome of `Action::Post`.
    Posted(Posted),
}

/// What the run asks for.
#[derive(Debug, Clone, PartialEq, Eq)]
pub enum Action {
    /// Send the request and read the body of the answer as a listing of
    /// repositories.
    Fetch(HttpRequest),
    /// Write the options out as JSON text.
    Encode(MigrateRepoOptions),
    /// Send the request and read the status of the answer.
    Post(HttpRequest),
    /// Nothing: the run is complete.
    Done,
    /// Nothing: the run has failed.
    Abort(SyncError),
}

/// The lines to report, and what to do then.
#[derive(Debug, Clone, PartialEq, Eq)]
pub struct Step {
    pub log: Vec<String>,
    pub action: Action,
}

/// What the run asks for, over the views of the requests and options.
pub enum ActionView {
    Fetch(HttpRequestView),
    Encode(MigrateRepoOptionsView),
    Post(HttpRequestView),
    Done,
    Abort(SyncError),
}

/// The lines to report and what to do then, with texts as sequences of
/// characters.
pub struct StepView {
    pub log: Seq<Seq<char>>,
    pub action: ActionView,
}

impl View for Action {
    type V = ActionView;

    open spec fn view(&self) -> ActionView {
        match self {
            Action::Fetch(request) => ActionView::Fetch(request@),
            Action::Encode(options) => ActionView::Encode(options@),
            Action::Post(request) => ActionView::Post(request@),
            Action::Done => ActionView::Done,
            Action::Abort(error) => ActionView::Abort(*error),
        }
    }
}

impl View for Step {
    type V = StepView;

    open spec fn view(&self) -> StepView {
        StepView { log: string_views(self.log@), action: self.action@ }
    }
}

/// Where a run stands.
pub enum StageView {
    /// The candidates are being collected from the source.
    Collecting(CollectorView),
    /// The destination is being listed.
    ListingDestination { candidates: Seq<Repo>, listing: ListingView },
    /// The options for `queue[index]` are being written out.
    Encoding { queue: Seq<Repo>, index: nat },
    /// The migration of `queue[index]` has been asked for.
    Posting { queue: Seq<Repo>, index: nat },
    /// Every repository of the queue has been dealt with.
    Finished,
    /// The run was given up.
    Failed(SyncError),
}

/// A run: its settings, and where it stands.
pub struct RunView {
    pub config: ConfigView,
    pub stage: StageView,
}

/// A step that reports nothing.
pub open spec fn quiet(action: ActionView) -> StepView {
    StepView { log: Seq::empty(), action }
}

/// The endpoint that lists the repositories of the destination account.
pub open spec fn destination_endpoint() -> Seq<char> {
    "/user/repos"@
}

/// The first stage of a run and the first thing that it asks for: the first
/// page of the owned repositories.
pub open spec fn run_start(config: ConfigView) -> (RunView, StepView) {
    let collector = collection(config);
    (
        RunView { config, stage: StageView::Collecting(collector) },
        quiet(ActionView::Fetch(listing_request(collector.listing, config))),
    )
}

/// Goes on with `queue[index]`: its migration is announced and its options
/// are to be written out. Behind the end of the queue the run is complete.
/// `log` is reported first.
pub open spec fn mirror_from(
    config: ConfigView,
    queue: Seq<Repo>,
    index: nat,
    log: Seq<Seq<char>>,
) -> (StageView, StepView) {
    if index < queue.len() {
        (
            StageView::Encoding { queue, index },
            StepView {
                log: log.push(mirroring_message(queue[index as int]@, config)),
                action: ActionView::Encode(mirror_options(queue[index as int]@, config)),
            },
        )
    } else {
        (StageView::Finished, StepView { log, action: ActionView::Done })
    }
}

/// Gives the run up for `error`.
pub open spec fn give_up(error: SyncError) -> (StageView, StepView) {
    (StageView::Failed(error), quiet(ActionView::Abort(error)))
}

/// The stage that follows `stage` on `event`, and what is asked for then.
///
/// While the candidates are collected and while the destination is listed,
/// each answer leads to the request for the next page. When the destination
/// is listed, the candidates that it lacks form the queue; each of the
/// others is reported with one line. A repository of the queue has its
/// options written out and then posted. On 201 the next one follows; on 409
/// too, after a line that reports the repository as present. Any other
/// status, a request that could not be carried out and a listing that fails
/// end the run with an error, and so does an event that the stage does not
/// wait for. A run that has ended stays as it is.
pub open spec fn stage_step(config: ConfigView, stage: StageView, event: Event) -> (
    StageView,
    StepView,
) {
    match stage {
        StageView::Collecting(collector) => match event {
            Event::Fetched(reply) => match collector_step(collector, reply) {
                ProgressView::More(next) => (
                    StageView::Collecting(next),
                    quiet(ActionView::Fetch(listing_request(next.listing, config))),
                ),
                ProgressView::Complete(candidates) => {
                    let listing = first_page(destination_endpoint(), RepoType::Gitea);
                    (
                        StageView::ListingDestination { candidates, listing },
                        quiet(ActionView::Fetch(listing_request(listing, config))),
                    )
                },
                ProgressView::Failed(error) => give_up(error),
            },
            _ => give_up(SyncError::OutOfTurn),
        },
        StageView::ListingDestination { candidates, listing } => match event {
            Event::Fetched(reply) => match listing_step(listing, reply) {
                ProgressView::More(next) => (
                    StageView::ListingDestination { candidates, listing: next },
                    quiet(ActionView::Fetch(listing_request(next, config))),
                ),
                ProgressView::Complete(found) => mirror_from(
                    config,
                    to_create(candidates, names_of(found)),
                    0,
                    skipped_lines(candidates, names_of(found)),
                ),
                ProgressView::Failed(error) => give_up(error),
            },
            _ => give_up(SyncError::OutOfTurn),
        },
        StageView::Encoding { queue, index } => match event {
            Event::Encoded(body) => (
                StageView::Posting { queue, index },
                quiet(ActionView::Post(migration_request(config.gitea, body@))),
            ),
            _ => give_up(SyncError::OutOfTurn),
        },
        StageView::Posting { queue, index } => match event {
            Event::Posted(Posted::Status(status)) => match migrate_status(status) {
                Ok(MigrateOutcome::Created) => mirror_from(config, queue, index + 1, Seq::empty()),
                Ok(MigrateOutcome::AlreadyExists) => mirror_from(
                    config,
                    queue,
                    index + 1,
                    seq![exists_message(queue[index as int]@)],
                ),
                Err(error) => give_up(error),
            },
            Event::Posted(Posted::TransportFailure) => give_up(SyncError::Transport),
            _ => give_up(SyncError::OutOfTurn),
        },
        StageView::Finished => (StageView::Finished, quiet(ActionView::Done)),
        StageView::Failed(error) => give_up(error),
    }
}

/// The run that follows `run` on `event`, and what is asked for then. The
/// settings stay as they are.
pub open spec fn run_step(run: RunView, event: Event) -> (RunView, StepView) {
    let (stage, step) = stage_step(run.config, run.stage, event);
    (RunView { config: run.config, stage }, step)
}

/// A repository that is there already does not stop the run. On 409 the
/// repository is reported as present; then the next one of the queue is
/// taken up, or the run is complete where there is none.
pub proof fn lemma_conflict_is_passed_over(config: ConfigView, queue: Seq<Repo>, index: nat)
    requires
        index < queue.len(),
    ensures
        ({
            let (stage, step) = stage_step(
                config,
                StageView::Posting { queue, index },
                Event::Posted(Posted::Status(409)),
            );
            &&& step.log[0] == exists_message(queue[index as int]@)
            &&& index + 1 < queue.len() ==> {
                &&& stage == (StageView::Encoding { queue, index: index + 1 })
                &&& step.action == ActionView::Encode(
                    mirror_options(queue[index as int + 1]@, config),
                )
            }
            &&& index + 1 == queue.len() ==> {
                &&& stage == StageView::Finished
                &&& step.action == ActionView::Done
                &&& step.log.len() == 1
            }
        }),
{
}

/// Where the destination lacks none of the candidates, the run is complete
/// as soon as the destination is listed: nothing is written out and
/// nothing is posted.
pub proof fn lemma_nothing_missing_means_no_migration(
    config: ConfigView,
    candidates: Seq<Repo>,
    listing: ListingView,
    reply: Fetched,
)
    requires
        listing_step(listing, reply) is Complete,
        to_create(candidates, names_of(listing_step(listing, reply)->Complete_0)).len() == 0,
    ensures
        ({
            let (stage, step) = stage_step(
                config,
                StageView::ListingDestination { candidates, listing },
                Event::Fetched(reply),
            );
            &&& stage == StageView::Finished
            &&& step.action == ActionView::Done
        }),
{
}

enum Stage {
    Collecting(Collector),
    ListingDestination { candidates: Vec<Repo>, listing: Listing },
    Encoding { queue: Vec<Repo>, index: usize },
    Posting { queue: Vec<Repo>, index: usize },
    Finished,
    Failed(SyncError),
}

impl View for Stage {
    type V = StageView;

    closed spec fn view(&self) -> StageView {
        match self {
            Stage::Collecting(collector) => StageView::Collecting(collector@),
            Stage::ListingDestination { candidates, listing } => StageView::ListingDestination {
                candidates: candidates@,
                listing: listing@,
            },
            Stage::Encoding { queue, index } => StageView::Encoding {
                queue: queue@,
                index: *index as nat,
            },
            Stage::Posting { queue, index } => StageView::Posting {
                queue: queue@,
                index: *index as nat,
            },
            Stage::Finished => StageView::Finished,
            Stage::Failed(error) => StageView::Failed(*error),
        }
    }
}

/// A synchronisation run.
pub struct Run {
    config: Config,
    stage: Stage,
}

impl View for Run {
    type V = RunView;

    closed spec fn view(&self) -> RunView {
        RunView { config: self.config@, stage: self.stage@ }
    }
}

fn silent(action: Action) -> (step: Step)
    ensures
        step@ == quiet(action@),
{
    let step = Step { log: Vec::new(), action };
    assert(step@.log =~= Seq::<Seq<char>>::empty());
    step
}

fn abandon(error: SyncError) -> (next: (Stage, Step))
    ensures
        (next.0@, next.1@) == give_up(error),
{
    (Stage::Failed(error), silent(Action::Abort(error)))
}

fn proceed(config: &Config, queue: Vec<Repo>, index: usize, log: Vec<String>) -> (next: (
    Stage,
    Step,
))
    ensures
        (next.0@, next.1@) == mirror_from(config@, queue@, index as nat, string_views(log@)),
        next.0 matches Stage::Encoding { queue, index } ==> index < queue.len(),
        !(next.0 is Posting),
{
    let mut log = log;
    if index < queue.len() {
        let ghost lines = string_views(log@);
        log.push(announce(&queue[index], config));
        assert(string_views(log@) =~= lines.push(
            mirroring_message(queue@[index as int]@, config@),
        ));
        let options = mirror_repo(&queue[index], config);
        (Stage::Encoding { queue, index }, Step { log, action: Action::Encode(options) })
    } else {
        (Stage::Finished, Step { log, action: Action::Done })
    }
}

impl Run {
    /// A repository that is being migrated is one of the queue.
    #[verifier::type_invariant]
    spec fn well_formed(self) -> bool {
        match self.stage {
            Stage::Encoding { queue, index } => index < queue.len(),
            Stage::Posting { queue, index } => index < queue.len(),
            _ => true,
        }
    }

    /// Begins a run under `config`.
    pub fn start(config: Config) -> (begun: (Run, Step))
        ensures
            (begun.0@, begun.1@) == run_start(config@),
    {
        let collector = collect_github_repos(&config);
        let request = collector.request(&config);
        (Run { config, stage: Stage::Collecting(collector) }, silent(Action::Fetch(request)))
    }

    /// Takes the outcome of the action that was asked for last.
    pub fn step(self, event: Event) -> (next: (Run, Step))
        ensures
            (next.0@, next.1@) == run_step(self@, event),
    {
        proof {
            use_type_invariant(&self);
        }
        let ghost expected = run_step(self@, event);
        let Run { config, stage } = self;
        let (stage, step) = match stage {
            Stage::Collecting(collector) => match event {
                Event::Fetched(reply) => match collector.accept(reply) {
                    Progress::More(next) => {
                        let request = next.request(&config);
                        (Stage::Collecting(next), silent(Action::Fetch(request)))
                    },
                    Progress::Complete(candidates) => {
                        let listing = Listing::start("/user/repos", RepoType::Gitea);
                        let request = listing.request(&config);
                        (
                            Stage::ListingDestination { candidates, listing },
                            silent(Action::Fetch(request)),
                        )
                    },
                    Progress::Failed(error) => abandon(error),
                },
                _ => abandon(SyncError::OutOfTurn),
            },
            Stage::ListingDestination { candidates, listing } => match event {
                Event::Fetched(reply) => match listing.accept(reply) {
                    Progress::More(next) => {
                        let request = next.request(&config);
                        (
                            Stage::ListingDestination { candidates, listing: next },
                            silent(Action::Fetch(request)),
                        )
                    },
                    Progress::Complete(found) => {
                        let existing = repo_names(&found);
                        let (queue, log) = partition_candidates(candidates, &existing);
                        proceed(&config, queue, 0, log)
                    },
                    Progress::Failed(error) => abandon(error),
                },
                _ => abandon(SyncError::OutOfTurn),
            },
            Stage::Encoding { queue, index } => match event {
                Event::Encoded(body) => {
                    let request = migrate_request(&config.gitea, body);
                    (Stage::Posting { queue, index }, silent(Action::Post(request)))
                },
                _ => abandon(SyncError::OutOfTurn),
            },
            Stage::Posting { queue, index } => match event {
                Event::Posted(Posted::Status(status)) => match migrate_outcome(status) {
                    Ok(MigrateOutcome::Created) => proceed(&config, queue, index + 1, Vec::new()),
                    Ok(MigrateOutcome::AlreadyExists) => {
                        let mut log: Vec<String> = Vec::new();
                        log.push(report_existing(&queue[index]));
                        proceed(&config, queue, index + 1, log)
                    },
                    Err(error) => abandon(error),
                },
                Event::Posted(Posted::TransportFailure) => abandon(SyncError::Transport),
                _ => abandon(SyncError::OutOfTurn),
            },
            Stage::Finished => (Stage::Finished, silent(Action::Done)),
            Stage::Failed(error) => abandon(error),
        };
        assert(step@.log =~= expected.1.log);
        (Run { config, stage }, step)
    }
}

} // verus!
