//! A listing table: the files with one extension under a path, read as one
//! table whose schema is inferred from them.

use super::provider::{
    all_done, lemma_first_failure, Outcome, OutcomeView, Progress, ProgressView, ProviderFailure,
    TableProviderError,
};
use vstd::prelude::*;

verus! {

/// The outside actions of a listing resolution, in the order of `plan`.
#[derive(Debug, Clone, Copy, PartialEq, Eq, Structural)]
pub enum ListingAction {
    /// Parse the path into the locator of a listing table.
    ParseListingUrl,
    /// Build the listing options that belong to the extension.
    BuildListingOptions,
    /// Get hold of the session.
    AcquireSession,
    /// Infer the schema from the files under the path.
    InferSchema,
    /// Build the table from locator, options and schema.
    BuildListingTable,
}

impl ListingAction {
    /// The actions of a resolution, in their order.
    pub open spec fn plan() -> Seq<ListingAction> {
        seq![
            ListingAction::ParseListingUrl,
            ListingAction::BuildListingOptions,
            ListingAction::AcquireSession,
            ListingAction::InferSchema,
            ListingAction::BuildListingTable,
        ]
    }

    /// Where the resolution stands once the action is carried out.
    pub open spec fn succeeded(self) -> ProgressView<ListingAction> {
        match self {
            ListingAction::ParseListingUrl => ProgressView::Perform(
                ListingAction::BuildListingOptions,
            ),
            ListingAction::BuildListingOptions => ProgressView::Perform(
                ListingAction::AcquireSession,
            ),
            ListingAction::AcquireSession => ProgressView::Perform(ListingAction::InferSchema),
            ListingAction::InferSchema => ProgressView::Perform(ListingAction::BuildListingTable),
            ListingAction::BuildListingTable => ProgressView::Ready,
        }
    }

    /// The failure of the resolution when the action fails for `cause`. A table
    /// that cannot be built lacks its schema.
    pub open spec fn failure(self, cause: Seq<char>) -> ProviderFailure {
        match self {
            ListingAction::ParseListingUrl => ProviderFailure::InvalidPath(cause),
            ListingAction::BuildListingOptions => ProviderFailure::UnsupportedExtension(cause),
            ListingAction::AcquireSession => ProviderFailure::SessionUnavailable(cause),
            ListingAction::InferSchema => ProviderFailure::SchemaInferenceFailed(cause),
            ListingAction::BuildListingTable => ProviderFailure::SchemaInferenceFailed(cause),
        }
    }

    /// Where the resolution stands once the action is carried out.
    fn followed_by(self) -> (progress: Progress<ListingAction>)
        ensures
            progress@ == self.succeeded(),
    {
        match self {
            ListingAction::ParseListingUrl => Progress::Perform(ListingAction::BuildListingOptions),
            ListingAction::BuildListingOptions => Progress::Perform(ListingAction::AcquireSession),
            ListingAction::AcquireSession => Progress::Perform(ListingAction::InferSchema),
            ListingAction::InferSchema => Progress::Perform(ListingAction::BuildListingTable),
            ListingAction::BuildListingTable => Progress::Ready,
        }
    }

    /// The error of the resolution when the action fails for `cause`.
    fn failed_for(self, cause: String) -> (error: TableProviderError)
        ensures
            error@ == self.failure(cause@),
    {
        match self {
            ListingAction::ParseListingUrl => TableProviderError::InvalidPath(cause),
            ListingAction::BuildListingOptions => TableProviderError::UnsupportedExtension(cause),
            ListingAction::AcquireSession => TableProviderError::SessionUnavailable(cause),
            ListingAction::InferSchema => TableProviderError::SchemaInferenceFailed(cause),
            ListingAction::BuildListingTable => TableProviderError::SchemaInferenceFailed(cause),
        }
    }
}

/// A listing resolution: what is resolved, and where the resolution stands.
pub struct ListingView {
    pub path: Seq<char>,
    pub extension: Seq<char>,
    pub progress: ProgressView<ListingAction>,
}

impl ListingView {
    /// The resolution before anything is done.
    pub open spec fn start(path: Seq<char>, extension: Seq<char>) -> ListingView {
        ListingView {
            path,
            extension,
            progress: ProgressView::Perform(ListingAction::ParseListingUrl),
        }
    }

    /// The resolution after the outcome of the action it asked for. One that
    /// asks for nothing stays as it is.
    pub open spec fn step(self, outcome: OutcomeView) -> ListingView {
        match self.progress {
            ProgressView::Perform(action) => ListingView {
                progress: match outcome {
                    OutcomeView::Done => action.succeeded(),
                    OutcomeView::Failed(cause) => ProgressView::Failed(action.failure(cause)),
                },
                ..self
            },
            _ => self,
        }
    }

    /// The resolution after the outcomes, one after the other.
    pub open spec fn run(self, outcomes: Seq<OutcomeView>) -> ListingView
        decreases outcomes.len(),
    {
        if outcomes.len() == 0 {
            self
        } else {
            self.step(outcomes[0]).run(outcomes.drop_first())
        }
    }
}

/// The resolution of a path and an extension into a listing table.
#[derive(Debug)]
pub struct ListingResolution {
    path: String,
    extension: String,
    progress: Progress<ListingAction>,
}

impl View for ListingResolution {
    type V = ListingView;

    closed spec fn view(&self) -> ListingView {
        ListingView { path: self.path@, extension: self.extension@, progress: self.progress@ }
    }
}

impl ListingResolution {
    /// The resolution of `path` and `extension` before anything is done.
    pub fn start(path: &str, extension: &str) -> (resolution: ListingResolution)
        ensures
            resolution@ == ListingView::start(path@, extension@),
    {
        ListingResolution {
            path: path.to_owned(),
            extension: extension.to_owned(),
            progress: Progress::Perform(ListingAction::ParseListingUrl),
        }
    }

    /// The path that is resolved.
    pub fn path(&self) -> (path: &str)
        ensures
            path@ == self@.path,
    {
        self.path.as_str()
    }

    /// The extension of the files that make the table.
    pub fn extension(&self) -> (extension: &str)
        ensures
            extension@ == self@.extension,
    {
        self.extension.as_str()
    }

    /// Where the resolution stands: the action to carry out next, or how the
    /// resolution has ended.
    pub fn progress(&self) -> (progress: Progress<ListingAction>)
        ensures
            progress@ == self@.progress,
    {
        self.progress.clone()
    }

    /// Takes the outcome of the action that the resolution asked for. A
    /// resolution that asks for nothing stays as it is.
    pub fn advance(self, outcome: Outcome) -> (next: ListingResolution)
        ensures
            next@ == self@.step(outcome@),
    {
        let ListingResolution { path, extension, progress } = self;
        let progress = match progress {
            Progress::Perform(action) => match outcome {
                Outcome::Done => action.followed_by(),
                Outcome::Failed(cause) => Progress::Failed(action.failed_for(cause)),
            },
            ended => ended,
        };
        ListingResolution { path, extension, progress }
    }
}

impl ListingView {
    /// The resolution of `path` and `extension` once the first `done` actions
    /// of the plan are carried out.
    pub open spec fn after(path: Seq<char>, extension: Seq<char>, done: int) -> ListingView {
        ListingView {
            path,
            extension,
            progress: if 0 <= done < ListingAction::plan().len() {
                ProgressView::Perform(ListingAction::plan()[done])
            } else {
                ProgressView::Ready
            },
        }
    }
}

/// An action that is carried out leads to the next action of the plan, the
/// last one to the table.
proof fn lemma_listing_done_moves_on(path: Seq<char>, extension: Seq<char>, done: int)
    requires
        0 <= done < ListingAction::plan().len(),
    ensures
        ListingView::after(path, extension, done).step(OutcomeView::Done) == ListingView::after(
            path,
            extension,
            done + 1,
        ),
{
}

/// A resolution that has ended stays as it is, whatever it is told.
pub proof fn listing_end_is_final(resolution: ListingView, outcomes: Seq<OutcomeView>)
    requires
        !(resolution.progress is Perform),
    ensures
        resolution.run(outcomes) == resolution,
    decreases outcomes.len(),
{
    if outcomes.len() > 0 {
        listing_end_is_final(resolution, outcomes.drop_first());
    }
}

/// From the point where `done` actions are carried out: further outcomes that
/// are all `Done` carry the resolution along the plan.
proof fn lemma_listing_progress(
    path: Seq<char>,
    extension: Seq<char>,
    done: int,
    outcomes: Seq<OutcomeView>,
)
    requires
        0 <= done,
        done + outcomes.len() <= ListingAction::plan().len(),
        all_done(outcomes, outcomes.len() as int),
    ensures
        ListingView::after(path, extension, done).run(outcomes) == ListingView::after(
            path,
            extension,
            done + outcomes.len(),
        ),
    decreases outcomes.len(),
{
    if outcomes.len() > 0 {
        let rest = outcomes.drop_first();
        assert(outcomes[0] == OutcomeView::Done);
        assert(all_done(rest, rest.len() as int)) by {
            assert forall|i: int| 0 <= i < rest.len() implies rest[i] == OutcomeView::Done by {
                assert(rest[i] == outcomes[i + 1]);
            }
        }
        lemma_listing_done_moves_on(path, extension, done);
        lemma_listing_progress(path, extension, done + 1, rest);
    }
}

/// From the point where `done` actions are carried out: the first outcome that
/// is a failure ends the resolution with the failure of the action it belongs
/// to, whatever follows it.
proof fn lemma_listing_failure(
    path: Seq<char>,
    extension: Seq<char>,
    done: int,
    outcomes: Seq<OutcomeView>,
    at: int,
    cause: Seq<char>,
)
    requires
        0 <= done,
        0 <= at < outcomes.len(),
        done + at < ListingAction::plan().len(),
        all_done(outcomes, at),
        outcomes[at] == OutcomeView::Failed(cause),
    ensures
        ListingView::after(path, extension, done).run(outcomes) == (ListingView {
            path,
            extension,
            progress: ProgressView::Failed(ListingAction::plan()[done + at].failure(cause)),
        }),
    decreases at,
{
    let rest = outcomes.drop_first();
    if at == 0 {
        listing_end_is_final(ListingView::after(path, extension, done).step(outcomes[0]), rest);
    } else {
        assert(outcomes[0] == OutcomeView::Done);
        assert(all_done(rest, at - 1)) by {
            assert forall|i: int| 0 <= i < at - 1 implies rest[i] == OutcomeView::Done by {
                assert(rest[i] == outcomes[i + 1]);
            }
        }
        assert(rest[at - 1] == outcomes[at]);
        lemma_listing_done_moves_on(path, extension, done);
        lemma_listing_failure(path, extension, done + 1, rest, at - 1, cause);
    }
}

/// The actions are asked for in the order of the plan: while every outcome is
/// `Done`, the resolution asks for the action that comes next, and after the
/// last one the table stands.
pub proof fn listing_follows_plan(path: Seq<char>, extension: Seq<char>, outcomes: Seq<OutcomeView>)
    requires
        outcomes.len() <= ListingAction::plan().len(),
        all_done(outcomes, outcomes.len() as int),
    ensures
        ListingView::start(path, extension).run(outcomes) == ListingView::after(
            path,
            extension,
            outcomes.len() as int,
        ),
{
    lemma_listing_progress(path, extension, 0, outcomes);
}

/// The first failure decides: when the action at place `at` of the plan is the
/// first to fail, the resolution ends with the failure of that action and the
/// cause it gave, whatever is reported after it.
pub proof fn listing_first_failure_decides(
    path: Seq<char>,
    extension: Seq<char>,
    outcomes: Seq<OutcomeView>,
    at: int,
    cause: Seq<char>,
)
    requires
        0 <= at < outcomes.len(),
        at < ListingAction::plan().len(),
        all_done(outcomes, at),
        outcomes[at] == OutcomeView::Failed(cause),
    ensures
        ListingView::start(path, extension).run(outcomes).progress == ProgressView::<
            ListingAction,
        >::Failed(ListingAction::plan()[at].failure(cause)),
{
    lemma_listing_failure(path, extension, 0, outcomes, at, cause);
}

/// The table stands exactly when each of the five actions was carried out:
/// no shorter run and no run with a failure among them ends in `Ready`.
pub proof fn listing_ready_needs_every_action(
    path: Seq<char>,
    extension: Seq<char>,
    outcomes: Seq<OutcomeView>,
)
    ensures
        ListingView::start(path, extension).run(outcomes).progress is Ready <==> outcomes.len()
            >= ListingAction::plan().len() && all_done(
            outcomes,
            ListingAction::plan().len() as int,
        ),
{
    let length = ListingAction::plan().len() as int;
    let end = ListingView::start(path, extension).run(outcomes);
    if exists|at: int| 0 <= at < outcomes.len() && at < length && outcomes[at] is Failed {
        let first = lemma_first_failure(outcomes, length, 0);
        lemma_listing_failure(path, extension, 0, outcomes, first, outcomes[first]->Failed_0);
    } else if outcomes.len() <= length {
        assert(all_done(outcomes, outcomes.len() as int)) by {
            assert forall|i: int| 0 <= i < outcomes.len() implies outcomes[i]
                == OutcomeView::Done by {
                assert(!(outcomes[i] is Failed));
            }
        }
        lemma_listing_progress(path, extension, 0, outcomes);
    } else {
        let head = outcomes.subrange(0, length);
        let tail = outcomes.subrange(length, outcomes.len() as int);
        assert(all_done(outcomes, length)) by {
            assert forall|i: int| 0 <= i < length implies outcomes[i] == OutcomeView::Done by {
                assert(!(outcomes[i] is Failed));
            }
        }
        lemma_listing_progress(path, extension, 0, head);
        lemma_listing_run_in_two(ListingView::start(path, extension), outcomes, length);
        listing_end_is_final(ListingView::after(path, extension, length), tail);
    }
}

/// Running through outcomes is running through a first part of them and then
/// through the rest.
proof fn lemma_listing_run_in_two(resolution: ListingView, outcomes: Seq<OutcomeView>, cut: int)
    requires
        0 <= cut <= outcomes.len(),
    ensures
        resolution.run(outcomes) == resolution.run(outcomes.subrange(0, cut)).run(
            outcomes.subrange(cut, outcomes.len() as int),
        ),
    decreases cut,
{
    if cut == 0 {
        assert(outcomes.subrange(0, outcomes.len() as int) == outcomes);
    } else {
        let rest = outcomes.drop_first();
        lemma_listing_run_in_two(resolution.step(outcomes[0]), rest, cut - 1);
        assert(outcomes.subrange(0, cut).drop_first() == rest.subrange(0, cut - 1));
        assert(outcomes.subrange(cut, outcomes.len() as int) == rest.subrange(
            cut - 1,
            rest.len() as int,
        ));
        assert(outcomes.subrange(0, cut)[0] == outcomes[0]);
    }
}

} // verus!
