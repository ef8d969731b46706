//! A managed table: a directory with versioned metadata that names the schema
//! and the parquet files of the table.

use super::provider::{
    all_done, lemma_first_failure, managed_extension, managed_format, ObjectStoreUrl, Outcome,
    OutcomeView, Progress, ProgressView, ProviderFailure, TableProviderError,
};
use url::{ParseError, Url};
use vstd::prelude::*;

verus! {

/// `url::ParseError`, what the URL parser has against a string. It is known
/// by its description only.
#[verifier::external_type_specification]
#[verifier::external_body]
pub struct ExParseError(ParseError);

/// What `Url::parse` has against `input`: nothing where it parses.
pub uninterp spec fn url_parse_failure(input: Seq<char>) -> Option<ParseError>;

/// The description that a `ParseError` gives of itself.
pub uninterp spec fn parse_error_text(error: ParseError) -> Seq<char>;

/// `url::Url::parse`: parses `input` as an absolute URL. Whether it does, and
/// with which error it does not, depends on `input` alone.
#[verifier::external_body]
fn parse_url(input: &str) -> (parsed: Result<Url, ParseError>)
    ensures
        parsed is Ok <==> url_parse_failure(input@) is None,
        parsed matches Err(error) ==> url_parse_failure(input@) == Some(error),
{
    Url::parse(input)
}

/// `Display` of `url::ParseError`, through `to_string`: the fixed description
/// of the error.
#[verifier::external_body]
fn parse_error_description(error: &ParseError) -> (text: String)
    ensures
        text@ == parse_error_text(*error),
{
    error.to_string()
}

/// The outside actions of a managed table's resolution, in the order of `plan`.
#[derive(Debug, Clone, Copy, PartialEq, Eq, Structural)]
pub enum DeltaAction {
    /// Register the storage handlers of the cloud providers.
    RegisterHandlers,
    /// Get hold of the session.
    AcquireSession,
    /// Look up the object store that the session keeps for the URL.
    ResolveObjectStore,
    /// Bring the path into the form of a table location.
    EnsureTableUri,
    /// Load the metadata of the table from its location.
    LoadTable,
}

impl DeltaAction {
    /// The actions of a resolution, in their order.
    pub open spec fn plan() -> Seq<DeltaAction> {
        seq![
            DeltaAction::RegisterHandlers,
            DeltaAction::AcquireSession,
            DeltaAction::ResolveObjectStore,
            DeltaAction::EnsureTableUri,
            DeltaAction::LoadTable,
        ]
    }

    /// The failure of the resolution when the action fails for `cause`.
    /// Registering handlers is part of loading a managed table.
    pub open spec fn failure(self, cause: Seq<char>) -> ProviderFailure {
        match self {
            DeltaAction::RegisterHandlers => ProviderFailure::ManagedTableLoadFailed(cause),
            DeltaAction::AcquireSession => ProviderFailure::SessionUnavailable(cause),
            DeltaAction::ResolveObjectStore => ProviderFailure::ObjectStoreUnresolved(cause),
            DeltaAction::EnsureTableUri => ProviderFailure::InvalidPath(cause),
            DeltaAction::LoadTable => ProviderFailure::ManagedTableLoadFailed(cause),
        }
    }

    /// The error of the resolution when the action fails for `cause`.
    fn failed_for(self, cause: String) -> (error: TableProviderError)
        ensures
            error@ == self.failure(cause@),
    {
        match self {
            DeltaAction::RegisterHandlers => TableProviderError::ManagedTableLoadFailed(cause),
            DeltaAction::AcquireSession => TableProviderError::SessionUnavailable(cause),
            DeltaAction::ResolveObjectStore => TableProviderError::ObjectStoreUnresolved(cause),
            DeltaAction::EnsureTableUri => TableProviderError::InvalidPath(cause),
            DeltaAction::LoadTable => TableProviderError::ManagedTableLoadFailed(cause),
        }
    }
}

/// What the parsing of a path comes to: the URL of the object store, or the
/// path is invalid for the reason that the parser gives.
pub fn located(parsed: Result<Url, ParseError>) -> (url: Result<ObjectStoreUrl, TableProviderError>)
    ensures
        match parsed {
            Ok(parsed_url) => url matches Ok(store_url) && store_url.0 == parsed_url,
            Err(error) => url matches Err(e) && e@ == ProviderFailure::InvalidPath(
                parse_error_text(error),
            ),
        },
{
    match parsed {
        Ok(url) => Ok(ObjectStoreUrl(url)),
        Err(error) => Err(TableProviderError::InvalidPath(parse_error_description(&error))),
    }
}

/// The resolution of a managed table: what is resolved, whether the path has
/// been parsed into a URL, and where the resolution stands.
pub struct DeltaView {
    pub path: Seq<char>,
    pub extension: Seq<char>,
    pub located: bool,
    pub progress: ProgressView<DeltaAction>,
}

impl DeltaView {
    /// The resolution before anything is done: it has failed already unless
    /// the extension is the one of the format.
    pub open spec fn start(path: Seq<char>, extension: Seq<char>) -> DeltaView {
        DeltaView {
            path,
            extension,
            located: false,
            progress: if extension == managed_extension() {
                ProgressView::Perform(DeltaAction::RegisterHandlers)
            } else {
                ProgressView::Failed(
                    ProviderFailure::IncompatibleExtension(extension, managed_format()),
                )
            },
        }
    }

    /// The resolution once the handlers are registered: the path is parsed as
    /// a URL, and either the session is asked for next or the path is invalid.
    pub open spec fn locate(self) -> DeltaView {
        match url_parse_failure(self.path) {
            None => DeltaView {
                located: true,
                progress: ProgressView::Perform(DeltaAction::AcquireSession),
                ..self
            },
            Some(error) => DeltaView {
                progress: ProgressView::Failed(
                    ProviderFailure::InvalidPath(parse_error_text(error)),
                ),
                ..self
            },
        }
    }

    /// The resolution after the outcome of the action it asked for. One that
    /// asks for nothing stays as it is.
    pub open spec fn step(self, outcome: OutcomeView) -> DeltaView {
        match self.progress {
            ProgressView::Perform(action) => match outcome {
                OutcomeView::Failed(cause) => DeltaView {
                    progress: ProgressView::Failed(action.failure(cause)),
                    ..self
                },
                OutcomeView::Done => match action {
                    DeltaAction::RegisterHandlers => self.locate(),
                    DeltaAction::AcquireSession => DeltaView {
                        progress: ProgressView::Perform(DeltaAction::ResolveObjectStore),
                        ..self
                    },
                    DeltaAction::ResolveObjectStore => DeltaView {
                        progress: ProgressView::Perform(DeltaAction::EnsureTableUri),
                        ..self
                    },
                    DeltaAction::EnsureTableUri => DeltaView {
                        progress: ProgressView::Perform(DeltaAction::LoadTable),
                        ..self
                    },
                    DeltaAction::LoadTable => DeltaView { progress: ProgressView::Ready, ..self },
                },
            },
            _ => self,
        }
    }

    /// The resolution after the outcomes, one after the other.
    pub open spec fn run(self, outcomes: Seq<OutcomeView>) -> DeltaView
        decreases outcomes.len(),
    {
        if outcomes.len() == 0 {
            self
        } else {
            self.step(outcomes[0]).run(outcomes.drop_first())
        }
    }

    /// Whether the URL is there for every action that needs it.
    pub open spec fn consistent(self) -> bool {
        match self.progress {
            ProgressView::Perform(action) => action != DeltaAction::RegisterHandlers
                ==> self.located,
            ProgressView::Ready => self.located,
            ProgressView::Failed(_) => true,
        }
    }
}

/// The resolution of a path and an extension into a managed table.
#[derive(Debug)]
pub struct DeltaResolution {
    path: String,
    extension: String,
    url: Option<ObjectStoreUrl>,
    progress: Progress<DeltaAction>,
}

impl View for DeltaResolution {
    type V = DeltaView;

    closed spec fn view(&self) -> DeltaView {
        DeltaView {
            path: self.path@,
            extension: self.extension@,
            located: self.url is Some,
            progress: self.progress@,
        }
    }
}

impl DeltaResolution {
    /// The URL is there for every action that needs it.
    #[verifier::type_invariant]
    spec fn url_in_time(self) -> bool {
        self@.consistent()
    }

    /// The resolution of `path` and `extension` before anything is done.
    pub fn start(path: &str, extension: &str) -> (resolution: DeltaResolution)
        ensures
            resolution@ == DeltaView::start(path@, extension@),
    {
        let extension = extension.to_owned();
        let progress = if extension == "parquet".to_owned() {
            Progress::Perform(DeltaAction::RegisterHandlers)
        } else {
            Progress::Failed(
                TableProviderError::IncompatibleExtension(extension.clone(), "delta".to_owned()),
            )
        };
        DeltaResolution { path: path.to_owned(), extension, url: None, progress }
    }

    /// The path that is resolved.
    pub fn path(&self) -> (path: &str)
        ensures
            path@ == self@.path,
    {
        self.path.as_str()
    }

    /// The extension that was declared for the table's files.
    pub fn extension(&self) -> (extension: &str)
        ensures
            extension@ == self@.extension,
    {
        self.extension.as_str()
    }

    /// The URL that the path was parsed into. It is there from the moment the
    /// session is asked for.
    pub fn object_store_url(&self) -> (url: Option<&ObjectStoreUrl>)
        ensures
            url is Some <==> self@.located,
            self@.consistent(),
    {
        proof {
            use_type_invariant(self);
        }
        self.url.as_ref()
    }

    /// Where the resolution stands: the action to carry out next, or how the
    /// resolution has ended.
    pub fn progress(&self) -> (progress: Progress<DeltaAction>)
        ensures
            progress@ == self@.progress,
    {
        self.progress.clone()
    }

    /// Takes the outcome of the action that the resolution asked for. Once the
    /// handlers are registered it parses the path itself. A resolution that
    /// asks for nothing stays as it is.
    pub fn advance(self, outcome: Outcome) -> (next: DeltaResolution)
        ensures
            next@ == self@.step(outcome@),
    {
        proof {
            use_type_invariant(&self);
        }
        let DeltaResolution { path, extension, url, progress } = self;
        match progress {
            Progress::Perform(action) => match outcome {
                Outcome::Failed(cause) => DeltaResolution {
                    path,
                    extension,
                    url,
                    progress: Progress::Failed(action.failed_for(cause)),
                },
                Outcome::Done => match action {
                    DeltaAction::RegisterHandlers => match located(parse_url(path.as_str())) {
                        Ok(store_url) => DeltaResolution {
                            path,
                            extension,
                            url: Some(store_url),
                            progress: Progress::Perform(DeltaAction::AcquireSession),
                        },
                        Err(error) => DeltaResolution {
                            path,
                            extension,
                            url,
                            progress: Progress::Failed(error),
                        },
                    },
                    DeltaAction::AcquireSession => DeltaResolution {
                        path,
                        extension,
                        url,
                        progress: Progress::Perform(DeltaAction::ResolveObjectStore),
                    },
                    DeltaAction::ResolveObjectStore => DeltaResolution {
                        path,
                        extension,
                        url,
                        progress: Progress::Perform(DeltaAction::EnsureTableUri),
                    },
                    DeltaAction::EnsureTableUri => DeltaResolution {
                        path,
                        extension,
                        url,
                        progress: Progress::Perform(DeltaAction::LoadTable),
                    },
                    DeltaAction::LoadTable => DeltaResolution {
                        path,
                        extension,
                        url,
                        progress: Progress::Ready,
                    },
                },
            },
            ended => DeltaResolution { path, extension, url, progress: ended },
        }
    }
}

impl DeltaView {
    /// The resolution of `path` and `extension` once the first `done` actions
    /// of the plan are carried out, for a parquet extension and a path that is
    /// a URL.
    pub open spec fn after(path: Seq<char>, extension: Seq<char>, done: int) -> DeltaView {
        DeltaView {
            path,
            extension,
            located: done >= 1,
            progress: if 0 <= done < DeltaAction::plan().len() {
                ProgressView::Perform(DeltaAction::plan()[done])
            } else {
                ProgressView::Ready
            },
        }
    }
}

/// An action that is carried out leads to the next action of the plan, the
/// last one to the table.
proof fn lemma_delta_done_moves_on(path: Seq<char>, extension: Seq<char>, done: int)
    requires
        0 <= done < DeltaAction::plan().len(),
        url_parse_failure(path) is None,
    ensures
        DeltaView::after(path, extension, done).step(OutcomeView::Done) == DeltaView::after(
            path,
            extension,
            done + 1,
        ),
{
}

/// A resolution that has ended stays as it is, whatever it is told.
pub proof fn delta_end_is_final(resolution: DeltaView, outcomes: Seq<OutcomeView>)
    requires
        !(resolution.progress is Perform),
    ensures
        resolution.run(outcomes) == resolution,
    decreases outcomes.len(),
{
    if outcomes.len() > 0 {
        delta_end_is_final(resolution, outcomes.drop_first());
    }
}

/// From the point where `done` actions are carried out: further outcomes that
/// are all `Done` carry the resolution along the plan.
proof fn lemma_delta_progress(
    path: Seq<char>,
    extension: Seq<char>,
    done: int,
    outcomes: Seq<OutcomeView>,
)
    requires
        0 <= done,
        done + outcomes.len() <= DeltaAction::plan().len(),
        all_done(outcomes, outcomes.len() as int),
        url_parse_failure(path) is None,
    ensures
        DeltaView::after(path, extension, done).run(outcomes) == DeltaView::after(
            path,
            extension,
            done + outcomes.len(),
        ),
    decreases outcomes.len(),
{
    if outcomes.len() > 0 {
        let rest = outcomes.drop_first();
        assert(outcomes[0] == OutcomeView::Done);
        assert(all_done(rest, rest.len() as int)) by {
            assert forall|i: int| 0 <= i < rest.len() implies rest[i] == OutcomeView::Done by {
                assert(rest[i] == outcomes[i + 1]);
            }
        }
        lemma_delta_done_moves_on(path, extension, done);
        lemma_delta_progress(path, extension, done + 1, rest);
    }
}

/// From the point where `done` actions are carried out: the first outcome that
/// is a failure ends the resolution with the failure of the action it belongs
/// to, whatever follows it.
proof fn lemma_delta_failure(
    path: Seq<char>,
    extension: Seq<char>,
    done: int,
    outcomes: Seq<OutcomeView>,
    at: int,
    cause: Seq<char>,
)
    requires
        0 <= done,
        0 <= at < outcomes.len(),
        done + at < DeltaAction::plan().len(),
        all_done(outcomes, at),
        outcomes[at] == OutcomeView::Failed(cause),
        at > 0 ==> url_parse_failure(path) is None,
    ensures
        DeltaView::after(path, extension, done).run(outcomes).progress == ProgressView::<
            DeltaAction,
        >::Failed(DeltaAction::plan()[done + at].failure(cause)),
    decreases at,
{
    let rest = outcomes.drop_first();
    if at == 0 {
        delta_end_is_final(DeltaView::after(path, extension, done).step(outcomes[0]), rest);
    } else {
        assert(outcomes[0] == OutcomeView::Done);
        assert(all_done(rest, at - 1)) by {
            assert forall|i: int| 0 <= i < at - 1 implies rest[i] == OutcomeView::Done by {
                assert(rest[i] == outcomes[i + 1]);
            }
        }
        assert(rest[at - 1] == outcomes[at]);
        lemma_delta_done_moves_on(path, extension, done);
        lemma_delta_failure(path, extension, done + 1, rest, at - 1, cause);
    }
}

/// Running through outcomes is running through a first part of them and then
/// through the rest.
proof fn lemma_delta_run_in_two(resolution: DeltaView, outcomes: Seq<OutcomeView>, cut: int)
    requires
        0 <= cut <= outcomes.len(),
    ensures
        resolution.run(outcomes) == resolution.run(outcomes.subrange(0, cut)).run(
            outcomes.subrange(cut, outcomes.len() as int),
        ),
    decreases cut,
{
    if cut == 0 {
        assert(outcomes.subrange(0, outcomes.len() as int) == outcomes);
    } else {
        let rest = outcomes.drop_first();
        lemma_delta_run_in_two(resolution.step(outcomes[0]), rest, cut - 1);
        assert(outcomes.subrange(0, cut).drop_first() == rest.subrange(0, cut - 1));
        assert(outcomes.subrange(cut, outcomes.len() as int) == rest.subrange(
            cut - 1,
            rest.len() as int,
        ));
        assert(outcomes.subrange(0, cut)[0] == outcomes[0]);
    }
}

/// With an extension other than the one of the format the resolution has
/// failed from the start: it asks for no action, and no outcome moves it.
pub proof fn delta_wrong_extension_asks_nothing(
    path: Seq<char>,
    extension: Seq<char>,
    outcomes: Seq<OutcomeView>,
)
    requires
        extension != managed_extension(),
    ensures
        DeltaView::start(path, extension).progress == ProgressView::<DeltaAction>::Failed(
            ProviderFailure::IncompatibleExtension(extension, managed_format()),
        ),
        DeltaView::start(path, extension).run(outcomes) == DeltaView::start(path, extension),
{
    delta_end_is_final(DeltaView::start(path, extension), outcomes);
}

/// The actions are asked for in the order of the plan: for a parquet extension
/// and a path that is a URL, while every outcome is `Done`, the resolution asks
/// for the action that comes next, and after the last one the table stands.
pub proof fn delta_follows_plan(path: Seq<char>, extension: Seq<char>, outcomes: Seq<OutcomeView>)
    requires
        extension == managed_extension(),
        url_parse_failure(path) is None,
        outcomes.len() <= DeltaAction::plan().len(),
        all_done(outcomes, outcomes.len() as int),
    ensures
        DeltaView::start(path, extension).run(outcomes) == DeltaView::after(
            path,
            extension,
            outcomes.len() as int,
        ),
{
    lemma_delta_progress(path, extension, 0, outcomes);
}

/// A path that is no URL ends the resolution as soon as the handlers are
/// registered, with the parser's description of what is wrong with it.
pub proof fn delta_invalid_path_fails(
    path: Seq<char>,
    extension: Seq<char>,
    outcomes: Seq<OutcomeView>,
)
    requires
        extension == managed_extension(),
        url_parse_failure(path) is Some,
        outcomes.len() > 0,
        outcomes[0] == OutcomeView::Done,
    ensures
        DeltaView::start(path, extension).run(outcomes).progress == ProgressView::<
            DeltaAction,
        >::Failed(ProviderFailure::InvalidPath(parse_error_text(url_parse_failure(path)->0))),
{
    delta_end_is_final(
        DeltaView::start(path, extension).step(outcomes[0]),
        outcomes.drop_first(),
    );
}

/// The first failure decides: when the action at place `at` of the plan is the
/// first to fail, the resolution ends with the failure of that action and the
/// cause it gave, whatever is reported after it. For an action after the
/// registration this supposes that the path is a URL.
pub proof fn delta_first_failure_decides(
    path: Seq<char>,
    extension: Seq<char>,
    outcomes: Seq<OutcomeView>,
    at: int,
    cause: Seq<char>,
)
    requires
        extension == managed_extension(),
        at > 0 ==> url_parse_failure(path) is None,
        0 <= at < outcomes.len(),
        at < DeltaAction::plan().len(),
        all_done(outcomes, at),
        outcomes[at] == OutcomeView::Failed(cause),
    ensures
        DeltaView::start(path, extension).run(outcomes).progress == ProgressView::<
            DeltaAction,
        >::Failed(DeltaAction::plan()[at].failure(cause)),
{
    lemma_delta_failure(path, extension, 0, outcomes, at, cause);
}

/// The table stands exactly when the extension is the one of the format, the
/// path is a URL, and each of the five actions was carried out.
pub proof fn delta_ready_needs_every_action(
    path: Seq<char>,
    extension: Seq<char>,
    outcomes: Seq<OutcomeView>,
)
    ensures
        DeltaView::start(path, extension).run(outcomes).progress is Ready <==> extension
            == managed_extension() && url_parse_failure(path) is None && outcomes.len()
            >= DeltaAction::plan().len() && all_done(outcomes, DeltaAction::plan().len() as int),
{
    let length = DeltaAction::plan().len() as int;
    let start = DeltaView::start(path, extension);
    if extension != managed_extension() {
        delta_end_is_final(start, outcomes);
    } else if outcomes.len() == 0 {
    } else if outcomes[0] is Failed {
        lemma_delta_failure(path, extension, 0, outcomes, 0, outcomes[0]->Failed_0);
    } else if url_parse_failure(path) is Some {
        delta_invalid_path_fails(path, extension, outcomes);
    } else if exists|at: int| 0 <= at < outcomes.len() && at < length && outcomes[at] is Failed {
        let first = lemma_first_failure(outcomes, length, 0);
        lemma_delta_failure(path, extension, 0, outcomes, first, outcomes[first]->Failed_0);
    } else if outcomes.len() <= length {
        assert(all_done(outcomes, outcomes.len() as int)) by {
            assert forall|i: int| 0 <= i < outcomes.len() implies outcomes[i]
                == OutcomeView::Done by {
                assert(!(outcomes[i] is Failed));
            }
        }
        lemma_delta_progress(path, extension, 0, outcomes);
    } else {
        let head = outcomes.subrange(0, length);
        let tail = outcomes.subrange(length, outcomes.len() as int);
        assert(all_done(outcomes, length)) by {
            assert forall|i: int| 0 <= i < length implies outcomes[i] == OutcomeView::Done by {
                assert(!(outcomes[i] is Failed));
            }
        }
        lemma_delta_progress(path, extension, 0, head);
        lemma_delta_run_in_two(start, outcomes, length);
        delta_end_is_final(DeltaView::after(path, extension, length), tail);
    }
}

} // verus!
