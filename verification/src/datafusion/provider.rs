//! The two entry points of table resolution, and what both formats share.
//!
//! A resolution asks for one outside action at a time and is told what became
//! of it. It never acts itself: reading the object store, the session and the
//! table metadata is the caller's work. What it decides is the order of the
//! actions, when to stop, and which error a failure stands for.

use super::delta::{DeltaAction, DeltaResolution, DeltaView};
use super::listing::{ListingAction, ListingResolution, ListingView};
use url::Url;
use vstd::prelude::*;
use vstd::string::StringExecFns;

verus! {

/// `url::Url`, a parsed URL. It is carried along and never looked into.
#[verifier::external_type_specification]
#[verifier::external_body]
pub struct ExUrl(Url);

/// The URL under which the session keeps an object store.
#[derive(Debug)]
pub struct ObjectStoreUrl(pub Url);

impl AsRef<Url> for ObjectStoreUrl {
    fn as_ref(&self) -> (url: &Url)
        ensures
            *url == self.0,
    {
        &self.0
    }
}

/// Why a table could not be resolved, with strings as sequences of characters.
pub enum ProviderFailure {
    InvalidPath(Seq<char>),
    UnsupportedExtension(Seq<char>),
    IncompatibleExtension(Seq<char>, Seq<char>),
    SessionUnavailable(Seq<char>),
    SchemaInferenceFailed(Seq<char>),
    ObjectStoreUnresolved(Seq<char>),
    ManagedTableLoadFailed(Seq<char>),
}

/// Why a table could not be resolved. But for `IncompatibleExtension`, a
/// variant holds the description that the failing part gave of its error.
#[derive(Debug, PartialEq, Eq)]
pub enum TableProviderError {
    /// The path is no URL, no listing target or no table location.
    InvalidPath(String),
    /// No reader is registered for the extension.
    UnsupportedExtension(String),
    /// The extension, and the table format that does not take it.
    IncompatibleExtension(String, String),
    /// There is no session to resolve in.
    SessionUnavailable(String),
    /// No schema could be had from the files under the path.
    SchemaInferenceFailed(String),
    /// The session has no object store for the URL.
    ObjectStoreUnresolved(String),
    /// The metadata of the managed table could not be loaded.
    ManagedTableLoadFailed(String),
}

impl View for TableProviderError {
    type V = ProviderFailure;

    open spec fn view(&self) -> ProviderFailure {
        match self {
            TableProviderError::InvalidPath(cause) => ProviderFailure::InvalidPath(cause@),
            TableProviderError::UnsupportedExtension(cause) => ProviderFailure::UnsupportedExtension(
                cause@,
            ),
            TableProviderError::IncompatibleExtension(extension, format) => {
                ProviderFailure::IncompatibleExtension(extension@, format@)
            },
            TableProviderError::SessionUnavailable(cause) => ProviderFailure::SessionUnavailable(
                cause@,
            ),
            TableProviderError::SchemaInferenceFailed(cause) => {
                ProviderFailure::SchemaInferenceFailed(cause@)
            },
            TableProviderError::ObjectStoreUnresolved(cause) => {
                ProviderFailure::ObjectStoreUnresolved(cause@)
            },
            TableProviderError::ManagedTableLoadFailed(cause) => {
                ProviderFailure::ManagedTableLoadFailed(cause@)
            },
        }
    }
}

impl Clone for TableProviderError {
    fn clone(&self) -> (copy: Self)
        ensures
            copy@ == self@,
    {
        match self {
            TableProviderError::InvalidPath(cause) => TableProviderError::InvalidPath(cause.clone()),
            TableProviderError::UnsupportedExtension(cause) => {
                TableProviderError::UnsupportedExtension(cause.clone())
            },
            TableProviderError::IncompatibleExtension(extension, format) => {
                TableProviderError::IncompatibleExtension(extension.clone(), format.clone())
            },
            TableProviderError::SessionUnavailable(cause) => TableProviderError::SessionUnavailable(
                cause.clone(),
            ),
            TableProviderError::SchemaInferenceFailed(cause) => {
                TableProviderError::SchemaInferenceFailed(cause.clone())
            },
            TableProviderError::ObjectStoreUnresolved(cause) => {
                TableProviderError::ObjectStoreUnresolved(cause.clone())
            },
            TableProviderError::ManagedTableLoadFailed(cause) => {
                TableProviderError::ManagedTableLoadFailed(cause.clone())
            },
        }
    }
}

impl ProviderFailure {
    /// The message of the failure: for a mismatch of extension and format a
    /// sentence that names both, otherwise the description of the cause as it
    /// was given.
    pub open spec fn message(self) -> Seq<char> {
        match self {
            ProviderFailure::InvalidPath(cause) => cause,
            ProviderFailure::UnsupportedExtension(cause) => cause,
            ProviderFailure::IncompatibleExtension(extension, format) => {
                "File extension '"@ + extension + "' is not supported for table format '"@ + format
                    + "', extension must be 'parquet'"@
            },
            ProviderFailure::SessionUnavailable(cause) => cause,
            ProviderFailure::SchemaInferenceFailed(cause) => cause,
            ProviderFailure::ObjectStoreUnresolved(cause) => cause,
            ProviderFailure::ManagedTableLoadFailed(cause) => cause,
        }
    }
}

impl TableProviderError {
    /// The message of the error.
    pub fn message(&self) -> (text: String)
        ensures
            text@ == self@.message(),
    {
        match self {
            TableProviderError::InvalidPath(cause) => cause.clone(),
            TableProviderError::UnsupportedExtension(cause) => cause.clone(),
            TableProviderError::IncompatibleExtension(extension, format) => {
                let mut text = String::from_str("File extension '");
                text.append(extension.as_str());
                text.append("' is not supported for table format '");
                text.append(format.as_str());
                text.append("', extension must be 'parquet'");
                text
            },
            TableProviderError::SessionUnavailable(cause) => cause.clone(),
            TableProviderError::SchemaInferenceFailed(cause) => cause.clone(),
            TableProviderError::ObjectStoreUnresolved(cause) => cause.clone(),
            TableProviderError::ManagedTableLoadFailed(cause) => cause.clone(),
        }
    }
}

/// What became of an action, with strings as sequences of characters.
pub enum OutcomeView {
    Done,
    Failed(Seq<char>),
}

/// What became of the action that a resolution asked for.
#[derive(Debug, PartialEq, Eq)]
pub enum Outcome {
    /// The action was carried out.
    Done,
    /// The action failed; the string is the description of its error.
    Failed(String),
}

impl View for Outcome {
    type V = OutcomeView;

    open spec fn view(&self) -> OutcomeView {
        match self {
            Outcome::Done => OutcomeView::Done,
            Outcome::Failed(cause) => OutcomeView::Failed(cause@),
        }
    }
}

/// Whether the first `count` outcomes are all `Done`.
pub open spec fn all_done(outcomes: Seq<OutcomeView>, count: int) -> bool {
    forall|i: int| 0 <= i < count ==> outcomes[i] == OutcomeView::Done
}

/// Finds the first failure, given that there is one among the first `limit`
/// outcomes and none among the first `from`.
pub proof fn lemma_first_failure(outcomes: Seq<OutcomeView>, limit: int, from: int) -> (at: int)
    requires
        0 <= from,
        all_done(outcomes, from),
        exists|i: int| from <= i < outcomes.len() && i < limit && outcomes[i] is Failed,
    ensures
        from <= at < outcomes.len(),
        at < limit,
        outcomes[at] is Failed,
        all_done(outcomes, at),
    decreases outcomes.len() - from,
{
    if outcomes[from] is Failed {
        from
    } else {
        lemma_first_failure(outcomes, limit, from + 1)
    }
}

/// Where a resolution stands, with strings as sequences of characters.
pub enum ProgressView<A> {
    Perform(A),
    Ready,
    Failed(ProviderFailure),
}

/// Where a resolution stands.
#[derive(Debug, PartialEq, Eq)]
pub enum Progress<A> {
    /// The caller is to carry out this action and report its outcome.
    Perform(A),
    /// Every action was carried out: the table provider stands.
    Ready,
    /// The resolution has failed, and nothing is left to do.
    Failed(TableProviderError),
}

impl<A> View for Progress<A> {
    type V = ProgressView<A>;

    open spec fn view(&self) -> ProgressView<A> {
        match self {
            Progress::Perform(action) => ProgressView::Perform(*action),
            Progress::Ready => ProgressView::Ready,
            Progress::Failed(error) => ProgressView::Failed(error@),
        }
    }
}

impl<A: Copy> Clone for Progress<A> {
    fn clone(&self) -> (copy: Self)
        ensures
            copy@ == self@,
    {
        match self {
            Progress::Perform(action) => Progress::Perform(*action),
            Progress::Ready => Progress::Ready,
            Progress::Failed(error) => Progress::Failed(error.clone()),
        }
    }
}

/// The one file encoding that a managed table takes.
pub open spec fn managed_extension() -> Seq<char> {
    "parquet"@
}

/// The name of the managed table format.
pub open spec fn managed_format() -> Seq<char> {
    "delta"@
}

/// Begins the resolution of the files with `extension` under `path` as one
/// listing table. The first thing asked for is to parse the path.
pub fn create_listing_provider(path: &str, extension: &str) -> (resolution: ListingResolution)
    ensures
        resolution@ == ListingView::start(path@, extension@),
{
    ListingResolution::start(path, extension)
}

/// Begins the resolution of the managed table at `path`. Its files are
/// parquet files: with any other `extension` the resolution has failed before
/// anything is asked for.
pub fn create_delta_provider(path: &str, extension: &str) -> (resolution: DeltaResolution)
    ensures
        resolution@ == DeltaView::start(path@, extension@),
        extension@ != managed_extension() ==> resolution@.progress == ProgressView::<
            DeltaAction,
        >::Failed(ProviderFailure::IncompatibleExtension(extension@, managed_format())),
{
    DeltaResolution::start(path, extension)
}

} // verus!
