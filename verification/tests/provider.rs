use pg_lakehouse::datafusion::delta::{located, DeltaAction, DeltaResolution};
use pg_lakehouse::datafusion::listing::{ListingAction, ListingResolution};
use pg_lakehouse::datafusion::provider::{
    create_delta_provider, create_listing_provider, ObjectStoreUrl, Outcome, Progress,
    TableProviderError,
};
use url::Url;

fn failed(cause: &str) -> Outcome {
    Outcome::Failed(cause.to_string())
}

fn listing_after(done: usize) -> ListingResolution {
    let mut resolution = create_listing_provider("s3://bucket/data/", "parquet");
    for _ in 0..done {
        resolution = resolution.advance(Outcome::Done);
    }
    resolution
}

fn delta_after(done: usize) -> DeltaResolution {
    let mut resolution = create_delta_provider("s3://bucket/table", "parquet");
    for _ in 0..done {
        resolution = resolution.advance(Outcome::Done);
    }
    resolution
}

#[test]
fn listing_starts_with_parsing_the_path() {
    let resolution = create_listing_provider("s3://bucket/data/", "parquet");
    assert_eq!(resolution.path(), "s3://bucket/data/");
    assert_eq!(resolution.extension(), "parquet");
    assert_eq!(
        resolution.progress(),
        Progress::Perform(ListingAction::ParseListingUrl)
    );
}

#[test]
fn listing_asks_for_its_actions_in_order() {
    let plan = [
        ListingAction::ParseListingUrl,
        ListingAction::BuildListingOptions,
        ListingAction::AcquireSession,
        ListingAction::InferSchema,
        ListingAction::BuildListingTable,
    ];
    for (done, action) in plan.iter().enumerate() {
        assert_eq!(listing_after(done).progress(), Progress::Perform(*action));
    }
}

#[test]
fn listing_of_three_parquet_files_succeeds() {
    let resolution = listing_after(5);
    assert_eq!(resolution.progress(), Progress::Ready);
    assert_eq!(resolution.path(), "s3://bucket/data/");
    assert_eq!(resolution.extension(), "parquet");
}

#[test]
fn listing_is_not_ready_one_action_early() {
    assert_ne!(listing_after(4).progress(), Progress::Ready);
}

#[test]
fn empty_listing_fails_schema_inference() {
    let resolution = listing_after(3).advance(failed("no files found under the path"));
    assert_eq!(
        resolution.progress(),
        Progress::Failed(TableProviderError::SchemaInferenceFailed(
            "no files found under the path".to_string()
        ))
    );
}

#[test]
fn listing_failure_is_named_after_the_action_that_failed() {
    let cause = || "cause".to_string();
    let expected = [
        TableProviderError::InvalidPath(cause()),
        TableProviderError::UnsupportedExtension(cause()),
        TableProviderError::SessionUnavailable(cause()),
        TableProviderError::SchemaInferenceFailed(cause()),
        TableProviderError::SchemaInferenceFailed(cause()),
    ];
    for (done, error) in expected.into_iter().enumerate() {
        let resolution = listing_after(done).advance(failed("cause"));
        assert_eq!(resolution.progress(), Progress::Failed(error));
    }
}

#[test]
fn listing_that_failed_stays_failed() {
    let resolution = listing_after(1)
        .advance(failed("no reader for extension 'orc'"))
        .advance(Outcome::Done)
        .advance(failed("later"))
        .advance(Outcome::Done);
    assert_eq!(
        resolution.progress(),
        Progress::Failed(TableProviderError::UnsupportedExtension(
            "no reader for extension 'orc'".to_string()
        ))
    );
}

#[test]
fn listing_that_is_ready_stays_ready() {
    let resolution = listing_after(5).advance(failed("too late")).advance(Outcome::Done);
    assert_eq!(resolution.progress(), Progress::Ready);
}

#[test]
fn listing_start_is_the_entry_point() {
    let resolution = ListingResolution::start("/data/files", "csv");
    assert_eq!(resolution.path(), "/data/files");
    assert_eq!(resolution.extension(), "csv");
    assert_eq!(
        resolution.progress(),
        Progress::Perform(ListingAction::ParseListingUrl)
    );
}

#[test]
fn delta_with_another_extension_fails_before_anything_is_asked_for() {
    let resolution = create_delta_provider("s3://bucket/table", "csv");
    assert_eq!(
        resolution.progress(),
        Progress::Failed(TableProviderError::IncompatibleExtension(
            "csv".to_string(),
            "delta".to_string()
        ))
    );
    assert!(resolution.object_store_url().is_none());
}

#[test]
fn delta_extension_is_compared_letter_for_letter() {
    for extension in ["", "Parquet", "parquet ", ".parquet", "PARQUET"] {
        let resolution = create_delta_provider("s3://bucket/table", extension);
        assert_eq!(
            resolution.progress(),
            Progress::Failed(TableProviderError::IncompatibleExtension(
                extension.to_string(),
                "delta".to_string()
            ))
        );
    }
}

#[test]
fn delta_with_another_extension_does_not_look_at_the_path() {
    let resolution = create_delta_provider("not a url", "json");
    assert_eq!(
        resolution.progress(),
        Progress::Failed(TableProviderError::IncompatibleExtension(
            "json".to_string(),
            "delta".to_string()
        ))
    );
}

#[test]
fn delta_that_failed_at_the_start_stays_failed() {
    let resolution = create_delta_provider("s3://bucket/table", "csv")
        .advance(Outcome::Done)
        .advance(Outcome::Done)
        .advance(failed("later"));
    assert_eq!(
        resolution.progress(),
        Progress::Failed(TableProviderError::IncompatibleExtension(
            "csv".to_string(),
            "delta".to_string()
        ))
    );
    assert!(resolution.object_store_url().is_none());
}

#[test]
fn delta_starts_with_registering_the_handlers() {
    let resolution = create_delta_provider("s3://bucket/table", "parquet");
    assert_eq!(resolution.path(), "s3://bucket/table");
    assert_eq!(resolution.extension(), "parquet");
    assert_eq!(
        resolution.progress(),
        Progress::Perform(DeltaAction::RegisterHandlers)
    );
    assert!(resolution.object_store_url().is_none());
}

#[test]
fn delta_asks_for_its_actions_in_order() {
    let plan = [
        DeltaAction::RegisterHandlers,
        DeltaAction::AcquireSession,
        DeltaAction::ResolveObjectStore,
        DeltaAction::EnsureTableUri,
        DeltaAction::LoadTable,
    ];
    for (done, action) in plan.iter().enumerate() {
        assert_eq!(delta_after(done).progress(), Progress::Perform(*action));
    }
    assert_eq!(delta_after(5).progress(), Progress::Ready);
}

#[test]
fn delta_parses_the_path_once_the_handlers_are_registered() {
    let resolution = delta_after(1);
    let url = resolution.object_store_url().unwrap();
    assert_eq!(url.0.scheme(), "s3");
    assert_eq!(url.0.host_str(), Some("bucket"));
    assert_eq!(url.0.path(), "/table");
    assert_eq!(url.as_ref().as_str(), "s3://bucket/table");
}

#[test]
fn delta_keeps_the_url_to_the_end() {
    let resolution = delta_after(5);
    assert_eq!(
        resolution.object_store_url().unwrap().0,
        Url::parse("s3://bucket/table").unwrap()
    );
}

#[test]
fn delta_path_that_is_no_url_is_an_invalid_path() {
    let resolution = create_delta_provider("bucket/table", "parquet").advance(Outcome::Done);
    assert_eq!(
        resolution.progress(),
        Progress::Failed(TableProviderError::InvalidPath(
            "relative URL without a base".to_string()
        ))
    );
    assert!(resolution.object_store_url().is_none());
}

#[test]
fn delta_path_with_a_bad_port_is_an_invalid_path() {
    let resolution =
        create_delta_provider("https://host:99999/table", "parquet").advance(Outcome::Done);
    assert_eq!(
        resolution.progress(),
        Progress::Failed(TableProviderError::InvalidPath("invalid port number".to_string()))
    );
}

#[test]
fn delta_path_is_not_parsed_when_registration_fails() {
    let resolution = create_delta_provider("bucket/table", "parquet").advance(failed("cause"));
    assert_eq!(
        resolution.progress(),
        Progress::Failed(TableProviderError::ManagedTableLoadFailed("cause".to_string()))
    );
}

#[test]
fn delta_failure_is_named_after_the_action_that_failed() {
    let cause = || "cause".to_string();
    let expected = [
        TableProviderError::ManagedTableLoadFailed(cause()),
        TableProviderError::SessionUnavailable(cause()),
        TableProviderError::ObjectStoreUnresolved(cause()),
        TableProviderError::InvalidPath(cause()),
        TableProviderError::ManagedTableLoadFailed(cause()),
    ];
    for (done, error) in expected.into_iter().enumerate() {
        let resolution = delta_after(done).advance(failed("cause"));
        assert_eq!(resolution.progress(), Progress::Failed(error));
    }
}

#[test]
fn delta_that_failed_stays_failed() {
    let resolution = delta_after(2)
        .advance(failed("no object store for s3://bucket"))
        .advance(Outcome::Done)
        .advance(failed("later"));
    assert_eq!(
        resolution.progress(),
        Progress::Failed(TableProviderError::ObjectStoreUnresolved(
            "no object store for s3://bucket".to_string()
        ))
    );
}

#[test]
fn delta_that_is_ready_stays_ready() {
    let resolution = delta_after(5).advance(failed("too late")).advance(Outcome::Done);
    assert_eq!(resolution.progress(), Progress::Ready);
}

#[test]
fn delta_start_is_the_entry_point() {
    let resolution = DeltaResolution::start("file:///tmp/table", "parquet");
    assert_eq!(resolution.path(), "file:///tmp/table");
    assert_eq!(
        resolution.progress(),
        Progress::Perform(DeltaAction::RegisterHandlers)
    );
}

#[test]
fn located_wraps_the_url() {
    let url = located(Url::parse("gs://bucket/a/b")).unwrap();
    assert_eq!(url.0.as_str(), "gs://bucket/a/b");
}

#[test]
fn located_names_what_the_parser_objects_to() {
    let error = located(Url::parse("https://")).unwrap_err();
    assert_eq!(error, TableProviderError::InvalidPath("empty host".to_string()));
}

#[test]
fn object_store_url_gives_its_url() {
    let url = ObjectStoreUrl(Url::parse("az://container/path").unwrap());
    let inner: &Url = url.as_ref();
    assert_eq!(inner.as_str(), "az://container/path");
}

#[test]
fn message_of_an_incompatible_extension_names_extension_and_format() {
    let error = TableProviderError::IncompatibleExtension("csv".to_string(), "delta".to_string());
    assert_eq!(
        error.message(),
        "File extension 'csv' is not supported for table format 'delta', extension must be 'parquet'"
    );
}

#[test]
fn message_of_a_wrapped_failure_is_the_cause_as_given() {
    let cause = || "connection reset by peer".to_string();
    for error in [
        TableProviderError::InvalidPath(cause()),
        TableProviderError::UnsupportedExtension(cause()),
        TableProviderError::SessionUnavailable(cause()),
        TableProviderError::SchemaInferenceFailed(cause()),
        TableProviderError::ObjectStoreUnresolved(cause()),
        TableProviderError::ManagedTableLoadFailed(cause()),
    ] {
        assert_eq!(error.message(), "connection reset by peer");
    }
}

#[test]
fn provider_error_clone_is_equal() {
    let error = TableProviderError::IncompatibleExtension("csv".to_string(), "delta".to_string());
    assert_eq!(error.clone(), error);
    let error = TableProviderError::InvalidPath("empty host".to_string());
    assert_eq!(error.clone(), error);
}

#[test]
fn progress_clone_is_equal() {
    let progress = Progress::<DeltaAction>::Failed(TableProviderError::SessionUnavailable(
        "no session".to_string(),
    ));
    assert_eq!(progress.clone(), progress);
    assert_eq!(
        Progress::Perform(ListingAction::InferSchema).clone(),
        Progress::Perform(ListingAction::InferSchema)
    );
}

fn actions_asked_for(mut resolution: DeltaResolution) -> usize {
    let mut asked = 0;
    while let Progress::Perform(_) = resolution.progress() {
        asked += 1;
        resolution = resolution.advance(Outcome::Done);
    }
    asked
}

#[test]
fn delta_with_another_extension_asks_for_no_action() {
    assert_eq!(actions_asked_for(create_delta_provider("s3://bucket/table", "csv")), 0);
    assert_eq!(actions_asked_for(create_delta_provider("s3://bucket/table", "parquet")), 5);
}

#[test]
fn delta_with_a_path_that_is_no_url_asks_for_one_action() {
    assert_eq!(actions_asked_for(create_delta_provider("bucket/table", "parquet")), 1);
}
