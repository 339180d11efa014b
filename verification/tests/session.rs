use pyraystack::{ErrorCategory, PrError, Progress, SkySparkClient, Step};

const URL: &str = "http://mock.example.com/api/demo/";

fn proceed(progress: Progress) -> pyraystack::Connecting {
    match progress {
        Progress::Continue(next) => next,
        other => panic!("expected more work, got {:?}", other),
    }
}

fn connect(url: &str) -> Progress {
    let begun = SkySparkClient::new(url, "user", "secret", 30);
    let seeded = proceed(begun.advance(Ok(())));
    let ready = proceed(seeded.advance(Ok(())));
    ready.advance(Ok(()))
}

#[test]
fn building_begins_with_the_runtime() {
    let begun = SkySparkClient::new(URL, "user", "secret", 30);
    assert_eq!(begun.pending(), Step::StartRuntime);
    assert_eq!(begun.project_api_url(), URL);
    assert_eq!(begun.username(), "user");
    assert_eq!(begun.password(), "secret");
    assert_eq!(begun.timeout_in_seconds(), 30);
}

#[test]
fn steps_follow_in_order() {
    let begun = SkySparkClient::new(URL, "user", "secret", 30);
    let seeded = proceed(begun.advance(Ok(())));
    assert_eq!(seeded.pending(), Step::BuildSeed);
    assert_eq!(seeded.timeout_in_seconds(), 30);
    let ready = proceed(seeded.advance(Ok(())));
    assert_eq!(ready.pending(), Step::Authenticate);
    assert_eq!(ready.project_api_url(), URL);
    assert_eq!(ready.username(), "user");
    assert_eq!(ready.password(), "secret");
}

#[test]
fn accepted_authentication_gives_a_session() {
    match connect(URL) {
        Progress::Connected(client) => {
            assert_eq!(client.project_api_url(), URL);
            assert_eq!(client.username(), "user");
            assert_eq!(client.timeout_in_seconds(), 30);
        },
        other => panic!("expected a session, got {:?}", other),
    }
}

#[test]
fn rejected_authentication_fails_with_new_client() {
    let begun = SkySparkClient::new(URL, "user", "secret", 30);
    let seeded = proceed(begun.advance(Ok(())));
    let ready = proceed(seeded.advance(Ok(())));
    let rejected = ready.advance(Err("server answered HTTP 403 Forbidden".to_string()));
    match rejected {
        Progress::Failed(failure) => {
            assert_eq!(failure, PrError::NewClient("server answered HTTP 403 Forbidden".to_string()));
            assert_eq!(failure.category(), ErrorCategory::Authentication);
            assert!(failure.message().contains("403"));
            assert_eq!(failure.message(), "New client error: server answered HTTP 403 Forbidden");
        },
        other => panic!("expected a failure, got {:?}", other),
    }
}

#[test]
fn runtime_failure_ends_the_building() {
    let begun = SkySparkClient::new(URL, "user", "secret", 30);
    let ended = begun.advance(Err("out of threads".to_string()));
    assert_eq!(ended, Progress::Failed(PrError::NewAsyncRuntime("out of threads".to_string())));
}

#[test]
fn seed_failure_ends_the_building() {
    let begun = SkySparkClient::new(URL, "user", "secret", 30);
    let seeded = proceed(begun.advance(Ok(())));
    let ended = seeded.advance(Err("Could not create a new client seed".to_string()));
    assert_eq!(
        ended,
        Progress::Failed(PrError::ClientSeed("Could not create a new client seed".to_string()))
    );
}

#[test]
fn unparsable_url_fails_before_authentication() {
    let begun = SkySparkClient::new("not a url", "user", "secret", 30);
    let seeded = proceed(begun.advance(Ok(())));
    let ended = seeded.advance(Ok(()));
    assert_eq!(
        ended,
        Progress::Failed(PrError::UrlParse("relative URL without a base".to_string()))
    );
}

#[test]
fn unparsable_url_message() {
    let begun = SkySparkClient::new("http://[::1", "user", "secret", 30);
    let seeded = proceed(begun.advance(Ok(())));
    match seeded.advance(Ok(())) {
        Progress::Failed(failure) => {
            assert_eq!(failure.category(), ErrorCategory::UrlParse);
            assert_eq!(failure.message(), "Url parse error: invalid IPv6 address");
        },
        other => panic!("expected a failure, got {:?}", other),
    }
}

#[test]
fn runtime_failure_comes_before_the_url_is_looked_at() {
    let begun = SkySparkClient::new("not a url", "user", "secret", 30);
    let ended = begun.advance(Err("no runtime".to_string()));
    assert_eq!(ended, Progress::Failed(PrError::NewAsyncRuntime("no runtime".to_string())));
}

#[test]
fn seed_failure_comes_before_the_url_is_looked_at() {
    let begun = SkySparkClient::new("not a url", "user", "secret", 30);
    let seeded = proceed(begun.advance(Ok(())));
    let ended = seeded.advance(Err("no seed".to_string()));
    assert_eq!(ended, Progress::Failed(PrError::ClientSeed("no seed".to_string())));
}

#[test]
fn zero_timeout_is_carried_as_given() {
    let begun = SkySparkClient::new(URL, "user", "secret", 0);
    let seeded = proceed(begun.advance(Ok(())));
    assert_eq!(seeded.timeout_in_seconds(), 0);
}

#[test]
fn finish_write_reports_remote_failure_once() {
    let client = match connect(URL) {
        Progress::Connected(client) => client,
        other => panic!("expected a session, got {:?}", other),
    };
    assert_eq!(client.finish_write(Ok(())), Ok(()));
    assert_eq!(
        client.finish_write(Err("Server returned an error grid".to_string())),
        Err(PrError::Raystack("Server returned an error grid".to_string()))
    );
}
