use shishabot::{
    backoff_ms, error_for_status, get_request_plan, map_file_step, map_file_url,
    post_request_plan, ClientError, FetchOutcome, HttpMethod, HttpRatelimiters, RetryStep, Site,
    StatusError, MAP_FILE_ATTEMPTS,
};

#[test]
fn status_policy_splits_at_4xx() {
    let body = b"content".to_vec();
    assert_eq!(error_for_status(200, "https://example.org", body.clone()).unwrap(), body);
    assert!(error_for_status(399, "https://example.org", body.clone()).is_ok());

    let err = error_for_status(404, "https://example.org/x", body.clone()).unwrap_err();
    assert_eq!(err.status, 404);
    assert_eq!(err.url, "https://example.org/x");
    assert_eq!(
        err.message(),
        "failed with status code 404 when requesting https://example.org/x"
    );

    assert!(error_for_status(500, "https://example.org", body).is_err());
}

#[test]
fn per_site_rates_match_the_table() {
    let limiters = HttpRatelimiters::new();

    assert_eq!(limiters.get(Site::DiscordAttachment).max(), 2);
    assert_eq!(limiters.get(Site::Huismetbenen).max(), 2);
    assert_eq!(limiters.get(Site::Osekai).max(), 2);
    assert_eq!(limiters.get(Site::OsuAvatar).max(), 10);
    assert_eq!(limiters.get(Site::OsuBadge).max(), 10);
    assert_eq!(limiters.get(Site::OsuMapFile).max(), 5);
    assert_eq!(limiters.get(Site::OsuMapsetCover).max(), 10);
    assert_eq!(limiters.get(Site::OsuStats).max(), 2);
    assert_eq!(limiters.get(Site::OsuTracker).max(), 2);
    assert_eq!(limiters.get(Site::Respektive).max(), 1);

    assert_eq!(limiters.get(Site::OsuMapFile).tokens(), 5);
    assert_eq!(limiters.get(Site::Respektive).tokens(), 1);
}

#[test]
fn request_plans_carry_agent_and_site() {
    let plan = get_request_plan("https://example.org".to_string(), Site::OsuStats);
    assert!(matches!(plan.method, HttpMethod::Get));
    assert_eq!(plan.user_agent, "shishabot");
    assert!(matches!(plan.site, Site::OsuStats));
    assert!(plan.body.is_none());
    assert!(plan.content_type.is_none());
}

#[test]
fn post_plan_encodes_the_form() {
    let form = vec![
        ("name".to_string(), "value one".to_string()),
        ("k".to_string(), "v".to_string()),
    ];

    let plan = post_request_plan("https://example.org".to_string(), Site::Huismetbenen, &form)
        .expect("string pairs serialize");

    assert!(matches!(plan.method, HttpMethod::Post));
    assert_eq!(plan.content_type.as_deref(), Some("application/x-www-form-urlencoded"));
    assert_eq!(plan.body.as_deref(), Some("name=value+one&k=v"));
}

#[test]
fn map_file_url_formats_the_id() {
    assert_eq!(map_file_url(12345), "https://osu.ppy.sh/osu/12345");
    assert_eq!(map_file_url(0), "https://osu.ppy.sh/osu/0");
}

#[test]
fn backoff_doubles_and_caps() {
    assert_eq!(backoff_ms(1), 500);
    assert_eq!(backoff_ms(2), 1000);
    assert_eq!(backoff_ms(3), 2000);
    assert_eq!(backoff_ms(4), 4000);
    assert_eq!(backoff_ms(5), 8000);
    assert_eq!(backoff_ms(6), 10_000);
    assert_eq!(backoff_ms(9), 10_000);
    assert_eq!(backoff_ms(10), 10_000);

    let first_nine: u64 = (1..=9).map(backoff_ms).sum();
    assert_eq!(first_nine, 55_500);
}

#[test]
fn retry_on_429_and_html_sentinel_only() {
    let too_many = FetchOutcome::Status(StatusError::new(429, "u".to_string()));
    match map_file_step(1, 1, too_many) {
        RetryStep::RetryAfterMs(ms) => assert_eq!(ms, 500),
        _ => panic!("a 429 retries"),
    }

    let html = FetchOutcome::Success(b"<html><body>busy</body>".to_vec());
    match map_file_step(1, 3, html) {
        RetryStep::RetryAfterMs(ms) => assert_eq!(ms, 2000),
        _ => panic!("the HTML placeholder retries"),
    }

    let ok = FetchOutcome::Success(b"osu file format v14".to_vec());
    match map_file_step(1, 5, ok) {
        RetryStep::Done(Ok(body)) => assert_eq!(body, b"osu file format v14".to_vec()),
        _ => panic!("a real body is final"),
    }

    let not_found = FetchOutcome::Status(StatusError::new(404, "u".to_string()));
    match map_file_step(1, 1, not_found) {
        RetryStep::Done(Err(ClientError::Status(e))) => assert_eq!(e.status, 404),
        _ => panic!("other statuses are final"),
    }

    let transport = FetchOutcome::Failed("connection reset".to_string());
    match map_file_step(1, 1, transport) {
        RetryStep::Done(Err(ClientError::Failed(why))) => assert_eq!(why, "connection reset"),
        _ => panic!("transport failures are final"),
    }
}

#[test]
fn html_on_last_attempt_exhausts_the_budget() {
    let html = FetchOutcome::Success(b"<html>".to_vec());
    match map_file_step(777, MAP_FILE_ATTEMPTS, html) {
        RetryStep::Done(Err(ClientError::RetryLimitReached(id))) => assert_eq!(id, 777),
        _ => panic!("the tenth retryable outcome is terminal"),
    }
}

#[test]
fn three_429s_then_success_sleeps_the_first_three_terms() {
    let mut slept: u64 = 0;
    let mut attempt: u32 = 1;
    let result = loop {
        let outcome = if attempt <= 3 {
            FetchOutcome::Status(StatusError::new(429, "u".to_string()))
        } else {
            FetchOutcome::Success(b"map".to_vec())
        };

        match map_file_step(1, attempt, outcome) {
            RetryStep::RetryAfterMs(ms) => {
                slept += ms;
                attempt += 1;
            }
            RetryStep::Done(result) => break result,
        }
    };

    assert_eq!(result.unwrap(), b"map".to_vec());
    assert_eq!(slept, 500 + 1000 + 2000);
    assert_eq!(attempt, 4);
}

#[test]
fn nine_429s_then_success_sleeps_the_whole_budget() {
    let mut slept: u64 = 0;
    let mut attempt: u32 = 1;
    let result = loop {
        let outcome = if attempt <= 9 {
            FetchOutcome::Status(StatusError::new(429, "u".to_string()))
        } else {
            FetchOutcome::Success(b"map".to_vec())
        };

        match map_file_step(1, attempt, outcome) {
            RetryStep::RetryAfterMs(ms) => {
                slept += ms;
                attempt += 1;
            }
            RetryStep::Done(result) => break result,
        }
    };

    assert!(result.is_ok());
    assert_eq!(slept, 55_500);
    assert_eq!(attempt, 10);
}
