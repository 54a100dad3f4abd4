use background::{
    encode_cache, parse_args, parse_command, parse_config, parse_response,
    same_text, status_at, status_now, window_from_texts, App, AppError, Command, Config, Instant,
    Status, Window, MARGIN_SECONDS,
};

const JUNE_FIRST: i64 = 1_717_200_000;

fn at(hour: i64, minute: i64) -> Instant {
    Instant { secs: JUNE_FIRST + hour * 3600 + minute * 60, nanos: 0 }
}

fn london() -> App {
    App::new(Config { latitude: "51.5".to_string(), longitude: "-0.1".to_string() })
}

const BODY: &str = "{\"results\":{\"sunrise\":\"2024-06-01T04:00:00+00:00\",\
\"sunset\":\"2024-06-01T20:00:00+00:00\",\"day_length\":57600},\"status\":\"OK\"}";

const CACHE: &str = "{\"sunrise\":\"2024-06-01T03:55:00Z\",\"sunset\":\"2024-06-01T20:05:00Z\"}";

#[test]
fn update_requests_configured_place() {
    let plan = london().run("update", true).unwrap();
    assert_eq!(
        plan.fetch.as_deref(),
        Some("https://api.sunrise-sunset.org/json?lat=51.5&lng=-0.1&formatted=0")
    );
    assert!(!plan.evaluate);
}

#[test]
fn update_stores_widened_window() {
    assert_eq!(MARGIN_SECONDS, 300);
    assert_eq!(london().cache_from_body(BODY).unwrap(), CACHE);
}

#[test]
fn status_at_noon_is_light() {
    let cache = london().cache_from_body(BODY).unwrap();
    assert_eq!(status_at(&cache, at(12, 0)), Ok(Status::Light));
    assert_eq!(Status::Light.word(), "light");
}

#[test]
fn status_at_nine_pm_is_dark() {
    assert_eq!(status_at(CACHE, at(21, 0)), Ok(Status::Dark));
    assert_eq!(Status::Dark.word(), "dark");
}

#[test]
fn status_inside_margin_is_light() {
    assert_eq!(status_at(CACHE, at(3, 56)), Ok(Status::Light));
    assert_eq!(status_at(CACHE, at(20, 4)), Ok(Status::Light));
    assert_eq!(status_at(CACHE, at(3, 54)), Ok(Status::Dark));
}

#[test]
fn status_without_cache_fetches_first() {
    let app = london();
    let plan = app.run("status", false).unwrap();
    assert_eq!(
        plan.fetch.as_deref(),
        Some("https://api.sunrise-sunset.org/json?lat=51.5&lng=-0.1&formatted=0")
    );
    assert!(plan.evaluate);
    let cache = app.cache_from_body(BODY).unwrap();
    assert_eq!(status_at(&cache, at(12, 0)), Ok(Status::Light));
}

#[test]
fn status_with_cache_does_not_fetch() {
    let plan = london().run("status", true).unwrap();
    assert_eq!(plan.fetch, None);
    assert!(plan.evaluate);
}

#[test]
fn status_twice_gives_same_answer() {
    let now = at(18, 30);
    assert_eq!(status_at(CACHE, now), status_at(CACHE, now));
    assert!(status_now(CACHE).is_ok());
    assert_eq!(status_now(CACHE), status_now(CACHE));
}

#[test]
fn sunrise_is_light_and_sunset_is_dark() {
    assert_eq!(status_at(CACHE, at(3, 55)), Ok(Status::Light));
    assert_eq!(status_at(CACHE, at(20, 5)), Ok(Status::Dark));
    let just_before = Instant { secs: JUNE_FIRST + 20 * 3600 + 5 * 60 - 1, nanos: 999_999_999 };
    assert_eq!(status_at(CACHE, just_before), Ok(Status::Light));
}

#[test]
fn missing_command_is_refused() {
    let r = parse_args(&vec!["background".to_string()]);
    assert_eq!(r, Err(AppError::MissingCommand));
    assert_eq!(
        r.unwrap_err().message(),
        "Missing command argument ('update' or 'status')"
    );
}

#[test]
fn unknown_command_is_refused() {
    let r = parse_args(&vec!["background".to_string(), "bogus".to_string()]);
    assert_eq!(r, Err(AppError::UnknownCommand { command: "bogus".to_string() }));
    assert_eq!(r.unwrap_err().message(), "Unknown command 'bogus'");
    assert!(matches!(
        london().run("bogus", true),
        Err(AppError::UnknownCommand { .. })
    ));
}

#[test]
fn commands_are_read() {
    assert_eq!(parse_command("update"), Ok(Command::Update));
    assert_eq!(parse_command("status"), Ok(Command::Status));
    assert!(parse_command("Status").is_err());
    assert!(parse_command("").is_err());
    let args = vec!["background".to_string(), "status".to_string(), "extra".to_string()];
    assert_eq!(parse_args(&args), Ok(Command::Status));
}

#[test]
fn error_messages() {
    assert_eq!(AppError::Api.message(), "Failed to get data from API");
    assert_eq!(AppError::Cache.message(), "Failed to read JSON from the cache file");
}

#[test]
fn cache_round_trip() {
    let text = encode_cache("2024-06-01T03:55:00Z", "2024-06-01T20:05:00.5Z").unwrap();
    assert_eq!(text, "{\"sunrise\":\"2024-06-01T03:55:00Z\",\"sunset\":\"2024-06-01T20:05:00.5Z\"}");
    let end = Instant { secs: JUNE_FIRST + 20 * 3600 + 5 * 60, nanos: 500_000_000 };
    assert_eq!(status_at(&text, at(3, 55)), Ok(Status::Light));
    assert_eq!(status_at(&text, Instant { secs: end.secs, nanos: 499_999_999 }), Ok(Status::Light));
    assert_eq!(status_at(&text, end), Ok(Status::Dark));
}

#[test]
fn window_survives_store_and_read() {
    let raw = Window {
        sunrise: Instant { secs: JUNE_FIRST + 4 * 3600, nanos: 123_456_789 },
        sunset: Instant { secs: JUNE_FIRST + 20 * 3600, nanos: 0 },
    };
    let text = london().cache_for(raw).unwrap();
    let rise = Instant { secs: JUNE_FIRST + 4 * 3600 - 300, nanos: 123_456_789 };
    let set = Instant { secs: JUNE_FIRST + 20 * 3600 + 300, nanos: 0 };
    assert_eq!(status_at(&text, rise), Ok(Status::Light));
    assert_eq!(status_at(&text, Instant { secs: rise.secs, nanos: 123_456_788 }), Ok(Status::Dark));
    assert_eq!(status_at(&text, set), Ok(Status::Dark));
    assert_eq!(status_at(&text, Instant { secs: set.secs - 1, nanos: 999_999_999 }), Ok(Status::Light));
}

#[test]
fn encode_escapes_text() {
    assert_eq!(encode_cache("a\"b", "c").unwrap(), "{\"sunrise\":\"a\\\"b\",\"sunset\":\"c\"}");
    assert_eq!(encode_cache("", "").unwrap(), "{\"sunrise\":\"\",\"sunset\":\"\"}");
}

#[test]
fn cache_in_other_layout_is_read() {
    let turned = "{\"sunset\":\"2024-06-01T20:05:00Z\",\"sunrise\":\"2024-06-01T03:55:00Z\"}";
    assert_eq!(status_at(turned, at(12, 0)), Ok(Status::Light));
    let spaced = "{\n  \"sunrise\": \"2024-06-01T03:55:00+00:00\",\n  \"sunset\": \"2024-06-01T20:05:00+00:00\"\n}\n";
    assert_eq!(status_at(spaced, at(21, 0)), Ok(Status::Dark));
    assert_eq!(status_at(spaced, at(12, 0)), Ok(Status::Light));
}

#[test]
fn malformed_cache_is_an_error() {
    assert_eq!(status_at("not json", at(12, 0)), Err(AppError::Cache));
    let bad = "{\"sunrise\":\"yesterday\",\"sunset\":\"2024-06-01T20:05:00Z\"}";
    assert_eq!(status_at(bad, at(12, 0)), Err(AppError::Cache));
}

#[test]
fn offsets_are_read_as_utc() {
    let w = window_from_texts("2024-06-01T06:00:00+02:00", "2024-06-01T20:00:00Z").unwrap();
    assert_eq!(w.sunrise, at(4, 0));
    assert_eq!(window_from_texts("2024-13-01T00:00:00Z", "2024-06-01T20:00:00Z"), Err(AppError::Api));
}

#[test]
fn response_errors() {
    assert_eq!(parse_response("not json"), Err(AppError::Api));
    assert_eq!(parse_response("{\"status\":\"INVALID_REQUEST\"}"), Err(AppError::Api));
    assert_eq!(parse_response("{\"results\":{\"sunrise\":1,\"sunset\":2}}"), Err(AppError::Api));
    assert_eq!(london().cache_from_body("[]"), Err(AppError::Api));
    let w = parse_response(BODY).unwrap();
    assert_eq!(w.sunrise, at(4, 0));
    assert_eq!(w.sunset, at(20, 0));
}

#[test]
fn window_out_of_range_is_refused() {
    let raw = Window {
        sunrise: Instant { secs: i64::MIN + 10, nanos: 0 },
        sunset: Instant { secs: 0, nanos: 0 },
    };
    assert_eq!(london().cache_for(raw), Err(AppError::Api));
    let far = Window {
        sunrise: Instant { secs: 0, nanos: 0 },
        sunset: Instant { secs: i64::MAX - 10, nanos: 0 },
    };
    assert_eq!(london().cache_for(far), Err(AppError::Api));
}

#[test]
fn config_texts_are_not_checked() {
    let c = parse_config("{\"latitude\":\"abc\",\"longitude\":\"999\"}").unwrap();
    assert_eq!(c.latitude, "abc");
    assert_eq!(c.longitude, "999");
    assert_eq!(parse_config("{\"latitude\": \"51.5\", \"longitude\": null}"), None);
    assert_eq!(parse_config("[\"51.5\", \"-0.1\"]"), None);
}

#[test]
fn same_body_stores_same_text() {
    assert_eq!(london().cache_from_body(BODY), london().cache_from_body(BODY));
}

#[test]
fn config_is_read() {
    let c = parse_config("{\"latitude\": \"51.5\", \"longitude\": \"-0.1\"}").unwrap();
    assert_eq!(c, Config { latitude: "51.5".to_string(), longitude: "-0.1".to_string() });
    assert_eq!(parse_config("{\"latitude\": 51.5, \"longitude\": \"-0.1\"}"), None);
    assert_eq!(parse_config("{\"latitude\": \"51.5\"}"), None);
    assert_eq!(parse_config(""), None);
}

#[test]
fn url_keeps_text_unchanged() {
    let app = App::new(Config { latitude: " 1e3".to_string(), longitude: "x".to_string() });
    let plan = app.run("update", false).unwrap();
    assert_eq!(
        plan.fetch.unwrap(),
        "https://api.sunrise-sunset.org/json?lat= 1e3&lng=x&formatted=0"
    );
}

#[test]
fn same_text_compares_characters() {
    assert!(same_text("update", "update"));
    assert!(!same_text("update", "updat"));
    assert!(!same_text("é", "e"));
}
