use vstd::prelude::*;
use crate::api::{parse_response, response_window, url_of, window_from_texts, window_of_texts, Config};
use crate::cache::{cache_text, encode_cache};
use crate::command::{command_of, parse_command, refuses_word, AppError, Command};
use crate::outside::{current_instant, format_instant, json_text, json_text_at, rfc3339_of};
use crate::time::{in_window, widen_spec, Instant, Window};

verus! {

/// How far, in seconds, the stored window reaches past the service's sunrise
/// and sunset: sunrise is moved this much earlier and sunset this much later.
pub const MARGIN_SECONDS: i64 = 300;

/// What `status` reports.
#[derive(Clone, Copy, Debug, PartialEq, Eq, Structural)]
pub enum Status {
    Light,
    Dark,
}

/// The status at `now` for the window `w`.
pub open spec fn status_in(w: Window, now: Instant) -> Status {
    if in_window(w, now) {
        Status::Light
    } else {
        Status::Dark
    }
}

/// The word printed for a status.
pub open spec fn status_text(s: Status) -> Seq<char> {
    match s {
        Status::Light => "light"@,
        Status::Dark => "dark"@,
    }
}

impl Status {
    /// The word printed for this status: `light` or `dark`.
    pub fn word(&self) -> (r: String)
        ensures
            r@ == status_text(*self),
    {
        match self {
            Status::Light => String::from_str("light"),
            Status::Dark => String::from_str("dark"),
        }
    }
}

/// The window that a cache file holds: the JSON object's `sunrise` and
/// `sunset` strings, read as timestamps.
pub open spec fn cache_window(text: Seq<char>) -> Option<Window> {
    match (json_text_at(text, "/sunrise"@), json_text_at(text, "/sunset"@)) {
        (Some(rise), Some(set)) => window_of_texts(rise, set),
        _ => None,
    }
}

/// The status that the cache file `text` gives at `now`; `None` for a cache
/// file that holds no window.
pub open spec fn status_from_cache(text: Seq<char>, now: Instant) -> Option<Status> {
    match cache_window(text) {
        Some(w) => Some(status_in(w, now)),
        None => None,
    }
}

/// The cache file stored for the window `raw` that the service gave: the
/// window widened by `margin` seconds, each bound written by chrono.
pub open spec fn stored_text(raw: Window, margin: int) -> Option<Seq<char>> {
    match widen_spec(raw, margin) {
        Some(w) => match (
            rfc3339_of(w.sunrise.secs, w.sunrise.nanos),
            rfc3339_of(w.sunset.secs, w.sunset.nanos),
        ) {
            (Some(a), Some(b)) => cache_text(a, b),
            _ => None,
        },
        None => None,
    }
}

/// Whether an operation must first fetch the window from the service.
pub open spec fn needs_fetch(c: Command, cache_present: bool) -> bool {
    match c {
        Command::Update => true,
        Command::Status => !cache_present,
    }
}

/// What one run of the program has to do, in order: fetch the window from
/// `fetch` and store it, if set; then report the status, if `evaluate`.
#[derive(Debug, PartialEq, Eq)]
pub struct Plan {
    pub fetch: Option<String>,
    pub evaluate: bool,
}

/// The status at `now` for a cache file, or `AppError::Cache` when the file
/// holds no window.
pub fn status_at(cache: &str, now: Instant) -> (r: Result<Status, AppError>)
    ensures
        match status_from_cache(cache@, now) {
            Some(s) => r == Ok::<Status, AppError>(s),
            None => r == Err::<Status, AppError>(AppError::Cache),
        },
{
    let rise = match json_text(cache, "/sunrise") {
        Some(s) => s,
        None => return Err(AppError::Cache),
    };
    let set = match json_text(cache, "/sunset") {
        Some(s) => s,
        None => return Err(AppError::Cache),
    };
    match window_from_texts(rise.as_str(), set.as_str()) {
        Ok(w) => {
            if w.contains(&now) {
                Ok(Status::Light)
            } else {
                Ok(Status::Dark)
            }
        },
        Err(_) => Err(AppError::Cache),
    }
}

/// The status now for a cache file. The moment is the system clock's, so
/// the result is that of `status_at` for some moment.
pub fn status_now(cache: &str) -> (r: Result<Status, AppError>)
    ensures
        exists|now: Instant|
            match #[trigger] status_from_cache(cache@, now) {
                Some(s) => r == Ok::<Status, AppError>(s),
                None => r == Err::<Status, AppError>(AppError::Cache),
            },
{
    let now = current_instant();
    status_at(cache, now)
}

/// With a cache present, `status` fetches nothing, so the cache file stays
/// as it was and a second `status` reads the same text. Its report is then
/// `status_from_cache` of that text at the moment, as `status_at` states.
pub proof fn lemma_status_keeps_cache()
    ensures
        !needs_fetch(Command::Status, true),
        needs_fetch(Command::Status, false),
        needs_fetch(Command::Update, true),
{
}

/// A cached window whose sunrise precedes its sunset reports light at
/// sunrise itself and dark at sunset itself.
pub proof fn lemma_status_bounds(cache: Seq<char>)
    requires
        cache_window(cache) matches Some(w) && crate::time::precedes(w.sunrise, w.sunset),
    ensures
        status_from_cache(cache, cache_window(cache)->Some_0.sunrise) == Some(Status::Light),
        status_from_cache(cache, cache_window(cache)->Some_0.sunset) == Some(Status::Dark),
{
    crate::time::lemma_window_bounds(cache_window(cache)->Some_0);
}

/// The program's context: the configured place, read once at start.
pub struct App {
    pub config: Config,
}

impl App {
    /// A context for the given place.
    pub fn new(config: Config) -> (r: App)
        ensures
            r.config == config,
    {
        App { config }
    }

    /// Decides what the command word asks for. `update` always fetches;
    /// `status` fetches only when no cache file is present, then reports.
    /// Any other word is refused.
    pub fn run(&self, command: &str, cache_present: bool) -> (r: Result<Plan, AppError>)
        ensures
            match command_of(command@) {
                Some(c) => r matches Ok(p) && p.evaluate == (c == Command::Status) && (p.fetch
                    is Some) == needs_fetch(c, cache_present) && (p.fetch matches Some(u) ==> u@
                    == url_of(self.config.latitude@, self.config.longitude@)),
                None => r matches Err(e) && refuses_word(e, command@),
            },
    {
        let c = match parse_command(command) {
            Ok(c) => c,
            Err(e) => return Err(e),
        };
        match c {
            Command::Update => Ok(Plan { fetch: Some(self.config.request_url()), evaluate: false }),
            Command::Status => {
                if cache_present {
                    Ok(Plan { fetch: None, evaluate: true })
                } else {
                    Ok(Plan { fetch: Some(self.config.request_url()), evaluate: true })
                }
            },
        }
    }

    /// The cache file to store for the window `raw` that the service gave:
    /// widened by `MARGIN_SECONDS`, written as RFC 3339 texts. Fails with
    /// `AppError::Api` where a bound cannot be represented.
    pub fn cache_for(&self, raw: Window) -> (r: Result<String, AppError>)
        ensures
            match stored_text(raw, MARGIN_SECONDS as int) {
                Some(t) => r matches Ok(s) && s@ == t,
                None => r matches Err(e) && e == AppError::Api,
            },
    {
        let w = match raw.widened(MARGIN_SECONDS) {
            Some(w) => w,
            None => return Err(AppError::Api),
        };
        let rise = match format_instant(w.sunrise) {
            Some(s) => s,
            None => return Err(AppError::Api),
        };
        let set = match format_instant(w.sunset) {
            Some(s) => s,
            None => return Err(AppError::Api),
        };
        match encode_cache(rise.as_str(), set.as_str()) {
            Some(t) => Ok(t),
            None => Err(AppError::Api),
        }
    }

    /// The cache file to store for the service's answer `body`: the window
    /// it gives, widened and written as `cache_for` does.
    pub fn cache_from_body(&self, body: &str) -> (r: Result<String, AppError>)
        ensures
            match response_window(body@) {
                Some(raw) => match stored_text(raw, MARGIN_SECONDS as int) {
                    Some(t) => r matches Ok(s) && s@ == t,
                    None => r matches Err(e) && e == AppError::Api,
                },
                None => r matches Err(e) && e == AppError::Api,
            },
    {
        let raw = match parse_response(body) {
            Ok(w) => w,
            Err(e) => return Err(e),
        };
        self.cache_for(raw)
    }
}

} // verus!
