use vstd::prelude::*;
use crate::command::AppError;
use crate::outside::{instant_of_text, json_text, json_text_at, parse_instant};
use crate::time::Window;

verus! {

/// Where the light window is asked for: latitude and longitude as the user
/// wrote them. They are passed on as they stand, not checked as numbers.
#[derive(Debug, PartialEq, Eq)]
pub struct Config {
    pub latitude: String,
    pub longitude: String,
}

/// The start of the request address, up to the latitude.
pub open spec fn url_head() -> Seq<char> {
    "https://api.sunrise-sunset.org/json?lat="@
}

/// What stands between the latitude and the longitude.
pub open spec fn url_joint() -> Seq<char> {
    "&lng="@
}

/// The end of the request address: ask for machine-readable timestamps.
pub open spec fn url_tail() -> Seq<char> {
    "&formatted=0"@
}

/// The address of the request for the window at `lat`, `lng`.
pub open spec fn url_of(lat: Seq<char>, lng: Seq<char>) -> Seq<char> {
    url_head() + lat + url_joint() + lng + url_tail()
}

/// The window that the timestamp texts `rise` and `set` give, if chrono reads
/// both.
pub open spec fn window_of_texts(rise: Seq<char>, set: Seq<char>) -> Option<Window> {
    match (instant_of_text(rise), instant_of_text(set)) {
        (Some(a), Some(b)) => Some(Window { sunrise: a, sunset: b }),
        _ => None,
    }
}

impl Config {
    /// The address of the GET request that asks for this place's window.
    pub fn request_url(&self) -> (r: String)
        ensures
            r@ == url_of(self.latitude@, self.longitude@),
    {
        let mut u = String::from_str("https://api.sunrise-sunset.org/json?lat=");
        u.append(self.latitude.as_str());
        u.append("&lng=");
        u.append(self.longitude.as_str());
        u.append("&formatted=0");
        u
    }
}

/// The request address carries the configured latitude and longitude texts
/// unchanged, each right after its parameter name.
pub proof fn lemma_url_carries_place(lat: Seq<char>, lng: Seq<char>)
    ensures
        ({
            let u = url_of(lat, lng);
            let a = url_head().len() as int;
            let b = a + lat.len();
            let c = b + url_joint().len();
            let d = c + lng.len();
            &&& u.subrange(0, a) == url_head()
            &&& u.subrange(a, b) == lat
            &&& u.subrange(b, c) == url_joint()
            &&& u.subrange(c, d) == lng
            &&& u.subrange(d, u.len() as int) == url_tail()
        }),
{
    let u = url_of(lat, lng);
    let a = url_head().len() as int;
    let b = a + lat.len();
    let c = b + url_joint().len();
    let d = c + lng.len();
    assert(u.subrange(0, a) == url_head());
    assert(u.subrange(a, b) == lat);
    assert(u.subrange(b, c) == url_joint());
    assert(u.subrange(c, d) == lng);
    assert(u.subrange(d, u.len() as int) == url_tail());
}

/// Reads a window from its sunrise and sunset timestamp texts.
pub fn window_from_texts(rise: &str, set: &str) -> (r: Result<Window, AppError>)
    ensures
        match window_of_texts(rise@, set@) {
            Some(w) => r == Ok::<Window, AppError>(w),
            None => r == Err::<Window, AppError>(AppError::Api),
        },
{
    match (parse_instant(rise), parse_instant(set)) {
        (Some(a), Some(b)) => Ok(Window { sunrise: a, sunset: b }),
        _ => Err(AppError::Api),
    }
}

/// The window that the service's answer `body` gives: the timestamp texts
/// at `results.sunrise` and `results.sunset`, read by chrono.
pub open spec fn response_window(body: Seq<char>) -> Option<Window> {
    match (
        json_text_at(body, "/results/sunrise"@),
        json_text_at(body, "/results/sunset"@),
    ) {
        (Some(rise), Some(set)) => window_of_texts(rise, set),
        _ => None,
    }
}

/// The place that a configuration text gives: the JSON object
/// `{"latitude": "...", "longitude": "..."}`, both members strings.
pub open spec fn config_of(text: Seq<char>) -> Option<(Seq<char>, Seq<char>)> {
    match (json_text_at(text, "/latitude"@), json_text_at(text, "/longitude"@)) {
        (Some(lat), Some(lng)) => Some((lat, lng)),
        _ => None,
    }
}

/// Reads the window out of the service's answer, the JSON object
/// `{"results": {"sunrise": ..., "sunset": ...}, ...}`; any failure is
/// `AppError::Api`.
pub fn parse_response(body: &str) -> (r: Result<Window, AppError>)
    ensures
        match response_window(body@) {
            Some(w) => r == Ok::<Window, AppError>(w),
            None => r == Err::<Window, AppError>(AppError::Api),
        },
{
    let rise = match json_text(body, "/results/sunrise") {
        Some(s) => s,
        None => return Err(AppError::Api),
    };
    let set = match json_text(body, "/results/sunset") {
        Some(s) => s,
        None => return Err(AppError::Api),
    };
    window_from_texts(rise.as_str(), set.as_str())
}

/// Reads the configuration file, the JSON object
/// `{"latitude": "...", "longitude": "..."}`. The two texts are kept as they
/// stand; `None` where the text is no such object.
pub fn parse_config(text: &str) -> (r: Option<Config>)
    ensures
        match config_of(text@) {
            Some((lat, lng)) => r matches Some(c) && c.latitude@ == lat && c.longitude@ == lng,
            None => r is None,
        },
{
    let lat = json_text(text, "/latitude")?;
    let lng = json_text(text, "/longitude")?;
    Some(Config { latitude: lat, longitude: lng })
}

} // verus!
