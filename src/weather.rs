use vstd::prelude::*;
use crate::splice::{trim, trim_chars};
use crate::status::{Markup, Status};
use crate::text::{chars_of, string_of};

verus! {

/// Least number of seconds between two calls to the weather service: its
/// free plan allows 400 calls a day.
pub const INTERVAL_SEC: u64 = 216;

/// The current conditions that the weather service last reported.
pub struct WeatherReport {
    /// The temperature in degrees Celsius, as decimal text.
    pub temperature: String,
    /// A short description of the weather.
    pub summary: String,
}

/// The provider that shows the current weather at one place.
pub struct WeatherPlugin {
    pub api_key: Option<String>,
    pub point: String,
    pub last_request_time: u64,
    pub last_response: Option<WeatherReport>,
}

pub open spec fn url_prefix() -> Seq<char> {
    "https://www.meteosource.com/api/v1/free/point?place_id="@
}

pub open spec fn url_suffix() -> Seq<char> {
    "&language=en&sections=current&units=metric"@
}

/// The status text for a report.
pub open spec fn weather_text(r: WeatherReport) -> Seq<char> {
    r.temperature@ + " C° ("@ + r.summary@ + ")"@
}

impl WeatherPlugin {
    pub open spec fn name() -> Seq<char> {
        "meteosource_weather"@
    }

    /// Whether a refresh at `now` calls the service: it is configured, and
    /// more than the interval has passed since the last call.
    pub open spec fn wants_request_at(&self, now: u64) -> bool {
        &&& self.api_key is Some
        &&& self.point@.len() > 0
        &&& now as int - self.last_request_time as int > INTERVAL_SEC as int
    }

    /// The state after a call that finished at `at`: the clock is stamped
    /// whatever came back; only a report replaces the cached one.
    pub open spec fn after_attempt(self, at: u64, report: Option<WeatherReport>) -> WeatherPlugin {
        WeatherPlugin {
            api_key: self.api_key,
            point: self.point,
            last_request_time: at,
            last_response: match report {
                Some(r) => Some(r),
                None => self.last_response,
            },
        }
    }

    /// An unconfigured provider that has never called the service.
    pub fn new() -> (r: Self)
        ensures
            r.api_key is None,
            r.point@.len() == 0,
            r.last_request_time == 0,
            r.last_response is None,
    {
        WeatherPlugin { api_key: None, point: String::new(), last_request_time: 0, last_response: None }
    }

    /// Takes the credential and the place to report on, the place without
    /// surrounding white space.
    pub fn setup(&mut self, api_key: Option<String>, point: String)
        ensures
            final(self).api_key == api_key,
            final(self).point@ == trim(point@),
            final(self).last_request_time == old(self).last_request_time,
            final(self).last_response == old(self).last_response,
    {
        self.api_key = api_key;
        let cs = chars_of(point.as_str());
        let trimmed = trim_chars(&cs);
        self.point = string_of(&trimmed);
    }

    /// Whether a refresh at `now` calls the service.
    pub fn wants_request(&self, now: u64) -> (r: bool)
        ensures
            r == self.wants_request_at(now),
    {
        if self.api_key.is_none() {
            return false;
        }
        if self.point.unicode_len() == 0 {
            return false;
        }
        now > self.last_request_time && now - self.last_request_time > INTERVAL_SEC
    }

    /// The address of the service's current conditions at the configured place.
    pub fn request_url(&self) -> (r: String)
        ensures
            r@ == url_prefix() + self.point@ + url_suffix(),
    {
        let mut url = String::from_str("https://www.meteosource.com/api/v1/free/point?place_id=");
        url.append(self.point.as_str());
        url.append("&language=en&sections=current&units=metric");
        url
    }

    /// Records a call that finished at `at`, with the report it brought, if any.
    pub fn record_attempt(&mut self, at: u64, report: Option<WeatherReport>)
        ensures
            *final(self) == old(self).after_attempt(at, report),
    {
        self.last_request_time = at;
        if let Some(r) = report {
            self.last_response = Some(r);
        }
    }

    /// The block for the last report, if there has been one.
    pub fn get_status(&self) -> (r: Option<Status>)
        ensures
            r is None <==> self.last_response is None,
            r matches Some(st) ==> {
                &&& st.name@ == Self::name()
                &&& st.markup == Markup::Plain
                &&& st.full_text@ == weather_text(self.last_response->Some_0)
                &&& st.short_text@ == weather_text(self.last_response->Some_0)
            },
    {
        match &self.last_response {
            None => None,
            Some(res) => {
                let mut text = String::from_str(res.temperature.as_str());
                text.append(" C° (");
                text.append(res.summary.as_str());
                text.append(")");
                let short = text.clone();
                Some(
                    Status {
                        name: String::from_str("meteosource_weather"),
                        full_text: text,
                        short_text: short,
                        markup: Markup::Plain,
                    },
                )
            },
        }
    }
}

impl Default for WeatherPlugin {
    fn default() -> (r: Self)
        ensures
            r.api_key is None,
            r.point@.len() == 0,
            r.last_request_time == 0,
            r.last_response is None,
    {
        WeatherPlugin::new()
    }
}

/// Two refreshes less than the interval apart call the service at most once:
/// once a refresh has called it, a later one within the interval does not,
/// whether the call brought a report or not. A failed call leaves the cached
/// report as it was.
pub proof fn lemma_rate_limit(
    p: WeatherPlugin,
    first: u64,
    finished: u64,
    report: Option<WeatherReport>,
    second: u64,
)
    requires
        first <= finished <= second,
        second - first < INTERVAL_SEC,
    ensures
        p.wants_request_at(first) ==> !p.after_attempt(finished, report).wants_request_at(second),
        report is None ==> p.after_attempt(finished, report).last_response == p.last_response,
        p.after_attempt(finished, report).last_request_time == finished,
{
}

/// The state after a refresh at `now`: a call is made only when one is
/// wanted; it finishes at `finished` with `report`.
pub open spec fn refreshed(p: WeatherPlugin, now: u64, finished: u64, report: Option<WeatherReport>) -> WeatherPlugin {
    if p.wants_request_at(now) {
        p.after_attempt(finished, report)
    } else {
        p
    }
}

/// The number of calls to the service that a refresh at `now` makes.
pub open spec fn calls_made(p: WeatherPlugin, now: u64) -> nat {
    if p.wants_request_at(now) {
        1
    } else {
        0
    }
}

/// Two refreshes less than the interval apart make at most one call between
/// them, whatever the first call brought; a failed call leaves the cached
/// report as it was and still moves the clock.
pub proof fn lemma_two_refreshes(
    p: WeatherPlugin,
    first: u64,
    finished: u64,
    report: Option<WeatherReport>,
    second: u64,
)
    requires
        first <= finished <= second,
        second - first < INTERVAL_SEC,
    ensures
        calls_made(p, first) + calls_made(refreshed(p, first, finished, report), second) <= 1,
        report is None ==> refreshed(p, first, finished, report).last_response == p.last_response,
        p.wants_request_at(first) ==> refreshed(p, first, finished, report).last_request_time == finished,
{
    lemma_rate_limit(p, first, finished, report, second);
}

} // verus!
