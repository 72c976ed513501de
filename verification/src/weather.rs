//! The forecast lookup: the address to ask, and what a reply says.

use vstd::prelude::*;
use vstd::string::StringExecFns;
use crate::failure::Failure;
use crate::query::{query_text, percent_encode};
use crate::json_doc::{JsonItem, parsed_json, json_item, json_items, json_field, json_whole, json_shown, json_parse, json_get, json_as_str, json_as_array, json_as_i64, json_number_text};

verus! {

/// One day's weather for one city.
#[derive(Debug, Clone, PartialEq, Eq)]
pub struct Forecast {
    /// The condition in words.
    pub condition_text: String,
    /// The highest temperature in degrees Celsius, in decimal.
    pub max_temp_c: String,
    /// The lowest temperature in degrees Celsius, in decimal.
    pub min_temp_c: String,
    /// The chance of rain in percent; taken as sent, whatever its range.
    pub chance_of_rain: i64,
    /// The chance of snow in percent; taken as sent, whatever its range.
    pub chance_of_snow: i64,
}

/// The mathematical value of a `Forecast`.
pub struct ForecastView {
    pub condition_text: Seq<char>,
    pub max_temp_c: Seq<char>,
    pub min_temp_c: Seq<char>,
    pub chance_of_rain: int,
    pub chance_of_snow: int,
}

impl View for Forecast {
    type V = ForecastView;

    open spec fn view(&self) -> ForecastView {
        ForecastView {
            condition_text: self.condition_text@,
            max_temp_c: self.max_temp_c@,
            min_temp_c: self.min_temp_c@,
            chance_of_rain: self.chance_of_rain as int,
            chance_of_snow: self.chance_of_snow as int,
        }
    }
}

/// How a switch is written in the address.
pub open spec fn flag_text(on: bool) -> Seq<char> {
    if on {
        "yes"@
    } else {
        "no"@
    }
}

/// The address of the one-day forecast for a city: the token as it was
/// given, the city percent-encoded.
pub open spec fn forecast_url_text(
    token: Seq<char>,
    city: Seq<char>,
    air_quality: bool,
    alerts: bool,
) -> Seq<char> {
    "https://api.weatherapi.com/v1/forecast.json?key="@ + token + "&q="@ + query_text(city)
        + "&days=1&aqi="@ + flag_text(air_quality) + "&alerts="@ + flag_text(alerts)
}

fn flag(on: bool) -> (r: &'static str)
    ensures
        r@ == flag_text(on),
{
    if on {
        "yes"
    } else {
        "no"
    }
}

/// Builds the address of the one-day forecast for a city. The token stands
/// in it as it was given; the city is percent-encoded, so that a space or a
/// character beyond ASCII in it does not break the address.
pub fn forecast_url(token: &str, city: &str, air_quality: bool, alerts: bool) -> (r: String)
    ensures
        r@ == forecast_url_text(token@, city@, air_quality, alerts),
{
    let mut url = String::from_str("https://api.weatherapi.com/v1/forecast.json?key=");
    url.append(token);
    url.append("&q=");
    let city_text = percent_encode(city);
    url.append(city_text.as_str());
    url.append("&days=1&aqi=");
    url.append(flag(air_quality));
    url.append("&alerts=");
    url.append(flag(alerts));
    url
}

/// The string under a key of an object; `None` where the entry is missing or
/// is no string.
pub open spec fn json_text_at(t: JsonItem, key: Seq<char>) -> Option<Seq<char>> {
    match json_field(t, key) {
        Some(JsonItem::Text(s)) => Some(s),
        _ => None,
    }
}

/// The decimal text of the number under a key of an object.
pub open spec fn json_shown_at(t: JsonItem, key: Seq<char>) -> Option<Seq<char>> {
    match json_field(t, key) {
        Some(n) => json_shown(n),
        None => None,
    }
}

/// The integer under a key of an object.
pub open spec fn json_whole_at(t: JsonItem, key: Seq<char>) -> Option<i64> {
    match json_field(t, key) {
        Some(n) => json_whole(n),
        None => None,
    }
}

/// The condition text of a day summary: the string `text` of its object
/// `condition`.
pub open spec fn condition_of(day: JsonItem) -> Option<Seq<char>> {
    match json_field(day, "condition"@) {
        Some(c) => json_text_at(c, "text"@),
        None => None,
    }
}

/// The forecast that a day summary carries, each entry unchanged: `None`
/// where one of the five entries is missing or of another type.
pub open spec fn day_forecast(day: JsonItem) -> Option<ForecastView> {
    match (
        condition_of(day),
        json_shown_at(day, "maxtemp_c"@),
        json_shown_at(day, "mintemp_c"@),
        json_whole_at(day, "daily_chance_of_rain"@),
        json_whole_at(day, "daily_chance_of_snow"@),
    ) {
        (Some(text), Some(max), Some(min), Some(rain), Some(snow)) => Some(
            ForecastView {
                condition_text: text,
                max_temp_c: max,
                min_temp_c: min,
                chance_of_rain: rain as int,
                chance_of_snow: snow as int,
            },
        ),
        _ => None,
    }
}

/// The list of days of a reply, under `forecast.forecastday`.
pub open spec fn forecast_days(doc: JsonItem) -> Option<Seq<JsonItem>> {
    match json_field(doc, "forecast"@) {
        Some(f) => match json_field(f, "forecastday"@) {
            Some(JsonItem::List(days)) => Some(days),
            _ => None,
        },
        None => None,
    }
}

/// What a reply says: the forecast of the first listed day, under its entry
/// `day`. A reply that lists no day is `Failure::NoForecastDay`; one without
/// the list, or whose first day lacks an entry, is `Failure::Deserialization`.
pub open spec fn forecast_of(doc: JsonItem) -> Result<ForecastView, Failure> {
    match forecast_days(doc) {
        Some(days) => if days.len() == 0 {
            Err(Failure::NoForecastDay)
        } else {
            match json_field(days[0], "day"@) {
                Some(day) => match day_forecast(day) {
                    Some(f) => Ok(f),
                    None => Err(Failure::Deserialization),
                },
                None => Err(Failure::Deserialization),
            }
        },
        None => Err(Failure::Deserialization),
    }
}

/// What a reply's body says: `Failure::Deserialization` for bytes that are
/// no JSON document, else what the document says.
pub open spec fn body_forecast(body: Seq<u8>) -> Result<ForecastView, Failure> {
    match parsed_json(body) {
        Some(doc) => forecast_of(doc),
        None => Err(Failure::Deserialization),
    }
}

/// A reply that lists at least one day gives the first day's five entries,
/// each unchanged.
pub proof fn first_day_is_returned(doc: JsonItem, day: JsonItem, f: ForecastView)
    requires
        forecast_days(doc) is Some,
        forecast_days(doc).unwrap().len() > 0,
        json_field(forecast_days(doc).unwrap()[0], "day"@) == Some(day),
        condition_of(day) == Some(f.condition_text),
        json_shown_at(day, "maxtemp_c"@) == Some(f.max_temp_c),
        json_shown_at(day, "mintemp_c"@) == Some(f.min_temp_c),
        json_whole_at(day, "daily_chance_of_rain"@) is Some,
        json_whole_at(day, "daily_chance_of_rain"@).unwrap() == f.chance_of_rain,
        json_whole_at(day, "daily_chance_of_snow"@) is Some,
        json_whole_at(day, "daily_chance_of_snow"@).unwrap() == f.chance_of_snow,
    ensures
        forecast_of(doc) == Ok::<ForecastView, Failure>(f),
{
}

/// A reply that lists no day gives no forecast, whatever else it holds: it
/// fails with `Failure::NoForecastDay`.
pub proof fn empty_day_list_fails(doc: JsonItem)
    requires
        forecast_days(doc) is Some,
        forecast_days(doc).unwrap().len() == 0,
    ensures
        forecast_of(doc) == Err::<ForecastView, Failure>(Failure::NoForecastDay),
{
}

fn text_at(t: &serde_json::Value, key: &str) -> (r: Option<String>)
    ensures
        match r {
            Some(s) => json_text_at(json_item(*t), key@) == Some(s@),
            None => json_text_at(json_item(*t), key@) is None,
        },
{
    match json_get(t, key) {
        Some(e) => match json_as_str(e) {
            Some(s) => Some(s.to_owned()),
            None => None,
        },
        None => None,
    }
}

fn shown_at(t: &serde_json::Value, key: &str) -> (r: Option<String>)
    ensures
        match r {
            Some(s) => json_shown_at(json_item(*t), key@) == Some(s@),
            None => json_shown_at(json_item(*t), key@) is None,
        },
{
    match json_get(t, key) {
        Some(e) => json_number_text(e),
        None => None,
    }
}

fn whole_at(t: &serde_json::Value, key: &str) -> (r: Option<i64>)
    ensures
        r == json_whole_at(json_item(*t), key@),
{
    match json_get(t, key) {
        Some(e) => json_as_i64(e),
        None => None,
    }
}

/// Reads the forecast out of a day summary.
pub fn forecast_from_day(day: &serde_json::Value) -> (r: Option<Forecast>)
    ensures
        match r {
            Some(f) => day_forecast(json_item(*day)) == Some(f@),
            None => day_forecast(json_item(*day)) is None,
        },
{
    let condition_text = match json_get(day, "condition") {
        Some(c) => match text_at(c, "text") {
            Some(s) => s,
            None => { return None; },
        },
        None => { return None; },
    };
    let max_temp_c = match shown_at(day, "maxtemp_c") {
        Some(s) => s,
        None => { return None; },
    };
    let min_temp_c = match shown_at(day, "mintemp_c") {
        Some(s) => s,
        None => { return None; },
    };
    let chance_of_rain = match whole_at(day, "daily_chance_of_rain") {
        Some(n) => n,
        None => { return None; },
    };
    let chance_of_snow = match whole_at(day, "daily_chance_of_snow") {
        Some(n) => n,
        None => { return None; },
    };
    Some(Forecast { condition_text, max_temp_c, min_temp_c, chance_of_rain, chance_of_snow })
}

/// Reads the forecast out of a parsed reply: the five entries of the first
/// listed day, unchanged. Fails exactly as `forecast_of` says.
pub fn forecast_from_value(doc: &serde_json::Value) -> (r: Result<Forecast, Failure>)
    ensures
        match r {
            Ok(f) => forecast_of(json_item(*doc)) == Ok::<ForecastView, Failure>(f@),
            Err(e) => forecast_of(json_item(*doc)) == Err::<ForecastView, Failure>(e),
        },
{
    let forecast = match json_get(doc, "forecast") {
        Some(f) => f,
        None => { return Err(Failure::Deserialization); },
    };
    let days = match json_get(forecast, "forecastday") {
        Some(l) => match json_as_array(l) {
            Some(a) => a,
            None => { return Err(Failure::Deserialization); },
        },
        None => { return Err(Failure::Deserialization); },
    };
    assert(forecast_days(json_item(*doc)) == Some(json_items(days@)));
    if days.len() == 0 {
        return Err(Failure::NoForecastDay);
    }
    let day = match json_get(&days[0], "day") {
        Some(d) => d,
        None => { return Err(Failure::Deserialization); },
    };
    match forecast_from_day(day) {
        Some(f) => Ok(f),
        None => Err(Failure::Deserialization),
    }
}

/// Reads the forecast out of the body of a reply. Fails exactly as
/// `body_forecast` says.
pub fn forecast_from_body(body: &[u8]) -> (r: Result<Forecast, Failure>)
    ensures
        match r {
            Ok(f) => body_forecast(body@) == Ok::<ForecastView, Failure>(f@),
            Err(e) => body_forecast(body@) == Err::<ForecastView, Failure>(e),
        },
{
    match json_parse(body) {
        Ok(doc) => forecast_from_value(&doc),
        Err(_) => Err(Failure::Deserialization),
    }
}

} // verus!
