//! The notification: its wording and the body that carries it.

use vstd::prelude::*;
use vstd::string::StringExecFns;
use crate::json_doc::{json_quoted, json_quote};
use crate::text::{signed_decimal, signed_decimal_text};
use crate::weather::{Forecast, ForecastView};

verus! {

/// The wording of the notification for one user.
pub open spec fn message_text(user_id: Seq<char>, city: Seq<char>, forecast: ForecastView) -> Seq<
    char,
> {
    "<@"@ + user_id + "> hello there, it is "@ + forecast.condition_text + " today in "@ + city
        + " with a max temperature of "@ + forecast.max_temp_c + " and min temperature of "@
        + forecast.min_temp_c + ".The chance of rain is "@ + signed_decimal(
        forecast.chance_of_rain,
    ) + " and the chance of snow is "@ + signed_decimal(forecast.chance_of_snow)
        + ".\n                    Have a great day!"@
}

/// Whether `part` stands in `whole` as one run of characters.
pub open spec fn holds_run(whole: Seq<char>, part: Seq<char>) -> bool {
    exists|k: int|
        0 <= k && k + part.len() <= whole.len() && #[trigger] whole.subrange(k, k + part.len())
            == part
}

/// A text holds what stands between its two ends.
pub proof fn middle_is_held(before: Seq<char>, part: Seq<char>, after: Seq<char>)
    ensures
        holds_run(before + part + after, part),
{
    let whole = before + part + after;
    let k = before.len() as int;
    assert(whole.subrange(k, k + part.len()) =~= part);
}

/// The message names every value it was made of: the user's id, the
/// condition, the city, both temperatures and both chances in decimal each
/// stand in it unchanged.
pub proof fn message_names_every_value(user_id: Seq<char>, city: Seq<char>, forecast: ForecastView)
    ensures
        holds_run(message_text(user_id, city, forecast), user_id),
        holds_run(message_text(user_id, city, forecast), forecast.condition_text),
        holds_run(message_text(user_id, city, forecast), city),
        holds_run(message_text(user_id, city, forecast), forecast.max_temp_c),
        holds_run(message_text(user_id, city, forecast), forecast.min_temp_c),
        holds_run(message_text(user_id, city, forecast), signed_decimal(forecast.chance_of_rain)),
        holds_run(message_text(user_id, city, forecast), signed_decimal(forecast.chance_of_snow)),
{
    let m = message_text(user_id, city, forecast);
    let rain = signed_decimal(forecast.chance_of_rain);
    let snow = signed_decimal(forecast.chance_of_snow);
    let a = "<@"@;
    let b = "> hello there, it is "@;
    let c = " today in "@;
    let d = " with a max temperature of "@;
    let e = " and min temperature of "@;
    let f = ".The chance of rain is "@;
    let g = " and the chance of snow is "@;
    let h = ".\n                    Have a great day!"@;
    let t1 = b + forecast.condition_text + c + city + d + forecast.max_temp_c + e
        + forecast.min_temp_c + f + rain + g + snow + h;
    assert(m =~= a + user_id + t1);
    middle_is_held(a, user_id, t1);
    let h2 = a + user_id + b;
    let t2 = c + city + d + forecast.max_temp_c + e + forecast.min_temp_c + f + rain + g + snow
        + h;
    assert(m =~= h2 + forecast.condition_text + t2);
    middle_is_held(h2, forecast.condition_text, t2);
    let h3 = h2 + forecast.condition_text + c;
    let t3 = d + forecast.max_temp_c + e + forecast.min_temp_c + f + rain + g + snow + h;
    assert(m =~= h3 + city + t3);
    middle_is_held(h3, city, t3);
    let h4 = h3 + city + d;
    let t4 = e + forecast.min_temp_c + f + rain + g + snow + h;
    assert(m =~= h4 + forecast.max_temp_c + t4);
    middle_is_held(h4, forecast.max_temp_c, t4);
    let h5 = h4 + forecast.max_temp_c + e;
    let t5 = f + rain + g + snow + h;
    assert(m =~= h5 + forecast.min_temp_c + t5);
    middle_is_held(h5, forecast.min_temp_c, t5);
    let h6 = h5 + forecast.min_temp_c + f;
    let t6 = g + snow + h;
    assert(m =~= h6 + rain + t6);
    middle_is_held(h6, rain, t6);
    let h7 = h6 + rain + g;
    assert(m =~= h7 + snow + h);
    middle_is_held(h7, snow, h);
}

/// Words the notification for one user: it mentions the user, names the
/// condition, the city, both temperatures and both chances, and ends with
/// good wishes.
pub fn format_message(user_id: &str, city: &str, forecast: &Forecast) -> (r: String)
    ensures
        r@ == message_text(user_id@, city@, forecast@),
{
    let rain = signed_decimal_text(forecast.chance_of_rain);
    let snow = signed_decimal_text(forecast.chance_of_snow);
    let mut m = String::from_str("<@");
    m.append(user_id);
    m.append("> hello there, it is ");
    m.append(forecast.condition_text.as_str());
    m.append(" today in ");
    m.append(city);
    m.append(" with a max temperature of ");
    m.append(forecast.max_temp_c.as_str());
    m.append(" and min temperature of ");
    m.append(forecast.min_temp_c.as_str());
    m.append(".The chance of rain is ");
    m.append(rain.as_str());
    m.append(" and the chance of snow is ");
    m.append(snow.as_str());
    m.append(".\n                    Have a great day!");
    m
}

/// The body that carries a message: a JSON object with the one key
/// `content`, whose value is the message as a JSON string.
pub open spec fn body_text(message: Seq<char>) -> Seq<char> {
    "{\"content\":"@ + json_quoted(message) + "}"@
}

/// Builds the body of the webhook call for a message.
pub fn notification_body(message: &str) -> (r: String)
    ensures
        r@ == body_text(message@),
{
    let quoted = json_quote(message);
    let mut body = String::from_str("{\"content\":");
    body.append(quoted.as_str());
    body.append("}");
    body
}

} // verus!
