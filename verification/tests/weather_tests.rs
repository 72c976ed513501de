use weather_notify::failure::Failure;
use weather_notify::weather::{forecast_from_body, forecast_from_day, forecast_from_value, forecast_url, Forecast};

fn reply(days: &str) -> String {
    format!("{{\"location\":{{\"name\":\"X\"}},\"forecast\":{{\"forecastday\":[{}]}}}}", days)
}

fn day(text: &str, max: &str, min: &str, rain: &str, snow: &str) -> String {
    format!(
        "{{\"date\":\"2024-01-01\",\"day\":{{\"condition\":{{\"text\":\"{}\",\"code\":1000}},\"maxtemp_c\":{},\"mintemp_c\":{},\"daily_chance_of_rain\":{},\"daily_chance_of_snow\":{}}}}}",
        text, max, min, rain, snow
    )
}

#[test]
fn url_holds_token_city_and_flags() {
    assert_eq!(
        forecast_url("abc", "Paris", false, false),
        "https://api.weatherapi.com/v1/forecast.json?key=abc&q=Paris&days=1&aqi=no&alerts=no"
    );
    assert_eq!(
        forecast_url("k", "Oslo", true, false),
        "https://api.weatherapi.com/v1/forecast.json?key=k&q=Oslo&days=1&aqi=yes&alerts=no"
    );
    assert_eq!(
        forecast_url("k", "Oslo", false, true),
        "https://api.weatherapi.com/v1/forecast.json?key=k&q=Oslo&days=1&aqi=no&alerts=yes"
    );
    assert_eq!(
        forecast_url("", "", true, true),
        "https://api.weatherapi.com/v1/forecast.json?key=&q=&days=1&aqi=yes&alerts=yes"
    );
}

#[test]
fn first_day_values_are_returned_unchanged() {
    let body = reply(&day("Sunny", "25.0", "15.0", "10", "0"));
    let f = forecast_from_body(body.as_bytes()).unwrap();
    assert_eq!(f.condition_text, "Sunny");
    assert_eq!(f.max_temp_c, format!("{}", 25.0_f64));
    assert_eq!(f.min_temp_c, format!("{}", 15.0_f64));
    assert_eq!(f.max_temp_c.parse::<f64>().unwrap(), 25.0);
    assert_eq!(f.min_temp_c.parse::<f64>().unwrap(), 15.0);
    assert_eq!(f.chance_of_rain, 10);
    assert_eq!(f.chance_of_snow, 0);
}

#[test]
fn fractions_and_negative_temperatures_are_kept() {
    let body = reply(&day("Light snow", "-0.5", "-12.25", "0", "85"));
    let f = forecast_from_body(body.as_bytes()).unwrap();
    assert_eq!(
        f,
        Forecast {
            condition_text: "Light snow".to_string(),
            max_temp_c: "-0.5".to_string(),
            min_temp_c: "-12.25".to_string(),
            chance_of_rain: 0,
            chance_of_snow: 85,
        }
    );
}

#[test]
fn whole_temperatures_are_numbers_too() {
    let body = reply(&day("Mist", "7", "-3", "55", "1"));
    let f = forecast_from_body(body.as_bytes()).unwrap();
    assert_eq!(f.max_temp_c, format!("{}", 7.0_f64));
    assert_eq!(f.min_temp_c, format!("{}", -3.0_f64));
}

#[test]
fn chances_are_not_range_checked() {
    let body = reply(&day("Odd", "1.5", "0.5", "250", "-4"));
    let f = forecast_from_body(body.as_bytes()).unwrap();
    assert_eq!(f.chance_of_rain, 250);
    assert_eq!(f.chance_of_snow, -4);
}

#[test]
fn only_the_first_day_is_read() {
    let body = reply(&format!(
        "{},{}",
        day("Sunny", "25.0", "15.0", "10", "0"),
        day("Rain", "5.0", "1.0", "90", "3")
    ));
    let f = forecast_from_body(body.as_bytes()).unwrap();
    assert_eq!(f.condition_text, "Sunny");
    assert_eq!(f.chance_of_rain, 10);
}

#[test]
fn empty_day_list_fails() {
    let body = reply("");
    assert_eq!(forecast_from_body(body.as_bytes()), Err(Failure::NoForecastDay));
    assert_eq!(forecast_from_body(body.as_bytes()), Err(Failure::NoForecastDay));
}

#[test]
fn body_that_is_no_json_fails() {
    assert_eq!(forecast_from_body(b"<html>"), Err(Failure::Deserialization));
    assert_eq!(forecast_from_body(b""), Err(Failure::Deserialization));
    assert_eq!(forecast_from_body(b"{\"forecast\":"), Err(Failure::Deserialization));
    assert_eq!(forecast_from_body(&[0xff, 0xfe]), Err(Failure::Deserialization));
}

#[test]
fn missing_entries_fail() {
    assert_eq!(forecast_from_body(b"{}"), Err(Failure::Deserialization));
    assert_eq!(forecast_from_body(b"[]"), Err(Failure::Deserialization));
    assert_eq!(forecast_from_body(b"{\"forecast\":{}}"), Err(Failure::Deserialization));
    assert_eq!(
        forecast_from_body(b"{\"forecast\":{\"forecastday\":{}}}"),
        Err(Failure::Deserialization)
    );
    assert_eq!(
        forecast_from_body(b"{\"forecast\":{\"forecastday\":[{}]}}"),
        Err(Failure::Deserialization)
    );
    assert_eq!(
        forecast_from_body(b"{\"forecast\":{\"forecastday\":[{\"day\":{}}]}}"),
        Err(Failure::Deserialization)
    );
    let no_snow = "{\"forecast\":{\"forecastday\":[{\"day\":{\"condition\":{\"text\":\"a\"},\"maxtemp_c\":1.0,\"mintemp_c\":1.0,\"daily_chance_of_rain\":1}}]}}";
    assert_eq!(forecast_from_body(no_snow.as_bytes()), Err(Failure::Deserialization));
}

#[test]
fn entries_of_another_type_fail() {
    let rain_is_fraction = reply(&day("Sunny", "25.0", "15.0", "10.5", "0"));
    assert_eq!(forecast_from_body(rain_is_fraction.as_bytes()), Err(Failure::Deserialization));
    let rain_is_text = reply(&day("Sunny", "25.0", "15.0", "\"10\"", "0"));
    assert_eq!(forecast_from_body(rain_is_text.as_bytes()), Err(Failure::Deserialization));
    let max_is_text = reply(&day("Sunny", "\"25.0\"", "15.0", "10", "0"));
    assert_eq!(forecast_from_body(max_is_text.as_bytes()), Err(Failure::Deserialization));
    let snow_too_large = reply(&day("Sunny", "25.0", "15.0", "10", "9223372036854775808"));
    assert_eq!(forecast_from_body(snow_too_large.as_bytes()), Err(Failure::Deserialization));
    let text_is_number = "{\"forecast\":{\"forecastday\":[{\"day\":{\"condition\":{\"text\":5},\"maxtemp_c\":1.0,\"mintemp_c\":1.0,\"daily_chance_of_rain\":1,\"daily_chance_of_snow\":1}}]}}";
    assert_eq!(forecast_from_body(text_is_number.as_bytes()), Err(Failure::Deserialization));
}

#[test]
fn largest_chance_is_kept() {
    let body = reply(&day("Sunny", "25.0", "15.0", "9223372036854775807", "-9223372036854775808"));
    let f = forecast_from_body(body.as_bytes()).unwrap();
    assert_eq!(f.chance_of_rain, i64::MAX);
    assert_eq!(f.chance_of_snow, i64::MIN);
}

#[test]
fn forecast_from_value_reads_a_parsed_reply() {
    let body = reply(&day("Cloudy", "18.5", "10.2", "40", "0"));
    let doc: serde_json::Value = serde_json::from_str(&body).unwrap();
    let f = forecast_from_value(&doc).unwrap();
    assert_eq!(f.condition_text, "Cloudy");
    assert_eq!(f.max_temp_c, "18.5");
    assert_eq!(f.min_temp_c, "10.2");
    assert_eq!(f.chance_of_rain, 40);
    assert_eq!(f.chance_of_snow, 0);
    assert_eq!(forecast_from_value(&serde_json::Value::Null), Err(Failure::Deserialization));
    let empty: serde_json::Value = serde_json::from_str(&reply("")).unwrap();
    assert_eq!(forecast_from_value(&empty), Err(Failure::NoForecastDay));
}

#[test]
fn forecast_from_day_reads_a_day_summary() {
    let text = "{\"condition\":{\"text\":\"Fog\"},\"maxtemp_c\":3.5,\"mintemp_c\":-1.0,\"daily_chance_of_rain\":20,\"daily_chance_of_snow\":5}";
    let d: serde_json::Value = serde_json::from_str(text).unwrap();
    let f = forecast_from_day(&d).unwrap();
    assert_eq!(f.condition_text, "Fog");
    assert_eq!(f.max_temp_c, "3.5");
    assert_eq!(f.min_temp_c, format!("{}", -1.0_f64));
    assert_eq!(f.chance_of_rain, 20);
    assert_eq!(f.chance_of_snow, 5);
    assert_eq!(forecast_from_day(&serde_json::Value::Bool(true)), None);
}
