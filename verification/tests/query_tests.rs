use weather_notify::query::percent_encode;
use weather_notify::weather::forecast_url;

#[test]
fn plain_text_is_kept() {
    assert_eq!(percent_encode(""), "");
    assert_eq!(percent_encode("Paris"), "Paris");
    assert_eq!(percent_encode("Paris,France"), "Paris,France");
    assert_eq!(percent_encode("48.85,2.35"), "48.85,2.35");
    assert_eq!(percent_encode("a-b_c.d~e!$&()*+/:;=?@[]^`{|}%"), "a-b_c.d~e!$&()*+/:;=?@[]^`{|}%");
}

#[test]
fn space_is_percent_encoded() {
    assert_eq!(percent_encode("New York"), "New%20York");
    assert_eq!(percent_encode(" "), "%20");
    assert_eq!(percent_encode("  a  "), "%20%20a%20%20");
}

#[test]
fn characters_beyond_ascii_are_percent_encoded() {
    assert_eq!(percent_encode("Z\u{fc}rich"), "Z%C3%BCrich");
    assert_eq!(percent_encode("S\u{e3}o Paulo"), "S%C3%A3o%20Paulo");
    assert_eq!(percent_encode("\u{6771}\u{4eac}"), "%E6%9D%B1%E4%BA%AC");
    assert_eq!(percent_encode("\u{1f327}"), "%F0%9F%8C%A7");
}

#[test]
fn controls_and_delimiters_are_percent_encoded() {
    assert_eq!(percent_encode("\u{0}\u{1f}\u{7f}"), "%00%1F%7F");
    assert_eq!(percent_encode("\t\n\r"), "%09%0A%0D");
    assert_eq!(percent_encode("\"#'<>"), "%22%23%27%3C%3E");
    assert_eq!(percent_encode("!~"), "!~");
}

#[test]
fn url_encodes_the_city_only() {
    assert_eq!(
        forecast_url("a b", "New York", false, false),
        "https://api.weatherapi.com/v1/forecast.json?key=a b&q=New%20York&days=1&aqi=no&alerts=no"
    );
    assert_eq!(
        forecast_url("k", "Z\u{fc}rich", true, true),
        "https://api.weatherapi.com/v1/forecast.json?key=k&q=Z%C3%BCrich&days=1&aqi=yes&alerts=yes"
    );
}

#[test]
fn url_is_the_one_the_transport_sends() {
    for city in ["Paris", "New York", "Z\u{fc}rich", "S\u{e3}o Paulo", "Paris,France", "it's", "a\"b<c>d", "100%", "a&b+c"] {
        let raw = format!(
            "https://api.weatherapi.com/v1/forecast.json?key={}&q={}&days=1&aqi={}&alerts={}",
            "tok", city, "no", "no"
        );
        let sent = reqwest::Url::parse(&raw).unwrap();
        assert_eq!(forecast_url("tok", city, false, false), sent.as_str());
        let again = reqwest::Url::parse(&forecast_url("tok", city, false, false)).unwrap();
        assert_eq!(again, sent);
    }
}
