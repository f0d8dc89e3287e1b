use weather_notifier::client::{first_report, weather_url, FetchError};
use weather_notifier::report::{AirQuality, WeatherData};

fn report(text: &str, uv_index: u8) -> WeatherData {
    WeatherData::new(text.to_string(), "12.5".to_string(), uv_index, None)
}

#[test]
fn url_embeds_location_and_key() {
    assert_eq!(
        weather_url("secret", "178086"),
        "http://dataservice.accuweather.com/currentconditions/v1/178086?apikey=secret&details=true"
    );
}

#[test]
fn url_embeds_values_as_they_are() {
    assert_eq!(
        weather_url("a b&c", "x/y"),
        "http://dataservice.accuweather.com/currentconditions/v1/x/y?apikey=a b&c&details=true"
    );
    assert_eq!(
        weather_url("", ""),
        "http://dataservice.accuweather.com/currentconditions/v1/?apikey=&details=true"
    );
}

#[test]
fn url_does_not_swap_key_and_location() {
    assert_ne!(weather_url("178086", "secret"), weather_url("secret", "178086"));
}

#[test]
fn empty_answer_is_an_empty_result_error() {
    assert_eq!(first_report(Vec::new()), Err(FetchError::EmptyResult));
}

#[test]
fn single_report_is_returned() {
    let only = WeatherData::new(
        "Sunny".to_string(),
        "20".to_string(),
        3,
        Some(AirQuality::new("Good".to_string())),
    );
    assert_eq!(first_report(vec![only.clone()]), Ok(only));
}

#[test]
fn only_the_first_report_counts() {
    let reports = vec![report("Storm", 1), report("Sunny", 2), report("Hail", 3)];
    assert_eq!(first_report(reports), Ok(report("Storm", 1)));
}
