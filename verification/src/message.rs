//! The text of an alert.

use vstd::prelude::*;
use crate::report::{AirQualityView, WeatherData, WeatherView};

verus! {

/// The title that every alert carries.
pub const SUMMARY: &'static str = "Weather Alert";

/// The decimal digit for a value below ten.
pub open spec fn digit(d: int) -> char {
    "0123456789"@[d]
}

/// A natural number in decimal, without sign or leading zeros.
pub open spec fn decimal(n: nat) -> Seq<char>
    decreases n,
{
    if n < 10 {
        seq![digit(n as int)]
    } else {
        decimal(n / 10).push(digit((n % 10) as int))
    }
}

/// The last line of an alert: the air-quality classification, or a note
/// that there is none.
pub open spec fn air_quality_line(air: Option<AirQualityView>) -> Seq<char> {
    match air {
        Some(a) => "Air Quality: "@ + a.category,
        None => "Air Quality: Not available"@,
    }
}

/// The four lines of an alert: conditions, temperature in degrees
/// Celsius, UV index and air quality.
pub open spec fn message(weather: WeatherView) -> Seq<char> {
    "Weather: "@ + weather.weather_text + "\nTemperature: "@ + weather.temperature
        + "°C\nUV Index: "@ + decimal(weather.uv_index as nat) + "\n"@ + air_quality_line(
        weather.air_quality,
    )
}

/// One decimal digit as text.
fn digit_text(d: u8) -> (text: &'static str)
    requires
        d < 10,
    ensures
        text@ == seq![digit(d as int)],
{
    proof {
        reveal_strlit("0123456789");
        reveal_strlit("0");
        reveal_strlit("1");
        reveal_strlit("2");
        reveal_strlit("3");
        reveal_strlit("4");
        reveal_strlit("5");
        reveal_strlit("6");
        reveal_strlit("7");
        reveal_strlit("8");
        reveal_strlit("9");
    }
    let text = match d {
        0 => "0",
        1 => "1",
        2 => "2",
        3 => "3",
        4 => "4",
        5 => "5",
        6 => "6",
        7 => "7",
        8 => "8",
        _ => "9",
    };
    assert(text@ =~= seq![digit(d as int)]);
    text
}

/// A UV index in decimal.
pub fn uv_index_text(uv_index: u8) -> (text: String)
    ensures
        text@ == decimal(uv_index as nat),
{
    let mut text = String::new();
    if uv_index >= 100 {
        text.append(digit_text(uv_index / 100));
    }
    if uv_index >= 10 {
        text.append(digit_text((uv_index / 10) % 10));
    }
    text.append(digit_text(uv_index % 10));
    proof {
        reveal_with_fuel(decimal, 3);
        assert(text@ =~= decimal(uv_index as nat));
    }
    text
}

/// The body of the alert for a report.
pub fn notification_message(weather: &WeatherData) -> (body: String)
    ensures
        body@ == message(weather@),
{
    let mut body = String::from_str("Weather: ");
    body.append(weather.weather_text().as_str());
    body.append("\nTemperature: ");
    body.append(weather.temperature().as_str());
    body.append("°C\nUV Index: ");
    body.append(uv_index_text(weather.uv_index()).as_str());
    body.append("\n");
    match weather.air_quality() {
        Some(air) => {
            let mut line = String::from_str("Air Quality: ");
            line.append(air.category().as_str());
            body.append(line.as_str());
        },
        None => {
            body.append("Air Quality: Not available");
        },
    }
    body
}

/// An alert ends with the air-quality line. For a report without an
/// air-quality record that line says that none is available.
pub proof fn lemma_message_ends_with_air_quality(weather: WeatherView)
    ensures
        air_quality_line(weather.air_quality).is_suffix_of(message(weather)),
        weather.air_quality is None ==> "Air Quality: Not available"@.is_suffix_of(
            message(weather),
        ),
{
    let line = air_quality_line(weather.air_quality);
    let body = message(weather);
    assert(body.subrange(body.len() - line.len(), body.len() as int) =~= line);
}

} // verus!
