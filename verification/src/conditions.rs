//! The three conditions that call for an alert of their own.

use vstd::prelude::*;
use crate::report::{WeatherData, WeatherView};

verus! {

/// The lowest UV index that counts as high.
pub const HIGH_UV_THRESHOLD: u8 = 8;

/// The condition text names severe weather: exactly `Storm`, `Hail` or
/// `Tornado`, letter for letter.
pub open spec fn severe_text(text: Seq<char>) -> bool {
    text == "Storm"@ || text == "Hail"@ || text == "Tornado"@
}

/// The air-quality classification that counts as polluted.
pub open spec fn polluted_category(category: Seq<char>) -> bool {
    category == "Unhealthy"@
}

/// The report names severe weather.
pub open spec fn severe(weather: WeatherView) -> bool {
    severe_text(weather.weather_text)
}

/// The report's UV index is high.
pub open spec fn high_uv(weather: WeatherView) -> bool {
    weather.uv_index >= HIGH_UV_THRESHOLD
}

/// The report carries an air-quality record and it is classified as
/// polluted.
pub open spec fn polluted(weather: WeatherView) -> bool {
    match weather.air_quality {
        Some(air) => polluted_category(air.category),
        None => false,
    }
}

/// Whether a text is the same as a literal one.
fn text_is(text: &String, literal: &str) -> (same: bool)
    ensures
        same == (text@ == literal@),
{
    let other = String::from_str(literal);
    *text == other
}

/// Whether the report names severe weather.
pub fn is_severe_weather(weather: &WeatherData) -> (flag: bool)
    ensures
        flag == severe(weather@),
{
    let text = weather.weather_text();
    text_is(text, "Storm") || text_is(text, "Hail") || text_is(text, "Tornado")
}

/// Whether the report's UV index is at or above the threshold.
pub fn is_high_uv(weather: &WeatherData) -> (flag: bool)
    ensures
        flag == high_uv(weather@),
{
    weather.uv_index() >= HIGH_UV_THRESHOLD
}

/// Whether the report's air quality is classified as polluted. A report
/// without an air-quality record is never polluted.
pub fn is_polluted_air(weather: &WeatherData) -> (flag: bool)
    ensures
        flag == polluted(weather@),
        weather@.air_quality is None ==> !flag,
{
    match weather.air_quality() {
        Some(air) => text_is(air.category(), "Unhealthy"),
        None => false,
    }
}

/// Severe weather is told by the condition text alone, and a severe text
/// starts with a capital `S`, `H` or `T` and has at least four letters: no
/// empty text and no text in lower case is severe.
pub proof fn lemma_severe_text_is_capitalised(text: Seq<char>)
    requires
        severe_text(text),
    ensures
        text.len() >= 4,
        text[0] == 'S' || text[0] == 'H' || text[0] == 'T',
{
    reveal_strlit("Storm");
    reveal_strlit("Hail");
    reveal_strlit("Tornado");
}

/// A UV index is high from eight upwards, and only then.
pub proof fn lemma_high_uv_from_eight(weather: WeatherView)
    ensures
        high_uv(weather) <==> weather.uv_index >= 8,
{
}

/// A report without an air-quality record is not polluted, whatever else
/// it says; one with a record is polluted exactly if the record's
/// classification is `Unhealthy`.
pub proof fn lemma_polluted_needs_unhealthy_record(weather: WeatherView)
    ensures
        weather.air_quality is None ==> !polluted(weather),
        polluted(weather) <==> (weather.air_quality matches Some(air) && air.category
            == "Unhealthy"@),
{
}

} // verus!
