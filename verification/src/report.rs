//! The record of current conditions that one fetch yields.

use vstd::prelude::*;

verus! {

/// What an [`AirQuality`] record says.
pub struct AirQualityView {
    pub category: Seq<char>,
}

/// What a [`WeatherData`] record says.
pub struct WeatherView {
    pub weather_text: Seq<char>,
    pub temperature: Seq<char>,
    pub uv_index: u8,
    pub air_quality: Option<AirQualityView>,
}

/// The provider's air-quality classification for the location.
#[derive(Debug, PartialEq, Eq)]
pub struct AirQuality {
    category: String,
}

/// Current conditions for one location at the time of a fetch.
///
/// A record is fixed once it is built: there is no way to change one.
/// The metric temperature is kept in its printed form, degrees Celsius
/// without the unit, exactly as it is to appear in an alert.
#[derive(Debug, PartialEq, Eq)]
pub struct WeatherData {
    weather_text: String,
    temperature: String,
    uv_index: u8,
    air_quality: Option<AirQuality>,
}

impl AirQuality {
    pub closed spec fn as_view(&self) -> AirQualityView {
        AirQualityView { category: self.category@ }
    }

    /// An air-quality record with the given classification.
    pub fn new(category: String) -> (air: AirQuality)
        ensures
            air@.category == category@,
    {
        AirQuality { category }
    }

    /// The classification, such as `Good` or `Unhealthy`.
    pub fn category(&self) -> (category: &String)
        ensures
            category@ == self@.category,
    {
        &self.category
    }
}

impl Clone for AirQuality {
    fn clone(&self) -> (copy: AirQuality)
        ensures
            copy == *self,
    {
        AirQuality { category: self.category.clone() }
    }
}

impl View for AirQuality {
    type V = AirQualityView;

    open spec fn view(&self) -> AirQualityView {
        self.as_view()
    }
}

/// The view of an air-quality record that may be absent.
pub open spec fn air_quality_view(air: Option<AirQuality>) -> Option<AirQualityView> {
    match air {
        Some(a) => Some(a@),
        None => None,
    }
}

impl WeatherData {
    pub closed spec fn as_view(&self) -> WeatherView {
        WeatherView {
            weather_text: self.weather_text@,
            temperature: self.temperature@,
            uv_index: self.uv_index,
            air_quality: air_quality_view(self.air_quality),
        }
    }

    /// A record of current conditions. `temperature` is the metric
    /// temperature as printed; `air_quality` is `None` where the provider
    /// has no air-quality data for the location.
    pub fn new(
        weather_text: String,
        temperature: String,
        uv_index: u8,
        air_quality: Option<AirQuality>,
    ) -> (weather: WeatherData)
        ensures
            weather@ == (WeatherView {
                weather_text: weather_text@,
                temperature: temperature@,
                uv_index,
                air_quality: air_quality_view(air_quality),
            }),
    {
        WeatherData { weather_text, temperature, uv_index, air_quality }
    }

    /// The free-text description of the conditions, such as `Sunny`.
    pub fn weather_text(&self) -> (text: &String)
        ensures
            text@ == self@.weather_text,
    {
        &self.weather_text
    }

    /// The metric temperature as printed.
    pub fn temperature(&self) -> (text: &String)
        ensures
            text@ == self@.temperature,
    {
        &self.temperature
    }

    /// The UV index on the provider's scale.
    pub fn uv_index(&self) -> (uv_index: u8)
        ensures
            uv_index == self@.uv_index,
    {
        self.uv_index
    }

    /// The air-quality record, if the provider sent one.
    pub fn air_quality(&self) -> (air: Option<&AirQuality>)
        ensures
            air is Some <==> self@.air_quality is Some,
            air matches Some(a) ==> self@.air_quality == Some(a@),
    {
        self.air_quality.as_ref()
    }
}

impl Clone for WeatherData {
    fn clone(&self) -> (copy: WeatherData)
        ensures
            copy == *self,
    {
        let air_quality = match &self.air_quality {
            Some(air) => Some(air.clone()),
            None => None,
        };
        WeatherData {
            weather_text: self.weather_text.clone(),
            temperature: self.temperature.clone(),
            uv_index: self.uv_index,
            air_quality,
        }
    }
}

impl View for WeatherData {
    type V = WeatherView;

    open spec fn view(&self) -> WeatherView {
        self.as_view()
    }
}

} // verus!
