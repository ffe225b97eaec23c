//! Forecast data as the display receives it.
//!
//! Every measured quantity arrives already formatted for display in the unit
//! system of the forecast, so this crate only arranges text and never does
//! arithmetic on readings.

use vstd::prelude::*;
use crate::location::{WeatherPreferences, WeatherPreferencesView};

verus! {

/// Unit system used for temperatures and speeds.
#[derive(Clone, Copy, Debug, PartialEq, Eq, Structural)]
pub enum Units {
    Metric,
    Imperial,
}

/// Views of the elements of a sequence, in order.
pub open spec fn views<T: View>(items: Seq<T>) -> Seq<T::V> {
    items.map_values(|item: T| item@)
}

/// View of an optional value.
pub open spec fn optional<T: View>(value: Option<T>) -> Option<T::V> {
    match value {
        Some(inner) => Some(inner@),
        None => None,
    }
}

/// One weather condition attached to a reading.
#[derive(Clone, Debug, PartialEq, Eq)]
pub struct WeatherStatus {
    /// Name of the icon that depicts the condition.
    pub icon: String,
}

pub struct WeatherStatusView {
    pub icon: Seq<char>,
}

impl View for WeatherStatus {
    type V = WeatherStatusView;

    open spec fn view(&self) -> WeatherStatusView {
        WeatherStatusView { icon: self.icon@ }
    }
}

/// Conditions at one point in time. The same shape serves for the current
/// conditions and for each entry of the hourly forecast.
#[derive(Clone, Debug, PartialEq, Eq)]
pub struct CurrentWeather {
    /// Clock time of the reading, as `hour:minute`.
    pub time: String,
    pub temp: String,
    pub feels_like: String,
    pub pressure: String,
    pub humidity: String,
    pub uvi: String,
    /// Absent when the provider reported no visibility.
    pub visibility: Option<String>,
    pub wind_speed: String,
    /// Probability of precipitation, in percent.
    pub pop: String,
    /// Conditions, most significant first.
    pub status: Vec<WeatherStatus>,
}

pub struct CurrentWeatherView {
    pub time: Seq<char>,
    pub temp: Seq<char>,
    pub feels_like: Seq<char>,
    pub pressure: Seq<char>,
    pub humidity: Seq<char>,
    pub uvi: Seq<char>,
    pub visibility: Option<Seq<char>>,
    pub wind_speed: Seq<char>,
    pub pop: Seq<char>,
    pub status: Seq<WeatherStatusView>,
}

impl View for CurrentWeather {
    type V = CurrentWeatherView;

    open spec fn view(&self) -> CurrentWeatherView {
        CurrentWeatherView {
            time: self.time@,
            temp: self.temp@,
            feels_like: self.feels_like@,
            pressure: self.pressure@,
            humidity: self.humidity@,
            uvi: self.uvi@,
            visibility: optional(self.visibility),
            wind_speed: self.wind_speed@,
            pop: self.pop@,
            status: views(self.status@),
        }
    }
}

/// Forecast for one day.
#[derive(Clone, Debug, PartialEq, Eq)]
pub struct DailyWeather {
    /// Calendar day of the forecast.
    pub day: String,
    pub temp_min: String,
    pub temp_max: String,
    /// Conditions, most significant first.
    pub status: Vec<WeatherStatus>,
}

pub struct DailyWeatherView {
    pub day: Seq<char>,
    pub temp_min: Seq<char>,
    pub temp_max: Seq<char>,
    pub status: Seq<WeatherStatusView>,
}

impl View for DailyWeather {
    type V = DailyWeatherView;

    open spec fn view(&self) -> DailyWeatherView {
        DailyWeatherView {
            day: self.day@,
            temp_min: self.temp_min@,
            temp_max: self.temp_max@,
            status: views(self.status@),
        }
    }
}

/// A warning issued for the forecast area.
#[derive(Clone, Debug, PartialEq, Eq)]
pub struct WeatherAlert {
    pub event: String,
    pub description: String,
}

pub struct WeatherAlertView {
    pub event: Seq<char>,
    pub description: Seq<char>,
}

impl View for WeatherAlert {
    type V = WeatherAlertView;

    open spec fn view(&self) -> WeatherAlertView {
        WeatherAlertView { event: self.event@, description: self.description@ }
    }
}

/// A forecast together with the request it answers.
#[derive(Clone, Debug, PartialEq, Eq)]
pub struct WeatherData {
    /// Place the forecast is for and unit system its readings are
    /// formatted in.
    pub preferences: WeatherPreferences,
    pub current: CurrentWeather,
    pub hourly: Vec<CurrentWeather>,
    pub daily: Vec<DailyWeather>,
    pub alerts: Vec<WeatherAlert>,
}

pub struct WeatherDataView {
    pub preferences: WeatherPreferencesView,
    pub current: CurrentWeatherView,
    pub hourly: Seq<CurrentWeatherView>,
    pub daily: Seq<DailyWeatherView>,
    pub alerts: Seq<WeatherAlertView>,
}

impl View for WeatherData {
    type V = WeatherDataView;

    open spec fn view(&self) -> WeatherDataView {
        WeatherDataView {
            preferences: self.preferences@,
            current: self.current@,
            hourly: views(self.hourly@),
            daily: views(self.daily@),
            alerts: views(self.alerts@),
        }
    }
}

} // verus!
