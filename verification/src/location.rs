//! Places and the saved choice of place and units.

use vstd::prelude::*;
use crate::weather::Units;

verus! {

/// A place that a search found or that the user chose.
///
/// Coordinates are degrees, carried as the bit pattern of a 64-bit IEEE 754
/// number. They are handed on unchanged and never computed with.
#[derive(Debug, PartialEq, Eq)]
pub struct LocationPoint {
    pub location: String,
    pub lat: u64,
    pub lon: u64,
}

pub struct LocationPointView {
    pub location: Seq<char>,
    pub lat: u64,
    pub lon: u64,
}

impl View for LocationPoint {
    type V = LocationPointView;

    open spec fn view(&self) -> LocationPointView {
        LocationPointView { location: self.location@, lat: self.lat, lon: self.lon }
    }
}

impl Clone for LocationPoint {
    fn clone(&self) -> (copy: Self)
        ensures
            copy == *self,
    {
        LocationPoint { location: self.location.clone(), lat: self.lat, lon: self.lon }
    }
}

/// The saved choice of place and unit system.
#[derive(Debug, PartialEq, Eq)]
pub struct WeatherPreferences {
    pub location: String,
    pub lat: u64,
    pub lon: u64,
    pub units: Units,
}

pub struct WeatherPreferencesView {
    pub location: Seq<char>,
    pub lat: u64,
    pub lon: u64,
    pub units: Units,
}

impl WeatherPreferencesView {
    /// The place these preferences name.
    pub open spec fn location_point(self) -> LocationPointView {
        LocationPointView { location: self.location, lat: self.lat, lon: self.lon }
    }

    /// These preferences with the place replaced and the unit system kept.
    pub open spec fn set_from_location_point(self, point: LocationPointView) -> WeatherPreferencesView {
        WeatherPreferencesView {
            location: point.location,
            lat: point.lat,
            lon: point.lon,
            units: self.units,
        }
    }
}

/// Preferences that name `point` under `units`.
pub open spec fn preferences_for(point: LocationPointView, units: Units) -> WeatherPreferencesView {
    WeatherPreferencesView { location: point.location, lat: point.lat, lon: point.lon, units }
}

impl View for WeatherPreferences {
    type V = WeatherPreferencesView;

    open spec fn view(&self) -> WeatherPreferencesView {
        WeatherPreferencesView {
            location: self.location@,
            lat: self.lat,
            lon: self.lon,
            units: self.units,
        }
    }
}

impl Clone for WeatherPreferences {
    fn clone(&self) -> (copy: Self)
        ensures
            copy == *self,
    {
        WeatherPreferences {
            location: self.location.clone(),
            lat: self.lat,
            lon: self.lon,
            units: self.units,
        }
    }
}

impl WeatherPreferences {
    /// Preferences that name `point` under `units`.
    pub fn new(point: LocationPoint, units: Units) -> (prefs: Self)
        ensures
            prefs@ == preferences_for(point@, units),
    {
        WeatherPreferences { location: point.location, lat: point.lat, lon: point.lon, units }
    }

    /// The place these preferences name.
    pub fn location_point(&self) -> (point: LocationPoint)
        ensures
            point@ == self@.location_point(),
    {
        LocationPoint { location: self.location.clone(), lat: self.lat, lon: self.lon }
    }

    /// Replaces the place and keeps the unit system.
    pub fn set_from_location_point(&mut self, point: &LocationPoint)
        ensures
            final(self)@ == old(self)@.set_from_location_point(point@),
    {
        self.location = point.location.clone();
        self.lat = point.lat;
        self.lon = point.lon;
    }
}

} // verus!
