//! What the window shows: texts, lists and visibility flags, one field for
//! each thing the front end draws.

use vstd::prelude::*;
use vstd::string::StringExecFns;
use crate::location::{LocationPoint, LocationPointView};
use crate::weather::{
    optional, views, CurrentWeather, CurrentWeatherView, DailyWeather, DailyWeatherView,
    WeatherAlert, WeatherAlertView, WeatherData, WeatherDataView,
};

verus! {

/// Everything on display.
#[derive(Clone, Debug, PartialEq, Eq)]
pub struct Presentation {
    /// Position of the units switch; `true` is metric.
    pub units_switch: bool,
    /// Name of the place the forecast is for.
    pub location: String,
    pub location_visible: bool,
    /// Content of the search entry.
    pub location_search: String,
    pub location_search_visible: bool,
    pub location_search_button_visible: bool,
    /// Matches of the last search, in the order they were found.
    pub location_results: Vec<LocationPoint>,
    pub location_results_visible: bool,
    /// Name of the match that is selected in the list, if one is.
    pub location_results_active: Option<String>,
    pub refresh_button_visible: bool,
    pub temperature: String,
    pub feels_like: String,
    pub current_details: String,
    /// File of the picture for the current conditions; empty before the
    /// first forecast.
    pub current_picture: String,
    pub alerts: Vec<WeatherAlert>,
    pub daily: Vec<DailyWeather>,
    pub daily_visible: bool,
    pub hourly: Vec<CurrentWeather>,
    pub hourly_visible: bool,
    /// Whether the forecast pages and the buttons that switch between them
    /// are shown.
    pub stack_visible: bool,
}

pub struct PresentationView {
    pub units_switch: bool,
    pub location: Seq<char>,
    pub location_visible: bool,
    pub location_search: Seq<char>,
    pub location_search_visible: bool,
    pub location_search_button_visible: bool,
    pub location_results: Seq<LocationPointView>,
    pub location_results_visible: bool,
    pub location_results_active: Option<Seq<char>>,
    pub refresh_button_visible: bool,
    pub temperature: Seq<char>,
    pub feels_like: Seq<char>,
    pub current_details: Seq<char>,
    pub current_picture: Seq<char>,
    pub alerts: Seq<WeatherAlertView>,
    pub daily: Seq<DailyWeatherView>,
    pub daily_visible: bool,
    pub hourly: Seq<CurrentWeatherView>,
    pub hourly_visible: bool,
    pub stack_visible: bool,
}

impl View for Presentation {
    type V = PresentationView;

    open spec fn view(&self) -> PresentationView {
        PresentationView {
            units_switch: self.units_switch,
            location: self.location@,
            location_visible: self.location_visible,
            location_search: self.location_search@,
            location_search_visible: self.location_search_visible,
            location_search_button_visible: self.location_search_button_visible,
            location_results: views(self.location_results@),
            location_results_visible: self.location_results_visible,
            location_results_active: optional(self.location_results_active),
            refresh_button_visible: self.refresh_button_visible,
            temperature: self.temperature@,
            feels_like: self.feels_like@,
            current_details: self.current_details@,
            current_picture: self.current_picture@,
            alerts: views(self.alerts@),
            daily: views(self.daily@),
            daily_visible: self.daily_visible,
            hourly: views(self.hourly@),
            hourly_visible: self.hourly_visible,
            stack_visible: self.stack_visible,
        }
    }
}

/// File of the picture for `icon` below the directory `base`; the picture
/// named `unknown` where no icon is given.
pub open spec fn icon_path_text(base: Seq<char>, icon: Option<Seq<char>>) -> Seq<char> {
    match icon {
        Some(name) => base + "/icons/"@ + name + ".png"@,
        None => base + "/icons/unknown.png"@,
    }
}

/// Icon of the most significant condition of a reading, if it has one.
pub open spec fn leading_icon(current: Option<CurrentWeatherView>) -> Option<Seq<char>> {
    match current {
        Some(reading) => if reading.status.len() > 0 {
            Some(reading.status[0].icon)
        } else {
            None
        },
        None => None,
    }
}

/// File of the picture for a reading: that of its leading icon.
pub open spec fn current_picture_text(base: Seq<char>, current: Option<CurrentWeatherView>) -> Seq<
    char,
> {
    icon_path_text(base, leading_icon(current))
}

/// Large-type markup for a temperature.
pub open spec fn temperature_text(temp: Seq<char>) -> Seq<char> {
    "<big>"@ + temp + "</big>"@
}

/// Large-type markup for a perceived temperature.
pub open spec fn feels_like_text(feels_like: Seq<char>) -> Seq<char> {
    "<big>Feels like: "@ + feels_like + "</big>"@
}

/// Visibility of a reading, `0` where none was reported.
pub open spec fn visibility_text(visibility: Option<Seq<char>>) -> Seq<char> {
    match visibility {
        Some(text) => text,
        None => "0"@,
    }
}

/// Markup of the detail page for a reading, one quantity per line.
pub open spec fn details_text(reading: CurrentWeatherView) -> Seq<char> {
    "\n<b>At</b> "@ + reading.time + "\nPressure: "@ + reading.pressure + "\nHumidity: "@
        + reading.humidity + "\nUV Index: "@ + reading.uvi + "\nVisibility: "@ + visibility_text(
        reading.visibility,
    ) + "\nWind Speed: "@ + reading.wind_speed + "\nPrecipitation: "@ + reading.pop
        + "%\n            "@
}

/// Headline shown where a forecast request produced nothing usable.
pub open spec fn invalid_temperature_text() -> Seq<char> {
    "<big>Invalid Data</big>"@
}

/// Hint shown below the headline where a forecast request produced nothing
/// usable.
pub open spec fn invalid_feels_like_text() -> Seq<char> {
    "Please try another city name!"@
}

impl PresentationView {
    /// The window before any message: only the search entry and its button
    /// invite input, no forecast is shown.
    pub open spec fn initial() -> PresentationView {
        PresentationView {
            units_switch: false,
            location: Seq::empty(),
            location_visible: false,
            location_search: Seq::empty(),
            location_search_visible: true,
            location_search_button_visible: true,
            location_results: Seq::empty(),
            location_results_visible: false,
            location_results_active: None,
            refresh_button_visible: false,
            temperature: Seq::empty(),
            feels_like: Seq::empty(),
            current_details: Seq::empty(),
            current_picture: Seq::empty(),
            alerts: Seq::empty(),
            daily: Seq::empty(),
            daily_visible: false,
            hourly: Seq::empty(),
            hourly_visible: false,
            stack_visible: true,
        }
    }

    /// Shows a reading as the current conditions, or the "invalid data"
    /// notice with the picture named `unknown` where there is none.
    pub open spec fn update_current_weather(
        self,
        base: Seq<char>,
        current: Option<CurrentWeatherView>,
    ) -> PresentationView {
        match current {
            Some(reading) => PresentationView {
                temperature: temperature_text(reading.temp),
                feels_like: feels_like_text(reading.feels_like),
                current_details: details_text(reading),
                current_picture: current_picture_text(base, current),
                ..self
            },
            None => PresentationView {
                temperature: invalid_temperature_text(),
                feels_like: invalid_feels_like_text(),
                current_details: Seq::empty(),
                current_picture: current_picture_text(base, current),
                ..self
            },
        }
    }

    /// Shows a daily forecast, or empties and hides the list.
    pub open spec fn update_daily_weather(self, daily: Option<Seq<DailyWeatherView>>) -> PresentationView {
        match daily {
            Some(days) => PresentationView { daily: days, daily_visible: true, ..self },
            None => PresentationView { daily: Seq::empty(), daily_visible: false, ..self },
        }
    }

    /// Shows an hourly forecast, or empties and hides the list.
    pub open spec fn update_hourly_weather(
        self,
        hourly: Option<Seq<CurrentWeatherView>>,
    ) -> PresentationView {
        match hourly {
            Some(hours) => PresentationView { hourly: hours, hourly_visible: true, ..self },
            None => PresentationView { hourly: Seq::empty(), hourly_visible: false, ..self },
        }
    }

    /// Shows the alerts in force, or none.
    pub open spec fn update_alerts(self, alerts: Option<Seq<WeatherAlertView>>) -> PresentationView {
        match alerts {
            Some(list) => PresentationView { alerts: list, ..self },
            None => PresentationView { alerts: Seq::empty(), ..self },
        }
    }

    /// Shows every part of a forecast, or clears every part and shows the
    /// "invalid data" notice.
    pub open spec fn update_weather(self, base: Seq<char>, weather: Option<WeatherDataView>) -> PresentationView {
        match weather {
            Some(data) => self.update_current_weather(base, Some(data.current)).update_daily_weather(
                Some(data.daily),
            ).update_hourly_weather(Some(data.hourly)).update_alerts(Some(data.alerts)),
            None => self.update_current_weather(base, None).update_daily_weather(
                None,
            ).update_hourly_weather(None).update_alerts(None),
        }
    }

    /// Shows or hides the forecast pages together with their buttons.
    pub open spec fn set_stack_components_visible(self, visible: bool) -> PresentationView {
        PresentationView { stack_visible: visible, ..self }
    }

    /// With a name: shows the place with the refresh button and the
    /// forecast pages, and hides everything that serves a search. Without:
    /// returns to "no place chosen", where the emptied search entry and its
    /// button are shown and every part of the forecast is cleared.
    pub open spec fn update_location(self, base: Seq<char>, location: Option<Seq<char>>) -> PresentationView {
        match location {
            Some(name) => PresentationView {
                location: name,
                location_visible: true,
                location_search_visible: false,
                location_results_visible: false,
                location_search_button_visible: false,
                refresh_button_visible: true,
                daily_visible: true,
                ..self
            }.set_stack_components_visible(true),
            None => PresentationView {
                location: Seq::empty(),
                location_visible: false,
                location_search: Seq::empty(),
                location_search_visible: true,
                location_search_button_visible: true,
                refresh_button_visible: false,
                ..self
            }.update_weather(base, None).set_stack_components_visible(false),
        }
    }

    /// Hides the place and the search entry with its button while a search
    /// is under way.
    pub open spec fn hide_location_entry(self) -> PresentationView {
        PresentationView {
            location_visible: false,
            location_search_visible: false,
            location_search_button_visible: false,
            ..self
        }
    }

    /// Shows the matches of a search; `active` names the selected one.
    pub open spec fn show_location_results(
        self,
        found: Seq<LocationPointView>,
        active: Option<Seq<char>>,
    ) -> PresentationView {
        PresentationView {
            location_results: found,
            location_results_visible: true,
            location_results_active: active,
            ..self
        }
    }

    /// What holds of the window in every state the application reaches.
    pub open spec fn well_formed(self) -> bool {
        &&& self.location_search_visible == self.location_search_button_visible
        &&& self.location_visible ==> self.refresh_button_visible
        &&& self.refresh_button_visible ==> !self.location_search_visible
        &&& !self.daily_visible ==> self.daily.len() == 0
        &&& !self.hourly_visible ==> self.hourly.len() == 0
    }
}

/// Builds the file name of the picture for `icon` below the directory `base`.
pub fn icon_path(base: &str, icon: Option<String>) -> (path: String)
    ensures
        path@ == icon_path_text(base@, optional(icon)),
{
    let mut path = String::from_str(base);
    match icon {
        Some(name) => {
            path.append("/icons/");
            path.append(name.as_str());
            path.append(".png");
        },
        None => {
            path.append("/icons/unknown.png");
        },
    }
    path
}

/// Builds the file name of the picture for a reading below the directory
/// `base`: the picture of its most significant condition, or the picture
/// named `unknown` where there is no reading or it has no condition.
pub fn current_picture_path(base: &str, current: Option<&CurrentWeather>) -> (path: String)
    ensures
        path@ == current_picture_text(
            base@,
            match current {
                Some(reading) => Some(reading@),
                None => None,
            },
        ),
{
    match current {
        Some(reading) => {
            if reading.status.len() > 0 {
                icon_path(base, Some(reading.status[0].icon.clone()))
            } else {
                icon_path(base, None)
            }
        },
        None => icon_path(base, None),
    }
}

/// Builds the large-type markup for a temperature.
pub fn temperature_markup(temp: &str) -> (markup: String)
    ensures
        markup@ == temperature_text(temp@),
{
    let mut markup = String::from_str("<big>");
    markup.append(temp);
    markup.append("</big>");
    markup
}

/// Builds the large-type markup for a perceived temperature.
pub fn feels_like_markup(feels_like: &str) -> (markup: String)
    ensures
        markup@ == feels_like_text(feels_like@),
{
    let mut markup = String::from_str("<big>Feels like: ");
    markup.append(feels_like);
    markup.append("</big>");
    markup
}

/// Builds the markup of the detail page for a reading.
pub fn details_markup(reading: &CurrentWeather) -> (markup: String)
    ensures
        markup@ == details_text(reading@),
{
    let mut markup = String::from_str("\n<b>At</b> ");
    markup.append(reading.time.as_str());
    markup.append("\nPressure: ");
    markup.append(reading.pressure.as_str());
    markup.append("\nHumidity: ");
    markup.append(reading.humidity.as_str());
    markup.append("\nUV Index: ");
    markup.append(reading.uvi.as_str());
    markup.append("\nVisibility: ");
    match &reading.visibility {
        Some(text) => {
            markup.append(text.as_str());
        },
        None => {
            markup.append("0");
        },
    }
    markup.append("\nWind Speed: ");
    markup.append(reading.wind_speed.as_str());
    markup.append("\nPrecipitation: ");
    markup.append(reading.pop.as_str());
    markup.append("%\n            ");
    markup
}

impl Presentation {
    /// The window before any message.
    pub fn new() -> (shown: Self)
        ensures
            shown@ == PresentationView::initial(),
    {
        let shown = Presentation {
            units_switch: false,
            location: String::new(),
            location_visible: false,
            location_search: String::new(),
            location_search_visible: true,
            location_search_button_visible: true,
            location_results: Vec::new(),
            location_results_visible: false,
            location_results_active: None,
            refresh_button_visible: false,
            temperature: String::new(),
            feels_like: String::new(),
            current_details: String::new(),
            current_picture: String::new(),
            alerts: Vec::new(),
            daily: Vec::new(),
            daily_visible: false,
            hourly: Vec::new(),
            hourly_visible: false,
            stack_visible: true,
        };
        assert(shown@.location_results =~= Seq::empty());
        assert(shown@.alerts =~= Seq::empty());
        assert(shown@.daily =~= Seq::empty());
        assert(shown@.hourly =~= Seq::empty());
        shown
    }

    /// Sets the picture for the current conditions from a reading.
    pub fn update_current_image(&mut self, base: &str, current: Option<&CurrentWeather>)
        ensures
            final(self)@ == (PresentationView {
                current_picture: current_picture_text(
                    base@,
                    match current {
                        Some(reading) => Some(reading@),
                        None => None,
                    },
                ),
                ..old(self)@
            }),
    {
        self.current_picture = current_picture_path(base, current);
    }

    /// Shows a reading as the current conditions, or the "invalid data"
    /// notice where there is none.
    pub fn update_current_weather(&mut self, base: &str, current: Option<CurrentWeather>)
        ensures
            final(self)@ == old(self)@.update_current_weather(base@, optional(current)),
    {
        match current {
            Some(reading) => {
                self.temperature = temperature_markup(reading.temp.as_str());
                self.feels_like = feels_like_markup(reading.feels_like.as_str());
                self.current_details = details_markup(&reading);
                self.update_current_image(base, Some(&reading));
            },
            None => {
                self.temperature = String::from_str("<big>Invalid Data</big>");
                self.feels_like = String::from_str("Please try another city name!");
                self.current_details = String::new();
                self.update_current_image(base, None);
            },
        }
    }

    /// Shows a daily forecast, or empties and hides the list.
    pub fn update_daily_weather(&mut self, daily: Option<Vec<DailyWeather>>)
        ensures
            final(self)@ == old(self)@.update_daily_weather(
                match daily {
                    Some(days) => Some(views(days@)),
                    None => None,
                },
            ),
    {
        match daily {
            Some(days) => {
                self.daily = days;
                self.daily_visible = true;
            },
            None => {
                self.daily = Vec::new();
                self.daily_visible = false;
                assert(views(self.daily@) =~= Seq::empty());
            },
        }
    }

    /// Shows an hourly forecast, or empties and hides the list.
    pub fn update_hourly_weather(&mut self, hourly: Option<Vec<CurrentWeather>>)
        ensures
            final(self)@ == old(self)@.update_hourly_weather(
                match hourly {
                    Some(hours) => Some(views(hours@)),
                    None => None,
                },
            ),
    {
        match hourly {
            Some(hours) => {
                self.hourly = hours;
                self.hourly_visible = true;
            },
            None => {
                self.hourly = Vec::new();
                self.hourly_visible = false;
                assert(views(self.hourly@) =~= Seq::empty());
            },
        }
    }

    /// Shows the alerts in force, or none.
    pub fn update_alerts(&mut self, weather_alerts: Option<Vec<WeatherAlert>>)
        ensures
            final(self)@ == old(self)@.update_alerts(
                match weather_alerts {
                    Some(list) => Some(views(list@)),
                    None => None,
                },
            ),
    {
        match weather_alerts {
            Some(list) => {
                self.alerts = list;
            },
            None => {
                self.alerts = Vec::new();
                assert(views(self.alerts@) =~= Seq::empty());
            },
        }
    }

    /// Shows every part of a forecast, or clears every part and shows the
    /// "invalid data" notice.
    pub fn update_weather(&mut self, base: &str, weather: Option<WeatherData>)
        ensures
            final(self)@ == old(self)@.update_weather(base@, optional(weather)),
    {
        match weather {
            Some(data) => {
                self.update_current_weather(base, Some(data.current));
                self.update_daily_weather(Some(data.daily));
                self.update_hourly_weather(Some(data.hourly));
                self.update_alerts(Some(data.alerts));
            },
            None => {
                self.update_current_weather(base, None);
                self.update_daily_weather(None);
                self.update_hourly_weather(None);
                self.update_alerts(None);
            },
        }
    }

    /// Shows or hides the forecast pages together with their buttons.
    pub fn set_stack_components_visible(&mut self, visible: bool)
        ensures
            final(self)@ == old(self)@.set_stack_components_visible(visible),
    {
        self.stack_visible = visible;
    }

    /// Shows a place, or returns to "no place chosen".
    pub fn update_location(&mut self, base: &str, location: Option<String>)
        ensures
            final(self)@ == old(self)@.update_location(base@, optional(location)),
    {
        match location {
            Some(name) => {
                self.location_visible = true;
                self.location_search_visible = false;
                self.location_results_visible = false;
                self.location_search_button_visible = false;
                self.refresh_button_visible = true;
                self.daily_visible = true;
                self.location = name;
                self.set_stack_components_visible(true);
            },
            None => {
                self.location = String::new();
                self.location_visible = false;
                self.location_search_visible = true;
                self.location_search_button_visible = true;
                self.refresh_button_visible = false;
                self.location_search = String::new();
                self.update_weather(base, None);
                self.set_stack_components_visible(false);
            },
        }
    }

    /// Hides the place and the search entry with its button while a search
    /// is under way.
    pub fn hide_location_entry(&mut self)
        ensures
            final(self)@ == old(self)@.hide_location_entry(),
    {
        self.location_visible = false;
        self.location_search_visible = false;
        self.location_search_button_visible = false;
    }

    /// Shows the matches of a search; `active` names the selected one.
    pub fn show_location_results(&mut self, found: Vec<LocationPoint>, active: Option<String>)
        ensures
            final(self)@ == old(self)@.show_location_results(views(found@), optional(active)),
    {
        self.location_results_active = active;
        self.location_results = found;
        self.location_results_visible = true;
    }
}

} // verus!
