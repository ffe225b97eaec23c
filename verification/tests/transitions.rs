use weather_sync::application::WeatherApplication;
use weather_sync::location::{LocationPoint, WeatherPreferences};
use weather_sync::message::{
    location_editing, location_selected, refresh_clicked, search_clicked, units_switched, Command,
    WeatherUpdate,
};
use weather_sync::presentation::Presentation;
use weather_sync::weather::{
    CurrentWeather, DailyWeather, Units, WeatherAlert, WeatherData, WeatherStatus,
};

fn paris() -> LocationPoint {
    LocationPoint { location: "Paris, FR".to_string(), lat: 48.8566f64.to_bits(), lon: 2.3522f64.to_bits() }
}

fn paris_texas() -> LocationPoint {
    LocationPoint { location: "Paris, US".to_string(), lat: 33.6609f64.to_bits(), lon: (-95.5555f64).to_bits() }
}

fn oslo_prefs(units: Units) -> WeatherPreferences {
    WeatherPreferences {
        location: "Oslo, NO".to_string(),
        lat: 59.9139f64.to_bits(),
        lon: 10.7522f64.to_bits(),
        units,
    }
}

fn reading(temp: &str, icons: &[&str]) -> CurrentWeather {
    CurrentWeather {
        time: "14:05".to_string(),
        temp: temp.to_string(),
        feels_like: "20.1°C".to_string(),
        pressure: "1013".to_string(),
        humidity: "40".to_string(),
        uvi: "5.2".to_string(),
        visibility: Some("10000".to_string()),
        wind_speed: "3.4 m/s".to_string(),
        pop: "35".to_string(),
        status: icons.iter().map(|icon| WeatherStatus { icon: icon.to_string() }).collect(),
    }
}

fn forecast(units: Units) -> WeatherData {
    WeatherData {
        preferences: oslo_prefs(units),
        current: reading("21.5°C", &["10d"]),
        hourly: vec![reading("22.0°C", &["01d"]), reading("19.5°C", &["02n"])],
        daily: vec![DailyWeather {
            day: "Monday".to_string(),
            temp_min: "12.0°C".to_string(),
            temp_max: "23.0°C".to_string(),
            status: vec![WeatherStatus { icon: "03d".to_string() }],
        }],
        alerts: vec![WeatherAlert { event: "Wind".to_string(), description: "Gusts".to_string() }],
    }
}

fn fresh() -> WeatherApplication {
    WeatherApplication::new("/opt/weather".to_string())
}

fn loaded(preferences: Option<WeatherPreferences>) -> (WeatherApplication, flume::Receiver<WeatherUpdate>) {
    let (sender, receiver) = flume::unbounded();
    let mut app = fresh();
    let _ = app.load(preferences, sender);
    (app, receiver)
}

fn fetches(commands: &[Command]) -> usize {
    commands.iter().filter(|command| matches!(command, Command::Fetch(_))).count()
}

#[test]
fn new_application_shows_only_the_search_entry() {
    let app = fresh();
    assert!(app.is_active());
    assert!(!app.is_loaded());
    assert!(app.preferences().is_none());
    assert_eq!(app.working_dir(), "/opt/weather");
    assert_eq!(app.get_units(), Units::Metric);
    let shown = app.presentation();
    assert_eq!(*shown, Presentation::new());
    assert!(!shown.units_switch);
    assert_eq!(shown.location, "");
    assert!(!shown.location_visible);
    assert_eq!(shown.location_search, "");
    assert!(shown.location_search_visible);
    assert!(shown.location_search_button_visible);
    assert!(shown.location_results.is_empty());
    assert!(!shown.location_results_visible);
    assert_eq!(shown.location_results_active, None);
    assert!(!shown.refresh_button_visible);
    assert_eq!(shown.temperature, "");
    assert_eq!(shown.feels_like, "");
    assert_eq!(shown.current_details, "");
    assert_eq!(shown.current_picture, "");
    assert!(shown.alerts.is_empty());
    assert!(shown.daily.is_empty());
    assert!(!shown.daily_visible);
    assert!(shown.hourly.is_empty());
    assert!(!shown.hourly_visible);
    assert!(shown.stack_visible);
}

#[test]
fn load_with_preferences_requests_their_forecast() {
    let (sender, receiver) = flume::unbounded();
    let mut app = fresh();
    let commands = app.load(Some(oslo_prefs(Units::Metric)), sender);
    assert_eq!(commands, vec![Command::Fetch(oslo_prefs(Units::Metric))]);
    assert!(app.is_loaded());
    assert!(app.is_active());
    assert_eq!(app.preferences(), Some(oslo_prefs(Units::Metric)));
    assert!(app.presentation().units_switch);
    assert_eq!(app.get_units(), Units::Metric);
    assert!(receiver.try_recv().is_err());
}

#[test]
fn load_with_imperial_preferences_leaves_the_switch_off() {
    let (sender, _receiver) = flume::unbounded();
    let mut app = fresh();
    let commands = app.load(Some(oslo_prefs(Units::Imperial)), sender);
    assert_eq!(commands, vec![Command::Fetch(oslo_prefs(Units::Imperial))]);
    assert!(!app.presentation().units_switch);
    assert_eq!(app.get_units(), Units::Imperial);
}

#[test]
fn load_without_preferences_asks_for_no_location() {
    let (sender, _receiver) = flume::unbounded();
    let mut app = fresh();
    let commands = app.load(None, sender);
    assert_eq!(commands, vec![Command::Enqueue(WeatherUpdate::LocationResolved(None))]);
    assert!(app.is_loaded());
    assert!(app.preferences().is_none());
    assert_eq!(*app.presentation(), Presentation::new());
}

#[test]
fn refresh_without_location_does_nothing() {
    let (mut app, receiver) = loaded(None);
    let before = app.presentation().clone();
    let commands = app.update(WeatherUpdate::RefreshRequested);
    assert!(commands.is_empty());
    assert_eq!(*app.presentation(), before);
    assert!(app.preferences().is_none());
    let done = app.process(WeatherUpdate::RefreshRequested);
    assert!(done.work.is_empty());
    assert!(receiver.try_recv().is_err());
}

#[test]
fn refresh_with_location_requests_it_again() {
    let (mut app, _receiver) = loaded(Some(oslo_prefs(Units::Imperial)));
    let before = app.presentation().clone();
    let commands = app.update(WeatherUpdate::RefreshRequested);
    assert_eq!(commands, vec![Command::Fetch(oslo_prefs(Units::Imperial))]);
    assert_eq!(*app.presentation(), before);
    assert_eq!(app.refresh_weather(), vec![Command::Fetch(oslo_prefs(Units::Imperial))]);
}

#[test]
fn search_for_paris_with_two_candidates_shows_the_picker() {
    let (mut app, receiver) = loaded(None);
    let searching = app.update(WeatherUpdate::LocationSearchRequested("Paris".to_string()));
    assert_eq!(searching, vec![Command::Search("Paris".to_string())]);
    assert!(!app.presentation().location_visible);
    assert!(!app.presentation().location_search_visible);
    assert!(!app.presentation().location_search_button_visible);

    let found = app.update(WeatherUpdate::LocationCandidatesFound(vec![paris(), paris_texas()]));
    assert_eq!(found, vec![Command::ShowPicker]);
    assert_eq!(fetches(&searching) + fetches(&found), 0);
    assert!(app.presentation().location_results_visible);
    assert_eq!(app.presentation().location_results, vec![paris(), paris_texas()]);
    assert_eq!(app.presentation().location_results_active, None);
    assert!(receiver.try_recv().is_err());
}

#[test]
fn empty_search_query_is_ignored() {
    let (mut app, _receiver) = loaded(None);
    let before = app.presentation().clone();
    let commands = app.update(WeatherUpdate::LocationSearchRequested(String::new()));
    assert!(commands.is_empty());
    assert_eq!(*app.presentation(), before);
    assert!(app.process(WeatherUpdate::LocationSearchRequested(String::new())).work.is_empty());
    assert_eq!(*app.presentation(), before);
}

#[test]
fn single_candidate_is_selected_and_requested() {
    let (mut app, _receiver) = loaded(None);
    let direct = app.request_weather(paris());
    let commands = app.update(WeatherUpdate::LocationCandidatesFound(vec![paris()]));
    assert_eq!(commands, vec![direct]);
    assert_eq!(
        commands,
        vec![Command::Fetch(WeatherPreferences {
            location: "Paris, FR".to_string(),
            lat: 48.8566f64.to_bits(),
            lon: 2.3522f64.to_bits(),
            units: Units::Metric,
        })]
    );
    assert!(app.presentation().location_results_visible);
    assert_eq!(app.presentation().location_results, vec![paris()]);
    assert_eq!(app.presentation().location_results_active, Some("Paris, FR".to_string()));
    assert_eq!(app.preferences(), Some(WeatherPreferences::new(paris(), Units::Metric)));
    assert_eq!(
        app.update(WeatherUpdate::RefreshRequested),
        vec![Command::Fetch(WeatherPreferences::new(paris(), Units::Metric))]
    );
}

#[test]
fn single_candidate_is_taken_over_by_existing_preferences() {
    let (mut app, _receiver) = loaded(Some(oslo_prefs(Units::Imperial)));
    let direct = app.request_weather(paris());
    let commands = app.update(WeatherUpdate::LocationCandidatesFound(vec![paris()]));
    let chosen = WeatherPreferences {
        location: "Paris, FR".to_string(),
        lat: 48.8566f64.to_bits(),
        lon: 2.3522f64.to_bits(),
        units: Units::Imperial,
    };
    assert_eq!(direct, Command::Fetch(chosen.clone()));
    assert_eq!(commands, vec![Command::Persist(chosen.clone()), direct]);
    assert_eq!(fetches(&commands), 1);
    assert_eq!(app.preferences(), Some(chosen.clone()));
    assert_eq!(app.presentation().location_results_active, Some("Paris, FR".to_string()));
    assert_eq!(app.update(WeatherUpdate::RefreshRequested), vec![Command::Fetch(chosen)]);
}

#[test]
fn no_candidate_ends_as_no_location_does() {
    let (mut left, _r1) = loaded(Some(oslo_prefs(Units::Metric)));
    let (mut right, _r2) = loaded(Some(oslo_prefs(Units::Metric)));
    for app in [&mut left, &mut right] {
        let _ = app.update(WeatherUpdate::DataFetched(Some(forecast(Units::Metric))));
        let _ = app.update(WeatherUpdate::LocationResolved(Some("Oslo, NO".to_string())));
    }
    let from_search = left.update(WeatherUpdate::LocationCandidatesFound(Vec::new()));
    let from_reset = right.update(WeatherUpdate::LocationResolved(None));
    assert!(from_search.is_empty());
    assert!(from_reset.is_empty());
    assert_eq!(left.presentation(), right.presentation());
    assert_eq!(left.preferences(), right.preferences());
    assert!(left.presentation().location_search_visible);
    assert!(!left.presentation().location_visible);
}

#[test]
fn missing_data_clears_the_forecast_and_keeps_the_location() {
    let (mut app, _receiver) = loaded(Some(oslo_prefs(Units::Metric)));
    let _ = app.update(WeatherUpdate::DataFetched(Some(forecast(Units::Metric))));
    let _ = app.update(WeatherUpdate::LocationResolved(Some("Oslo, NO".to_string())));
    let commands = app.update(WeatherUpdate::DataFetched(None));
    assert!(commands.is_empty());
    let shown = app.presentation();
    assert_eq!(shown.temperature, "<big>Invalid Data</big>");
    assert_eq!(shown.feels_like, "Please try another city name!");
    assert_eq!(shown.current_details, "");
    assert_eq!(shown.current_picture, "/opt/weather/icons/unknown.png");
    assert!(shown.hourly.is_empty());
    assert!(!shown.hourly_visible);
    assert!(shown.daily.is_empty());
    assert!(!shown.daily_visible);
    assert!(shown.alerts.is_empty());
    assert_eq!(shown.location, "Oslo, NO");
    assert!(shown.location_visible);
    assert!(shown.refresh_button_visible);
    assert!(shown.stack_visible);
    assert_eq!(app.preferences(), Some(oslo_prefs(Units::Metric)));
}

#[test]
fn fetched_data_is_shown() {
    let (mut app, _receiver) = loaded(Some(oslo_prefs(Units::Metric)));
    let commands = app.update(WeatherUpdate::DataFetched(Some(forecast(Units::Imperial))));
    assert_eq!(
        commands,
        vec![Command::Enqueue(WeatherUpdate::PreferencesPersist(oslo_prefs(Units::Imperial)))]
    );
    let shown = app.presentation();
    assert_eq!(shown.temperature, "<big>21.5°C</big>");
    assert_eq!(shown.feels_like, "<big>Feels like: 20.1°C</big>");
    assert_eq!(
        shown.current_details,
        "\n<b>At</b> 14:05\nPressure: 1013\nHumidity: 40\nUV Index: 5.2\nVisibility: 10000\nWind Speed: 3.4 m/s\nPrecipitation: 35%\n            "
    );
    assert_eq!(shown.current_picture, "/opt/weather/icons/10d.png");
    assert_eq!(shown.hourly, forecast(Units::Imperial).hourly);
    assert!(shown.hourly_visible);
    assert_eq!(shown.daily, forecast(Units::Imperial).daily);
    assert!(shown.daily_visible);
    assert_eq!(shown.alerts, forecast(Units::Imperial).alerts);
    assert_eq!(app.preferences(), Some(oslo_prefs(Units::Imperial)));
    assert_eq!(app.get_units(), Units::Imperial);
}

#[test]
fn fetched_data_is_followed_by_a_request_to_save() {
    let (mut app, receiver) = loaded(None);
    let done = app.process(WeatherUpdate::DataFetched(Some(forecast(Units::Metric))));
    assert!(done.work.is_empty());
    assert_eq!(receiver.try_recv(), Ok(WeatherUpdate::PreferencesPersist(oslo_prefs(Units::Metric))));
    assert!(receiver.try_recv().is_err());

    let work = app.settle(vec![WeatherUpdate::DataFetched(Some(forecast(Units::Imperial)))]);
    assert_eq!(work, vec![Command::Persist(oslo_prefs(Units::Imperial))]);
    let work = app.settle(vec![WeatherUpdate::DataFetched(None)]);
    assert!(work.is_empty());
}

#[test]
fn fetched_data_keeps_the_stored_place_and_takes_the_units() {
    let (mut app, _receiver) = loaded(None);
    let _ = app.update(WeatherUpdate::LocationCandidatesFound(vec![paris()]));
    let commands = app.update(WeatherUpdate::DataFetched(Some(forecast(Units::Imperial))));
    assert_eq!(
        commands,
        vec![Command::Enqueue(WeatherUpdate::PreferencesPersist(oslo_prefs(Units::Imperial)))]
    );
    assert_eq!(app.preferences(), Some(WeatherPreferences::new(paris(), Units::Imperial)));
    assert_eq!(app.get_units(), Units::Imperial);
    assert_eq!(app.presentation().temperature, "<big>21.5°C</big>");
    assert_eq!(app.presentation().hourly, forecast(Units::Imperial).hourly);
    assert_eq!(
        app.update(WeatherUpdate::RefreshRequested),
        vec![Command::Fetch(WeatherPreferences::new(paris(), Units::Imperial))]
    );
}

#[test]
fn fetched_data_without_a_place_takes_only_the_units() {
    let (mut app, _receiver) = loaded(None);
    let _ = app.update(WeatherUpdate::DataFetched(Some(forecast(Units::Imperial))));
    assert!(app.preferences().is_none());
    assert_eq!(app.get_units(), Units::Imperial);
    assert_eq!(app.presentation().temperature, "<big>21.5°C</big>");
}

#[test]
fn late_forecast_does_not_undo_a_newer_choice() {
    let (mut app, _receiver) = loaded(Some(oslo_prefs(Units::Metric)));
    let _ = app.update(WeatherUpdate::LocationCandidatesFound(vec![paris()]));
    let _ = app.update(WeatherUpdate::DataFetched(Some(forecast(Units::Metric))));
    assert_eq!(app.preferences(), Some(WeatherPreferences::new(paris(), Units::Metric)));
    assert_eq!(
        app.update(WeatherUpdate::RefreshRequested),
        vec![Command::Fetch(WeatherPreferences::new(paris(), Units::Metric))]
    );
}

#[test]
fn refresh_after_a_first_choice_requests_that_place_again() {
    let (mut app, receiver) = loaded(None);
    assert!(app.preferences().is_none());
    let request = WeatherPreferences::new(paris(), Units::Metric);
    let mut weather = forecast(Units::Metric);
    weather.preferences = request.clone();

    let chosen = app.update(WeatherUpdate::LocationCandidatesFound(vec![paris()]));
    assert_eq!(chosen, vec![Command::Fetch(request.clone())]);
    assert_eq!(app.submit(WeatherUpdate::DataFetched(Some(weather))), Ok(()));
    assert_eq!(app.submit(WeatherUpdate::LocationResolved(Some("Paris, FR".to_string()))), Ok(()));
    let drained = app.drain(&receiver, 10);
    assert_eq!(drained.applied, 3);
    assert_eq!(drained.commands, vec![Command::Persist(request.clone())]);
    assert!(app.presentation().refresh_button_visible);

    let refreshed = app.update(WeatherUpdate::RefreshRequested);
    assert_eq!(refreshed, vec![Command::Fetch(request.clone())]);
    assert_eq!(f64::from_bits(request.lat), 48.8566);
    assert_eq!(f64::from_bits(request.lon), 2.3522);
}

#[test]
fn refresh_after_a_failed_first_choice_tries_the_place_again() {
    let (mut app, _receiver) = loaded(None);
    let _ = app.update(WeatherUpdate::LocationCandidatesFound(vec![paris()]));
    let _ = app.update(WeatherUpdate::DataFetched(None));
    let _ = app.update(WeatherUpdate::LocationResolved(Some("Paris, FR".to_string())));
    assert_eq!(
        app.update(WeatherUpdate::RefreshRequested),
        vec![Command::Fetch(WeatherPreferences::new(paris(), Units::Metric))]
    );
}

#[test]
fn units_change_after_a_first_choice_refreshes_under_the_new_units() {
    let (mut app, _receiver) = loaded(None);
    let _ = app.update(WeatherUpdate::LocationCandidatesFound(vec![paris()]));
    let work = app.settle(vec![WeatherUpdate::UnitsChanged(Units::Imperial)]);
    assert_eq!(work, vec![Command::Fetch(WeatherPreferences::new(paris(), Units::Imperial))]);
}

#[test]
fn resolved_location_is_put_on_display() {
    let (mut app, _receiver) = loaded(None);
    let _ = app.update(WeatherUpdate::LocationSearchRequested("Paris".to_string()));
    let _ = app.update(WeatherUpdate::LocationCandidatesFound(vec![paris(), paris_texas()]));
    let commands = app.update(WeatherUpdate::LocationResolved(Some("Paris, FR".to_string())));
    assert!(commands.is_empty());
    let shown = app.presentation();
    assert_eq!(shown.location, "Paris, FR");
    assert!(shown.location_visible);
    assert!(!shown.location_search_visible);
    assert!(!shown.location_results_visible);
    assert!(!shown.location_search_button_visible);
    assert!(shown.refresh_button_visible);
    assert!(shown.daily_visible);
    assert!(shown.stack_visible);
}

#[test]
fn no_location_resets_the_window() {
    let (mut app, _receiver) = loaded(Some(oslo_prefs(Units::Metric)));
    let _ = app.update(WeatherUpdate::DataFetched(Some(forecast(Units::Metric))));
    let _ = app.update(WeatherUpdate::LocationResolved(Some("Oslo, NO".to_string())));
    let commands = app.update(WeatherUpdate::LocationResolved(None));
    assert!(commands.is_empty());
    let shown = app.presentation();
    assert_eq!(shown.location, "");
    assert!(!shown.location_visible);
    assert_eq!(shown.location_search, "");
    assert!(shown.location_search_visible);
    assert!(shown.location_search_button_visible);
    assert!(!shown.refresh_button_visible);
    assert!(!shown.daily_visible);
    assert!(!shown.hourly_visible);
    assert!(!shown.stack_visible);
    assert!(shown.daily.is_empty());
    assert!(shown.hourly.is_empty());
    assert!(shown.alerts.is_empty());
    assert_eq!(shown.temperature, "<big>Invalid Data</big>");
    assert_eq!(shown.feels_like, "Please try another city name!");
    assert_eq!(shown.current_picture, "/opt/weather/icons/unknown.png");
    assert_eq!(app.preferences(), Some(oslo_prefs(Units::Metric)));
}

#[test]
fn persist_message_asks_for_a_write() {
    let (mut app, _receiver) = loaded(None);
    let before = app.presentation().clone();
    let commands = app.update(WeatherUpdate::PreferencesPersist(oslo_prefs(Units::Imperial)));
    assert_eq!(commands, vec![Command::Persist(oslo_prefs(Units::Imperial))]);
    assert_eq!(*app.presentation(), before);
    assert!(app.preferences().is_none());
    assert_eq!(
        WeatherApplication::save_preferences(oslo_prefs(Units::Metric)),
        Command::Persist(oslo_prefs(Units::Metric))
    );
}

#[test]
fn units_change_updates_preferences_and_enqueues_refresh() {
    let (mut app, _receiver) = loaded(Some(oslo_prefs(Units::Metric)));
    let before = app.presentation().clone();
    let commands = app.update(WeatherUpdate::UnitsChanged(Units::Imperial));
    assert_eq!(commands, vec![Command::Enqueue(WeatherUpdate::RefreshRequested)]);
    assert_eq!(app.preferences(), Some(oslo_prefs(Units::Imperial)));
    assert_eq!(*app.presentation(), before);
}

#[test]
fn units_change_without_a_place_is_kept_for_the_first_choice() {
    let (mut app, _receiver) = loaded(None);
    let commands = app.update(WeatherUpdate::UnitsChanged(Units::Imperial));
    assert_eq!(commands, vec![Command::Enqueue(WeatherUpdate::RefreshRequested)]);
    assert!(app.preferences().is_none());
    assert_eq!(app.get_units(), Units::Imperial);
    assert!(app.update(WeatherUpdate::RefreshRequested).is_empty());
    let chosen = app.update(WeatherUpdate::LocationCandidatesFound(vec![paris()]));
    assert_eq!(chosen, vec![Command::Fetch(WeatherPreferences::new(paris(), Units::Imperial))]);
}

#[test]
fn picking_a_place_updates_and_saves_existing_preferences() {
    let (mut app, _receiver) = loaded(Some(oslo_prefs(Units::Imperial)));
    let _ = app.update(WeatherUpdate::LocationCandidatesFound(vec![paris_texas(), paris()]));
    assert_eq!(app.preferences(), Some(oslo_prefs(Units::Imperial)));
    let commands = app.update(location_selected(paris()));
    let chosen = WeatherPreferences {
        location: "Paris, FR".to_string(),
        lat: 48.8566f64.to_bits(),
        lon: 2.3522f64.to_bits(),
        units: Units::Imperial,
    };
    assert_eq!(commands, vec![Command::Persist(chosen.clone()), Command::Fetch(chosen.clone())]);
    assert_eq!(app.preferences(), Some(chosen.clone()));
}

#[test]
fn picking_a_first_place_requests_it_and_makes_it_known() {
    let (mut app, _receiver) = loaded(None);
    let commands = app.update(location_selected(paris()));
    assert_eq!(commands, vec![Command::Fetch(WeatherPreferences::new(paris(), Units::Metric))]);
    assert_eq!(app.preferences(), Some(WeatherPreferences::new(paris(), Units::Metric)));
    assert_eq!(
        app.update(WeatherUpdate::RefreshRequested),
        vec![Command::Fetch(WeatherPreferences::new(paris(), Units::Metric))]
    );
}

#[test]
fn preferences_take_over_a_place_and_keep_units() {
    let mut prefs = oslo_prefs(Units::Imperial);
    assert_eq!(
        prefs.location_point(),
        LocationPoint { location: "Oslo, NO".to_string(), lat: 59.9139f64.to_bits(), lon: 10.7522f64.to_bits() }
    );
    prefs.set_from_location_point(&paris());
    assert_eq!(prefs, WeatherPreferences::new(paris(), Units::Imperial));
    assert_eq!(f64::from_bits(prefs.lat), 48.8566);
    assert_eq!(f64::from_bits(prefs.lon), 2.3522);
    assert_eq!(prefs.clone(), prefs);
    assert_eq!(paris().clone(), paris());
}

#[test]
fn signals_map_to_messages() {
    assert_eq!(units_switched(true), WeatherUpdate::UnitsChanged(Units::Metric));
    assert_eq!(units_switched(false), WeatherUpdate::UnitsChanged(Units::Imperial));
    assert_eq!(location_editing(true), Some(WeatherUpdate::LocationResolved(None)));
    assert_eq!(location_editing(false), None);
    assert_eq!(search_clicked(String::new()), None);
    assert_eq!(
        search_clicked("Paris".to_string()),
        Some(WeatherUpdate::LocationSearchRequested("Paris".to_string()))
    );
    assert_eq!(refresh_clicked(), WeatherUpdate::RefreshRequested);
    assert_eq!(location_selected(paris()), WeatherUpdate::LocationCandidatesFound(vec![paris()]));
}

#[test]
fn window_stays_well_formed_along_a_session() {
    let (mut app, _receiver) = loaded(None);
    let session = vec![
        WeatherUpdate::LocationResolved(None),
        WeatherUpdate::LocationSearchRequested("Paris".to_string()),
        WeatherUpdate::LocationCandidatesFound(vec![paris()]),
        WeatherUpdate::DataFetched(Some(forecast(Units::Metric))),
        WeatherUpdate::LocationResolved(Some("Paris, FR".to_string())),
        WeatherUpdate::UnitsChanged(Units::Imperial),
        WeatherUpdate::RefreshRequested,
        WeatherUpdate::DataFetched(None),
        WeatherUpdate::LocationCandidatesFound(Vec::new()),
    ];
    for message in session {
        let _ = app.update(message);
        let shown = app.presentation();
        assert_eq!(shown.location_search_visible, shown.location_search_button_visible);
        assert!(!shown.location_visible || shown.refresh_button_visible);
        assert!(!shown.refresh_button_visible || !shown.location_search_visible);
        assert!(shown.daily_visible || shown.daily.is_empty());
        assert!(shown.hourly_visible || shown.hourly.is_empty());
        assert!(app.is_active());
        assert!(app.is_loaded());
    }
}
