//! Messages that change the application state, and the outside work that
//! applying one may ask for.

use vstd::prelude::*;
use crate::location::{LocationPoint, LocationPointView, WeatherPreferences, WeatherPreferencesView};
use crate::weather::{views, Units, WeatherData, WeatherDataView};

verus! {

/// One requested change of the application state.
#[derive(Clone, Debug, PartialEq, Eq)]
pub enum WeatherUpdate {
    /// A forecast request finished; `None` when it produced nothing usable.
    DataFetched(Option<WeatherData>),
    /// The place on display changed; `None` returns to "no place chosen".
    LocationResolved(Option<String>),
    /// The user asked to search for a place by name.
    LocationSearchRequested(String),
    /// A search finished with these matches.
    LocationCandidatesFound(Vec<LocationPoint>),
    /// These preferences are to be saved.
    PreferencesPersist(WeatherPreferences),
    /// The user chose another unit system.
    UnitsChanged(Units),
    /// The forecast for the known place is to be requested again.
    RefreshRequested,
}

pub enum WeatherUpdateView {
    DataFetched(Option<WeatherDataView>),
    LocationResolved(Option<Seq<char>>),
    LocationSearchRequested(Seq<char>),
    LocationCandidatesFound(Seq<LocationPointView>),
    PreferencesPersist(WeatherPreferencesView),
    UnitsChanged(Units),
    RefreshRequested,
}

impl View for WeatherUpdate {
    type V = WeatherUpdateView;

    open spec fn view(&self) -> WeatherUpdateView {
        match self {
            WeatherUpdate::DataFetched(Some(data)) => WeatherUpdateView::DataFetched(Some(data@)),
            WeatherUpdate::DataFetched(None) => WeatherUpdateView::DataFetched(None),
            WeatherUpdate::LocationResolved(Some(name)) => WeatherUpdateView::LocationResolved(
                Some(name@),
            ),
            WeatherUpdate::LocationResolved(None) => WeatherUpdateView::LocationResolved(None),
            WeatherUpdate::LocationSearchRequested(query) => WeatherUpdateView::LocationSearchRequested(
                query@,
            ),
            WeatherUpdate::LocationCandidatesFound(found) => WeatherUpdateView::LocationCandidatesFound(
                views(found@),
            ),
            WeatherUpdate::PreferencesPersist(prefs) => WeatherUpdateView::PreferencesPersist(
                prefs@,
            ),
            WeatherUpdate::UnitsChanged(units) => WeatherUpdateView::UnitsChanged(*units),
            WeatherUpdate::RefreshRequested => WeatherUpdateView::RefreshRequested,
        }
    }
}

/// Work that applying a message leaves to be done outside the state.
#[derive(Clone, Debug, PartialEq, Eq)]
pub enum Command {
    /// Request the forecast for this place under this unit system.
    Fetch(WeatherPreferences),
    /// Search for places that match this name.
    Search(String),
    /// Write these preferences to the store.
    Persist(WeatherPreferences),
    /// Put this message at the back of the channel.
    Enqueue(WeatherUpdate),
    /// Open the list of candidates for the user to pick from.
    ShowPicker,
}

pub enum CommandView {
    Fetch(WeatherPreferencesView),
    Search(Seq<char>),
    Persist(WeatherPreferencesView),
    Enqueue(WeatherUpdateView),
    ShowPicker,
}

impl View for Command {
    type V = CommandView;

    open spec fn view(&self) -> CommandView {
        match self {
            Command::Fetch(request) => CommandView::Fetch(request@),
            Command::Search(query) => CommandView::Search(query@),
            Command::Persist(prefs) => CommandView::Persist(prefs@),
            Command::Enqueue(message) => CommandView::Enqueue(message@),
            Command::ShowPicker => CommandView::ShowPicker,
        }
    }
}

/// Unit system that a position of the units switch stands for.
pub open spec fn units_of_switch(metric: bool) -> Units {
    if metric {
        Units::Metric
    } else {
        Units::Imperial
    }
}

/// Message for a flip of the units switch.
pub fn units_switched(metric: bool) -> (message: WeatherUpdate)
    ensures
        message@ == WeatherUpdateView::UnitsChanged(units_of_switch(metric)),
{
    if metric {
        WeatherUpdate::UnitsChanged(Units::Metric)
    } else {
        WeatherUpdate::UnitsChanged(Units::Imperial)
    }
}

/// Message for a change of the editing state of the place label: starting
/// to edit it gives up the place, leaving the edit says nothing.
pub fn location_editing(editing: bool) -> (message: Option<WeatherUpdate>)
    ensures
        editing ==> (message matches Some(m) && m@ == WeatherUpdateView::LocationResolved(None)),
        !editing ==> message is None,
{
    if editing {
        Some(WeatherUpdate::LocationResolved(None))
    } else {
        None
    }
}

/// Message for a press of the search button with `query` in the entry. An
/// empty entry asks for nothing.
pub fn search_clicked(query: String) -> (message: Option<WeatherUpdate>)
    ensures
        query@.len() == 0 ==> message is None,
        query@.len() > 0 ==> (message matches Some(m) && m@
            == WeatherUpdateView::LocationSearchRequested(query@)),
{
    if query.as_str().is_empty() {
        None
    } else {
        Some(WeatherUpdate::LocationSearchRequested(query))
    }
}

/// Message for the user's pick of `interest` from the list of matches: the
/// pick is reported as a search that found that place alone.
pub fn location_selected(interest: LocationPoint) -> (message: WeatherUpdate)
    ensures
        message@ == WeatherUpdateView::LocationCandidatesFound(seq![interest@]),
{
    let found = vec![interest];
    assert(views(found@) =~= seq![interest@]);
    WeatherUpdate::LocationCandidatesFound(found)
}

/// Message for a press of the refresh button.
pub fn refresh_clicked() -> (message: WeatherUpdate)
    ensures
        message@ == WeatherUpdateView::RefreshRequested,
{
    WeatherUpdate::RefreshRequested
}

} // verus!
