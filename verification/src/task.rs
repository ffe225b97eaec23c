//! What a background task does when its outside work has finished.
//!
//! A task never touches the state. It holds a handle that may no longer
//! lead to it, tries to reach the state once, and reports its result as
//! messages on the channel, or lets the result go.

use vstd::prelude::*;
use crate::application::{Delivery, SubmitError, WeatherApplication};
use crate::location::{LocationPoint, LocationPointView, WeatherPreferences, WeatherPreferencesView};
use crate::message::{refresh_clicked, WeatherUpdate, WeatherUpdateView};
use crate::weather::{views, WeatherData, WeatherDataView};

verus! {

/// Outcome of one attempt to reach the state through a task's handle.
pub enum Acquisition<'a> {
    /// The state no longer exists: its owner has shut down.
    Expired,
    /// The state is in use by someone else right now.
    Contended,
    /// The state is held, for reading, until this value is dropped.
    Held(&'a WeatherApplication),
}

/// The result of a finished piece of outside work.
#[derive(Clone, Debug, PartialEq, Eq)]
pub enum Completion {
    /// A forecast request came back with data.
    Forecast(WeatherData),
    /// This forecast request came back with nothing usable.
    ForecastFailed(WeatherPreferences),
    /// A search came back with these matches; none if there were none.
    Search { found: Vec<LocationPoint> },
}

pub enum CompletionView {
    Forecast(WeatherDataView),
    ForecastFailed(WeatherPreferencesView),
    Search { found: Seq<LocationPointView> },
}

impl View for Completion {
    type V = CompletionView;

    open spec fn view(&self) -> CompletionView {
        match self {
            Completion::Forecast(data) => CompletionView::Forecast(data@),
            Completion::ForecastFailed(request) => CompletionView::ForecastFailed(request@),
            Completion::Search { found } => CompletionView::Search { found: views(found@) },
        }
    }
}

/// The messages that report a result, in the order they are sent.
///
/// A forecast request is reported by its outcome, then by the place it
/// was made for, so that the place is on display whether or not there is
/// a forecast for it. A search is reported by its matches.
pub open spec fn completion_messages(completion: CompletionView) -> Seq<WeatherUpdateView> {
    match completion {
        CompletionView::Forecast(data) => seq![
            WeatherUpdateView::DataFetched(Some(data)),
            WeatherUpdateView::LocationResolved(Some(data.preferences.location)),
        ],
        CompletionView::ForecastFailed(request) => seq![
            WeatherUpdateView::DataFetched(None),
            WeatherUpdateView::LocationResolved(Some(request.location)),
        ],
        CompletionView::Search { found } => seq![WeatherUpdateView::LocationCandidatesFound(found)],
    }
}

/// Builds the messages that report `completion`.
pub fn task_messages(completion: Completion) -> (messages: Vec<WeatherUpdate>)
    ensures
        views(messages@) == completion_messages(completion@),
{
    match completion {
        Completion::Forecast(data) => {
            let place = WeatherUpdate::LocationResolved(Some(data.preferences.location.clone()));
            let fetched = WeatherUpdate::DataFetched(Some(data));
            let messages = vec![fetched, place];
            assert(views(messages@) =~= seq![fetched@, place@]);
            messages
        },
        Completion::ForecastFailed(request) => {
            let place = WeatherUpdate::LocationResolved(Some(request.location));
            let fetched = WeatherUpdate::DataFetched(None);
            let messages = vec![fetched, place];
            assert(views(messages@) =~= seq![fetched@, place@]);
            messages
        },
        Completion::Search { found } => {
            let report = WeatherUpdate::LocationCandidatesFound(found);
            let messages = vec![report];
            assert(views(messages@) =~= seq![report@]);
            messages
        },
    }
}

/// How a task ended.
#[derive(Clone, Copy, Debug, PartialEq, Eq)]
pub enum TaskEnd {
    /// The state no longer exists: the result was dropped and nothing was
    /// submitted.
    Expired,
    /// The state was in use: the result was dropped and nothing was
    /// submitted.
    Contended,
    /// The state was held: the messages that report the result were
    /// submitted, with this outcome.
    Reported(Delivery),
}

/// Ends a task. Where the state has expired or is in use, the result is
/// dropped and nothing is submitted. Where the state is held, the
/// messages that report `completion` are submitted in order, up to the
/// first that the channel does not take.
pub fn finish_task(cell: Acquisition<'_>, completion: Completion) -> (end: TaskEnd)
    ensures
        cell is Expired ==> end == TaskEnd::Expired,
        cell is Contended ==> end == TaskEnd::Contended,
        cell matches Acquisition::Held(app) ==> (end matches TaskEnd::Reported(delivery)
            && delivery.ends_run_of(completion_messages(completion@).len(), app@.loaded)),
{
    match cell {
        Acquisition::Held(app) => {
            let messages = task_messages(completion);
            assert(views(messages@).len() == messages@.len());
            TaskEnd::Reported(app.submit_all(messages))
        },
        Acquisition::Expired => TaskEnd::Expired,
        Acquisition::Contended => TaskEnd::Contended,
    }
}

/// Submits a message for a callback. Where the state has expired or is
/// in use, the attempt is dropped and nothing is submitted. Where the
/// state is held, the message is submitted through it.
pub fn submit_through(cell: Acquisition<'_>, message: WeatherUpdate) -> (outcome: Option<
    Result<(), SubmitError>,
>)
    ensures
        cell is Expired ==> outcome is None,
        cell is Contended ==> outcome is None,
        cell matches Acquisition::Held(app) ==> (outcome matches Some(sent) && (!app@.loaded
            <==> sent == Err::<(), SubmitError>(SubmitError::NotLoaded))),
{
    match cell {
        Acquisition::Held(app) => Some(app.submit(message)),
        Acquisition::Expired => None,
        Acquisition::Contended => None,
    }
}

/// What a callback submits next when its request to refresh ended as
/// `sent`: nothing after a request that was taken, the return to "no
/// place chosen" after one that was refused.
pub fn refresh_fallback(sent: &Result<(), SubmitError>) -> (next: Option<WeatherUpdate>)
    ensures
        sent is Ok ==> next is None,
        sent is Err ==> (next matches Some(message) && message@
            == WeatherUpdateView::LocationResolved(None)),
{
    match sent {
        Ok(()) => None,
        Err(_) => Some(WeatherUpdate::LocationResolved(None)),
    }
}

/// Submits a request to refresh for a callback: the message of
/// [`refresh_clicked`], and after it what [`refresh_fallback`] names for
/// its outcome, whatever becomes of that second attempt. Returns what
/// became of the request to refresh; `None` where the state has expired
/// or is in use and nothing was submitted.
pub fn refresh_through(cell: Acquisition<'_>) -> (outcome: Option<Result<(), SubmitError>>)
    ensures
        cell is Expired ==> outcome is None,
        cell is Contended ==> outcome is None,
        cell matches Acquisition::Held(app) ==> (outcome matches Some(sent) && (!app@.loaded
            <==> sent == Err::<(), SubmitError>(SubmitError::NotLoaded))),
{
    match cell {
        Acquisition::Held(app) => {
            let sent = app.submit(refresh_clicked());
            match refresh_fallback(&sent) {
                Some(next) => {
                    let _ = app.submit(next);
                },
                None => {},
            }
            Some(sent)
        },
        Acquisition::Expired => None,
        Acquisition::Contended => None,
    }
}

} // verus!
