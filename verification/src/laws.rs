//! Laws of the state machine, proved for every state and every message.

use vstd::prelude::*;
use crate::location::{preferences_for, LocationPointView, WeatherPreferencesView};
use crate::message::{CommandView, WeatherUpdateView};
use crate::model::{
    echo, follow_ups, lemma_step_follow_ups, lemma_step_lightens, outside_work, replay, settle,
    ApplicationView, Transition,
};
use crate::weather::{Units, WeatherDataView};

verus! {

/// Applying a log of one message is taking one step.
pub proof fn replay_single(state: ApplicationView, message: WeatherUpdateView)
    ensures
        replay(state, seq![message]) == state.step(message),
{
    let log = seq![message];
    assert(log.drop_last() =~= Seq::empty());
    assert(log.last() == message);
    assert(replay(state, log.drop_last()).commands == Seq::<CommandView>::empty());
    assert(Seq::<CommandView>::empty() + state.step(message).commands =~= state.step(
        message,
    ).commands);
}

/// Messages are applied one after the other: applying `first` and then
/// `second` to the state that `first` left gives the state, and the
/// commands in the order, of applying the two logs in a row. However a log
/// is cut into batches, the outcome is that of the whole log.
pub proof fn replay_in_batches(
    state: ApplicationView,
    first: Seq<WeatherUpdateView>,
    second: Seq<WeatherUpdateView>,
)
    ensures
        replay(state, first + second).state == replay(replay(state, first).state, second).state,
        replay(state, first + second).commands == replay(state, first).commands + replay(
            replay(state, first).state,
            second,
        ).commands,
    decreases second.len(),
{
    let middle = replay(state, first);
    if second.len() == 0 {
        assert(first + second =~= first);
        assert(middle.commands + Seq::<CommandView>::empty() =~= middle.commands);
    } else {
        replay_in_batches(state, first, second.drop_last());
        assert((first + second).drop_last() =~= first + second.drop_last());
        assert((first + second).last() == second.last());
        let before = replay(middle.state, second.drop_last());
        let last = before.state.step(second.last());
        assert(middle.commands + (before.commands + last.commands) =~= (middle.commands
            + before.commands) + last.commands);
    }
}

/// Draining a queue is a serial run: the state at the end, and the work
/// left for the front end, are those of applying the handled messages one
/// after the other, each in full, in the order they were handled. That
/// order starts with the queue itself, in its order.
pub proof fn settle_is_serial(state: ApplicationView, queue: Seq<WeatherUpdateView>)
    ensures
        settle(state, queue).state == replay(state, settle(state, queue).processed).state,
        settle(state, queue).commands == outside_work(
            replay(state, settle(state, queue).processed).commands,
        ),
        queue.len() <= settle(state, queue).processed.len(),
        settle(state, queue).processed.take(queue.len() as int) == queue,
    decreases crate::model::total_weight(queue),
{
    if queue.len() == 0 {
        assert(settle(state, queue).processed.take(0) =~= queue);
    } else {
        let taken = state.step(queue[0]);
        let later = queue.drop_first() + follow_ups(taken.commands);
        let rest = settle(taken.state, later);
        lemma_step_lightens(state, queue);
        settle_is_serial(taken.state, later);
        let one = seq![queue[0]];
        replay_single(state, queue[0]);
        replay_in_batches(state, one, rest.processed);
        crate::model::lemma_outside_work_concat(
            taken.commands,
            replay(taken.state, rest.processed).commands,
        );
        let whole = settle(state, queue).processed;
        assert(whole == one + rest.processed);
        assert(whole.take(queue.len() as int) =~= queue) by {
            assert(rest.processed.take(later.len() as int) == later);
            assert forall|i: int| 0 <= i < queue.len() implies whole[i] == queue[i] by {
                if i > 0 {
                    assert(whole[i] == rest.processed[i - 1]);
                    assert(rest.processed[i - 1] == rest.processed.take(later.len() as int)[i
                        - 1]);
                    assert(later[i - 1] == queue.drop_first()[i - 1]);
                }
            }
        }
    }
}

/// A search that found nothing does exactly what giving up the place
/// does: from every state, both lead to the same state and ask for the
/// same outside work, namely none.
pub proof fn empty_candidates_reset(state: ApplicationView)
    ensures
        state.step(WeatherUpdateView::LocationCandidatesFound(Seq::empty())) == state.step(
            WeatherUpdateView::LocationResolved(None),
        ),
        settle(state, seq![WeatherUpdateView::LocationCandidatesFound(Seq::empty())]).state
            == settle(state, seq![WeatherUpdateView::LocationResolved(None)]).state,
        settle(state, seq![WeatherUpdateView::LocationCandidatesFound(Seq::empty())]).commands
            == settle(state, seq![WeatherUpdateView::LocationResolved(None)]).commands,
{
    let found = WeatherUpdateView::LocationCandidatesFound(Seq::empty());
    let reset = WeatherUpdateView::LocationResolved(None);
    settle_single_quiet(state, found);
    settle_single_quiet(state, reset);
}

/// Draining a queue of one message that enqueues nothing handles that
/// message and nothing else.
pub proof fn settle_single_quiet(state: ApplicationView, message: WeatherUpdateView)
    requires
        echo(message).len() == 0,
    ensures
        settle(state, seq![message]).state == state.step(message).state,
        settle(state, seq![message]).commands == state.step(message).commands,
        settle(state, seq![message]).processed == seq![message],
{
    let queue = seq![message];
    let taken = state.step(message);
    lemma_step_follow_ups(state, message);
    let later = queue.drop_first() + follow_ups(taken.commands);
    assert(later =~= Seq::empty());
    let rest = settle(taken.state, later);
    assert(rest.processed == Seq::<WeatherUpdateView>::empty());
    assert(queue + rest.processed =~= queue);
    assert(taken.commands + rest.commands =~= taken.commands);
}

/// A search that found a single place does what choosing that place
/// does. The one forecast request that goes out is the direct request for
/// that place under the units in force; before it, where a place was
/// known already, the preferences that now name the new place are saved,
/// and nothing else is asked for. The place becomes the last place
/// known, so that a refresh asks for it again. Apart from that and the
/// list of matches, which shows the place, selected, the state stays as
/// it was.
pub proof fn single_candidate_requests_weather(state: ApplicationView, place: LocationPointView)
    ensures
        state.step(WeatherUpdateView::LocationCandidatesFound(seq![place])).commands
            == state.select_location(place).commands,
        state.step(WeatherUpdateView::LocationCandidatesFound(seq![place])).commands.last()
            == state.request_weather(place),
        state.step(WeatherUpdateView::LocationCandidatesFound(seq![place])).commands
            == match state.place {
            Some(_) => seq![
                CommandView::Persist(preferences_for(place, state.units)),
                state.request_weather(place),
            ],
            None => seq![state.request_weather(place)],
        },
        state.step(WeatherUpdateView::LocationCandidatesFound(seq![place])).state == (
        ApplicationView {
            place: Some(place),
            presentation: state.presentation.show_location_results(
                seq![place],
                Some(place.location),
            ),
            ..state
        }),
        state.step(
            WeatherUpdateView::LocationCandidatesFound(seq![place]),
        ).state.refresh_weather() == seq![state.request_weather(place)],
{
}

/// A refresh asks for the last place known, under the units in force, and
/// changes nothing. It asks for nothing exactly when no place is known.
pub proof fn refresh_requests_last_known_place(state: ApplicationView)
    ensures
        state.step(WeatherUpdateView::RefreshRequested).state == state,
        state.step(WeatherUpdateView::RefreshRequested).commands == match state.place {
            Some(place) => seq![CommandView::Fetch(preferences_for(place, state.units))],
            None => Seq::empty(),
        },
        state.step(WeatherUpdateView::RefreshRequested).commands.len() == 0 <==> state.place
            is None,
{
}

/// A forecast leaves the last place known alone and puts its units in
/// force, whatever place it names. The next refresh asks for the place
/// known before, under the units of the forecast.
pub proof fn forecast_keeps_the_place(state: ApplicationView, data: WeatherDataView)
    ensures
        state.step(WeatherUpdateView::DataFetched(Some(data))).state.place == state.place,
        state.step(WeatherUpdateView::DataFetched(Some(data))).state.units
            == data.preferences.units,
        state.step(WeatherUpdateView::DataFetched(Some(data))).state.step(
            WeatherUpdateView::RefreshRequested,
        ).commands == match state.place {
            Some(place) => seq![CommandView::Fetch(preferences_for(place, data.preferences.units))],
            None => Seq::empty(),
        },
{
}

/// A forecast that comes late loses against a newer choice: once a place
/// was chosen, no forecast, whichever place it names, makes a refresh ask
/// for another place.
pub proof fn newer_choice_outlives_a_late_forecast(
    state: ApplicationView,
    place: LocationPointView,
    late: WeatherDataView,
)
    ensures
        state.step(WeatherUpdateView::LocationCandidatesFound(seq![place])).state.step(
            WeatherUpdateView::DataFetched(Some(late)),
        ).state.place == Some(place),
        state.step(WeatherUpdateView::LocationCandidatesFound(seq![place])).state.step(
            WeatherUpdateView::DataFetched(Some(late)),
        ).state.step(WeatherUpdateView::RefreshRequested).commands == seq![
            CommandView::Fetch(preferences_for(place, late.preferences.units)),
        ],
{
}

/// What a step does to the last place known and to the units in force.
/// A single candidate becomes the place and nothing else changes it; a
/// forecast and a change of units set the units and nothing else does.
pub proof fn step_place_and_units(state: ApplicationView, message: WeatherUpdateView)
    ensures
        state.step(message).state.place == match message {
            WeatherUpdateView::LocationCandidatesFound(found) => if found.len() == 1 {
                Some(found[0])
            } else {
                state.place
            },
            _ => state.place,
        },
        state.step(message).state.units == match message {
            WeatherUpdateView::DataFetched(Some(data)) => data.preferences.units,
            WeatherUpdateView::UnitsChanged(units) => units,
            _ => state.units,
        },
{
}

/// What one more message at the end of a log does to the last place
/// known and to the units in force.
pub proof fn replay_place_and_units(
    state: ApplicationView,
    log: Seq<WeatherUpdateView>,
    message: WeatherUpdateView,
)
    ensures
        replay(state, Seq::empty()).state == state,
        replay(state, log.push(message)).state.place == match message {
            WeatherUpdateView::LocationCandidatesFound(found) => if found.len() == 1 {
                Some(found[0])
            } else {
                replay(state, log).state.place
            },
            _ => replay(state, log).state.place,
        },
        replay(state, log.push(message)).state.units == match message {
            WeatherUpdateView::DataFetched(Some(data)) => data.preferences.units,
            WeatherUpdateView::UnitsChanged(units) => units,
            _ => replay(state, log).state.units,
        },
{
    assert(log.push(message).drop_last() =~= log);
    assert(log.push(message).last() == message);
    step_place_and_units(replay(state, log).state, message);
}

/// A place chosen without stored preferences is known from then on. From
/// every state, whether or not a place was known: once a single candidate
/// was found, its forecast shown, its place displayed and its preferences
/// sent to be saved, a refresh sends out exactly one request, for the
/// chosen place under the units of the forecast.
pub proof fn chosen_place_is_refreshed(
    state: ApplicationView,
    place: LocationPointView,
    data: WeatherDataView,
)
    ensures
        replay(
            state,
            seq![
                WeatherUpdateView::LocationCandidatesFound(seq![place]),
                WeatherUpdateView::DataFetched(Some(data)),
                WeatherUpdateView::LocationResolved(Some(data.preferences.location)),
                WeatherUpdateView::PreferencesPersist(data.preferences),
            ],
        ).state.step(WeatherUpdateView::RefreshRequested).commands == seq![
            CommandView::Fetch(preferences_for(place, data.preferences.units)),
        ],
{
    let found = WeatherUpdateView::LocationCandidatesFound(seq![place]);
    let fetched = WeatherUpdateView::DataFetched(Some(data));
    let shown = WeatherUpdateView::LocationResolved(Some(data.preferences.location));
    let save = WeatherUpdateView::PreferencesPersist(data.preferences);
    let first = Seq::empty().push(found);
    let second = first.push(fetched);
    let third = second.push(shown);
    let fourth = third.push(save);
    replay_place_and_units(state, Seq::empty(), found);
    replay_place_and_units(state, first, fetched);
    replay_place_and_units(state, second, shown);
    replay_place_and_units(state, third, save);
    assert(fourth =~= seq![found, fetched, shown, save]);
    refresh_requests_last_known_place(replay(state, fourth).state);
}

/// A failed request can be tried again. From every state: once a single
/// candidate was found, its forecast request came back with nothing and
/// its place was displayed, a refresh asks for the chosen place again
/// under the units in force.
pub proof fn chosen_place_is_retried(state: ApplicationView, place: LocationPointView)
    ensures
        replay(
            state,
            seq![
                WeatherUpdateView::LocationCandidatesFound(seq![place]),
                WeatherUpdateView::DataFetched(None),
                WeatherUpdateView::LocationResolved(Some(place.location)),
            ],
        ).state.step(WeatherUpdateView::RefreshRequested).commands == seq![
            CommandView::Fetch(preferences_for(place, state.units)),
        ],
{
    let found = WeatherUpdateView::LocationCandidatesFound(seq![place]);
    let failed = WeatherUpdateView::DataFetched(None);
    let named = WeatherUpdateView::LocationResolved(Some(place.location));
    let first = Seq::empty().push(found);
    let second = first.push(failed);
    let third = second.push(named);
    replay_place_and_units(state, Seq::empty(), found);
    replay_place_and_units(state, first, failed);
    replay_place_and_units(state, second, named);
    assert(third =~= seq![found, failed, named]);
    refresh_requests_last_known_place(replay(state, third).state);
}

/// A change of units holds whether or not a place is known: the units
/// are in force from then on, and a place chosen later is requested
/// under them.
pub proof fn units_change_is_kept(state: ApplicationView, units: Units, place: LocationPointView)
    ensures
        state.step(WeatherUpdateView::UnitsChanged(units)).state.get_units() == units,
        state.step(WeatherUpdateView::UnitsChanged(units)).state.place == state.place,
        state.step(WeatherUpdateView::UnitsChanged(units)).state.step(
            WeatherUpdateView::LocationCandidatesFound(seq![place]),
        ).commands.last() == CommandView::Fetch(preferences_for(place, units)),
{
}

/// After a change of units, the queue does not run dry before a refresh
/// has been handled: draining the change handles the change and then a
/// refresh, and nothing else. The forecast on display is not touched on
/// the way. Where a place is known, the one request that goes out asks
/// for that place under the new units; where none is, nothing goes out.
pub proof fn units_change_ends_in_refresh(state: ApplicationView, units: Units)
    ensures
        settle(state, seq![WeatherUpdateView::UnitsChanged(units)]).processed == seq![
            WeatherUpdateView::UnitsChanged(units),
            WeatherUpdateView::RefreshRequested,
        ],
        settle(state, seq![WeatherUpdateView::UnitsChanged(units)]).state == state.update_units(
            units,
        ),
        settle(state, seq![WeatherUpdateView::UnitsChanged(units)]).state.presentation
            == state.presentation,
        settle(state, seq![WeatherUpdateView::UnitsChanged(units)]).commands == match state.place {
            Some(place) => seq![CommandView::Fetch(preferences_for(place, units))],
            None => Seq::empty(),
        },
{
    let change = WeatherUpdateView::UnitsChanged(units);
    let refresh = WeatherUpdateView::RefreshRequested;
    let queue = seq![change];
    let taken = state.step(change);
    lemma_step_follow_ups(state, change);
    let later = queue.drop_first() + follow_ups(taken.commands);
    assert(later =~= seq![refresh]);
    settle_single_quiet(taken.state, refresh);
    let rest = settle(taken.state, later);
    assert(seq![change] + rest.processed =~= seq![change, refresh]);
    assert(outside_work(taken.commands) + rest.commands =~= rest.commands);
}

/// The messages that handling a queue puts on the channel, in the order
/// of the queue.
pub open spec fn echoes(queue: Seq<WeatherUpdateView>) -> Seq<WeatherUpdateView>
    decreases queue.len(),
{
    if queue.len() == 0 {
        Seq::empty()
    } else {
        echo(queue[0]) + echoes(queue.drop_first())
    }
}

proof fn echoes_concat(first: Seq<WeatherUpdateView>, second: Seq<WeatherUpdateView>)
    ensures
        echoes(first + second) == echoes(first) + echoes(second),
    decreases first.len(),
{
    if first.len() == 0 {
        assert(first + second =~= second);
        assert(echoes(first) + echoes(second) =~= echoes(second));
    } else {
        echoes_concat(first.drop_first(), second);
        assert((first + second).drop_first() =~= first.drop_first() + second);
        assert((first + second)[0] == first[0]);
        assert(echo(first[0]) + (echoes(first.drop_first()) + echoes(second)) =~= (echo(first[0])
            + echoes(first.drop_first())) + echoes(second));
    }
}

/// No follow-up is lost and none is made up. Whatever the state and
/// whatever waits in the queue, draining handles the queue in its order
/// and then, in the same order, what its messages enqueued: one refresh
/// for every change of units, one request to save for every forecast,
/// and nothing else.
pub proof fn follow_ups_are_handled_after_the_queue(
    state: ApplicationView,
    queue: Seq<WeatherUpdateView>,
)
    ensures
        settle(state, queue).processed == queue + echoes(queue),
    decreases crate::model::total_weight(queue),
{
    if queue.len() == 0 {
        assert(queue + echoes(queue) =~= Seq::empty());
    } else {
        let taken = state.step(queue[0]);
        let enqueued = echo(queue[0]);
        let later = queue.drop_first() + enqueued;
        lemma_step_lightens(state, queue);
        lemma_step_follow_ups(state, queue[0]);
        follow_ups_are_handled_after_the_queue(taken.state, later);
        echoes_concat(queue.drop_first(), enqueued);
        let rest = echoes(queue.drop_first());
        if enqueued.len() > 0 {
            assert(enqueued.drop_first() =~= Seq::empty());
            assert(echoes(enqueued.drop_first()) =~= Seq::empty());
            assert(echo(enqueued[0]) =~= Seq::empty());
            assert(echoes(enqueued) =~= Seq::empty());
        } else {
            assert(echoes(enqueued) =~= Seq::empty());
        }
        assert(seq![queue[0]] + (later + (rest + echoes(enqueued))) =~= queue + (enqueued + rest));
    }
}

/// A forecast is shown and then saved: draining it handles the forecast
/// and then the request to save the preferences it was requested for,
/// which is the one piece of work left for the front end.
pub proof fn fetched_data_is_persisted(state: ApplicationView, data: WeatherDataView)
    ensures
        settle(state, seq![WeatherUpdateView::DataFetched(Some(data))]).processed == seq![
            WeatherUpdateView::DataFetched(Some(data)),
            WeatherUpdateView::PreferencesPersist(data.preferences),
        ],
        settle(state, seq![WeatherUpdateView::DataFetched(Some(data))]).state
            == state.update_weather(Some(data)),
        settle(state, seq![WeatherUpdateView::DataFetched(Some(data))]).commands == seq![
            CommandView::Persist(data.preferences),
        ],
{
    let fetched = WeatherUpdateView::DataFetched(Some(data));
    let save = WeatherUpdateView::PreferencesPersist(data.preferences);
    let queue = seq![fetched];
    let taken = state.step(fetched);
    lemma_step_follow_ups(state, fetched);
    let later = queue.drop_first() + follow_ups(taken.commands);
    assert(later =~= seq![save]);
    settle_single_quiet(taken.state, save);
    let rest = settle(taken.state, later);
    assert(seq![fetched] + rest.processed =~= seq![fetched, save]);
    assert(outside_work(taken.commands) + rest.commands =~= rest.commands);
}

/// A search that found several places puts them up for the user to pick
/// from and requests no forecast: the list is shown with nothing
/// selected, the picker is opened, and the rest of the state stays as it
/// was.
pub proof fn several_candidates_show_picker(
    state: ApplicationView,
    found: Seq<LocationPointView>,
)
    requires
        found.len() > 1,
    ensures
        state.step(WeatherUpdateView::LocationCandidatesFound(found)) == (Transition {
            state: ApplicationView {
                presentation: state.presentation.show_location_results(found, None),
                ..state
            },
            commands: seq![CommandView::ShowPicker],
        }),
{
}

/// The window is well formed at startup.
pub proof fn initial_well_formed(working_dir: Seq<char>)
    ensures
        ApplicationView::initial(working_dir).presentation.well_formed(),
{
}

/// No message takes the window out of the well-formed states, and none
/// changes whether the application runs, whether it holds the channel, or
/// where it looks for icons.
pub proof fn step_preserves_well_formed(state: ApplicationView, message: WeatherUpdateView)
    requires
        state.presentation.well_formed(),
    ensures
        state.step(message).state.presentation.well_formed(),
        state.step(message).state.active == state.active,
        state.step(message).state.loaded == state.loaded,
        state.step(message).state.working_dir == state.working_dir,
{
}

/// A log of messages keeps the window well formed.
pub proof fn replay_preserves_well_formed(state: ApplicationView, log: Seq<WeatherUpdateView>)
    requires
        state.presentation.well_formed(),
    ensures
        replay(state, log).state.presentation.well_formed(),
    decreases log.len(),
{
    if log.len() > 0 {
        replay_preserves_well_formed(state, log.drop_last());
        step_preserves_well_formed(replay(state, log.drop_last()).state, log.last());
    }
}

/// Loading keeps the window well formed.
pub proof fn load_preserves_well_formed(
    state: ApplicationView,
    preferences: Option<WeatherPreferencesView>,
)
    requires
        state.presentation.well_formed(),
    ensures
        state.load(preferences).state.presentation.well_formed(),
{
}

/// A forecast request that produced nothing clears every part of the
/// forecast and shows the "invalid data" notice, and leaves the place on
/// display, the preferences and everything that serves the search as they
/// were.
pub proof fn missing_data_keeps_location(state: ApplicationView)
    ensures
        ({
            let after = state.step(WeatherUpdateView::DataFetched(None)).state;
            &&& after.presentation.temperature == crate::presentation::invalid_temperature_text()
            &&& after.presentation.feels_like == crate::presentation::invalid_feels_like_text()
            &&& after.presentation.current_details.len() == 0
            &&& after.presentation.hourly.len() == 0
            &&& after.presentation.daily.len() == 0
            &&& after.presentation.alerts.len() == 0
            &&& after.presentation.location == state.presentation.location
            &&& after.presentation.location_visible == state.presentation.location_visible
            &&& after.presentation.location_search == state.presentation.location_search
            &&& after.presentation.location_results == state.presentation.location_results
            &&& after.place == state.place
            &&& after.units == state.units
        }),
        state.step(WeatherUpdateView::DataFetched(None)).commands.len() == 0,
        settle(state, seq![WeatherUpdateView::DataFetched(None)]).state == state.step(
            WeatherUpdateView::DataFetched(None),
        ).state,
{
    settle_single_quiet(state, WeatherUpdateView::DataFetched(None));
}

/// Without a known place a refresh does nothing: the state stays as it
/// is and no outside work is asked for.
pub proof fn refresh_without_location_is_noop(state: ApplicationView)
    requires
        state.place is None,
    ensures
        state.step(WeatherUpdateView::RefreshRequested) == (Transition {
            state,
            commands: Seq::empty(),
        }),
{
}

} // verus!
