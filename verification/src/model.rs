//! The application as a state machine over plain mathematical values.
//!
//! [`ApplicationView::step`] says what one message does to the state and
//! which outside work it asks for. [`replay`] applies a log of messages in
//! order; [`settle`] drains a queue that also receives the follow-up
//! messages that steps enqueue.

use vstd::prelude::*;
use crate::location::{preferences_for, LocationPointView, WeatherPreferencesView};
use crate::message::{CommandView, WeatherUpdateView};
use crate::presentation::PresentationView;
use crate::weather::{Units, WeatherDataView};

verus! {

/// The application state as a mathematical value.
pub struct ApplicationView {
    /// Whether the application is running.
    pub active: bool,
    /// Whether the state has been handed its end of the channel.
    pub loaded: bool,
    /// Directory below which the icons are found.
    pub working_dir: Seq<char>,
    /// The unit system in force.
    pub units: Units,
    /// The last place known: the one loaded or chosen last.
    pub place: Option<LocationPointView>,
    pub presentation: PresentationView,
}

/// A state together with the outside work asked for on the way to it, in
/// the order it was asked for.
pub struct Transition {
    pub state: ApplicationView,
    pub commands: Seq<CommandView>,
}

impl ApplicationView {
    /// The state at startup: running, metric, without channel or place.
    pub open spec fn initial(working_dir: Seq<char>) -> ApplicationView {
        ApplicationView {
            active: true,
            loaded: false,
            working_dir,
            units: Units::Metric,
            place: None,
            presentation: PresentationView::initial(),
        }
    }

    /// The preferences in force: the last place known under the units in
    /// force; none while no place is known.
    pub open spec fn preferences(self) -> Option<WeatherPreferencesView> {
        match self.place {
            Some(place) => Some(preferences_for(place, self.units)),
            None => None,
        }
    }

    /// The unit system in force.
    pub open spec fn get_units(self) -> Units {
        self.units
    }

    /// The forecast request for `interest` under the units in force.
    pub open spec fn request_weather(self, interest: LocationPointView) -> CommandView {
        CommandView::Fetch(preferences_for(interest, self.units))
    }

    /// The forecast request for the last place known, under the units in
    /// force; nothing while no place is known.
    pub open spec fn refresh_weather(self) -> Seq<CommandView> {
        match self.place {
            Some(place) => seq![self.request_weather(place)],
            None => Seq::empty(),
        }
    }

    /// Puts another unit system in force, whether or not a place is known.
    pub open spec fn update_units(self, units: Units) -> ApplicationView {
        ApplicationView { units, ..self }
    }

    /// Puts the place and the unit system of `preferences` in force.
    pub open spec fn set_preferences(self, preferences: WeatherPreferencesView) -> ApplicationView {
        ApplicationView {
            units: preferences.units,
            place: Some(preferences.location_point()),
            ..self
        }
    }

    /// Shows a forecast and puts its unit system in force. The last place
    /// known stays as it is, whatever place the forecast names: a forecast
    /// that comes late does not undo a newer choice. Where there is no
    /// forecast, clears it and leaves place and units alone.
    pub open spec fn update_weather(self, weather: Option<WeatherDataView>) -> ApplicationView {
        match weather {
            Some(data) => ApplicationView {
                presentation: self.presentation.update_weather(self.working_dir, weather),
                ..self.update_units(data.preferences.units)
            },
            None => ApplicationView {
                presentation: self.presentation.update_weather(self.working_dir, None),
                ..self
            },
        }
    }

    /// Shows a place, or returns to "no place chosen".
    pub open spec fn update_location(self, location: Option<Seq<char>>) -> ApplicationView {
        ApplicationView {
            presentation: self.presentation.update_location(self.working_dir, location),
            ..self
        }
    }

    /// An empty query changes nothing. Any other hides the place and the
    /// search entry and asks for a search.
    pub open spec fn search_location(self, query: Seq<char>) -> Transition {
        if query.len() == 0 {
            Transition { state: self, commands: Seq::empty() }
        } else {
            Transition {
                state: ApplicationView {
                    presentation: self.presentation.hide_location_entry(),
                    ..self
                },
                commands: seq![CommandView::Search(query)],
            }
        }
    }

    /// Makes `interest` the last place known and requests its forecast
    /// under the units in force. Where a place was known before, the
    /// preferences that now name `interest` are to be saved at once;
    /// where none was, they are saved when the forecast has arrived.
    pub open spec fn select_location(self, interest: LocationPointView) -> Transition {
        Transition {
            state: ApplicationView { place: Some(interest), ..self },
            commands: match self.place {
                Some(_) => seq![
                    CommandView::Persist(preferences_for(interest, self.units)),
                    self.request_weather(interest),
                ],
                None => seq![self.request_weather(interest)],
            },
        }
    }

    /// No match returns to "no place chosen". A single match is put on the
    /// list, selected at once and treated as the user's choice. Several
    /// are put up for the user to pick from.
    pub open spec fn update_location_results(self, found: Seq<LocationPointView>) -> Transition {
        if found.len() == 0 {
            Transition { state: self.update_location(None), commands: Seq::empty() }
        } else if found.len() == 1 {
            let listed = ApplicationView {
                presentation: self.presentation.show_location_results(
                    found,
                    Some(found[0].location),
                ),
                ..self
            };
            listed.select_location(found[0])
        } else {
            Transition {
                state: ApplicationView {
                    presentation: self.presentation.show_location_results(found, None),
                    ..self
                },
                commands: seq![CommandView::ShowPicker],
            }
        }
    }

    /// Takes the channel and the stored preferences. With preferences
    /// their place and units are put in force, the units switch shows
    /// their unit system and the forecast for their place is requested;
    /// without, no place is known and the window is sent to "no place
    /// chosen".
    pub open spec fn load(self, preferences: Option<WeatherPreferencesView>) -> Transition {
        match preferences {
            Some(prefs) => Transition {
                state: ApplicationView {
                    loaded: true,
                    presentation: PresentationView {
                        units_switch: prefs.units == Units::Metric,
                        ..self.presentation
                    },
                    ..self.set_preferences(prefs)
                },
                commands: seq![CommandView::Fetch(prefs)],
            },
            None => Transition {
                state: ApplicationView { loaded: true, place: None, ..self },
                commands: seq![CommandView::Enqueue(WeatherUpdateView::LocationResolved(None))],
            },
        }
    }

    /// What one message does.
    ///
    /// A forecast is shown, its units are put in force and the preferences
    /// it was requested for are enqueued for saving; a forecast request
    /// that produced nothing clears the forecast. A change of units is put in
    /// force and a refresh enqueued. A refresh requests the forecast for
    /// the last place known. A request to save leaves the state alone and
    /// asks for the write.
    pub open spec fn step(self, message: WeatherUpdateView) -> Transition {
        match message {
            WeatherUpdateView::DataFetched(weather) => Transition {
                state: self.update_weather(weather),
                commands: match weather {
                    Some(data) => seq![
                        CommandView::Enqueue(WeatherUpdateView::PreferencesPersist(data.preferences)),
                    ],
                    None => Seq::empty(),
                },
            },
            WeatherUpdateView::LocationResolved(location) => Transition {
                state: self.update_location(location),
                commands: Seq::empty(),
            },
            WeatherUpdateView::LocationSearchRequested(query) => self.search_location(query),
            WeatherUpdateView::LocationCandidatesFound(found) => self.update_location_results(
                found,
            ),
            WeatherUpdateView::PreferencesPersist(prefs) => Transition {
                state: self,
                commands: seq![CommandView::Persist(prefs)],
            },
            WeatherUpdateView::UnitsChanged(units) => Transition {
                state: self.update_units(units),
                commands: seq![CommandView::Enqueue(WeatherUpdateView::RefreshRequested)],
            },
            WeatherUpdateView::RefreshRequested => Transition {
                state: self,
                commands: self.refresh_weather(),
            },
        }
    }
}

/// The messages that `commands` put on the channel, in order.
pub open spec fn follow_ups(commands: Seq<CommandView>) -> Seq<WeatherUpdateView>
    decreases commands.len(),
{
    if commands.len() == 0 {
        Seq::empty()
    } else {
        let before = follow_ups(commands.drop_last());
        match commands.last() {
            CommandView::Enqueue(message) => before.push(message),
            _ => before,
        }
    }
}

/// What `commands` leave for the front end: all but the enqueued messages,
/// in order.
pub open spec fn outside_work(commands: Seq<CommandView>) -> Seq<CommandView>
    decreases commands.len(),
{
    if commands.len() == 0 {
        Seq::empty()
    } else {
        let before = outside_work(commands.drop_last());
        match commands.last() {
            CommandView::Enqueue(_) => before,
            other => before.push(other),
        }
    }
}

/// Applies the messages of `log` one after the other, each to the state
/// the one before it left, and collects the commands in that order.
pub open spec fn replay(state: ApplicationView, log: Seq<WeatherUpdateView>) -> Transition
    decreases log.len(),
{
    if log.len() == 0 {
        Transition { state, commands: Seq::empty() }
    } else {
        let before = replay(state, log.drop_last());
        let last = before.state.step(log.last());
        Transition { state: last.state, commands: before.commands + last.commands }
    }
}

/// Whether applying `log` to `start`, message by message, ends in the
/// state `end` and leaves `work` for the front end.
pub open spec fn replays_to(
    start: ApplicationView,
    log: Seq<WeatherUpdateView>,
    end: ApplicationView,
    work: Seq<CommandView>,
) -> bool {
    &&& end == replay(start, log).state
    &&& work == outside_work(replay(start, log).commands)
}

/// Whether `lost` can be the number of follow-ups that went astray while
/// `log` was applied to `start`: no more than were enqueued, and all of
/// them where the state holds no channel.
pub open spec fn loses(start: ApplicationView, log: Seq<WeatherUpdateView>, lost: nat) -> bool {
    &&& lost <= follow_ups(replay(start, log).commands).len()
    &&& !start.loaded ==> lost == follow_ups(replay(start, log).commands).len()
}

/// The messages enqueued by two runs of commands are those of each, in a
/// row.
pub proof fn lemma_follow_ups_concat(first: Seq<CommandView>, second: Seq<CommandView>)
    ensures
        follow_ups(first + second) == follow_ups(first) + follow_ups(second),
    decreases second.len(),
{
    if second.len() == 0 {
        assert(first + second =~= first);
        assert(follow_ups(first) + Seq::<WeatherUpdateView>::empty() =~= follow_ups(first));
    } else {
        lemma_follow_ups_concat(first, second.drop_last());
        assert((first + second).drop_last() =~= first + second.drop_last());
        assert((first + second).last() == second.last());
        let before = follow_ups(second.drop_last());
        match second.last() {
            CommandView::Enqueue(message) => {
                assert(follow_ups(first) + before.push(message) =~= (follow_ups(first)
                    + before).push(message));
            },
            _ => {},
        }
    }
}

/// The work left by two runs of commands is the work left by each, in a
/// row.
pub proof fn lemma_outside_work_concat(first: Seq<CommandView>, second: Seq<CommandView>)
    ensures
        outside_work(first + second) == outside_work(first) + outside_work(second),
    decreases second.len(),
{
    if second.len() == 0 {
        assert(first + second =~= first);
        assert(outside_work(first) + Seq::<CommandView>::empty() =~= outside_work(first));
    } else {
        lemma_outside_work_concat(first, second.drop_last());
        assert((first + second).drop_last() =~= first + second.drop_last());
        assert((first + second).last() == second.last());
        let before = outside_work(second.drop_last());
        match second.last() {
            CommandView::Enqueue(_) => {},
            other => {
                assert(outside_work(first) + before.push(other) =~= (outside_work(first)
                    + before).push(other));
            },
        }
    }
}

/// What a single command enqueues and what it leaves to the front end.
pub proof fn lemma_single_command(command: CommandView)
    ensures
        follow_ups(seq![command]) == match command {
            CommandView::Enqueue(message) => seq![message],
            _ => Seq::empty(),
        },
        outside_work(seq![command]) == match command {
            CommandView::Enqueue(_) => Seq::empty(),
            other => seq![other],
        },
{
    let one = seq![command];
    assert(one.drop_last() =~= Seq::empty());
    assert(one.last() == command);
    assert(follow_ups(one.drop_last()) == Seq::<WeatherUpdateView>::empty());
    assert(outside_work(one.drop_last()) == Seq::<CommandView>::empty());
    match command {
        CommandView::Enqueue(message) => {
            assert(Seq::<WeatherUpdateView>::empty().push(message) =~= seq![message]);
        },
        other => {
            assert(Seq::<CommandView>::empty().push(other) =~= seq![other]);
        },
    }
}

/// The messages that handling `message` puts on the channel, whatever
/// the state: a refresh after a change of units, a request to save the
/// preferences after a forecast, nothing after anything else.
pub open spec fn echo(message: WeatherUpdateView) -> Seq<WeatherUpdateView> {
    match message {
        WeatherUpdateView::UnitsChanged(_) => seq![WeatherUpdateView::RefreshRequested],
        WeatherUpdateView::DataFetched(Some(data)) => seq![
            WeatherUpdateView::PreferencesPersist(data.preferences),
        ],
        _ => Seq::empty(),
    }
}

/// What a step enqueues depends on the message alone. A step that
/// enqueues leaves nothing to the front end; any other leaves it all its
/// commands.
pub proof fn lemma_step_follow_ups(state: ApplicationView, message: WeatherUpdateView)
    ensures
        follow_ups(state.step(message).commands) == echo(message),
        outside_work(state.step(message).commands) == (if echo(message).len() > 0 {
            Seq::empty()
        } else {
            state.step(message).commands
        }),
{
    let commands = state.step(message).commands;
    if commands.len() == 2 {
        assert(commands.drop_last() =~= seq![commands[0]]);
        lemma_single_command(commands[0]);
        assert(seq![commands[0]].push(commands[1]) =~= commands);
    } else if commands.len() == 1 {
        assert(commands =~= seq![commands[0]]);
        lemma_single_command(commands[0]);
    } else {
        assert(commands =~= Seq::empty());
    }
}

/// How much handling a message can still cause: itself and what it
/// enqueues.
pub open spec fn weight(message: WeatherUpdateView) -> nat {
    1 + echo(message).len()
}

/// The weights of the messages of a queue, added up.
pub open spec fn total_weight(queue: Seq<WeatherUpdateView>) -> nat
    decreases queue.len(),
{
    if queue.len() == 0 {
        0
    } else {
        weight(queue[0]) + total_weight(queue.drop_first())
    }
}

/// The weight of two queues in a row is the sum of their weights.
pub proof fn lemma_total_weight_concat(first: Seq<WeatherUpdateView>, second: Seq<WeatherUpdateView>)
    ensures
        total_weight(first + second) == total_weight(first) + total_weight(second),
    decreases first.len(),
{
    if first.len() == 0 {
        assert(first + second =~= second);
    } else {
        lemma_total_weight_concat(first.drop_first(), second);
        assert((first + second).drop_first() =~= first.drop_first() + second);
        assert((first + second)[0] == first[0]);
    }
}

/// Handling the message at the front of a queue, and putting what it
/// enqueues at the back, leaves a queue of less weight.
pub proof fn lemma_step_lightens(state: ApplicationView, queue: Seq<WeatherUpdateView>)
    requires
        queue.len() > 0,
    ensures
        total_weight(queue.drop_first() + follow_ups(state.step(queue[0]).commands)) < total_weight(
            queue,
        ),
{
    let enqueued = follow_ups(state.step(queue[0]).commands);
    lemma_step_follow_ups(state, queue[0]);
    lemma_total_weight_concat(queue.drop_first(), enqueued);
    if enqueued.len() > 0 {
        assert(enqueued.drop_first() =~= Seq::empty());
        assert(total_weight(enqueued.drop_first()) == 0);
        assert(echo(enqueued[0]).len() == 0);
        assert(total_weight(enqueued) == 1);
    } else {
        assert(total_weight(enqueued) == 0);
    }
}

/// The outcome of draining a queue until nothing is left to handle.
pub struct Settled {
    /// The state at the end.
    pub state: ApplicationView,
    /// The messages handled, in the order they were handled.
    pub processed: Seq<WeatherUpdateView>,
    /// The work left for the front end, in the order it was asked for.
    pub commands: Seq<CommandView>,
}

/// Drains `queue` from the front. Each message is applied in full to the
/// state its predecessor left; the messages it enqueues join the back of
/// the queue before the next one is taken.
pub open spec fn settle(state: ApplicationView, queue: Seq<WeatherUpdateView>) -> Settled
    decreases total_weight(queue),
    via settle_decreases
{
    if queue.len() == 0 {
        Settled { state, processed: Seq::empty(), commands: Seq::empty() }
    } else {
        let taken = state.step(queue[0]);
        let rest = settle(taken.state, queue.drop_first() + follow_ups(taken.commands));
        Settled {
            state: rest.state,
            processed: seq![queue[0]] + rest.processed,
            commands: outside_work(taken.commands) + rest.commands,
        }
    }
}

#[via_fn]
proof fn settle_decreases(state: ApplicationView, queue: Seq<WeatherUpdateView>) {
    if queue.len() > 0 {
        lemma_step_lightens(state, queue);
    }
}

} // verus!
