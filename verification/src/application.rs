//! The application state and the one way to change it: applying a message.

use vstd::prelude::*;
use crate::channel::{
    channel_capacity, channel_receive, channel_send, receivable, ChannelError, ReceiveError,
};
use crate::location::{LocationPoint, WeatherPreferences};
use crate::message::{Command, CommandView, WeatherUpdate, WeatherUpdateView};
use crate::model::{
    follow_ups, lemma_follow_ups_concat, lemma_outside_work_concat, lemma_step_follow_ups,
    lemma_step_lightens, loses, outside_work, replay, replays_to, settle, total_weight,
    ApplicationView,
};
use crate::presentation::Presentation;
use crate::weather::{optional, views, Units, WeatherData};

verus! {

/// The single state of the running application.
///
/// Its fields are private, and after [`WeatherApplication::load`] nothing
/// changes them but applying a message: [`WeatherApplication::update`]
/// and the functions built on it.
pub struct WeatherApplication {
    active: bool,
    sender: Option<flume::Sender<WeatherUpdate>>,
    working_dir: String,
    units: Units,
    place: Option<LocationPoint>,
    presentation: Presentation,
}

impl View for WeatherApplication {
    type V = ApplicationView;

    closed spec fn view(&self) -> ApplicationView {
        ApplicationView {
            active: self.active,
            loaded: self.sender is Some,
            working_dir: self.working_dir@,
            units: self.units,
            place: optional(self.place),
            presentation: self.presentation@,
        }
    }
}

/// Why a message was not put on the channel.
#[derive(Clone, Copy, Debug, PartialEq, Eq, Structural)]
pub enum SubmitError {
    /// The state was never handed its end of the channel.
    NotLoaded,
    /// The channel is bounded and holds as many messages as it can.
    Full,
    /// Nobody receives from the channel any more.
    Disconnected,
}

/// How a run of submissions ended.
#[derive(Clone, Copy, Debug, PartialEq, Eq)]
pub struct Delivery {
    /// How many submissions, counted from the first, ended well.
    pub delivered: usize,
    /// Why the run stopped before the last message; `None` where every
    /// message was taken.
    pub refusal: Option<SubmitError>,
}

impl Delivery {
    /// Whether this can be the end of submitting `count` messages, in
    /// order and up to the first refusal, through a state that holds the
    /// channel or does not. The run took all of them exactly when it
    /// names no refusal. Without channel the first message is refused as
    /// `NotLoaded`, and that refusal comes in no other case.
    pub open spec fn ends_run_of(self, count: nat, loaded: bool) -> bool {
        &&& self.delivered <= count
        &&& self.refusal is None <==> self.delivered == count
        &&& self.refusal == Some(SubmitError::NotLoaded) <==> !loaded && count > 0
        &&& !loaded ==> self.delivered == 0
    }

    /// The run after one more submission, which ended as `outcome`: one
    /// more message delivered, or the refusal that stops the run.
    pub open spec fn after(self, outcome: Result<(), SubmitError>) -> Delivery {
        match outcome {
            Ok(()) => Delivery {
                delivered: if self.delivered < usize::MAX {
                    (self.delivered + 1) as usize
                } else {
                    self.delivered
                },
                refusal: self.refusal,
            },
            Err(refusal) => Delivery { delivered: self.delivered, refusal: Some(refusal) },
        }
    }

    /// How many of `count` submitted messages this run did not deliver.
    pub open spec fn undelivered_of(self, count: nat) -> nat {
        if self.delivered <= count {
            (count - self.delivered) as nat
        } else {
            0
        }
    }

    /// A run in which nothing has been submitted yet.
    pub fn new() -> (run: Delivery)
        ensures
            run == (Delivery { delivered: 0, refusal: None }),
    {
        Delivery { delivered: 0, refusal: None }
    }

    /// Counts one more submission, which ended as `outcome`.
    pub fn followed_by(self, outcome: Result<(), SubmitError>) -> (next: Delivery)
        ensures
            next == self.after(outcome),
    {
        match outcome {
            Ok(()) => Delivery {
                delivered: if self.delivered < usize::MAX {
                    self.delivered + 1
                } else {
                    self.delivered
                },
                refusal: self.refusal,
            },
            Err(refusal) => Delivery { delivered: self.delivered, refusal: Some(refusal) },
        }
    }

    /// Counts how many of `count` submitted messages were not delivered.
    pub fn undelivered(&self, count: usize) -> (rest: usize)
        ensures
            rest == self.undelivered_of(count as nat),
    {
        if self.delivered <= count {
            count - self.delivered
        } else {
            0
        }
    }
}

/// What the caller of [`WeatherApplication::submit`] learns from an
/// attempt to send on the channel.
pub fn submit_outcome(sent: Result<(), ChannelError>) -> (outcome: Result<(), SubmitError>)
    ensures
        outcome == match sent {
            Ok(()) => Ok::<(), SubmitError>(()),
            Err(ChannelError::Full) => Err(SubmitError::Full),
            Err(ChannelError::Disconnected) => Err(SubmitError::Disconnected),
        },
{
    match sent {
        Ok(()) => Ok(()),
        Err(ChannelError::Full) => Err(SubmitError::Full),
        Err(ChannelError::Disconnected) => Err(SubmitError::Disconnected),
    }
}

/// What carrying out the commands of a step came to.
#[derive(Debug, PartialEq, Eq)]
pub struct Dispatched {
    /// The work left for the front end, in the order it was asked for.
    pub work: Vec<Command>,
    /// How many messages the commands enqueued.
    pub enqueued: usize,
    /// How submitting the enqueued messages ended.
    pub delivery: Delivery,
}

/// Why a call of [`WeatherApplication::drain`] took no further message.
#[derive(Clone, Copy, Debug, PartialEq, Eq, Structural)]
pub enum DrainEnd {
    /// It had taken as many messages as it was allowed.
    Limit,
    /// No message was waiting.
    Empty,
    /// No message was waiting and every sending end is gone.
    Disconnected,
    /// The channel is bounded at the largest `usize`; nothing is taken
    /// from such a channel.
    Unsupported,
}

/// What a call of [`WeatherApplication::drain`] did.
#[derive(Debug, PartialEq, Eq)]
pub struct Drained {
    /// How many messages were taken from the channel and applied.
    pub applied: usize,
    /// The work they left for the front end, in the order it was asked for.
    pub commands: Vec<Command>,
    /// Follow-ups counted as not delivered: for each applied message what
    /// [`Delivery::undelivered`] gives for its follow-ups. Never more
    /// than were enqueued, and all of them where the state holds no
    /// channel.
    pub lost: usize,
    /// Why no further message was taken.
    pub stopped: DrainEnd,
}

/// Messages enqueued by `commands` and the work they leave for the front
/// end, each in the order of `commands`.
pub fn partition(commands: Vec<Command>) -> (parts: (Vec<WeatherUpdate>, Vec<Command>))
    ensures
        views(parts.0@) == follow_ups(views(commands@)),
        views(parts.1@) == outside_work(views(commands@)),
{
    let ghost all = views(commands@);
    let total: usize = commands.len();
    let mut commands = commands;
    let mut messages: Vec<WeatherUpdate> = Vec::new();
    let mut work: Vec<Command> = Vec::new();
    let mut taken: usize = 0;
    assert(all.take(0) =~= Seq::empty());
    assert(views(messages@) =~= Seq::empty());
    assert(views(work@) =~= Seq::empty());
    assert(views(commands@) =~= all.skip(0));
    while commands.len() > 0
        invariant
            all.len() == total,
            taken + commands.len() == total,
            views(commands@) == all.skip(taken as int),
            views(messages@) == follow_ups(all.take(taken as int)),
            views(work@) == outside_work(all.take(taken as int)),
        decreases commands.len(),
    {
        let ghost before = all.take(taken as int);
        let ghost queued = views(messages@);
        let ghost kept = views(work@);
        let ghost pending = commands@;
        let command = commands.remove(0);
        proof {
            assert(command@ == views(pending)[0]);
            assert(command@ == all[taken as int]);
            assert(all.take(taken + 1).drop_last() =~= before);
            assert(all.take(taken + 1).last() == command@);
            assert forall|i: int| 0 <= i < commands@.len() implies #[trigger] views(commands@)[i]
                == all.skip(taken + 1)[i] by {
                assert(commands@[i] == pending[i + 1]);
                assert(views(pending)[i + 1] == all.skip(taken as int)[i + 1]);
            }
            assert(views(commands@) =~= all.skip(taken + 1));
        }
        match command {
            Command::Enqueue(message) => {
                messages.push(message);
                assert(views(messages@) =~= queued.push(message@));
            },
            other => {
                work.push(other);
                assert(views(work@) =~= kept.push(other@));
            },
        }
        taken = taken + 1;
    }
    assert(all.take(taken as int) =~= all);
    (messages, work)
}

impl WeatherApplication {
    /// The state at startup: running, metric, without channel or place,
    /// showing only the search entry. Icons will be looked for below
    /// `working_dir`.
    pub fn new(working_dir: String) -> (app: Self)
        ensures
            app@ == ApplicationView::initial(working_dir@),
    {
        WeatherApplication {
            active: true,
            sender: None,
            working_dir,
            units: Units::Metric,
            place: None,
            presentation: Presentation::new(),
        }
    }

    /// Whether the application is running.
    pub fn is_active(&self) -> (active: bool)
        ensures
            active == self@.active,
    {
        self.active
    }

    /// Whether [`WeatherApplication::load`] has handed over the channel.
    pub fn is_loaded(&self) -> (loaded: bool)
        ensures
            loaded == self@.loaded,
    {
        self.sender.is_some()
    }

    /// What the window is to show.
    pub fn presentation(&self) -> (shown: &Presentation)
        ensures
            shown@ == self@.presentation,
    {
        &self.presentation
    }

    /// The preferences in force: the last place known under the units in
    /// force; none while no place is known.
    pub fn preferences(&self) -> (prefs: Option<WeatherPreferences>)
        ensures
            optional(prefs) == self@.preferences(),
    {
        match &self.place {
            Some(place) => Some(WeatherPreferences::new(place.clone(), self.units)),
            None => None,
        }
    }

    /// Directory below which the icons are looked for.
    pub fn working_dir(&self) -> (dir: &str)
        ensures
            dir@ == self@.working_dir,
    {
        self.working_dir.as_str()
    }

    /// The unit system in force.
    pub fn get_units(&self) -> (units: Units)
        ensures
            units == self@.get_units(),
    {
        self.units
    }

    /// The forecast request for `interest` under the units in force.
    pub fn request_weather(&self, interest: LocationPoint) -> (command: Command)
        ensures
            command@ == self@.request_weather(interest@),
    {
        Command::Fetch(WeatherPreferences::new(interest, self.get_units()))
    }

    /// The forecast request for the last place known, under the units in
    /// force; nothing while no place is known.
    pub fn refresh_weather(&self) -> (commands: Vec<Command>)
        ensures
            views(commands@) == self@.refresh_weather(),
    {
        match &self.place {
            Some(place) => {
                let command = self.request_weather(place.clone());
                let commands = vec![command];
                assert(views(commands@) =~= seq![command@]);
                commands
            },
            None => {
                let commands: Vec<Command> = Vec::new();
                assert(views(commands@) =~= Seq::empty());
                commands
            },
        }
    }

    /// Puts another unit system in force, whether or not a place is known.
    fn update_units(&mut self, units: Units)
        ensures
            final(self)@ == old(self)@.update_units(units),
    {
        self.units = units;
    }

    /// Shows a forecast and puts its unit system in force; clears the
    /// forecast and shows the "invalid data" notice where there is none.
    /// The last place known and the place on display stay as they are.
    fn update_weather(&mut self, weather: Option<WeatherData>)
        ensures
            final(self)@ == old(self)@.update_weather(optional(weather)),
    {
        match &weather {
            Some(data) => {
                self.update_units(data.preferences.units);
            },
            None => {},
        }
        self.presentation.update_weather(self.working_dir.as_str(), weather);
    }

    /// Shows a place, or returns to "no place chosen".
    fn update_location(&mut self, location: Option<String>)
        ensures
            final(self)@ == old(self)@.update_location(optional(location)),
    {
        self.presentation.update_location(self.working_dir.as_str(), location);
    }

    /// An empty query changes nothing. Any other hides the place and the
    /// search entry and asks for a search.
    fn search_location(&mut self, search_query: String) -> (commands: Vec<Command>)
        ensures
            final(self)@ == old(self)@.search_location(search_query@).state,
            views(commands@) == old(self)@.search_location(search_query@).commands,
    {
        if search_query.as_str().is_empty() {
            let commands: Vec<Command> = Vec::new();
            assert(views(commands@) =~= Seq::empty());
            return commands;
        }
        self.presentation.hide_location_entry();
        let ghost query = search_query@;
        let commands = vec![Command::Search(search_query)];
        assert(views(commands@) =~= seq![CommandView::Search(query)]);
        commands
    }

    /// No match returns to "no place chosen". A single match is put on the
    /// list, selected at once and treated as the user's choice. Several
    /// are put up for the user to pick from, and no forecast is requested
    /// yet.
    fn update_location_results(&mut self, location_results: Vec<LocationPoint>) -> (commands:
        Vec<Command>)
        ensures
            final(self)@ == old(self)@.update_location_results(views(location_results@)).state,
            views(commands@) == old(self)@.update_location_results(
                views(location_results@),
            ).commands,
    {
        let results_count: usize = location_results.len();
        if results_count == 0 {
            self.update_location(None);
            let commands: Vec<Command> = Vec::new();
            assert(views(commands@) =~= Seq::empty());
            commands
        } else if results_count == 1 {
            let first = location_results[0].clone();
            assert(first@ == views(location_results@)[0]);
            self.presentation.show_location_results(location_results, Some(first.location.clone()));
            self.select_location(first)
        } else {
            self.presentation.show_location_results(location_results, None);
            let commands = vec![Command::ShowPicker];
            assert(views(commands@) =~= seq![CommandView::ShowPicker]);
            commands
        }
    }

    /// The request to write `preferences` to the store.
    pub fn save_preferences(preferences: WeatherPreferences) -> (command: Command)
        ensures
            command@ == CommandView::Persist(preferences@),
    {
        Command::Persist(preferences)
    }

    /// Applies one message: the state becomes what
    /// [`ApplicationView::step`] says, and the commands it names are
    /// returned for the caller to carry out.
    pub fn update(&mut self, update: WeatherUpdate) -> (commands: Vec<Command>)
        ensures
            final(self)@ == old(self)@.step(update@).state,
            views(commands@) == old(self)@.step(update@).commands,
    {
        match update {
            WeatherUpdate::DataFetched(data) => {
                let resolved = match &data {
                    Some(weather) => Some(weather.preferences.clone()),
                    None => None,
                };
                self.update_weather(data);
                match resolved {
                    Some(preferences) => {
                        let command = Command::Enqueue(
                            WeatherUpdate::PreferencesPersist(preferences),
                        );
                        let commands = vec![command];
                        assert(views(commands@) =~= seq![command@]);
                        commands
                    },
                    None => {
                        let commands: Vec<Command> = Vec::new();
                        assert(views(commands@) =~= Seq::empty());
                        commands
                    },
                }
            },
            WeatherUpdate::LocationResolved(location) => {
                self.update_location(location);
                let commands: Vec<Command> = Vec::new();
                assert(views(commands@) =~= Seq::empty());
                commands
            },
            WeatherUpdate::LocationSearchRequested(query) => self.search_location(query),
            WeatherUpdate::LocationCandidatesFound(locations) => self.update_location_results(
                locations,
            ),
            WeatherUpdate::PreferencesPersist(preferences) => {
                let command = Self::save_preferences(preferences);
                let commands = vec![command];
                assert(views(commands@) =~= seq![command@]);
                commands
            },
            WeatherUpdate::UnitsChanged(units) => {
                self.update_units(units);
                let commands = vec![Command::Enqueue(WeatherUpdate::RefreshRequested)];
                assert(views(commands@) =~= seq![
                    CommandView::Enqueue(WeatherUpdateView::RefreshRequested),
                ]);
                commands
            },
            WeatherUpdate::RefreshRequested => self.refresh_weather(),
        }
    }

    /// Makes `interest` the last place known and requests its forecast
    /// under the units in force. Where a place was known before, the
    /// preferences that now name `interest` are to be saved at once.
    fn select_location(&mut self, interest: LocationPoint) -> (commands: Vec<Command>)
        ensures
            final(self)@ == old(self)@.select_location(interest@).state,
            views(commands@) == old(self)@.select_location(interest@).commands,
    {
        let request = self.request_weather(interest.clone());
        let commands = if self.place.is_some() {
            let saved = Command::Persist(WeatherPreferences::new(interest.clone(), self.units));
            let commands = vec![saved, request];
            assert(views(commands@) =~= seq![saved@, request@]);
            commands
        } else {
            let commands = vec![request];
            assert(views(commands@) =~= seq![request@]);
            commands
        };
        self.place = Some(interest);
        commands
    }

    /// Takes the sending end of the channel and the stored preferences.
    /// With preferences their place and units are put in force, the units
    /// switch shows their unit system and the forecast for their place is
    /// requested; without, no place is known and a message that returns
    /// the window to "no place chosen" is to be enqueued.
    pub fn load(
        &mut self,
        preferences: Option<WeatherPreferences>,
        sender: flume::Sender<WeatherUpdate>,
    ) -> (commands: Vec<Command>)
        ensures
            final(self)@ == old(self)@.load(optional(preferences)).state,
            views(commands@) == old(self)@.load(optional(preferences)).commands,
    {
        self.sender = Some(sender);
        match preferences {
            Some(prefs) => {
                self.presentation.units_switch = match prefs.units {
                    Units::Metric => true,
                    Units::Imperial => false,
                };
                self.units = prefs.units;
                self.place = Some(prefs.location_point());
                let request = Command::Fetch(prefs);
                let commands = vec![request];
                assert(views(commands@) =~= seq![request@]);
                commands
            },
            None => {
                self.place = None;
                let commands = vec![Command::Enqueue(WeatherUpdate::LocationResolved(None))];
                assert(views(commands@) =~= seq![
                    CommandView::Enqueue(WeatherUpdateView::LocationResolved(None)),
                ]);
                commands
            },
        }
    }

    /// Puts `message` at the back of the channel without waiting. Fails
    /// with `NotLoaded` exactly when the state holds no channel; whether
    /// the channel then takes the message is up to the channel, and
    /// [`submit_outcome`] says what is returned for each answer of it.
    pub fn submit(&self, message: WeatherUpdate) -> (outcome: Result<(), SubmitError>)
        ensures
            !self@.loaded <==> outcome == Err::<(), SubmitError>(SubmitError::NotLoaded),
    {
        match &self.sender {
            Some(sender) => submit_outcome(channel_send(sender, message)),
            None => Err(SubmitError::NotLoaded),
        }
    }

    /// Submits `messages` in order and stops at the first that the channel
    /// does not take. The run is counted by [`Delivery::followed_by`], one
    /// submission after the other. An empty run succeeds; a run through a
    /// state without channel is refused at its first message as
    /// `NotLoaded`; no run is counted as longer than it is.
    pub fn submit_all(&self, messages: Vec<WeatherUpdate>) -> (delivery: Delivery)
        ensures
            delivery.ends_run_of(messages@.len(), self@.loaded),
    {
        let total: usize = messages.len();
        let mut pending = messages;
        let mut delivery = Delivery::new();
        while pending.len() > 0 && delivery.refusal.is_none()
            invariant
                messages@.len() == total,
                delivery.refusal is None ==> delivery.delivered + pending@.len() == total,
                delivery.refusal is Some ==> delivery.delivered < total,
                delivery.refusal == Some(SubmitError::NotLoaded) <==> !self@.loaded
                    && delivery.refusal is Some,
                !self@.loaded ==> delivery.delivered == 0,
            decreases pending@.len(), (if delivery.refusal is None { 1int } else { 0int }),
        {
            let message = pending.remove(0);
            delivery = delivery.followed_by(self.submit(message));
        }
        delivery
    }

    /// Carries out the part of `commands` that concerns the channel: every
    /// enqueued message is submitted, in order, up to the first that the
    /// channel does not take. Returns the rest, in order, for the front
    /// end, how many messages were enqueued and how the submissions ended.
    pub fn dispatch(&self, commands: Vec<Command>) -> (done: Dispatched)
        ensures
            views(done.work@) == outside_work(views(commands@)),
            done.enqueued == follow_ups(views(commands@)).len(),
            done.delivery.ends_run_of(follow_ups(views(commands@)).len(), self@.loaded),
    {
        let (messages, work) = partition(commands);
        assert(views(messages@).len() == messages@.len());
        let enqueued: usize = messages.len();
        let delivery = self.submit_all(messages);
        Dispatched { work, enqueued, delivery }
    }

    /// Applies one message and submits the messages that this enqueues.
    /// Returns the work left for the front end, and how the submissions
    /// ended.
    pub fn process(&mut self, update: WeatherUpdate) -> (done: Dispatched)
        ensures
            final(self)@ == old(self)@.step(update@).state,
            views(done.work@) == outside_work(old(self)@.step(update@).commands),
            done.enqueued == follow_ups(old(self)@.step(update@).commands).len(),
            done.delivery.ends_run_of(
                follow_ups(old(self)@.step(update@).commands).len(),
                old(self)@.loaded,
            ),
    {
        let commands = self.update(update);
        self.dispatch(commands)
    }

    /// Drains an inbox that no one else writes to. Each message is applied
    /// in full before the next is taken, and the messages it enqueues join
    /// the back of the inbox. Returns the work left for the front end.
    pub fn settle(&mut self, inbox: Vec<WeatherUpdate>) -> (work: Vec<Command>)
        ensures
            final(self)@ == settle(old(self)@, views(inbox@)).state,
            views(work@) == settle(old(self)@, views(inbox@)).commands,
    {
        let ghost goal = settle(self@, views(inbox@));
        let mut queue = inbox;
        let mut work: Vec<Command> = Vec::new();
        assert(views(work@) + goal.commands =~= goal.commands);
        while queue.len() > 0
            invariant
                goal.state == settle(self@, views(queue@)).state,
                goal.commands == views(work@) + settle(self@, views(queue@)).commands,
            decreases total_weight(views(queue@)),
        {
            let ghost state = self@;
            let ghost waiting = views(queue@);
            let ghost done = views(work@);
            let ghost held = queue@;
            let message = queue.remove(0);
            assert(message@ == waiting[0]);
            assert(views(queue@) =~= waiting.drop_first()) by {
                assert forall|i: int| 0 <= i < queue@.len() implies #[trigger] views(queue@)[i]
                    == waiting.drop_first()[i] by {
                    assert(queue@[i] == held[i + 1]);
                }
            }
            let commands = self.update(message);
            let ghost taken = state.step(waiting[0]);
            let (mut enqueued, mut left) = partition(commands);
            let ghost shorter = queue@;
            let ghost added = enqueued@;
            let ghost fresh = left@;
            let ghost kept = work@;
            queue.append(&mut enqueued);
            work.append(&mut left);
            proof {
                assert(views(queue@) =~= waiting.drop_first() + follow_ups(taken.commands)) by {
                    assert(queue@ == shorter + added);
                    assert(views(shorter + added) =~= views(shorter) + views(added));
                }
                assert(views(work@) =~= done + outside_work(taken.commands)) by {
                    assert(work@ == kept + fresh);
                    assert(views(kept + fresh) =~= views(kept) + views(fresh));
                }
                lemma_step_lightens(state, waiting);
                let rest = settle(taken.state, views(queue@));
                assert(settle(state, waiting).commands == outside_work(taken.commands)
                    + rest.commands);
                assert(done + (outside_work(taken.commands) + rest.commands) =~= (done
                    + outside_work(taken.commands)) + rest.commands);
            }
        }
        assert(views(work@) + Seq::<CommandView>::empty() =~= views(work@));
        work
    }

    /// Takes messages from the channel for as long as one is waiting, up
    /// to `limit` of them, and processes each in full before it takes the
    /// next. Never waits for a message. From a channel bounded at the
    /// largest `usize` it takes nothing.
    ///
    /// Which messages arrive is up to the producers. Whatever they are,
    /// the state and the returned work are those of applying them one
    /// after the other, in the order the channel handed them out. The
    /// drain says why it took no more, and counts the follow-ups that the
    /// channel did not take.
    pub fn drain(&mut self, receiver: &flume::Receiver<WeatherUpdate>, limit: usize) -> (drained:
        Drained)
        ensures
            drained.applied <= limit,
            drained.stopped is Unsupported <==> !receivable(*receiver),
            drained.stopped is Limit <==> receivable(*receiver) && drained.applied == limit,
            exists|log: Seq<WeatherUpdateView>|
                log.len() == drained.applied && #[trigger] replays_to(
                    old(self)@,
                    log,
                    final(self)@,
                    views(drained.commands@),
                ) && loses(old(self)@, log, drained.lost as nat),
    {
        let ghost start = self@;
        let ghost mut log: Seq<WeatherUpdateView> = Seq::empty();
        let mut commands: Vec<Command> = Vec::new();
        let mut applied: usize = 0;
        let mut lost: usize = 0;
        let mut stopped: Option<DrainEnd> = match channel_capacity(receiver) {
            Some(bound) => if bound == usize::MAX {
                Some(DrainEnd::Unsupported)
            } else {
                None
            },
            None => None,
        };
        assert(views(commands@) =~= Seq::empty());
        while applied < limit && stopped.is_none()
            invariant
                applied <= limit,
                lost <= applied,
                stopped is None ==> receivable(*receiver),
                stopped == Some(DrainEnd::Unsupported) <==> !receivable(*receiver),
                stopped != Some(DrainEnd::Limit),
                stopped is Some && receivable(*receiver) ==> applied < limit,
                log.len() == applied,
                self@.loaded == start.loaded,
                replays_to(start, log, self@, views(commands@)),
                loses(start, log, lost as nat),
            decreases limit - applied, (if stopped is None { 1int } else { 0int }),
        {
            match channel_receive(receiver) {
                Ok(message) => {
                    let ghost state = self@;
                    let ghost before = replay(start, log);
                    let ghost done = commands@;
                    let ghost taken = state.step(message@);
                    let mut step = self.process(message);
                    let ghost fresh = step.work@;
                    commands.append(&mut step.work);
                    proof {
                        let longer = log.push(message@);
                        assert(longer.drop_last() =~= log);
                        assert(longer.last() == message@);
                        assert(replay(start, longer).commands == before.commands + taken.commands);
                        lemma_outside_work_concat(before.commands, taken.commands);
                        lemma_follow_ups_concat(before.commands, taken.commands);
                        lemma_step_follow_ups(state, message@);
                        assert(follow_ups(taken.commands).len() <= 1);
                        assert(commands@ == done + fresh);
                        assert(views(done + fresh) =~= views(done) + views(fresh));
                        log = longer;
                    }
                    lost = lost + step.delivery.undelivered(step.enqueued);
                    applied = applied + 1;
                },
                Err(ReceiveError::Empty) => {
                    stopped = Some(DrainEnd::Empty);
                },
                Err(ReceiveError::Disconnected) => {
                    stopped = Some(DrainEnd::Disconnected);
                },
            }
        }
        let stopped = match stopped {
            Some(reason) => reason,
            None => DrainEnd::Limit,
        };
        let drained = Drained { applied, commands, lost, stopped };
        assert(replays_to(start, log, self@, views(drained.commands@)));
        drained
    }
}

} // verus!
