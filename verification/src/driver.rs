//! The resolution driver: on every event it updates the correlation store
//! through the decision policy and dispatches the request once its
//! resolution is complete.

use vstd::prelude::*;
use crate::command::{abort, command_for, command_view, forward, fulfill, Command, CommandView};
use crate::config::{ConfigView, InterceptorConfig};
use crate::event::{InterceptEvent, RequestPaused, RequestWillBeSent, ResponseReceived};
use crate::policy::{classify, observed_action};
use crate::report::{format_response_line, response_line};
use crate::resolution::{InterceptAction, InterceptResolution, ResolutionView};
use crate::store::{entry_of, ResolutionStore, StoreView};

verus! {

/// What handling one event leads to: the store afterwards, and the command to
/// dispatch, if any.
pub struct Outcome {
    pub store: StoreView,
    pub command: Option<CommandView>,
}

/// A store is settled when none of its entries is ready for dispatch: to be in
/// the store is to await either the decision or the handle.
pub open spec fn settled(store: StoreView) -> bool {
    forall|key: Seq<char>| store.contains_key(key) ==> !(#[trigger] store[key]).dispatch_ready()
}

/// Resolving `key`: if its entry is ready, the entry leaves the store and its
/// command is dispatched; otherwise nothing happens.
pub open spec fn resolved(config: ConfigView, store: StoreView, key: Seq<char>) -> Outcome {
    if store.contains_key(key) && store[key].dispatch_ready() {
        Outcome {
            store: store.remove(key),
            command: command_for(config, store[key].action, store[key].request_id->0),
        }
    } else {
        Outcome { store, command: None }
    }
}

/// The entry of a request after its pause at the request stage: the handle is
/// the event's, and a request to the sentinel target is fulfilled whatever was
/// decided before. This is the one rule that may replace a decision, and it
/// always wins: such an entry is complete, so the request is answered in the
/// same step and no later event can take the decision back.
pub open spec fn paused_entry(
    config: ConfigView,
    prior: ResolutionView,
    event: &RequestPaused,
) -> ResolutionView {
    ResolutionView {
        action: if event.url@ == config.target {
            InterceptAction::Fulfill
        } else {
            prior.action
        },
        request_id: Some(event.request_id@),
    }
}

/// The entry of a request after its observation: the first decision stands,
/// and only a pending entry takes the action that the observation decides.
pub open spec fn observed_entry(
    prior: ResolutionView,
    event: &RequestWillBeSent,
) -> ResolutionView {
    ResolutionView {
        action: if prior.action == InterceptAction::Pending {
            observed_action(event)
        } else {
            prior.action
        },
        request_id: prior.request_id,
    }
}

/// What a pause event leads to. A pause at the response stage is forwarded at
/// once and leaves the store alone; a pause without a correlation key is
/// ignored; any other pause records the handle and resolves the request.
pub open spec fn paused_outcome(
    config: ConfigView,
    store: StoreView,
    event: &RequestPaused,
) -> Outcome {
    if event.at_response_stage() {
        Outcome { store, command: command_for(config, InterceptAction::Forward, event.request_id@) }
    } else {
        match event.network_id {
            Some(network_id) => {
                let entry = paused_entry(config, entry_of(store, network_id@), event);
                resolved(config, store.insert(network_id@, entry), network_id@)
            },
            None => Outcome { store, command: None },
        }
    }
}

/// What the observation of a request leads to: it records the decision and
/// resolves the request.
pub open spec fn observed_outcome(
    config: ConfigView,
    store: StoreView,
    event: &RequestWillBeSent,
) -> Outcome {
    let entry = observed_entry(entry_of(store, event.request_id@), event);
    resolved(config, store.insert(event.request_id@, entry), event.request_id@)
}

/// What any event leads to. A received response decides nothing.
pub open spec fn outcome(config: ConfigView, store: StoreView, event: &InterceptEvent) -> Outcome {
    match event {
        InterceptEvent::ResponseReceived(_) => Outcome { store, command: None },
        InterceptEvent::RequestPaused(paused) => paused_outcome(config, store, paused),
        InterceptEvent::RequestWillBeSent(observed) => observed_outcome(config, store, observed),
    }
}

/// Resolves the request `network_id`: where its entry holds both a decision
/// and a handle, removes the entry and returns the command to dispatch.
pub fn resolve(
    network_id: &str,
    resolutions: &mut ResolutionStore,
    config: &InterceptorConfig,
) -> (command: Option<Command>)
    ensures
        final(resolutions)@ == resolved(config@, old(resolutions)@, network_id@).store,
        command_view(command) == resolved(config@, old(resolutions)@, network_id@).command,
        command is Some <==> old(resolutions)@.contains_key(network_id@) && old(
            resolutions,
        )@[network_id@].dispatch_ready(),
{
    let command = match resolutions.get(network_id) {
        Some(resolution) => match resolution.request_id {
            Some(request_id) => match resolution.action {
                InterceptAction::Forward => Some(forward(request_id.as_str())),
                InterceptAction::Abort => Some(abort(request_id.as_str())),
                InterceptAction::Fulfill => Some(fulfill(request_id.as_str(), config)),
                InterceptAction::Pending => None,
            },
            None => None,
        },
        None => None,
    };
    if command.is_some() {
        resolutions.remove(network_id);
    }
    command
}

/// What the driver hands back for one event.
#[derive(Debug, PartialEq, Eq)]
pub enum Effect {
    /// A terminal command to send to the control plane.
    Dispatch(Command),
    /// A line to log.
    Log(String),
    /// Nothing to do.
    Idle,
}

/// The command that an effect dispatches, if it dispatches one.
pub open spec fn effect_command(effect: Effect) -> Option<CommandView> {
    match effect {
        Effect::Dispatch(command) => Some(command@),
        _ => None,
    }
}

impl Effect {
    /// The effect of an optional command: to dispatch it, or nothing.
    pub fn from_command(command: Option<Command>) -> (effect: Self)
        ensures
            effect_command(effect) == command_view(command),
            command is Some ==> effect is Dispatch,
            command is None ==> effect is Idle,
    {
        match command {
            Some(command) => Effect::Dispatch(command),
            None => Effect::Idle,
        }
    }
}

/// The mathematical content of a [`ResolutionDriver`].
pub struct DriverView {
    pub config: ConfigView,
    pub store: StoreView,
    pub event_counter: u64,
}

/// The state of the interception loop: the correlation store, the counter of
/// received responses and the configuration.
pub struct ResolutionDriver {
    config: InterceptorConfig,
    resolutions: ResolutionStore,
    event_counter: u64,
}

impl View for ResolutionDriver {
    type V = DriverView;

    closed spec fn view(&self) -> DriverView {
        DriverView {
            config: self.config@,
            store: self.resolutions@,
            event_counter: self.event_counter,
        }
    }
}

impl ResolutionDriver {
    #[verifier::type_invariant]
    pub open spec fn well_formed(&self) -> bool {
        settled(self@.store) && self@.config.valid()
    }

    /// A driver with an empty store.
    pub fn new(config: InterceptorConfig, event_counter: u64) -> (driver: Self)
        ensures
            driver@ == (DriverView {
                config: config@,
                store: Map::<Seq<char>, ResolutionView>::empty(),
                event_counter,
            }),
    {
        proof {
            use_type_invariant(&config);
        }
        ResolutionDriver { config, resolutions: ResolutionStore::new(), event_counter }
    }

    /// The configuration.
    pub fn config(&self) -> (config: &InterceptorConfig)
        ensures
            config@ == self@.config,
    {
        &self.config
    }

    /// The number of responses received so far.
    pub fn event_counter(&self) -> (count: u64)
        ensures
            count == self@.event_counter,
    {
        self.event_counter
    }

    /// The number of requests whose resolution is incomplete.
    pub fn pending_requests(&self) -> (count: usize)
        ensures
            count == self@.store.len(),
    {
        self.resolutions.len()
    }

    /// A copy of the resolution of `network_id`, if its resolution is
    /// incomplete. What the store holds is never ready for dispatch.
    pub fn resolution(&self, network_id: &str) -> (entry: Option<InterceptResolution>)
        ensures
            match entry {
                Some(resolution) => {
                    &&& self@.store.contains_key(network_id@)
                    &&& resolution@ == self@.store[network_id@]
                    &&& !resolution@.dispatch_ready()
                },
                None => !self@.store.contains_key(network_id@),
            },
            settled(self@.store),
    {
        proof {
            use_type_invariant(self);
        }
        self.resolutions.get(network_id)
    }

    /// Counts a received response and formats the line that reports it.
    pub fn on_response_received(&mut self, event: &ResponseReceived) -> (line: String)
        requires
            old(self)@.event_counter < u64::MAX,
        ensures
            final(self)@ == (DriverView {
                event_counter: (old(self)@.event_counter + 1) as u64,
                ..old(self)@
            }),
            line@ == response_line(
                final(self)@.event_counter as nat,
                event.url@,
                old(self)@.config.max_string_size,
            ),
    {
        proof {
            use_type_invariant(&*self);
        }
        self.event_counter = self.event_counter + 1;
        format_response_line(self.event_counter, event.url.as_str(), self.config.max_string_size())
    }

    /// Handles a pause event.
    pub fn on_request_paused(&mut self, event: &RequestPaused) -> (command: Option<Command>)
        ensures
            final(self)@ == (DriverView {
                store: paused_outcome(old(self)@.config, old(self)@.store, event).store,
                ..old(self)@
            }),
            command_view(command) == paused_outcome(
                old(self)@.config,
                old(self)@.store,
                event,
            ).command,
            settled(final(self)@.store),
    {
        proof {
            use_type_invariant(&*self);
        }
        if event.response_status_code.is_some() {
            return Some(forward(event.request_id.as_str()));
        }
        match &event.network_id {
            Some(network_id) => {
                let mut resolutions = ResolutionStore::new();
                std::mem::swap(&mut resolutions, &mut self.resolutions);
                let mut resolution = resolutions.upsert(network_id.as_str());
                resolution.request_id = Some(event.request_id.clone());
                if event.url == *self.config.target() {
                    resolution.action = InterceptAction::Fulfill;
                }
                resolutions.record(network_id.as_str(), resolution);
                assert(resolutions@ =~= old(self)@.store.insert(
                    network_id@,
                    paused_entry(old(self)@.config, entry_of(old(self)@.store, network_id@), event),
                ));
                let command = resolve(network_id.as_str(), &mut resolutions, &self.config);
                self.resolutions = resolutions;
                command
            },
            None => None,
        }
    }

    /// Handles the observation of a request.
    pub fn on_request_will_be_sent(&mut self, event: &RequestWillBeSent) -> (command: Option<
        Command,
    >)
        ensures
            final(self)@ == (DriverView {
                store: observed_outcome(old(self)@.config, old(self)@.store, event).store,
                ..old(self)@
            }),
            command_view(command) == observed_outcome(
                old(self)@.config,
                old(self)@.store,
                event,
            ).command,
            settled(final(self)@.store),
    {
        proof {
            use_type_invariant(&*self);
        }
        let mut resolutions = ResolutionStore::new();
        std::mem::swap(&mut resolutions, &mut self.resolutions);
        let mut resolution = resolutions.upsert(event.request_id.as_str());
        match resolution.action {
            InterceptAction::Pending => {
                resolution.action = classify(event);
            },
            _ => {},
        }
        resolutions.record(event.request_id.as_str(), resolution);
        assert(resolutions@ =~= old(self)@.store.insert(
            event.request_id@,
            observed_entry(entry_of(old(self)@.store, event.request_id@), event),
        ));
        let command = resolve(event.request_id.as_str(), &mut resolutions, &self.config);
        self.resolutions = resolutions;
        command
    }

    /// Handles one event of any stream: the step of the interception loop,
    /// from the state and the event to the next state and what to do.
    pub fn handle(&mut self, event: &InterceptEvent) -> (effect: Effect)
        requires
            event is ResponseReceived ==> old(self)@.event_counter < u64::MAX,
        ensures
            final(self)@.config == old(self)@.config,
            final(self)@.store == outcome(old(self)@.config, old(self)@.store, event).store,
            settled(final(self)@.store),
            match event {
                InterceptEvent::ResponseReceived(received) => {
                    &&& final(self)@.event_counter == old(self)@.event_counter + 1
                    &&& effect matches Effect::Log(line)
                    &&& line@ == response_line(
                        final(self)@.event_counter as nat,
                        received.url@,
                        old(self)@.config.max_string_size,
                    )
                },
                _ => {
                    &&& final(self)@.event_counter == old(self)@.event_counter
                    &&& effect_command(effect) == outcome(
                        old(self)@.config,
                        old(self)@.store,
                        event,
                    ).command
                    &&& effect is Dispatch || effect is Idle
                },
            },
    {
        proof {
            use_type_invariant(&*self);
        }
        match event {
            InterceptEvent::ResponseReceived(received) => Effect::Log(
                self.on_response_received(received),
            ),
            InterceptEvent::RequestPaused(paused) => Effect::from_command(
                self.on_request_paused(paused),
            ),
            InterceptEvent::RequestWillBeSent(observed) => Effect::from_command(
                self.on_request_will_be_sent(observed),
            ),
        }
    }
}

} // verus!
