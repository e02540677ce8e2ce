//! What holds of the resolution engine over all events, stores and traces.

use vstd::prelude::*;
use crate::command::{command_for, fulfill_body, CommandView};
use crate::config::ConfigView;
use crate::driver::{outcome, paused_outcome, resolved, settled, Outcome};
use crate::event::{InterceptEvent, RequestPaused, RequestWillBeSent, ResourceType};
use crate::policy::observed_action;
use crate::resolution::{InterceptAction, ResolutionView};
use crate::store::StoreView;

verus! {

/// The correlation key of the request that an event is about. A received
/// response and a pause at the response stage are about no stored request.
pub open spec fn event_key(event: &InterceptEvent) -> Option<Seq<char>> {
    match event {
        InterceptEvent::ResponseReceived(_) => None,
        InterceptEvent::RequestPaused(paused) => paused.key(),
        InterceptEvent::RequestWillBeSent(observed) => Some(observed.request_id@),
    }
}

/// The store after the events of a trace were handled in order.
pub open spec fn store_after(
    config: ConfigView,
    store: StoreView,
    events: Seq<InterceptEvent>,
) -> StoreView
    decreases events.len(),
{
    if events.len() == 0 {
        store
    } else {
        outcome(config, store_after(config, store, events.drop_last()), &events.last()).store
    }
}

/// The command that the event at `index` of a trace gives rise to.
pub open spec fn command_at(
    config: ConfigView,
    store: StoreView,
    events: Seq<InterceptEvent>,
    index: int,
) -> Option<CommandView> {
    outcome(config, store_after(config, store, events.take(index)), &events[index]).command
}

/// One if the last event of a trace is about `key` and dispatches a command,
/// else zero.
pub open spec fn last_dispatch_for(
    config: ConfigView,
    store: StoreView,
    events: Seq<InterceptEvent>,
    key: Seq<char>,
) -> nat
    recommends
        events.len() > 0,
{
    let before = store_after(config, store, events.drop_last());
    if event_key(&events.last()) == Some(key) && outcome(
        config,
        before,
        &events.last(),
    ).command is Some {
        1
    } else {
        0
    }
}

/// The number of commands that the events about `key` give rise to in a trace.
pub open spec fn dispatches_for(
    config: ConfigView,
    store: StoreView,
    events: Seq<InterceptEvent>,
    key: Seq<char>,
) -> nat
    decreases events.len(),
{
    if events.len() == 0 {
        0
    } else {
        dispatches_for(config, store, events.drop_last(), key) + last_dispatch_for(
            config,
            store,
            events,
            key,
        )
    }
}

/// Whether an event is a pause of the request `key` at the request stage.
pub open spec fn pauses(event: &InterceptEvent, key: Seq<char>) -> bool {
    event is RequestPaused && event_key(event) == Some(key)
}

/// The number of pauses of the request `key` at the request stage in a trace.
pub open spec fn pauses_for(events: Seq<InterceptEvent>, key: Seq<char>) -> nat
    decreases events.len(),
{
    if events.len() == 0 {
        0
    } else if pauses(&events.last(), key) {
        pauses_for(events.drop_last(), key) + 1
    } else {
        pauses_for(events.drop_last(), key)
    }
}

/// The number of handles that the store holds for `key`: one or none.
pub open spec fn handles_held(store: StoreView, key: Seq<char>) -> nat {
    if store.contains_key(key) && store[key].request_id is Some {
        1
    } else {
        0
    }
}

/// The trace mentions the request `key` exactly twice: its pause at the
/// request stage, at `paused_at`, and its observation, at `observed_at`.
pub open spec fn mentions_once_each(
    events: Seq<InterceptEvent>,
    key: Seq<char>,
    paused_at: int,
    observed_at: int,
) -> bool {
    &&& 0 <= paused_at < events.len()
    &&& 0 <= observed_at < events.len()
    &&& events[paused_at] is RequestPaused
    &&& events[observed_at] is RequestWillBeSent
    &&& forall|i: int|
        0 <= i < events.len() ==> (event_key(&#[trigger] events[i]) == Some(key) <==> i
            == paused_at || i == observed_at)
}

/// The command that answers a request paused by `paused` and observed by
/// `observed`: it carries the handle of the pause, and fulfills a request to
/// the sentinel target, else does what the observation decides.
pub open spec fn answer(
    config: ConfigView,
    paused: &RequestPaused,
    observed: &RequestWillBeSent,
) -> Option<CommandView> {
    command_for(
        config,
        if paused.url@ == config.target {
            InterceptAction::Fulfill
        } else {
            observed_action(observed)
        },
        paused.request_id@,
    )
}

/// The place at which a request paused at `paused_at` and observed at
/// `observed_at` is answered: at its pause when that goes to the sentinel
/// target, else at the later of the two.
pub open spec fn answered_at(
    config: ConfigView,
    paused: &RequestPaused,
    paused_at: int,
    observed_at: int,
) -> int {
    if paused.url@ == config.target || observed_at < paused_at {
        paused_at
    } else {
        observed_at
    }
}

/// The observation of a navigation decides to abort, and the observation of
/// anything else decides to forward.
pub proof fn lemma_navigation_classification(event: &RequestWillBeSent)
    ensures
        observed_action(event) == if event.request_id@ == event.loader_id@ && event.resource_type
            == Some(ResourceType::Document) {
            InterceptAction::Abort
        } else {
            InterceptAction::Forward
        },
{
}

/// A pause at the request stage of a request to the sentinel target is
/// fulfilled at once, whatever was decided for the request before, and the
/// request leaves the store.
pub proof fn lemma_sentinel_override(config: ConfigView, store: StoreView, event: &RequestPaused)
    requires
        !event.at_response_stage(),
        event.network_id is Some,
        event.url@ == config.target,
    ensures
        paused_outcome(config, store, event).command == Some(
            CommandView::FulfillRequest {
                request_id: event.request_id@,
                response_code: config.response_code,
                body: fulfill_body(config),
            },
        ),
        paused_outcome(config, store, event).store == store.remove(event.network_id->0@),
{
}

/// A pause at the response stage is forwarded at once under the event's
/// handle, and the store stays as it was.
pub proof fn lemma_response_stage_bypass(
    config: ConfigView,
    store: StoreView,
    event: &RequestPaused,
)
    requires
        event.at_response_stage(),
    ensures
        paused_outcome(config, store, event) == (Outcome {
            store,
            command: Some(CommandView::ContinueRequest { request_id: event.request_id@ }),
        }),
{
}

/// A resolution without a handle is never dispatched: resolving it changes
/// nothing.
pub proof fn lemma_no_dispatch_without_handle(
    config: ConfigView,
    store: StoreView,
    key: Seq<char>,
)
    requires
        store.contains_key(key),
        store[key].request_id is None,
    ensures
        resolved(config, store, key) == (Outcome { store, command: None }),
{
}

/// A decided resolution that lacks its handle stays in the store, decision
/// unchanged, until a pause of its request arrives; meanwhile no event about
/// the request dispatches anything.
pub proof fn lemma_decision_awaits_handle(
    config: ConfigView,
    store: StoreView,
    event: &InterceptEvent,
    key: Seq<char>,
)
    requires
        store.contains_key(key),
        store[key].action != InterceptAction::Pending,
        store[key].request_id is None,
        !pauses(event, key),
    ensures
        outcome(config, store, event).store.contains_key(key),
        outcome(config, store, event).store[key] == store[key],
        event_key(event) == Some(key) ==> outcome(config, store, event).command is None,
{
}

/// The first decision stands: when the pause of a decided request arrives,
/// the command carries out what was decided, under the handle of the pause;
/// only a request to the sentinel target is fulfilled instead.
pub proof fn lemma_first_decision_stands(
    config: ConfigView,
    store: StoreView,
    event: &RequestPaused,
    key: Seq<char>,
)
    requires
        store.contains_key(key),
        store[key].action != InterceptAction::Pending,
        event.key() == Some(key),
    ensures
        paused_outcome(config, store, event).command == command_for(
            config,
            if event.url@ == config.target {
                InterceptAction::Fulfill
            } else {
                store[key].action
            },
            event.request_id@,
        ),
        paused_outcome(config, store, event).command is Some,
        !paused_outcome(config, store, event).store.contains_key(key),
{
}

/// Every command answers a request under a handle that a pause brought: the
/// handle of the pause being handled, or the one recorded in the store for
/// the observed request.
pub proof fn lemma_command_carries_handle(
    config: ConfigView,
    store: StoreView,
    event: &InterceptEvent,
)
    requires
        outcome(config, store, event).command is Some,
    ensures
        match event {
            InterceptEvent::RequestPaused(paused) => {
                outcome(config, store, event).command->0.request_id() == paused.request_id@
            },
            InterceptEvent::RequestWillBeSent(observed) => {
                &&& store.contains_key(observed.request_id@)
                &&& store[observed.request_id@].request_id == Some(
                    outcome(config, store, event).command->0.request_id(),
                )
            },
            InterceptEvent::ResponseReceived(_) => false,
        },
{
}

/// The entry of a request leaves the store in the very step that dispatches
/// its command.
pub proof fn lemma_dispatch_removes_entry(
    config: ConfigView,
    store: StoreView,
    event: &InterceptEvent,
    key: Seq<char>,
)
    requires
        event_key(event) == Some(key),
        outcome(config, store, event).command is Some,
    ensures
        !outcome(config, store, event).store.contains_key(key),
{
}

/// An event leaves the entries of all requests but its own as they are.
pub proof fn lemma_other_requests_untouched(
    config: ConfigView,
    store: StoreView,
    event: &InterceptEvent,
    key: Seq<char>,
)
    requires
        event_key(event) != Some(key),
    ensures
        outcome(config, store, event).store.contains_key(key) == store.contains_key(key),
        store.contains_key(key) ==> outcome(config, store, event).store[key] == store[key],
{
}

/// Handling an event keeps a settled store settled: whatever becomes ready
/// for dispatch leaves the store in the same step.
pub proof fn lemma_outcome_settled(config: ConfigView, store: StoreView, event: &InterceptEvent)
    requires
        settled(store),
    ensures
        settled(outcome(config, store, event).store),
{
}

/// A settled store stays settled over any trace of events: to be in the store
/// is to await the decision or the handle.
pub proof fn lemma_trace_settled(
    config: ConfigView,
    store: StoreView,
    events: Seq<InterceptEvent>,
)
    requires
        settled(store),
    ensures
        settled(store_after(config, store, events)),
    decreases events.len(),
{
    if events.len() > 0 {
        lemma_trace_settled(config, store, events.drop_last());
    }
}

/// At most one dispatch per pause: over any trace, whatever is repeated or
/// reordered in it, the events about a request dispatch no more commands
/// than the trace holds pauses of the request at the request stage, and one
/// more at most where the store began with a handle for it. A handle still
/// held at the end counts as a command yet to come.
pub proof fn lemma_at_most_one_dispatch_per_pause(
    config: ConfigView,
    store: StoreView,
    events: Seq<InterceptEvent>,
    key: Seq<char>,
)
    ensures
        dispatches_for(config, store, events, key) + handles_held(
            store_after(config, store, events),
            key,
        ) <= pauses_for(events, key) + handles_held(store, key),
    decreases events.len(),
{
    if events.len() > 0 {
        lemma_at_most_one_dispatch_per_pause(config, store, events.drop_last(), key);
    }
}

/// Where the request `key` stands after the first `count` events of a trace
/// that mentions it once each way.
spec fn progress(
    config: ConfigView,
    store: StoreView,
    events: Seq<InterceptEvent>,
    key: Seq<char>,
    paused_at: int,
    observed_at: int,
    count: int,
) -> bool {
    let now = store_after(config, store, events.take(count));
    let dispatched = dispatches_for(config, store, events.take(count), key);
    let paused = events[paused_at]->RequestPaused_0;
    let observed = events[observed_at]->RequestWillBeSent_0;
    let decided = ResolutionView { action: observed_action(&observed), request_id: None };
    let waiting = ResolutionView {
        action: InterceptAction::Pending,
        request_id: Some(paused.request_id@),
    };
    let sentinel = paused.url@ == config.target;
    if paused_at < count && observed_at < count {
        &&& dispatched == 1
        &&& if sentinel && paused_at < observed_at {
            now.contains_key(key) && now[key] == decided
        } else {
            !now.contains_key(key)
        }
    } else if paused_at < count {
        if sentinel {
            dispatched == 1 && !now.contains_key(key)
        } else {
            dispatched == 0 && now.contains_key(key) && now[key] == waiting
        }
    } else if observed_at < count {
        dispatched == 0 && now.contains_key(key) && now[key] == decided
    } else {
        dispatched == 0 && !now.contains_key(key)
    }
}

proof fn lemma_progress(
    config: ConfigView,
    store: StoreView,
    events: Seq<InterceptEvent>,
    key: Seq<char>,
    paused_at: int,
    observed_at: int,
    count: int,
)
    requires
        !store.contains_key(key),
        mentions_once_each(events, key, paused_at, observed_at),
        0 <= count <= events.len(),
    ensures
        progress(config, store, events, key, paused_at, observed_at, count),
        ({
            let paused = events[paused_at]->RequestPaused_0;
            let observed = events[observed_at]->RequestWillBeSent_0;
            let answered = answered_at(config, &paused, paused_at, observed_at);
            &&& answered < count ==> command_at(config, store, events, answered) == answer(
                config,
                &paused,
                &observed,
            )
            &&& paused_at < count && paused_at != answered ==> command_at(
                config,
                store,
                events,
                paused_at,
            ) is None
            &&& observed_at < count && observed_at != answered ==> command_at(
                config,
                store,
                events,
                observed_at,
            ) is None
        }),
    decreases count,
{
    if count > 0 {
        let at = count - 1;
        lemma_progress(config, store, events, key, paused_at, observed_at, at);
        assert(events.take(count).drop_last() =~= events.take(at));
    }
}

/// Exactly one dispatch per request: in any trace in which a request unknown
/// to the store is paused once at the request stage, observed once and not
/// otherwise mentioned, in either order and with any events about other
/// requests in between, the events about the request give rise to exactly
/// one command. It is dispatched at the pause when the request goes to the
/// sentinel target, else at the later of the two events; it carries the
/// handle of the pause; the other event about the request dispatches
/// nothing; and no handle of the request is left in the store.
pub proof fn lemma_exactly_one_dispatch(
    config: ConfigView,
    store: StoreView,
    events: Seq<InterceptEvent>,
    key: Seq<char>,
    paused_at: int,
    observed_at: int,
)
    requires
        !store.contains_key(key),
        mentions_once_each(events, key, paused_at, observed_at),
    ensures
        dispatches_for(config, store, events, key) == 1,
        handles_held(store_after(config, store, events), key) == 0,
        ({
            let paused = events[paused_at]->RequestPaused_0;
            let observed = events[observed_at]->RequestWillBeSent_0;
            let answered = answered_at(config, &paused, paused_at, observed_at);
            &&& answered == paused_at || answered == observed_at
            &&& answer(config, &paused, &observed) is Some
            &&& command_at(config, store, events, answered) == answer(config, &paused, &observed)
            &&& paused_at != answered ==> command_at(config, store, events, paused_at) is None
            &&& observed_at != answered ==> command_at(config, store, events, observed_at) is None
        }),
{
    lemma_progress(config, store, events, key, paused_at, observed_at, events.len() as int);
    assert(events.take(events.len() as int) =~= events);
}

} // verus!
