use crate::events::Event;
use crate::render::{body_text, handle_event, summary_text, Notification};
use vstd::prelude::*;

verus! {

/// Where the dispatcher stands in its cycle.
#[derive(Clone, Copy, Debug, PartialEq, Eq, Structural)]
pub enum DispatcherState {
    /// Waiting for the next event of the bus.
    Receiving,
    /// The alert for this event is with the notifier.
    Notifying(Event),
    /// The bus is closed and drained: the dispatcher has ended.
    Finished,
}

/// What happened outside since the last step.
#[derive(Clone, Copy, Debug, PartialEq, Eq, Structural)]
pub enum DispatcherInput {
    /// The bus handed out an event.
    Received(Event),
    /// The notifier showed the alert.
    Delivered,
    /// The notifier failed to show the alert.
    DeliveryFailed,
    /// The bus is closed and holds nothing more.
    BusClosed,
}

/// What the driver of the dispatcher has to do next.
#[derive(Clone, Debug)]
pub enum DispatcherAction {
    /// Take the next event from the bus, waiting while it is empty.
    Receive,
    /// Show the alert with the notifier and report whether that worked.
    Notify(Notification),
    /// End the task.
    Exit,
}

/// The transition function. A failed delivery leads where a successful one
/// does. An input that the state does not await leaves the state as it is.
pub open spec fn spec_dispatcher_next(state: DispatcherState, input: DispatcherInput) -> DispatcherState {
    match (state, input) {
        (DispatcherState::Receiving, DispatcherInput::Received(event)) => DispatcherState::Notifying(event),
        (DispatcherState::Receiving, DispatcherInput::BusClosed) => DispatcherState::Finished,
        (DispatcherState::Notifying(_), DispatcherInput::Delivered) => DispatcherState::Receiving,
        (DispatcherState::Notifying(_), DispatcherInput::DeliveryFailed) => DispatcherState::Receiving,
        _ => state,
    }
}

/// Whether an action is the one that a state asks for.
pub open spec fn is_action_of(action: DispatcherAction, state: DispatcherState) -> bool {
    match state {
        DispatcherState::Receiving => action is Receive,
        DispatcherState::Notifying(event) => match action {
            DispatcherAction::Notify(notification) => {
                &&& notification.summary@ == summary_text(event)
                &&& notification.body@ == body_text(event)
            },
            _ => false,
        },
        DispatcherState::Finished => action is Exit,
    }
}

#[verifier::when_used_as_spec(spec_dispatcher_next)]
pub fn dispatcher_next(state: DispatcherState, input: DispatcherInput) -> (r: DispatcherState)
    ensures
        r == spec_dispatcher_next(state, input),
{
    match state {
        DispatcherState::Receiving => match input {
            DispatcherInput::Received(event) => DispatcherState::Notifying(event),
            DispatcherInput::BusClosed => DispatcherState::Finished,
            _ => state,
        },
        DispatcherState::Notifying(_) => match input {
            DispatcherInput::Delivered | DispatcherInput::DeliveryFailed => DispatcherState::Receiving,
            _ => state,
        },
        DispatcherState::Finished => state,
    }
}

/// What a state asks of the driver. For an event it is the rendered alert.
pub fn dispatcher_action(state: DispatcherState) -> (r: DispatcherAction)
    ensures
        is_action_of(r, state),
{
    match state {
        DispatcherState::Receiving => DispatcherAction::Receive,
        DispatcherState::Notifying(event) => DispatcherAction::Notify(handle_event(event)),
        DispatcherState::Finished => DispatcherAction::Exit,
    }
}

/// One turn of the dispatcher: the state after the input, and what to do in
/// that state.
pub fn dispatcher_step(state: DispatcherState, input: DispatcherInput) -> (r: (
    DispatcherState,
    DispatcherAction,
))
    ensures
        r.0 == spec_dispatcher_next(state, input),
        is_action_of(r.1, spec_dispatcher_next(state, input)),
{
    let following = dispatcher_next(state, input);
    (following, dispatcher_action(following))
}

/// A failed delivery does not hold up the next event: after it the
/// dispatcher receives again, exactly as after a successful delivery, and
/// the event that follows is rendered.
pub proof fn lemma_failed_delivery_does_not_block(failed: Event, following: Event)
    ensures
        spec_dispatcher_next(DispatcherState::Notifying(failed), DispatcherInput::DeliveryFailed)
            == DispatcherState::Receiving,
        spec_dispatcher_next(DispatcherState::Notifying(failed), DispatcherInput::DeliveryFailed)
            == spec_dispatcher_next(DispatcherState::Notifying(failed), DispatcherInput::Delivered),
        spec_dispatcher_next(
            spec_dispatcher_next(DispatcherState::Notifying(failed), DispatcherInput::DeliveryFailed),
            DispatcherInput::Received(following),
        ) == DispatcherState::Notifying(following),
{
}

/// Only the end of the bus ends the dispatcher.
pub proof fn lemma_dispatcher_ends_only_on_closed_bus(state: DispatcherState, input: DispatcherInput)
    ensures
        spec_dispatcher_next(state, input) is Finished <==> (state is Finished || (state is Receiving
            && input is BusClosed)),
{
}

} // verus!
