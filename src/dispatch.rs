use vstd::prelude::*;

verus! {

/// Connection state of a channel, as the button service reports it.
#[derive(Clone, Copy, Debug, PartialEq, Eq, Structural)]
pub enum ConnectionState {
    Disconnected,
    Connected,
    Ready,
}

/// The kind of press that a button notification carries.
#[derive(Clone, Copy, Debug, PartialEq, Eq, Structural)]
pub enum ClickKind {
    ButtonDown,
    ButtonUp,
    ButtonClick,
    ButtonSingleClick,
    ButtonDoubleClick,
    ButtonHold,
}

/// A notification delivered by the button session, reduced to what the
/// dispatcher reads.
#[derive(Clone, Copy, Debug, PartialEq, Eq, Structural)]
pub enum Event {
    ConnectionStatusChanged { channel_id: u32, status: ConnectionState },
    ButtonClickOrHold { channel_id: u32, click: ClickKind, time_diff: i32, was_queued: bool },
    Other,
}

/// The one reaction chosen for an event.
#[derive(Clone, Copy, Debug, PartialEq, Eq, Structural)]
pub enum Reaction {
    /// The channel became ready: log it, touch nothing else.
    ReadyLog,
    /// A click: hand a toggle of the light to a separate task.
    Toggle,
    /// Everything else.
    Ignore,
}

pub open spec fn is_ready_event(e: Event) -> bool {
    match e {
        Event::ConnectionStatusChanged { status, .. } => status == ConnectionState::Ready,
        _ => false,
    }
}

pub open spec fn is_click_event(e: Event) -> bool {
    match e {
        Event::ButtonClickOrHold { click, .. } => click == ClickKind::ButtonClick,
        _ => false,
    }
}

/// The reaction that an event calls for, branches taken in priority order.
pub open spec fn reaction_of(e: Event) -> Reaction {
    if is_ready_event(e) {
        Reaction::ReadyLog
    } else if is_click_event(e) {
        Reaction::Toggle
    } else {
        Reaction::Ignore
    }
}

/// Classifies one event into exactly one reaction.
pub fn dispatch(e: &Event) -> (r: Reaction)
    ensures
        r == reaction_of(*e),
        r == Reaction::ReadyLog <==> is_ready_event(*e),
        r == Reaction::Toggle <==> is_click_event(*e),
        r == Reaction::Ignore <==> (!is_ready_event(*e) && !is_click_event(*e)),
{
    match e {
        Event::ConnectionStatusChanged { status: ConnectionState::Ready, .. } => Reaction::ReadyLog,
        Event::ButtonClickOrHold { click: ClickKind::ButtonClick, .. } => Reaction::Toggle,
        _ => Reaction::Ignore,
    }
}

/// Every event falls into exactly one of the three reactions: the ready log
/// when a channel turns ready, the toggle for a click, and nothing otherwise.
pub proof fn lemma_dispatch_total(e: Event)
    ensures
        (reaction_of(e) == Reaction::ReadyLog) as int + (reaction_of(e) == Reaction::Toggle) as int
            + (reaction_of(e) == Reaction::Ignore) as int == 1,
        reaction_of(e) == Reaction::ReadyLog <==> is_ready_event(e),
        reaction_of(e) == Reaction::Toggle <==> is_click_event(e),
        !(is_ready_event(e) && is_click_event(e)),
{
}

} // verus!
