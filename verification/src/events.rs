//! The event model of the window loop: a flat tagged union of the event
//! kinds the driver reacts to, the two-valued control flag, and the pure
//! dispatch that maps one event to the next flag value and an action.

use vstd::prelude::*;

verus! {

/// The virtual key carried by a keyboard event. Only Escape is ever
/// distinguished by the dispatch; every other key behaves alike.
#[derive(Clone, Copy, PartialEq, Eq, Structural, Debug)]
pub enum VirtualKey {
    Escape,
    Other,
}

/// Whether a keyboard event reports the key going down or up.
#[derive(Clone, Copy, PartialEq, Eq, Structural, Debug)]
pub enum ElementState {
    Pressed,
    Released,
}

/// One event handed to the driver. `KeyboardInput` carries `None` when the
/// platform could not name the key.
#[derive(Clone, Copy, Debug)]
pub enum Event {
    CloseRequested,
    KeyboardInput { virtual_key: Option<VirtualKey>, state: ElementState },
    MainEventsCleared,
    RedrawRequested,
    Other,
}

/// The control flag read by the event loop each iteration: keep going, or
/// leave the loop.
#[derive(Clone, Copy, PartialEq, Eq, Structural, Debug)]
pub enum ControlFlow {
    Continue,
    Exit,
}

/// What the loop must do after dispatching one event.
#[derive(Clone, Copy, PartialEq, Eq, Structural, Debug)]
pub enum Action {
    Ignore,
    RequestRedraw,
    DrawFrame,
}

/// An event that demands exit: a close request, or Escape going down.
pub open spec fn is_exit_event(e: Event) -> bool {
    match e {
        Event::CloseRequested => true,
        Event::KeyboardInput { virtual_key, state } => {
            virtual_key == Some(VirtualKey::Escape) && state == ElementState::Pressed
        },
        _ => false,
    }
}

/// The control flag after dispatching `e` when the flag was `flow`: exit
/// events force `Exit`, everything else leaves the flag alone.
pub open spec fn flow_after(e: Event, flow: ControlFlow) -> ControlFlow {
    if is_exit_event(e) {
        ControlFlow::Exit
    } else {
        flow
    }
}

/// The action a dispatched event asks of the loop: a redraw request when the
/// main events are cleared, a frame draw when a redraw was requested, and
/// nothing otherwise.
pub open spec fn action_for(e: Event) -> Action {
    match e {
        Event::MainEventsCleared => Action::RequestRedraw,
        Event::RedrawRequested => Action::DrawFrame,
        _ => Action::Ignore,
    }
}

/// Whether some event in the sequence demands exit.
pub open spec fn has_exit_event(s: Seq<Event>) -> bool {
    exists|i: int| 0 <= i < s.len() && is_exit_event(#[trigger] s[i])
}

/// How many events of the sequence ask for a redraw request: one for each
/// "main events cleared" notification, no more and no fewer.
pub open spec fn count_redraw_requests(s: Seq<Event>) -> nat
    decreases s.len(),
{
    if s.len() == 0 {
        0
    } else {
        count_redraw_requests(s.drop_last()) + (if s.last() is MainEventsCleared {
            1nat
        } else {
            0nat
        })
    }
}

/// How many events of the sequence ask for a frame to be drawn: one for
/// each redraw-requested notification.
pub open spec fn count_frames_drawn(s: Seq<Event>) -> nat
    decreases s.len(),
{
    if s.len() == 0 {
        0
    } else {
        count_frames_drawn(s.drop_last()) + (if s.last() is RedrawRequested {
            1nat
        } else {
            0nat
        })
    }
}

/// Appending one event raises the redraw-request count by one exactly when
/// that event is a "main events cleared" notification.
pub proof fn lemma_count_redraw_requests_push(s: Seq<Event>, e: Event)
    ensures
        count_redraw_requests(s.push(e)) == count_redraw_requests(s) + (if e
            is MainEventsCleared {
            1nat
        } else {
            0nat
        }),
{
    assert(s.push(e).drop_last() =~= s);
    assert(s.push(e).last() == e);
}

/// Appending one event raises the frames-drawn count by one exactly when
/// that event is a redraw-requested notification.
pub proof fn lemma_count_frames_drawn_push(s: Seq<Event>, e: Event)
    ensures
        count_frames_drawn(s.push(e)) == count_frames_drawn(s) + (if e is RedrawRequested {
            1nat
        } else {
            0nat
        }),
{
    assert(s.push(e).drop_last() =~= s);
    assert(s.push(e).last() == e);
}

/// A sequence that ends in a close request contains an exit event, so a
/// driver whose final flag tracks `has_exit_event` must report exit.
pub proof fn lemma_close_request_forces_exit(events: Seq<Event>)
    requires
        events.len() > 0,
        events.last() is CloseRequested,
    ensures
        has_exit_event(events),
{
    assert(is_exit_event(events[events.len() - 1]));
}

/// A sequence holding a key press of Escape anywhere contains an exit
/// event, whatever else stands around it.
pub proof fn lemma_escape_press_forces_exit(events: Seq<Event>, i: int)
    requires
        0 <= i < events.len(),
        events[i] matches Event::KeyboardInput { virtual_key, state } && virtual_key == Some(
            VirtualKey::Escape,
        ) && state == ElementState::Pressed,
    ensures
        has_exit_event(events),
{
    assert(is_exit_event(events[i]));
}

/// Dispatch one event: update the control flag and report the action the
/// loop must take. A key press of anything but Escape, a key release, and
/// any unrecognised event leave the flag unchanged and ask for nothing.
pub fn handle_event(event: Event, control_flow: &mut ControlFlow) -> (action: Action)
    ensures
        *final(control_flow) == flow_after(event, *old(control_flow)),
        action == action_for(event),
{
    match event {
        Event::CloseRequested => {
            *control_flow = ControlFlow::Exit;
            Action::Ignore
        },
        Event::KeyboardInput { virtual_key, state } => {
            match (virtual_key, state) {
                (Some(VirtualKey::Escape), ElementState::Pressed) => {
                    *control_flow = ControlFlow::Exit;
                },
                _ => {},
            }
            Action::Ignore
        },
        Event::MainEventsCleared => Action::RequestRedraw,
        Event::RedrawRequested => Action::DrawFrame,
        Event::Other => Action::Ignore,
    }
}

} // verus!
