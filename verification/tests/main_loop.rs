//! Tests of the event-loop driver over synthetic event sequences: when it
//! exits, how many events it dispatches, and how many redraw requests and
//! frames those events cause.

use ash_tutorial::events::ControlFlow;
use ash_tutorial::events::ElementState;
use ash_tutorial::events::Event;
use ash_tutorial::events::VirtualKey;
use ash_tutorial::platforms::Platform;
use ash_tutorial::vulkan_app::VulkanApp;

fn escape_press() -> Event {
    Event::KeyboardInput { virtual_key: Some(VirtualKey::Escape), state: ElementState::Pressed }
}

fn other_press() -> Event {
    Event::KeyboardInput { virtual_key: Some(VirtualKey::Other), state: ElementState::Pressed }
}

#[test]
fn close_event_at_end_exits() {
    let app = VulkanApp::new(Platform::Unix);
    let events = vec![
        Event::MainEventsCleared,
        Event::RedrawRequested,
        other_press(),
        Event::CloseRequested,
    ];
    let summary = app.main_loop(&events);
    assert_eq!(summary.control_flow, ControlFlow::Exit);
    assert_eq!(summary.processed, 4);
}

#[test]
fn escape_press_exits_despite_pending_events() {
    let app = VulkanApp::new(Platform::Unix);
    let events = vec![
        Event::MainEventsCleared,
        other_press(),
        escape_press(),
        Event::MainEventsCleared,
        Event::RedrawRequested,
    ];
    let summary = app.main_loop(&events);
    assert_eq!(summary.control_flow, ControlFlow::Exit);
    assert_eq!(summary.processed, 3);
}

#[test]
fn non_escape_keys_leave_continue() {
    let app = VulkanApp::new(Platform::Unix);
    let events = vec![
        other_press(),
        Event::KeyboardInput { virtual_key: None, state: ElementState::Pressed },
        Event::KeyboardInput {
            virtual_key: Some(VirtualKey::Escape),
            state: ElementState::Released,
        },
    ];
    let summary = app.main_loop(&events);
    assert_eq!(summary.control_flow, ControlFlow::Continue);
    assert_eq!(summary.processed, 3);
}

#[test]
fn main_events_cleared_requests_exactly_one_redraw() {
    let app = VulkanApp::new(Platform::Unix);
    let events = vec![Event::MainEventsCleared];
    let summary = app.main_loop(&events);
    assert_eq!(summary.control_flow, ControlFlow::Continue);
    assert_eq!(summary.redraws_requested, 1);
    assert_eq!(summary.frames_drawn, 0);
}

#[test]
fn each_main_events_cleared_requests_its_own_redraw() {
    let app = VulkanApp::new(Platform::Unix);
    let events = vec![
        Event::MainEventsCleared,
        Event::RedrawRequested,
        Event::MainEventsCleared,
        Event::RedrawRequested,
    ];
    let summary = app.main_loop(&events);
    assert_eq!(summary.redraws_requested, 2);
    assert_eq!(summary.frames_drawn, 2);
    assert_eq!(summary.processed, 4);
}

#[test]
fn empty_sequence_ends_with_continue() {
    let app = VulkanApp::new(Platform::Unix);
    let events: Vec<Event> = vec![];
    let summary = app.main_loop(&events);
    assert_eq!(summary.control_flow, ControlFlow::Continue);
    assert_eq!(summary.processed, 0);
    assert_eq!(summary.redraws_requested, 0);
    assert_eq!(summary.frames_drawn, 0);
}

#[test]
fn loop_stops_right_after_first_exit_event() {
    let app = VulkanApp::new(Platform::Unix);
    let events = vec![Event::CloseRequested, Event::MainEventsCleared, Event::RedrawRequested];
    let summary = app.main_loop(&events);
    assert_eq!(summary.control_flow, ControlFlow::Exit);
    assert_eq!(summary.processed, 1);
    assert_eq!(summary.redraws_requested, 0);
    assert_eq!(summary.frames_drawn, 0);
}
