//! Tests for the session orchestrator's frame and the application state
//! machine.

use session_core::biome::BiomeKind;
use session_core::client::{Client, ServerMsg, TransportOutcome};
use session_core::error::Error;
use session_core::hud;
use session_core::key_state::DirVec;
use session_core::menu;
use session_core::playstate::{PlayStateResult, StateId, StateStack};
use session_core::session::SessionState;
use session_core::window::{Event, Key};

fn fresh_session() -> SessionState {
    SessionState::new(Client::new())
}

fn quiet() -> TransportOutcome {
    TransportOutcome::Received(Vec::new())
}

fn msg(seq: u64, chat: &str) -> ServerMsg {
    ServerMsg { seq, chat: String::from(chat) }
}

#[test]
fn tick_dispatches_events_to_hud_in_order() {
    let mut s = fresh_session();
    let batch = vec![msg(1, "A"), msg(2, "B"), msg(3, "C")];
    s.tick(16, TransportOutcome::Received(batch)).unwrap();
    assert_eq!(
        s.hud.messages,
        vec![String::from("A"), String::from("B"), String::from("C")]
    );
}

#[test]
fn close_mid_frame_shuts_down_and_skips_the_rest() {
    let mut s = fresh_session();
    let events = vec![
        Event::KeyDown(Key::MoveForward),
        Event::Close,
        Event::KeyDown(Key::MoveBack),
    ];
    let captured = vec![false, false, false];
    let out = s.frame(events, captured, 16, quiet(), Vec::new());
    assert_eq!(out.result, Some(PlayStateResult::Shutdown));
    assert!(!out.rendered);
    // Events before the close were processed, those after were not.
    assert!(s.key_state.up);
    assert!(!s.key_state.down);
    // The network tick never ran.
    assert!(s.client.last_sent().is_none());
}

#[test]
fn hud_captured_close_does_not_exit() {
    let mut s = fresh_session();
    let out = s.frame(vec![Event::Close], vec![true], 16, quiet(), Vec::new());
    assert_eq!(out.result, None);
    assert!(out.rendered);
}

#[test]
fn movement_edges_feed_the_aggregator() {
    let mut s = fresh_session();
    let events = vec![
        Event::KeyDown(Key::MoveRight),
        Event::KeyDown(Key::MoveForward),
        Event::KeyUp(Key::MoveForward),
    ];
    let captured = vec![false, false, false];
    let out = s.frame(events, captured, 16, quiet(), Vec::new());
    assert_eq!(out.result, None);
    assert_eq!(s.key_state.dir_vec(), DirVec { x: 1, y: 0 });
    // The tick transmitted the aggregated direction.
    let packet = s.client.last_sent().as_ref().unwrap();
    assert_eq!(packet.move_dir, DirVec { x: 1, y: 0 });
}

#[test]
fn unrecognised_events_go_to_the_scene_in_order() {
    let mut s = fresh_session();
    let events = vec![
        Event::CursorMove(3, 4),
        Event::KeyDown(Key::ToggleCursor),
        Event::Resize(800, 600),
        Event::KeyUp(Key::ToggleCursor),
    ];
    let captured = vec![false, false, false, false];
    let out = s.frame(events, captured, 16, quiet(), Vec::new());
    assert_eq!(
        out.scene_events,
        vec![
            Event::CursorMove(3, 4),
            Event::Resize(800, 600),
            Event::KeyUp(Key::ToggleCursor),
        ]
    );
    assert_eq!(out.grab_toggles, 1);
}

#[test]
fn session_failure_pops_with_the_classified_error() {
    let mut s = fresh_session();
    let out = s.frame(Vec::new(), Vec::new(), 16, TransportOutcome::Timeout, Vec::new());
    assert_eq!(out.result, Some(PlayStateResult::Pop));
    assert_eq!(out.session_error, Some(Error::ServerTimeout));
    assert!(!out.rendered);
}

#[test]
fn hud_logout_pops_and_skips_render() {
    let mut s = fresh_session();
    let hud_events = vec![hud::Event::Logout, hud::Event::SendMessage(String::from("late"))];
    let out = s.frame(Vec::new(), Vec::new(), 16, quiet(), hud_events);
    assert_eq!(out.result, Some(PlayStateResult::Pop));
    assert!(!out.rendered);
    // The event after the logout was never processed.
    assert!(s.client.pending_chat.is_empty());
}

#[test]
fn hud_quit_shuts_down() {
    let mut s = fresh_session();
    let out = s.frame(Vec::new(), Vec::new(), 16, quiet(), vec![hud::Event::Quit]);
    assert_eq!(out.result, Some(PlayStateResult::Shutdown));
    assert!(!out.rendered);
}

#[test]
fn sent_message_is_transmitted_by_the_next_tick() {
    let mut s = fresh_session();
    // The HUD emits a chat submission during one full frame...
    let hud_events = vec![hud::Event::SendMessage(String::from("hello"))];
    let out = s.frame(Vec::new(), Vec::new(), 16, quiet(), hud_events);
    assert_eq!(out.result, None);
    s.cleanup();
    // ...and the next frame's tick sends it.
    let out2 = s.frame(Vec::new(), Vec::new(), 16, quiet(), Vec::new());
    assert_eq!(out2.result, None);
    let packet = s.client.last_sent().as_ref().unwrap();
    assert_eq!(packet.chat, vec![String::from("hello")]);
}

#[test]
fn full_frame_renders_and_cleanup_flushes() {
    let mut s = fresh_session();
    let out = s.frame(Vec::new(), Vec::new(), 16, quiet(), Vec::new());
    assert!(out.rendered);
    assert!(s.client.last_sent().is_some());
    s.cleanup();
    assert!(s.client.last_sent().is_none());
}

#[test]
fn child_pop_resumes_root_without_new_setup() {
    let mut m = StateStack::new(StateId::MainMenu);
    let before = m.stack.clone();
    m.push(StateId::Session);
    assert_eq!(m.current(), StateId::Session);
    m.apply(PlayStateResult::Pop);
    assert!(m.is_running());
    assert_eq!(m.current(), StateId::MainMenu);
    // The stack is exactly what it was before the push.
    assert_eq!(m.stack, before);
}

#[test]
fn root_shutdown_leaves_no_state_to_run() {
    let mut m = StateStack::new(StateId::MainMenu);
    m.push(StateId::CharSelection);
    m.apply(PlayStateResult::Shutdown);
    assert!(!m.is_running());
}

#[test]
fn switch_replaces_the_live_state() {
    let mut m = StateStack::new(StateId::MainMenu);
    m.push(StateId::CharSelection);
    m.apply(menu::transition(menu::Event::Play));
    assert_eq!(m.current(), StateId::Session);
    // The parent beneath is untouched.
    m.apply(PlayStateResult::Pop);
    assert_eq!(m.current(), StateId::MainMenu);
}

#[test]
fn menu_logout_pops() {
    assert_eq!(menu::transition(menu::Event::Logout), PlayStateResult::Pop);
}

#[test]
fn continue_keeps_the_stack() {
    let mut m = StateStack::new(StateId::Session);
    m.apply(PlayStateResult::Continue);
    assert!(m.is_running());
    assert_eq!(m.current(), StateId::Session);
}

#[test]
fn state_names_are_stable() {
    assert_eq!(fresh_session().name(), "Session");
    assert_eq!(StateId::Session.name(), "Session");
    assert_eq!(StateId::MainMenu.name(), "Main Menu");
    assert_eq!(StateId::CharSelection.name(), "Character Selection");
}

#[test]
fn biome_kinds_are_distinct_values() {
    let kinds = [
        BiomeKind::Void,
        BiomeKind::Grassland,
        BiomeKind::Ocean,
        BiomeKind::Mountain,
        BiomeKind::Snowlands,
        BiomeKind::Desert,
        BiomeKind::Swamp,
        BiomeKind::Forest,
    ];
    for (i, a) in kinds.iter().enumerate() {
        for (j, b) in kinds.iter().enumerate() {
            assert_eq!(a == b, i == j);
        }
    }
}
