//! The session orchestrator.
//!
//! [`SessionState`] composes the pacer, the input aggregator, the network
//! session and two external collaborators (scene and HUD) into one frame
//! of the inner loop. Per frame it routes the host's window events, ticks
//! the network session with the aggregated input, dispatches every
//! returned session event to the HUD in order, processes the events the
//! HUD emitted, and decides whether the frame reaches the render step or
//! the inner loop exits with a [`PlayStateResult`].
//!
//! The host performs the outside work around [`SessionState::frame`]: it
//! pumps the window, asks the HUD which events it captures, exchanges
//! packets on the transport, renders, swaps buffers and paces the loop
//! with the [`crate::clock::Clock`].

use vstd::prelude::*;

use crate::client::{
    chats_of, events_of, last_seq, msgs_ordered, outgoing_packet, Client, Input, TransportOutcome,
};
use crate::error::Error;
use crate::hud;
use crate::hud::Hud;
use crate::key_state::{Direction, KeyState};
use crate::playstate::PlayStateResult;
use crate::window;
use crate::window::Key;

verus! {

/// An active play session: the state the orchestrator owns exclusively.
/// The scene and the HUD's widgets are external collaborators; only the
/// HUD's message list is modelled here, because the dispatch contract
/// speaks about it.
pub struct SessionState {
    pub key_state: KeyState,
    pub client: Client,
    pub hud: Hud,
}

/// Where the orchestrator routed one window event.
#[derive(Clone, Copy, Debug, PartialEq, Eq, Structural)]
pub enum EventRoute {
    /// The HUD claimed the event; nothing else sees it.
    Captured,
    /// A close request: the inner loop exits with `Shutdown`.
    Exit,
    /// The host should toggle cursor capture.
    ToggleCursor,
    /// A movement key edge, folded into the input aggregator.
    Movement,
    /// Anything else is forwarded to the scene collaborator.
    ToScene(window::Event),
}

/// The aggregator state after one uncaptured window event: movement key
/// edges update their flag, everything else leaves the keys alone.
pub open spec fn key_update(ks: KeyState, e: window::Event) -> KeyState {
    match e {
        window::Event::KeyDown(Key::MoveForward) => ks.with_set(Direction::Forward, true),
        window::Event::KeyDown(Key::MoveBack) => ks.with_set(Direction::Back, true),
        window::Event::KeyDown(Key::MoveLeft) => ks.with_set(Direction::Left, true),
        window::Event::KeyDown(Key::MoveRight) => ks.with_set(Direction::Right, true),
        window::Event::KeyUp(Key::MoveForward) => ks.with_set(Direction::Forward, false),
        window::Event::KeyUp(Key::MoveBack) => ks.with_set(Direction::Back, false),
        window::Event::KeyUp(Key::MoveLeft) => ks.with_set(Direction::Left, false),
        window::Event::KeyUp(Key::MoveRight) => ks.with_set(Direction::Right, false),
        _ => ks,
    }
}

/// How one window event is routed, given whether the HUD captured it.
/// A released `ToggleCursor` key has no semantic action bound to it and
/// goes to the scene like any unrecognised event.
pub open spec fn route_of(e: window::Event, captured: bool) -> EventRoute {
    if captured {
        EventRoute::Captured
    } else {
        match e {
            window::Event::Close => EventRoute::Exit,
            window::Event::KeyDown(Key::ToggleCursor) => EventRoute::ToggleCursor,
            window::Event::KeyDown(Key::MoveForward) => EventRoute::Movement,
            window::Event::KeyDown(Key::MoveBack) => EventRoute::Movement,
            window::Event::KeyDown(Key::MoveLeft) => EventRoute::Movement,
            window::Event::KeyDown(Key::MoveRight) => EventRoute::Movement,
            window::Event::KeyUp(Key::MoveForward) => EventRoute::Movement,
            window::Event::KeyUp(Key::MoveBack) => EventRoute::Movement,
            window::Event::KeyUp(Key::MoveLeft) => EventRoute::Movement,
            window::Event::KeyUp(Key::MoveRight) => EventRoute::Movement,
            _ => EventRoute::ToScene(e),
        }
    }
}

/// The fold of routing the first `n` events of a frame's batch:
/// the aggregator state, the events forwarded to the scene in order, the
/// number of cursor toggles requested, and whether a close request ended
/// processing early — once it has, the rest of the batch is not looked at.
pub open spec fn route_events(
    ks: KeyState,
    events: Seq<window::Event>,
    captured: Seq<bool>,
    n: int,
) -> (KeyState, Seq<window::Event>, int, bool)
    decreases n,
{
    if n <= 0 {
        (ks, Seq::<window::Event>::empty(), 0int, false)
    } else {
        let (k, sc, tg, ex) = route_events(ks, events, captured, n - 1);
        if ex {
            (k, sc, tg, true)
        } else {
            match route_of(events[n - 1], captured[n - 1]) {
                EventRoute::Captured => (k, sc, tg, false),
                EventRoute::Exit => (k, sc, tg, true),
                EventRoute::ToggleCursor => (k, sc, tg + 1, false),
                EventRoute::Movement => (key_update(k, events[n - 1]), sc, tg, false),
                EventRoute::ToScene(e) => (k, sc.push(e), tg, false),
            }
        }
    }
}

/// Once the routing fold has exited, routing more events changes nothing.
pub proof fn lemma_route_exit_stable(
    ks: KeyState,
    events: Seq<window::Event>,
    captured: Seq<bool>,
    m: int,
    n: int,
)
    requires
        0 <= m <= n,
        route_events(ks, events, captured, m).3,
    ensures
        route_events(ks, events, captured, n) == route_events(ks, events, captured, m),
    decreases n,
{
    if n > m {
        lemma_route_exit_stable(ks, events, captured, m, n - 1);
    }
}

/// Close law: a close request that the HUD does not capture makes the
/// whole batch exit, whatever events follow it.
pub proof fn lemma_close_exits(
    ks: KeyState,
    events: Seq<window::Event>,
    captured: Seq<bool>,
    i: int,
)
    requires
        0 <= i < events.len(),
        events.len() == captured.len(),
        events[i] is Close,
        !captured[i],
    ensures
        route_events(ks, events, captured, events.len() as int).3,
{
    if route_events(ks, events, captured, i).3 {
        lemma_route_exit_stable(ks, events, captured, i, events.len() as int);
    } else {
        assert(route_events(ks, events, captured, i + 1).3);
        lemma_route_exit_stable(ks, events, captured, i + 1, events.len() as int);
    }
}

/// The fold of processing the first `n` HUD-emitted events in emission
/// order: the chat messages queued for the next tick, and the result the
/// inner loop exits with, if any — after which the rest is not looked at.
pub open spec fn hud_events_fold(events: Seq<hud::Event>, n: int) -> (
    Seq<String>,
    Option<PlayStateResult>,
)
    decreases n,
{
    if n <= 0 {
        (Seq::<String>::empty(), Option::<PlayStateResult>::None)
    } else {
        let (q, res) = hud_events_fold(events, n - 1);
        if res is Some {
            (q, res)
        } else {
            match events[n - 1] {
                hud::Event::SendMessage(m) => (q.push(m), Option::<PlayStateResult>::None),
                hud::Event::Logout => (q, Some(PlayStateResult::Pop)),
                hud::Event::Quit => (q, Some(PlayStateResult::Shutdown)),
            }
        }
    }
}

/// Once the HUD fold has produced a result, later events change nothing.
pub proof fn lemma_hud_fold_stable(events: Seq<hud::Event>, m: int, n: int)
    requires
        0 <= m <= n,
        hud_events_fold(events, m).1 is Some,
    ensures
        hud_events_fold(events, n) == hud_events_fold(events, m),
    decreases n,
{
    if n > m {
        lemma_hud_fold_stable(events, m, n - 1);
    }
}

/// The chat queue the HUD fold builds only grows: processing more events
/// never reorders or drops what an earlier prefix queued.
pub proof fn lemma_hud_fold_queue_grows(events: Seq<hud::Event>, m: int, n: int)
    requires
        0 <= m <= n,
    ensures
        hud_events_fold(events, m).0.len() <= hud_events_fold(events, n).0.len(),
        forall|j: int|
            0 <= j < hud_events_fold(events, m).0.len() ==> hud_events_fold(events, n).0[j]
                == hud_events_fold(events, m).0[j],
    decreases n,
{
    if n > m {
        lemma_hud_fold_queue_grows(events, m, n - 1);
    }
}

/// Transmission law: a chat message the HUD submits before anything ends
/// the frame is in the chat queue the frame leaves behind — and the next
/// tick's recorded packet carries exactly that queue.
pub proof fn lemma_queued_message_transmitted(events: Seq<hud::Event>, i: int, msg: String)
    requires
        0 <= i < events.len(),
        hud_events_fold(events, i).1 is None,
        events[i] == hud::Event::SendMessage(msg),
    ensures
        hud_events_fold(events, events.len() as int).0.contains(msg),
{
    let q = hud_events_fold(events, i).0;
    assert(hud_events_fold(events, i + 1).0 == q.push(msg));
    lemma_hud_fold_queue_grows(events, i + 1, events.len() as int);
    assert(hud_events_fold(events, events.len() as int).0[q.len() as int] == msg);
}

/// What one frame of the inner loop decided, for the host to act on.
#[derive(Debug, PartialEq, Eq)]
pub struct FrameOutcome {
    /// `Some` ends the inner loop with this result; `None` keeps looping.
    pub result: Option<PlayStateResult>,
    /// Window events forwarded to the scene collaborator, in order.
    pub scene_events: Vec<window::Event>,
    /// How many cursor-capture toggles the frame requested.
    pub grab_toggles: usize,
    /// Whether the frame reached the render step. A frame that exits the
    /// loop skips it.
    pub rendered: bool,
    /// The session failure that ended the loop, if one did, for display.
    pub session_error: Option<Error>,
}

impl SessionState {
    /// Creates a session around an established client connection, with
    /// no key held and no message displayed.
    pub fn new(client: Client) -> (r: SessionState)
        ensures
            r.client == client,
            r.key_state == (KeyState { up: false, down: false, left: false, right: false }),
            r.hud.messages@ == Seq::<String>::empty(),
    {
        SessionState { key_state: KeyState::new(), client, hud: Hud::new() }
    }

    /// The display name of this screen.
    pub fn name(&self) -> (r: &'static str)
        ensures
            r@ == "Session"@,
    {
        "Session"
    }

    /// Routes one window event: the HUD gets first claim; a close request
    /// exits; the cursor-toggle and movement keys perform their semantic
    /// action; everything else goes to the scene.
    pub fn handle_window_event(&mut self, event: window::Event, ui_captured: bool) -> (r:
        EventRoute)
        ensures
            r == route_of(event, ui_captured),
            final(self).key_state == (if ui_captured {
                old(self).key_state
            } else {
                key_update(old(self).key_state, event)
            }),
            final(self).client == old(self).client,
            final(self).hud == old(self).hud,
    {
        if ui_captured {
            return EventRoute::Captured;
        }
        match event {
            window::Event::Close => EventRoute::Exit,
            window::Event::KeyDown(Key::ToggleCursor) => EventRoute::ToggleCursor,
            window::Event::KeyDown(Key::MoveForward) => {
                self.key_state.set(Direction::Forward, true);
                EventRoute::Movement
            },
            window::Event::KeyDown(Key::MoveBack) => {
                self.key_state.set(Direction::Back, true);
                EventRoute::Movement
            },
            window::Event::KeyDown(Key::MoveLeft) => {
                self.key_state.set(Direction::Left, true);
                EventRoute::Movement
            },
            window::Event::KeyDown(Key::MoveRight) => {
                self.key_state.set(Direction::Right, true);
                EventRoute::Movement
            },
            window::Event::KeyUp(Key::MoveForward) => {
                self.key_state.set(Direction::Forward, false);
                EventRoute::Movement
            },
            window::Event::KeyUp(Key::MoveBack) => {
                self.key_state.set(Direction::Back, false);
                EventRoute::Movement
            },
            window::Event::KeyUp(Key::MoveLeft) => {
                self.key_state.set(Direction::Left, false);
                EventRoute::Movement
            },
            window::Event::KeyUp(Key::MoveRight) => {
                self.key_state.set(Direction::Right, false);
                EventRoute::Movement
            },
            other => EventRoute::ToScene(other),
        }
    }

    /// Ticks the network session with the aggregated movement input and
    /// dispatches every returned session event to the HUD, in the order
    /// the server sent them, all of them, before returning. On failure
    /// the classified error is surfaced and the HUD is untouched.
    pub fn tick(&mut self, dt: u64, outcome: TransportOutcome) -> (r: Result<(), Error>)
        ensures
            final(self).key_state == old(self).key_state,
            final(self).client.last_sent == Some(
                outgoing_packet(
                    old(self).client,
                    Input { move_dir: old(self).key_state.dir_vec_spec() },
                    dt,
                ),
            ),
            final(self).client.pending_chat@ == Seq::<String>::empty(),
            match outcome {
                TransportOutcome::Failed(e) => {
                    &&& r == Err::<(), Error>(Error::Network(e))
                    &&& final(self).hud == old(self).hud
                    &&& final(self).client.last_server_seq == old(self).client.last_server_seq
                },
                TransportOutcome::Timeout => {
                    &&& r == Err::<(), Error>(Error::ServerTimeout)
                    &&& final(self).hud == old(self).hud
                    &&& final(self).client.last_server_seq == old(self).client.last_server_seq
                },
                TransportOutcome::Shutdown => {
                    &&& r == Err::<(), Error>(Error::ServerShutdown)
                    &&& final(self).hud == old(self).hud
                    &&& final(self).client.last_server_seq == old(self).client.last_server_seq
                },
                TransportOutcome::Received(msgs) => {
                    if msgs_ordered(msgs@, old(self).client.last_server_seq) {
                        &&& r == Ok::<(), Error>(())
                        &&& final(self).hud.messages@ == old(self).hud.messages@ + chats_of(msgs@)
                        &&& final(self).client.last_server_seq == last_seq(
                            msgs@,
                            old(self).client.last_server_seq,
                        )
                    } else {
                        &&& r == Err::<(), Error>(Error::ServerWentMad)
                        &&& final(self).hud == old(self).hud
                        &&& final(self).client.last_server_seq == old(self).client.last_server_seq
                    }
                },
            },
    {
        let input = Input { move_dir: self.key_state.dir_vec() };
        let ghost msgs_view = match outcome {
            TransportOutcome::Received(ref msgs) => msgs@,
            _ => Seq::<crate::client::ServerMsg>::empty(),
        };
        match self.client.tick(input, dt, outcome) {
            Err(e) => Err(e),
            Ok(events) => {
                proof {
                    assert(events@ == events_of(msgs_view));
                }
                let ghost msgs0 = self.hud.messages@;
                let ghost cl = self.client;
                let mut k: usize = 0;
                #[verifier::loop_isolation(false)]
                while k < events.len()
                    invariant
                        k <= events@.len(),
                        self.hud.messages@.len() == msgs0.len() + k,
                        forall|j: int| 0 <= j < msgs0.len() ==> self.hud.messages@[j] == msgs0[j],
                        forall|j: int|
                            0 <= j < k ==> self.hud.messages@[msgs0.len() + j] == msgs_view[j].chat,
                        self.key_state == old(self).key_state,
                        self.client == cl,
                    decreases events@.len() - k,
                {
                    match &events[k] {
                        crate::client::Event::Chat(m) => {
                            self.hud.new_message(m.clone());
                        },
                    }
                    k = k + 1;
                }
                proof {
                    assert(self.hud.messages@ =~= msgs0 + chats_of(msgs_view));
                }
                Ok(())
            },
        }
    }

    /// Processes one HUD-emitted event: a chat submission is queued on
    /// the network session for the next tick; logging out or quitting
    /// ends the inner loop with `Pop` or `Shutdown` respectively.
    pub fn process_hud_event(&mut self, event: hud::Event) -> (r: Option<PlayStateResult>)
        ensures
            final(self).key_state == old(self).key_state,
            final(self).hud == old(self).hud,
            final(self).client.last_sent == old(self).client.last_sent,
            final(self).client.last_server_seq == old(self).client.last_server_seq,
            match event {
                hud::Event::SendMessage(m) => {
                    &&& r is None
                    &&& final(self).client.pending_chat@ == old(self).client.pending_chat@.push(m)
                },
                hud::Event::Logout => {
                    &&& r == Some(PlayStateResult::Pop)
                    &&& final(self).client.pending_chat == old(self).client.pending_chat
                },
                hud::Event::Quit => {
                    &&& r == Some(PlayStateResult::Shutdown)
                    &&& final(self).client.pending_chat == old(self).client.pending_chat
                },
            },
    {
        match event {
            hud::Event::SendMessage(msg) => {
                self.client.send_chat(msg);
                None
            },
            hud::Event::Logout => Some(PlayStateResult::Pop),
            hud::Event::Quit => Some(PlayStateResult::Shutdown),
        }
    }

    /// End-of-tick cleanup, delegated to the network session: the
    /// transient per-tick send buffer is flushed.
    pub fn cleanup(&mut self)
        ensures
            final(self).key_state == old(self).key_state,
            final(self).hud == old(self).hud,
            final(self).client.last_sent is None,
            final(self).client.pending_chat == old(self).client.pending_chat,
            final(self).client.last_server_seq == old(self).client.last_server_seq,
    {
        self.client.cleanup();
    }

    /// Routes a whole frame's batch of window events in order, stopping
    /// at an uncaptured close request. Returns the scene-bound events,
    /// the toggle count, and whether the batch exited.
    fn route_batch(&mut self, events: &Vec<window::Event>, captured: &Vec<bool>) -> (r: (
        Vec<window::Event>,
        usize,
        bool,
    ))
        requires
            events@.len() == captured@.len(),
        ensures
            ({
                let route = route_events(
                    old(self).key_state,
                    events@,
                    captured@,
                    events@.len() as int,
                );
                &&& final(self).key_state == route.0
                &&& r.0@ == route.1
                &&& r.1 as int == route.2
                &&& r.2 == route.3
            }),
            final(self).client == old(self).client,
            final(self).hud == old(self).hud,
    {
        let ghost ks0 = self.key_state;
        let mut scene: Vec<window::Event> = Vec::new();
        let mut toggles: usize = 0;
        let mut i: usize = 0;
        #[verifier::loop_isolation(false)]
        while i < events.len()
            invariant
                i <= events@.len(),
                toggles <= i,
                route_events(ks0, events@, captured@, i as int) == (
                    self.key_state,
                    scene@,
                    toggles as int,
                    false,
                ),
                self.client == old(self).client,
                self.hud == old(self).hud,
            decreases events@.len() - i,
        {
            let route = self.handle_window_event(events[i], captured[i]);
            match route {
                EventRoute::Captured => {},
                EventRoute::Movement => {},
                EventRoute::ToggleCursor => {
                    toggles = toggles + 1;
                },
                EventRoute::ToScene(e) => {
                    scene.push(e);
                },
                EventRoute::Exit => {
                    proof {
                        assert(route_events(ks0, events@, captured@, i as int + 1) == (
                            self.key_state,
                            scene@,
                            toggles as int,
                            true,
                        ));
                        lemma_route_exit_stable(
                            ks0,
                            events@,
                            captured@,
                            i as int + 1,
                            events@.len() as int,
                        );
                    }
                    return (scene, toggles, true);
                },
            }
            i = i + 1;
        }
        (scene, toggles, false)
    }

    /// One frame of the inner loop, steps in order: route the window
    /// events (HUD first, then semantic actions, rest to the scene); tick
    /// the network session with the aggregated input; dispatch its events
    /// to the HUD in order; process the HUD's own emitted events. An
    /// uncaptured close request exits with `Shutdown` before the tick; a
    /// session failure exits with `Pop`, carrying the classified error
    /// for display; a HUD logout or quit exits with `Pop` or `Shutdown`.
    /// Only a frame that runs to completion reaches the render step.
    pub fn frame(
        &mut self,
        events: Vec<window::Event>,
        captured: Vec<bool>,
        dt: u64,
        outcome: TransportOutcome,
        hud_events: Vec<hud::Event>,
    ) -> (r: FrameOutcome)
        requires
            events@.len() == captured@.len(),
        ensures
            ({
                let route = route_events(
                    old(self).key_state,
                    events@,
                    captured@,
                    events@.len() as int,
                );
                &&& final(self).key_state == route.0
                &&& r.scene_events@ == route.1
                &&& r.grab_toggles as int == route.2
                &&& if route.3 {
                    &&& r.result == Some(PlayStateResult::Shutdown)
                    &&& !r.rendered
                    &&& r.session_error is None
                    &&& final(self).client == old(self).client
                    &&& final(self).hud == old(self).hud
                } else {
                    &&& final(self).client.last_sent == Some(
                        outgoing_packet(old(self).client, Input { move_dir: route.0.dir_vec_spec() }, dt),
                    )
                    &&& match outcome {
                        TransportOutcome::Received(msgs) => {
                            if msgs_ordered(msgs@, old(self).client.last_server_seq) {
                                let fold = hud_events_fold(hud_events@, hud_events@.len() as int);
                                &&& final(self).hud.messages@ == old(self).hud.messages@
                                    + chats_of(msgs@)
                                &&& final(self).client.last_server_seq == last_seq(
                                    msgs@,
                                    old(self).client.last_server_seq,
                                )
                                &&& final(self).client.pending_chat@ == fold.0
                                &&& r.result == fold.1
                                &&& r.rendered == (fold.1 is None)
                                &&& r.session_error is None
                            } else {
                                &&& r.result == Some(PlayStateResult::Pop)
                                &&& r.session_error == Some(Error::ServerWentMad)
                                &&& !r.rendered
                                &&& final(self).hud == old(self).hud
                                &&& final(self).client.pending_chat@ == Seq::<String>::empty()
                            }
                        },
                        TransportOutcome::Timeout => {
                            &&& r.result == Some(PlayStateResult::Pop)
                            &&& r.session_error == Some(Error::ServerTimeout)
                            &&& !r.rendered
                            &&& final(self).hud == old(self).hud
                            &&& final(self).client.pending_chat@ == Seq::<String>::empty()
                        },
                        TransportOutcome::Shutdown => {
                            &&& r.result == Some(PlayStateResult::Pop)
                            &&& r.session_error == Some(Error::ServerShutdown)
                            &&& !r.rendered
                            &&& final(self).hud == old(self).hud
                            &&& final(self).client.pending_chat@ == Seq::<String>::empty()
                        },
                        TransportOutcome::Failed(e) => {
                            &&& r.result == Some(PlayStateResult::Pop)
                            &&& r.session_error == Some(Error::Network(e))
                            &&& !r.rendered
                            &&& final(self).hud == old(self).hud
                            &&& final(self).client.pending_chat@ == Seq::<String>::empty()
                        },
                    }
                }
            }),
    {
        let (scene_events, grab_toggles, exited) = self.route_batch(&events, &captured);
        if exited {
            return FrameOutcome {
                result: Some(PlayStateResult::Shutdown),
                scene_events,
                grab_toggles,
                rendered: false,
                session_error: None,
            };
        }

        match self.tick(dt, outcome) {
            Err(e) => {
                return FrameOutcome {
                    result: Some(PlayStateResult::Pop),
                    scene_events,
                    grab_toggles,
                    rendered: false,
                    session_error: Some(e),
                };
            },
            Ok(()) => {},
        }

        let ghost hevs = hud_events@;
        let ghost mid = *self;
        let total = hud_events.len();
        let mut rest = hud_events;
        let mut j: usize = 0;
        #[verifier::loop_isolation(false)]
        while rest.len() > 0
            invariant
                total as int == hevs.len(),
                j as int + rest@.len() == total as int,
                rest@ == hevs.skip(j as int),
                hud_events_fold(hevs, j as int) == (
                    self.client.pending_chat@,
                    Option::<PlayStateResult>::None,
                ),
                self.key_state == mid.key_state,
                self.hud == mid.hud,
                self.client.last_sent == mid.client.last_sent,
                self.client.last_server_seq == mid.client.last_server_seq,
            decreases rest@.len(),
        {
            proof {
                assert(rest@[0] == hevs[j as int]);
                assert(hevs.skip(j as int).remove(0) =~= hevs.skip(j as int + 1));
            }
            let e = rest.remove(0);
            let res = self.process_hud_event(e);
            j = j + 1;
            match res {
                None => {},
                Some(result) => {
                    proof {
                        lemma_hud_fold_stable(hevs, j as int, hevs.len() as int);
                    }
                    return FrameOutcome {
                        result: Some(result),
                        scene_events,
                        grab_toggles,
                        rendered: false,
                        session_error: None,
                    };
                },
            }
        }

        FrameOutcome {
            result: None,
            scene_events,
            grab_toggles,
            rendered: true,
            session_error: None,
        }
    }
}

} // verus!
