//! Top-level game state and the per-event dispatch.
//!
//! The render/event thread owns one `GameState` exclusively and feeds it a
//! normalized event stream: produce-frame ticks from the pacer thread,
//! window events, and input. Dispatch is pure decision: it updates the
//! state and tells the driver what to do — run a draw cycle, forward the
//! input to the camera, or stop. The driver performs the action (it owns
//! the platform objects and the camera's float math) and is responsible
//! for the shutdown path: on `Exit` it publishes the exit flag the pacer
//! thread observes.

use vstd::prelude::*;

use crate::frame_times::FrameTimes;
use crate::frame_times::FRAME_TIME_WINDOW;
use crate::graphics::GraphicsModel;
use crate::orchestrator::Orchestrator;
use crate::world::Key;
use crate::world::Mode;
use crate::world::spec_react;
use crate::world::World;

verus! {

/// The normalized event stream the core dispatches on. Window-system
/// events arrive already translated to these plain values.
#[derive(Debug, Copy, Clone, PartialEq, Eq, Structural)]
pub enum GameEvent {
    /// The pacer thread requests the next frame.
    FrameTick,
    /// Modifier keys changed; `logo` is the command/logo modifier state.
    ModifiersChanged { logo: bool },
    /// The window was asked to close.
    CloseRequested,
    /// The surface was resized.
    Resized { width: u32, height: u32 },
    /// A key event; keys the core does not decide on arrive as
    /// `Key::Other`.
    Keyboard { key: Key },
    /// The pointer moved.
    PointerMoved,
}

/// What the driver must do after an event was dispatched.
#[derive(Debug, Copy, Clone, PartialEq, Eq, Structural)]
pub enum DispatchAction {
    /// Run one draw cycle now.
    Draw,
    /// Stop the event loop and shut down.
    Exit,
    /// Hand the key to the camera input handler; if the camera moved,
    /// notify the world.
    ForwardKeyToCamera,
    /// Hand the new pointer position to the camera.
    ForwardPointerToCamera,
    /// Nothing further.
    Continue,
}

/// Everything the render thread carries between events.
#[derive(Debug, PartialEq)]
pub struct GameState {
    pub world: World,
    pub orchestrator: Orchestrator,
    pub graphics: GraphicsModel,
    pub frame_times: FrameTimes,
    /// The command/logo modifier is currently held.
    pub cmd_pressed: bool,
    /// Shutdown was requested; the driver mirrors this into the flag the
    /// pacer thread polls.
    pub exited: bool,
}

/// The state after dispatching one event.
pub open spec fn spec_dispatch(g: GameState, event: GameEvent) -> GameState {
    match event {
        GameEvent::FrameTick => g,
        GameEvent::ModifiersChanged { logo } => GameState { cmd_pressed: logo, ..g },
        GameEvent::CloseRequested => GameState { exited: true, ..g },
        GameEvent::Resized { .. } => GameState {
            orchestrator: Orchestrator { swapchain_dirty: true, ..g.orchestrator },
            ..g
        },
        GameEvent::Keyboard { key } => GameState {
            world: spec_react(g.world, key),
            exited: g.exited || (key is Q && g.cmd_pressed),
            ..g
        },
        GameEvent::PointerMoved => g,
    }
}

/// The action owed to the driver for one event.
pub open spec fn spec_dispatch_action(g: GameState, event: GameEvent) -> DispatchAction {
    match event {
        GameEvent::FrameTick => DispatchAction::Draw,
        GameEvent::ModifiersChanged { .. } => DispatchAction::Continue,
        GameEvent::CloseRequested => DispatchAction::Exit,
        GameEvent::Resized { .. } => DispatchAction::Continue,
        GameEvent::Keyboard { key } => if key is Q && g.cmd_pressed {
            DispatchAction::Exit
        } else {
            DispatchAction::ForwardKeyToCamera
        },
        GameEvent::PointerMoved => DispatchAction::ForwardPointerToCamera,
    }
}

impl GameState {
    /// The startup state: a fresh world, the orchestrator holding the
    /// startup future, the graphics model the driver built for the
    /// initial surface, empty frame-time bookkeeping, no modifier held,
    /// shutdown not requested.
    pub fn new(graphics: GraphicsModel) -> (g: GameState)
        ensures
            g.world.mode == Mode::MoveCameraPos,
            g.world.ticks == 0,
            g.orchestrator == Orchestrator::spec_initial(),
            g.graphics == graphics,
            g.frame_times.samples@ == Seq::<u32>::empty(),
            g.frame_times.window == FRAME_TIME_WINDOW,
            g.frame_times.total_count == 0,
            g.frame_times.total_sum == 0,
            g.frame_times.well_formed(),
            g.cmd_pressed == false,
            g.exited == false,
    {
        GameState {
            world: World::new(),
            orchestrator: Orchestrator::new(),
            graphics,
            frame_times: FrameTimes::new(FRAME_TIME_WINDOW),
            cmd_pressed: false,
            exited: false,
        }
    }

    /// Advance the world clock one step; runs once per event-loop
    /// iteration.
    pub fn tick(&mut self)
        requires
            old(self).world.ticks < u64::MAX,
        ensures
            final(self).world.ticks == old(self).world.ticks + 1,
            final(self).world.mode == old(self).world.mode,
            final(self).orchestrator == old(self).orchestrator,
            final(self).graphics == old(self).graphics,
            final(self).frame_times == old(self).frame_times,
            final(self).cmd_pressed == old(self).cmd_pressed,
            final(self).exited == old(self).exited,
    {
        self.world.tick();
    }

    /// Dispatch one event: a frame tick orders a draw; close, and the
    /// command-modifier quit key, request shutdown; a resize marks the
    /// swapchain dirty for the next frame; escape cycles the interaction
    /// mode and every key is also owed to the camera; pointer motion is
    /// owed to the camera.
    pub fn handle_event(&mut self, event: GameEvent) -> (a: DispatchAction)
        ensures
            *final(self) == spec_dispatch(*old(self), event),
            a == spec_dispatch_action(*old(self), event),
            event matches GameEvent::Resized { .. }
                ==> final(self).orchestrator.swapchain_dirty,
            event is CloseRequested ==> final(self).exited && a == DispatchAction::Exit,
            event is FrameTick ==> a == DispatchAction::Draw && *final(self) == *old(self),
    {
        match event {
            GameEvent::FrameTick => DispatchAction::Draw,
            GameEvent::ModifiersChanged { logo } => {
                self.cmd_pressed = logo;
                DispatchAction::Continue
            },
            GameEvent::CloseRequested => {
                self.exited = true;
                DispatchAction::Exit
            },
            GameEvent::Resized { .. } => {
                self.orchestrator.swapchain_dirty = true;
                DispatchAction::Continue
            },
            GameEvent::Keyboard { key } => {
                self.world.react(key);
                if matches!(key, Key::Q) && self.cmd_pressed {
                    self.exited = true;
                    DispatchAction::Exit
                } else {
                    DispatchAction::ForwardKeyToCamera
                }
            },
            GameEvent::PointerMoved => DispatchAction::ForwardPointerToCamera,
        }
    }

    /// Publish one frame's measured wall time: it slides into the
    /// frame-time averages, and the driver stores the returned value for
    /// the pacer thread to read and then signals frame completion.
    pub fn record_frame_time(&mut self, ms: u32) -> (published: u32)
        requires
            old(self).frame_times.well_formed(),
            old(self).frame_times.total_count < u64::MAX,
        ensures
            published == ms,
            final(self).frame_times.well_formed(),
            final(self).frame_times.total_count == old(self).frame_times.total_count + 1,
            final(self).frame_times.total_sum == old(self).frame_times.total_sum + ms,
            final(self).frame_times.samples@ == if old(self).frame_times.samples@.len()
                < old(self).frame_times.window {
                old(self).frame_times.samples@.push(ms)
            } else {
                old(self).frame_times.samples@.drop_first().push(ms)
            },
            final(self).frame_times.window == old(self).frame_times.window,
            final(self).world == old(self).world,
            final(self).orchestrator == old(self).orchestrator,
            final(self).graphics == old(self).graphics,
            final(self).cmd_pressed == old(self).cmd_pressed,
            final(self).exited == old(self).exited,
    {
        self.frame_times.add(ms);
        ms
    }
}

} // verus!
