use framecore::game::DispatchAction;
use framecore::game::GameEvent;
use framecore::game::GameState;
use framecore::graphics::GraphicsModel;
use framecore::graphics::RecreateOutcome;
use framecore::world::Key;
use framecore::world::Mode;
use framecore::world::World;

fn fresh_state() -> GameState {
    GameState::new(GraphicsModel::new(640, 480, 3))
}

#[test]
fn frame_tick_orders_a_draw() {
    let mut g = fresh_state();
    let a = g.handle_event(GameEvent::FrameTick);
    assert_eq!(a, DispatchAction::Draw);
    assert!(!g.exited);
}

#[test]
fn close_request_exits() {
    let mut g = fresh_state();
    let a = g.handle_event(GameEvent::CloseRequested);
    assert_eq!(a, DispatchAction::Exit);
    assert!(g.exited);
}

#[test]
fn resize_marks_swapchain_dirty() {
    let mut g = fresh_state();
    let a = g.handle_event(GameEvent::Resized { width: 800, height: 600 });
    assert_eq!(a, DispatchAction::Continue);
    assert!(g.orchestrator.swapchain_dirty);
}

#[test]
fn resize_mid_frame_yields_matching_new_bundle_next_draw() {
    let mut g = fresh_state();
    let old_bundle = g.graphics.bundle;
    g.handle_event(GameEvent::Resized { width: 800, height: 600 });

    // Next draw observes the dirty flag and rebuilds the bundle wholesale.
    let prep = g.orchestrator.begin_frame();
    assert!(prep.recreate);
    g.graphics.apply_recreate(RecreateOutcome::Created {
        width: 800,
        height: 600,
        image_count: 4,
    });
    let b = g.graphics.bundle;
    assert_eq!(b.version, old_bundle.version + 1);
    assert_eq!((b.width, b.height), (800, 600));
    // One framebuffer per new swapchain image.
    assert_eq!(b.image_count, 4);
    assert_eq!(b.framebuffer_count, 4);
    // The old bundle was replaced whole, not patched.
    assert_ne!(b.version, old_bundle.version);
}

#[test]
fn unsupported_dimensions_keep_the_old_bundle() {
    let mut g = fresh_state();
    let old_bundle = g.graphics.bundle;
    g.graphics.apply_recreate(RecreateOutcome::UnsupportedDimensions);
    assert_eq!(g.graphics.bundle, old_bundle);
}

#[test]
fn escape_cycles_mode_and_key_is_forwarded() {
    let mut g = fresh_state();
    assert_eq!(g.world.mode, Mode::MoveCameraPos);
    let a = g.handle_event(GameEvent::Keyboard { key: Key::Escape });
    assert_eq!(a, DispatchAction::ForwardKeyToCamera);
    assert_eq!(g.world.mode, Mode::MoveCameraFront);
}

#[test]
fn quit_key_with_command_modifier_exits() {
    let mut g = fresh_state();
    g.handle_event(GameEvent::ModifiersChanged { logo: true });
    let a = g.handle_event(GameEvent::Keyboard { key: Key::Q });
    assert_eq!(a, DispatchAction::Exit);
    assert!(g.exited);
}

#[test]
fn quit_key_without_modifier_is_just_input() {
    let mut g = fresh_state();
    let a = g.handle_event(GameEvent::Keyboard { key: Key::Q });
    assert_eq!(a, DispatchAction::ForwardKeyToCamera);
    assert!(!g.exited);
}

#[test]
fn releasing_the_modifier_disarms_quit() {
    let mut g = fresh_state();
    g.handle_event(GameEvent::ModifiersChanged { logo: true });
    g.handle_event(GameEvent::ModifiersChanged { logo: false });
    let a = g.handle_event(GameEvent::Keyboard { key: Key::Q });
    assert_eq!(a, DispatchAction::ForwardKeyToCamera);
    assert!(!g.exited);
}

#[test]
fn pointer_motion_is_forwarded_to_camera() {
    let mut g = fresh_state();
    let a = g.handle_event(GameEvent::PointerMoved);
    assert_eq!(a, DispatchAction::ForwardPointerToCamera);
}

#[test]
fn mode_cycle_wraps_around() {
    assert_eq!(Mode::MoveCameraPos.next(), Mode::MoveCameraFront);
    assert_eq!(Mode::MoveCameraFront.next(), Mode::MoveCameraUp);
    assert_eq!(Mode::MoveCameraUp.next(), Mode::MoveCameraPos);
}

#[test]
fn world_command_cycles_mode() {
    let mut w = World::new();
    w.command();
    assert_eq!(w.mode, Mode::MoveCameraFront);
    w.command();
    assert_eq!(w.mode, Mode::MoveCameraUp);
    w.command();
    assert_eq!(w.mode, Mode::MoveCameraPos);
}

#[test]
fn world_ticks_count_up() {
    let mut g = fresh_state();
    g.tick();
    g.tick();
    assert_eq!(g.world.ticks, 2);
}

#[test]
fn non_command_keys_leave_the_world_alone() {
    let mut w = World::new();
    w.react(Key::Other);
    w.react(Key::Q);
    assert_eq!(w.mode, Mode::MoveCameraPos);
    w.react(Key::Escape);
    assert_eq!(w.mode, Mode::MoveCameraFront);
}
