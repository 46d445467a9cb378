use ketupa_demo_engine::event::{MouseButton, WindowEvent};
use ketupa_demo_engine::frame::{
    dispatch_event, draw_list, end_frame, needs_reconfigure, surface_issue_action, Dispatch,
    DrawCall, IssueAction, SurfaceIssue,
};
use ketupa_demo_engine::input::{Keys, Mouse};
use ketupa_demo_engine::layers::{color, instance, layer_bounds, Layers, Vec2Bits};
use ketupa_demo_engine::screen::Screen;
use ketupa_demo_engine::{setup, Setup};

fn v(x: f32, y: f32) -> Vec2Bits {
    Vec2Bits::new(x.to_bits(), y.to_bits())
}

#[test]
fn draw_order_is_reverse_of_declared_order() {
    // Declared bounds [A, B, C]: the synchronizer issues C's region first,
    // then B's, then A's.
    let bounds = [layer_bounds(3, 3, 1), layer_bounds(2, 4, 2), layer_bounds(1, 5, 3)];
    let mut arena = Layers::new(&bounds);
    arena.set_indices(0, &vec![0, 1, 2]); // A
    arena.set_indices(1, &vec![0, 1]); // B
    arena.set_indices(2, &vec![0]); // C
    arena.set_instances(0, &vec![instance([0; 6], color(1, 1, 1, 1))]);
    let calls = draw_list(&arena);
    assert_eq!(calls.len(), 3);
    // C: physical chunk 0, index window [0, 5), one live index.
    assert_eq!(calls[0], DrawCall { index_start: 0, index_end: 1, instance_start: 0, instance_end: 0 });
    // B: physical chunk 1, index window [5, 9), two live indices.
    assert_eq!(calls[1], DrawCall { index_start: 5, index_end: 7, instance_start: 3, instance_end: 3 });
    // A: physical chunk 2, index window [9, 12), three live indices and one
    // live instance.
    assert_eq!(calls[2], DrawCall { index_start: 9, index_end: 12, instance_start: 5, instance_end: 6 });
}

#[test]
fn one_layer_frame_uploads_and_draws_exactly_the_live_data() {
    // Arena with bounds [(3, 3, 1)]: three vertices, indices [0, 1, 2] and
    // one instance give one draw call over index range [0, 3) and instance
    // range [0, 1), and the full-store upload carries exactly that data.
    let mut arena = Layers::new(&[layer_bounds(3, 3, 1)]);
    let verts = vec![v(-1.0, 0.0), v(1.0, 0.0), v(0.0, 1.0)];
    arena.set_vertices(0, &verts);
    arena.set_indices(0, &vec![0, 1, 2]);
    let inst = instance([0; 6], color(252, 186, 3, 255));
    arena.set_instances(0, &vec![inst]);
    assert_eq!(arena.all_vertices(), &verts);
    assert_eq!(arena.all_indices(), &vec![0, 1, 2]);
    assert_eq!(arena.all_instances(), &vec![inst]);
    let calls = draw_list(&arena);
    assert_eq!(calls.len(), 1);
    assert_eq!(calls[0], DrawCall { index_start: 0, index_end: 3, instance_start: 0, instance_end: 1 });
}

#[test]
fn surface_errors_have_their_documented_answers() {
    assert_eq!(surface_issue_action(SurfaceIssue::Lost), IssueAction::ReconfigureAndSkip);
    assert_eq!(surface_issue_action(SurfaceIssue::OutOfMemory), IssueAction::Fatal);
    assert_eq!(surface_issue_action(SurfaceIssue::Outdated), IssueAction::LogAndSkip);
    assert_eq!(surface_issue_action(SurfaceIssue::Timeout), IssueAction::LogAndSkip);
}

#[test]
fn reconfigure_only_on_a_real_resize() {
    assert!(needs_reconfigure(800, 600, 1024, 768));
    assert!(!needs_reconfigure(800, 600, 800, 600));
    assert!(!needs_reconfigure(800, 600, 0, 768));
    assert!(!needs_reconfigure(800, 600, 1024, 0));
    assert!(needs_reconfigure(800, 600, 800, 601));
}

#[test]
fn dispatch_routes_each_event() {
    let mut screen = Screen::new(800, 600);
    let mut mouse = Mouse::new();
    let mut keys = Keys::new();
    screen.unset();

    let d = dispatch_event(&mut screen, &mut mouse, &mut keys, &WindowEvent::Resized {
        width: 1024,
        height: 768,
    });
    assert_eq!(d, Dispatch::Resized { width: 1024, height: 768 });
    assert_eq!(screen.size(), (1024, 768));
    assert!(screen.has_resized());

    let d = dispatch_event(&mut screen, &mut mouse, &mut keys, &WindowEvent::CloseRequested);
    assert_eq!(d, Dispatch::Close);

    let d = dispatch_event(&mut screen, &mut mouse, &mut keys, &WindowEvent::MouseInput {
        pressed: true,
        button: MouseButton::Right,
    });
    assert_eq!(d, Dispatch::Input);
    assert!(mouse.is_pressed(MouseButton::Right));

    let d = dispatch_event(&mut screen, &mut mouse, &mut keys, &WindowEvent::KeyboardInput {
        pressed: true,
        key: Keys::W,
    });
    assert_eq!(d, Dispatch::Input);
    assert!(keys.is_pressed(Keys::W));

    let d = dispatch_event(&mut screen, &mut mouse, &mut keys, &WindowEvent::Other);
    assert_eq!(d, Dispatch::Ignored);
}

#[test]
fn end_frame_resets_all_trackers() {
    let mut screen = Screen::new(800, 600);
    let mut mouse = Mouse::new();
    let mut keys = Keys::new();
    assert!(screen.has_resized());
    end_frame(&mut mouse, &mut keys, &mut screen);
    assert!(!screen.has_resized());
    mouse.try_process(&WindowEvent::MouseInput { pressed: true, button: MouseButton::Left });
    keys.try_process(&WindowEvent::KeyboardInput { pressed: true, key: Keys::A });
    assert!(mouse.is_just_pressed(MouseButton::Left));
    assert!(keys.is_just_pressed(Keys::A));
    end_frame(&mut mouse, &mut keys, &mut screen);
    assert!(mouse.is_pressed(MouseButton::Left));
    assert!(!mouse.is_just_pressed(MouseButton::Left));
    assert!(keys.is_pressed(Keys::A));
    assert!(!keys.is_just_pressed(Keys::A));
    assert!(!screen.has_resized());
}

#[test]
fn screen_keeps_size_and_clear_color() {
    let mut screen = Screen::new(640, 480);
    assert_eq!(screen.size(), (640, 480));
    assert!(screen.has_resized());
    assert_eq!(screen.clear_color(), color(0, 0, 0, 0));
    screen.set_clear_color(color(235, 64, 52, 255));
    assert_eq!(screen.clear_color(), color(235, 64, 52, 255));
    screen.unset();
    assert!(!screen.has_resized());
    // Non-resize events leave the screen alone.
    assert_eq!(screen.try_process(&WindowEvent::CursorEntered), None);
    assert_eq!(screen.size(), (640, 480));
    assert_eq!(
        screen.try_process(&WindowEvent::Resized { width: 320, height: 200 }),
        Some((320, 200))
    );
    assert_eq!(screen.size(), (320, 200));
    assert!(screen.has_resized());
}

#[test]
fn setup_carries_its_configuration() {
    let bounds = [layer_bounds(8, 8, 1)];
    let s = setup("hello", 1000, 800, &bounds);
    assert_eq!(s.title, "hello");
    assert_eq!(s.width, 1000);
    assert_eq!(s.height, 800);
    assert_eq!(s.layers_bounds.len(), 1);
    let s2 = Setup::new("hello", 1000, 800, &bounds);
    assert_eq!(s2.title, s.title);
    assert_eq!(s2.layers_bounds[0], bounds[0]);
}
