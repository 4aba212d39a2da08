use scene_engine::game::{FullscreenRequest, Game};
use scene_engine::renderer::{Rect, Renderer};
use scene_engine::start::{Events, MouseEvent};
use scene_engine::viewport::Viewport;

#[test]
fn game_starts_paused() {
    assert!(Game::new(false).paused());
    assert!(!Game::new(false).fullscreen());
    assert!(Game::new(true).paused());
    assert!(Game::new(true).fullscreen());
}

#[test]
fn pointer_capture_toggles_the_pause() {
    let mut game = Game::new(false);
    let mut viewport = Viewport::new(4, 3);
    game.pointer_lock_changed(&mut viewport);
    assert!(!game.paused());
    assert!(viewport.update_zoom(1).is_some());
    assert!(viewport.update_rot(1, 1).is_some());
    game.pointer_lock_changed(&mut viewport);
    assert!(game.paused());
    assert_eq!(viewport.update_zoom(1), None);
    assert_eq!(viewport.update_rot(1, 1), None);
    assert!(!game.fullscreen());
}

#[test]
fn resume_unlocks_the_camera() {
    let game = Game::new(false);
    let mut viewport = Viewport::new(4, 3);
    game.resume(&mut viewport);
    assert!(viewport.update_zoom(1).is_some());
    assert!(viewport.update_rot(1, 1).is_some());
    assert!(game.paused());
}

#[test]
fn fullscreen_follows_the_page_and_the_toggle() {
    let mut game = Game::new(false);
    assert_eq!(game.toggle_fullscreen(), FullscreenRequest::Enter);
    assert!(game.fullscreen());
    assert_eq!(game.toggle_fullscreen(), FullscreenRequest::Exit);
    assert!(!game.fullscreen());
    game.fullscreen_changed(true);
    assert!(game.fullscreen());
    game.fullscreen_changed(false);
    assert!(!game.fullscreen());
    assert!(game.paused());
}

#[test]
fn first_frame_is_drawn_even_when_paused() {
    let mut game = Game::new(false);
    assert!(game.ticks(true));
    assert!(!game.ticks(false));
    let mut viewport = Viewport::new(4, 3);
    game.pointer_lock_changed(&mut viewport);
    assert!(game.ticks(true));
    assert!(game.ticks(false));
}

#[test]
fn window_resize_reaches_renderer_and_camera() {
    let game = Game::new(false);
    let mut renderer = Renderer::new(800, 600);
    let mut viewport = Viewport::new(800, 600);
    game.resized(&mut renderer, &mut viewport, 1280, 720);
    assert_eq!(renderer.canvas(), Rect { width: 1280, height: 720 });
    assert_eq!(renderer.depth_texture().width, 1280);
    assert_eq!(renderer.depth_texture().height, 720);
    assert_eq!(viewport.projection().width, 1280);
    assert_eq!(viewport.projection().height, 720);
}

#[test]
fn reset_clears_the_pointer_input() {
    let mut events = Events { paused: true, mouse: MouseEvent { dx: 3, dy: -4, ds: 120 } };
    events.reset();
    assert_eq!(events.mouse, MouseEvent { dx: 0, dy: 0, ds: 0 });
    assert!(events.paused);
    let mut events = Events { paused: false, mouse: MouseEvent { dx: 0, dy: 1, ds: 0 } };
    events.reset();
    assert_eq!(events, Events { paused: false, mouse: MouseEvent { dx: 0, dy: 0, ds: 0 } });
}

#[test]
fn take_reads_and_clears_in_one_step() {
    let mut events = Events { paused: false, mouse: MouseEvent { dx: 3, dy: -4, ds: 120 } };
    assert_eq!(events.take(), MouseEvent { dx: 3, dy: -4, ds: 120 });
    assert_eq!(events.mouse, MouseEvent { dx: 0, dy: 0, ds: 0 });
    assert_eq!(events.take(), MouseEvent { dx: 0, dy: 0, ds: 0 });
    assert!(!events.paused);
}
