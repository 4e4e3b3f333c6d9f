use heart::internal::app::{window_event, Action, Config, Event};
use heart::keyboard::Scancode;
use heart::mouse::Button;

#[test]
fn no_key_is_down_at_first() {
    let state = heart::keyboard::state::init();
    assert!(!heart::keyboard::is_pressed(&state, Scancode::Backquote));
    assert!(!heart::keyboard::is_pressed(&state, Scancode::KeyA));
    assert!(!heart::keyboard::is_pressed(&state, Scancode::Pause));
}

#[test]
fn keys_are_kept_apart() {
    let mut state = heart::keyboard::state::init();
    state.set_key(Scancode::KeyA, true);
    state.set_key(Scancode::Pause, true);
    assert!(state.get_key(Scancode::KeyA));
    assert!(state.get_key(Scancode::Pause));
    assert!(!state.get_key(Scancode::KeyB));
    assert!(!state.get_key(Scancode::ScrollLock));
    state.set_key(Scancode::KeyA, false);
    assert!(!heart::keyboard::is_pressed(&state, Scancode::KeyA));
    assert!(heart::keyboard::is_pressed(&state, Scancode::Pause));
}

#[test]
fn scancodes_are_numbered_in_order() {
    assert_eq!(Scancode::Backquote.index(), 0);
    assert_eq!(Scancode::KeyA.index(), 19);
    assert_eq!(Scancode::Space.index(), 62);
    assert_eq!(Scancode::Pause.index(), 110);
    assert_eq!(Scancode::Unidentified.index(), 111);
    assert_eq!(heart::keyboard::KEY_COUNT, 111);
}

#[test]
fn mouse_starts_without_a_position() {
    let state = heart::mouse::state::init();
    assert!(!heart::mouse::is_pressed(&state, Button::Left));
    assert!(!heart::mouse::is_pressed(&state, Button::Right));
    assert!(!heart::mouse::is_pressed(&state, Button::Middle));
    let (x, y) = heart::mouse::get_position(&state);
    assert_eq!((x, y), (f32::NAN.to_bits(), f32::NAN.to_bits()));
    assert!(f32::from_bits(x).is_nan());
}

#[test]
fn mouse_keeps_buttons_and_position() {
    let mut state = heart::mouse::state::init();
    state.set_button(Button::Right, true);
    state.set_position(1.5f32.to_bits(), (-2.0f32).to_bits());
    assert!(!state.get_button(Button::Left));
    assert!(state.get_button(Button::Right));
    assert!(!state.get_button(Button::Middle));
    let (x, y) = state.get_position();
    assert_eq!((f32::from_bits(x), f32::from_bits(y)), (1.5, -2.0));
    state.set_button(Button::Right, false);
    state.set_button(Button::Middle, true);
    assert_eq!(
        (state.get_button(Button::Left), state.get_button(Button::Right), state.get_button(Button::Middle)),
        (false, false, true)
    );
    assert_eq!((Button::Left.index(), Button::Right.index(), Button::Middle.index()), (0, 1, 2));
}

#[test]
fn window_title_defaults() {
    let mut config = Config::default();
    assert_eq!(config.take_title(), "heart");
    let mut named = Config { title: Some(String::from("game")) };
    assert_eq!(named.take_title(), "game");
    assert!(named.title.is_none());
    assert_eq!(named.take_title(), "heart");
}

#[test]
fn events_become_actions() {
    let mut keyboard = heart::keyboard::state::init();
    let mut mouse = heart::mouse::state::init();
    assert_eq!(window_event(&mut keyboard, &mut mouse, Event::RedrawRequested), Action::Redraw);
    assert_eq!(window_event(&mut keyboard, &mut mouse, Event::CloseRequested), Action::Exit);
    assert_eq!(window_event(&mut keyboard, &mut mouse, Event::Other), Action::Ignore);
    assert_eq!(
        window_event(&mut keyboard, &mut mouse, Event::Resized { width: 640, height: 480 }),
        Action::Resize { width: 640, height: 480 }
    );
    assert_eq!(
        window_event(&mut keyboard, &mut mouse, Event::Resized { width: 0, height: 480 }),
        Action::Ignore
    );
    assert_eq!(
        window_event(&mut keyboard, &mut mouse, Event::Resized { width: 640, height: 0 }),
        Action::Ignore
    );
}

#[test]
fn key_events_are_recorded_unless_repeated() {
    let mut keyboard = heart::keyboard::state::init();
    let mut mouse = heart::mouse::state::init();
    let down = Event::KeyboardInput { repeat: false, scancode: Scancode::Enter, pressed: true };
    assert_eq!(
        window_event(&mut keyboard, &mut mouse, down),
        Action::KeyPressed { scancode: Scancode::Enter }
    );
    assert!(keyboard.get_key(Scancode::Enter));
    let held = Event::KeyboardInput { repeat: true, scancode: Scancode::Enter, pressed: false };
    assert_eq!(window_event(&mut keyboard, &mut mouse, held), Action::Ignore);
    assert!(keyboard.get_key(Scancode::Enter));
    let unknown =
        Event::KeyboardInput { repeat: true, scancode: Scancode::Unidentified, pressed: true };
    assert_eq!(window_event(&mut keyboard, &mut mouse, unknown), Action::Ignore);
    let up = Event::KeyboardInput { repeat: false, scancode: Scancode::Enter, pressed: false };
    assert_eq!(
        window_event(&mut keyboard, &mut mouse, up),
        Action::KeyReleased { scancode: Scancode::Enter }
    );
    assert!(!keyboard.get_key(Scancode::Enter));
}

#[test]
fn mouse_events_carry_the_position() {
    let mut keyboard = heart::keyboard::state::init();
    let mut mouse = heart::mouse::state::init();
    let nan = f32::NAN.to_bits();
    assert_eq!(
        window_event(&mut keyboard, &mut mouse, Event::CursorMoved { x: 10, y: 20 }),
        Action::MouseMoved { x: 10, y: 20, from_x: nan, from_y: nan }
    );
    assert_eq!(
        window_event(&mut keyboard, &mut mouse, Event::CursorMoved { x: 11, y: 22 }),
        Action::MouseMoved { x: 11, y: 22, from_x: 10, from_y: 20 }
    );
    assert_eq!(mouse.get_position(), (11, 22));
    assert_eq!(
        window_event(
            &mut keyboard,
            &mut mouse,
            Event::MouseInput { button: Some(Button::Middle), pressed: true }
        ),
        Action::MousePressed { x: 11, y: 22, button: Button::Middle }
    );
    assert!(mouse.get_button(Button::Middle));
    assert_eq!(
        window_event(&mut keyboard, &mut mouse, Event::MouseInput { button: None, pressed: true }),
        Action::Ignore
    );
    assert_eq!(
        window_event(
            &mut keyboard,
            &mut mouse,
            Event::MouseInput { button: Some(Button::Middle), pressed: false }
        ),
        Action::MouseReleased { x: 11, y: 22, button: Button::Middle }
    );
    assert!(!mouse.get_button(Button::Middle));
}

#[test]
fn a_key_outside_the_table_is_dispatched_and_not_recorded() {
    let mut keyboard = heart::keyboard::state::init();
    let mut mouse = heart::mouse::state::init();
    keyboard.set_key(Scancode::Pause, true);
    let down =
        Event::KeyboardInput { repeat: false, scancode: Scancode::Unidentified, pressed: true };
    assert_eq!(
        window_event(&mut keyboard, &mut mouse, down),
        Action::KeyPressed { scancode: Scancode::Unidentified }
    );
    assert!(!heart::keyboard::is_pressed(&keyboard, Scancode::Unidentified));
    let up =
        Event::KeyboardInput { repeat: false, scancode: Scancode::Unidentified, pressed: false };
    assert_eq!(
        window_event(&mut keyboard, &mut mouse, up),
        Action::KeyReleased { scancode: Scancode::Unidentified }
    );
    assert!(!heart::keyboard::is_pressed(&keyboard, Scancode::Unidentified));
    assert!(heart::keyboard::is_pressed(&keyboard, Scancode::Pause));
    assert!(!heart::keyboard::is_pressed(&keyboard, Scancode::F12));
    assert!(!heart::keyboard::is_pressed(&keyboard, Scancode::Backquote));
    assert_eq!(mouse.get_position(), (f32::NAN.to_bits(), f32::NAN.to_bits()));
}
