use rvis::controller::{Command, VisualizationMode};
use rvis::input::{InputDispatcher, Key};
use rvis::waterfall::{BinSelection, ScrollDirection};

#[test]
fn playback_keys() {
    let d = InputDispatcher::new();
    assert_eq!(d.key_down(Key::KeyQ), Command::Quit);
    assert_eq!(d.key_down(Key::KeyA), Command::Stop);
    assert_eq!(d.key_down(Key::KeyS), Command::Play);
    assert_eq!(d.key_down(Key::KeyD), Command::Pause);
}

#[test]
fn mode_keys() {
    let d = InputDispatcher::new();
    assert_eq!(
        d.key_down(Key::KeyK),
        Command::SetMode(VisualizationMode::Kaleidoscope)
    );
    assert_eq!(
        d.key_down(Key::KeyW),
        Command::SetMode(VisualizationMode::Waterfall)
    );
}

#[test]
fn shift_picks_the_other_toggle_value() {
    let mut d = InputDispatcher::new();
    assert!(!d.shift_held);
    assert_eq!(
        d.key_down(Key::Num0),
        Command::SetBinSelection(BinSelection::Mirrored)
    );
    assert_eq!(
        d.key_down(Key::Num1),
        Command::SetScrollDirection(ScrollDirection::Upward)
    );
    d.modifiers_changed(true);
    assert_eq!(
        d.key_down(Key::Num0),
        Command::SetBinSelection(BinSelection::Normal)
    );
    assert_eq!(
        d.key_down(Key::Num1),
        Command::SetScrollDirection(ScrollDirection::Downward)
    );
    d.modifiers_changed(false);
    assert_eq!(
        d.key_down(Key::Num0),
        Command::SetBinSelection(BinSelection::Mirrored)
    );
}
