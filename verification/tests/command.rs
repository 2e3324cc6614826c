use pinboard::board::Colour;
use pinboard::command::{command_for, paste, BoardAppState, Command, Key, KeyPress, Mode, Paste};
use pinboard::reference::ImageType;

fn press(key: Key) -> KeyPress {
    KeyPress { key, repeated: false, unmodified: true }
}

#[test]
fn each_key_asks_for_its_command() {
    assert_eq!(command_for(press(Key::A)), Some(Command::AddFromClipboard));
    assert_eq!(command_for(press(Key::S)), Some(Command::Save));
    assert_eq!(command_for(press(Key::X)), Some(Command::RemoveSelected));
    assert_eq!(command_for(press(Key::Tab)), Some(Command::ToggleColourScheme));
    assert_eq!(command_for(press(Key::Space)), Some(Command::ToggleDebugBounds));
    assert_eq!(command_for(press(Key::D)), Some(Command::ToggleSelectionInfo));
    assert_eq!(command_for(press(Key::H)), Some(Command::Help));
    assert_eq!(command_for(press(Key::Escape)), Some(Command::Quit));
    assert_eq!(command_for(press(Key::Other)), None);
}

#[test]
fn a_repeated_press_asks_for_nothing() {
    for key in [Key::A, Key::S, Key::X, Key::Tab, Key::Space, Key::D, Key::H, Key::Escape, Key::Other] {
        assert_eq!(command_for(KeyPress { key, repeated: true, unmodified: true }), None);
    }
}

#[test]
fn a_modified_tab_asks_for_nothing() {
    assert_eq!(command_for(KeyPress { key: Key::Tab, repeated: false, unmodified: false }), None);
    assert_eq!(
        command_for(KeyPress { key: Key::A, repeated: false, unmodified: false }),
        Some(Command::AddFromClipboard)
    );
}

#[test]
fn the_session_starts_light_with_nothing_extra_drawn() {
    let state = BoardAppState::default();
    assert_eq!(state, BoardAppState { mode: Mode::Light, draw_bounds: false, draw_selection_info: false });
    assert_eq!(state.background_colour(), Colour::Light);
}

#[test]
fn switching_colours_goes_back_and_forth() {
    let mut state = BoardAppState::default();
    assert_eq!(state.switch_colours(), (Colour::Dark, Colour::Light));
    assert_eq!(state.mode, Mode::Dark);
    assert_eq!(state.background_colour(), Colour::Dark);
    assert_eq!(state.switch_colours(), (Colour::Light, Colour::Dark));
    assert_eq!(state.mode, Mode::Light);
    assert_eq!(state, BoardAppState::default());
}

#[test]
fn the_toggles_change_one_setting_each() {
    let mut state = BoardAppState::default();
    state.apply(Command::ToggleDebugBounds);
    assert_eq!(state, BoardAppState { mode: Mode::Light, draw_bounds: true, draw_selection_info: false });
    state.apply(Command::ToggleSelectionInfo);
    assert_eq!(state, BoardAppState { mode: Mode::Light, draw_bounds: true, draw_selection_info: true });
    state.apply(Command::ToggleColourScheme);
    assert_eq!(state, BoardAppState { mode: Mode::Dark, draw_bounds: true, draw_selection_info: true });
    state.apply(Command::ToggleDebugBounds);
    assert_eq!(state, BoardAppState { mode: Mode::Dark, draw_bounds: false, draw_selection_info: true });
    for command in [Command::AddFromClipboard, Command::Save, Command::RemoveSelected, Command::Help, Command::Quit] {
        let before = state;
        state.apply(command);
        assert_eq!(state, before);
    }
}

#[test]
fn key_down_applies_the_command_it_returns() {
    let mut state = BoardAppState::default();
    assert_eq!(state.key_down(press(Key::Space)), Some(Command::ToggleDebugBounds));
    assert!(state.draw_bounds);
    assert_eq!(state.key_down(KeyPress { key: Key::Space, repeated: true, unmodified: true }), None);
    assert!(state.draw_bounds);
    assert_eq!(state.key_down(press(Key::Tab)), Some(Command::ToggleColourScheme));
    assert_eq!(state.mode, Mode::Dark);
    assert_eq!(state.key_down(press(Key::S)), Some(Command::Save));
    assert_eq!(state, BoardAppState { mode: Mode::Dark, draw_bounds: true, draw_selection_info: false });
}

#[test]
fn saving_comes_with_save_and_with_quit() {
    assert!(Command::Save.saves());
    assert!(Command::Quit.saves());
    for command in [
        Command::AddFromClipboard,
        Command::RemoveSelected,
        Command::ToggleColourScheme,
        Command::ToggleDebugBounds,
        Command::ToggleSelectionInfo,
        Command::Help,
    ] {
        assert!(!command.saves());
    }
}

#[test]
fn a_paste_is_an_image_where_the_text_refers_to_one() {
    assert_eq!(
        paste("http://x.com/a.png", false),
        Paste::Image(ImageType::Online("http://x.com/a.png".to_owned()))
    );
    assert_eq!(
        paste("http://x.com/page.html", false),
        Paste::Image(ImageType::Web("http://x.com/page.html".to_owned()))
    );
    assert_eq!(
        paste("/home/u/pic.png", false),
        Paste::Image(ImageType::Local("/home/u/pic.png".to_owned()))
    );
    assert_eq!(paste("just some text", false), Paste::Text);
    assert_eq!(paste("", false), Paste::Text);
}

#[test]
fn a_paste_is_text_where_the_user_asks_for_text() {
    assert_eq!(paste("http://x.com/a.png", true), Paste::Text);
    assert_eq!(paste("/home/u/pic.png", true), Paste::Text);
    assert_eq!(paste("just some text", true), Paste::Text);
}
