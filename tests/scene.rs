use cosmo_invaders::scene::{
    button_shade, ButtonShade, GameState, Interaction, MenuButtonAction, MenuState, Scene, Screen, SPLASH_MICROS,
};

#[test]
fn splash_moves_to_menu_after_one_second() {
    let mut s = Scene::new();
    assert!(s.shows(Screen::Splash));
    assert!(!s.countdown(400_000));
    assert!(!s.countdown(599_999));
    assert_eq!(s.state, GameState::Splash);
    assert!(s.countdown(1));
    assert_eq!(s.state, GameState::Menu);
    assert_eq!(s.menu, MenuState::Main);
    assert_eq!(s.splash_elapsed, SPLASH_MICROS);
    assert!(!s.shows(Screen::Splash));
    assert!(s.shows(Screen::MainMenu));
}

#[test]
fn long_frame_ends_splash() {
    let mut s = Scene::new();
    assert!(s.countdown(u64::MAX));
    assert_eq!(s.state, GameState::Menu);
}

#[test]
fn menu_pages_and_play() {
    let mut s = Scene::new();
    s.countdown(SPLASH_MICROS);
    assert!(!s.accepts(MenuButtonAction::BackToMainMenu));
    assert!(s.accepts(MenuButtonAction::Settings));
    assert!(!s.menu_action(MenuButtonAction::Settings));
    assert_eq!(s.menu, MenuState::Settings);
    assert!(s.shows(Screen::SettingsMenu));
    assert!(!s.shows(Screen::MainMenu));
    assert!(!s.accepts(MenuButtonAction::Settings));
    assert!(!s.menu_action(MenuButtonAction::BackToMainMenu));
    assert_eq!(s.menu, MenuState::Main);
    assert!(!s.menu_action(MenuButtonAction::Play));
    assert_eq!(s.state, GameState::Game);
    assert_eq!(s.menu, MenuState::Disabled);
    assert!(s.shows(Screen::Game));
    assert!(!s.shows(Screen::MainMenu));
}

#[test]
fn quit_changes_nothing() {
    let mut s = Scene::new();
    s.countdown(SPLASH_MICROS);
    let before = s;
    assert!(s.menu_action(MenuButtonAction::Quit));
    assert_eq!(s, before);
}

#[test]
fn button_shades() {
    assert_eq!(button_shade(Interaction::Clicked, false), ButtonShade::Pressed);
    assert_eq!(button_shade(Interaction::Clicked, true), ButtonShade::Pressed);
    assert_eq!(button_shade(Interaction::Idle, true), ButtonShade::Pressed);
    assert_eq!(button_shade(Interaction::Hovered, true), ButtonShade::HoveredPressed);
    assert_eq!(button_shade(Interaction::Hovered, false), ButtonShade::Hovered);
    assert_eq!(button_shade(Interaction::Idle, false), ButtonShade::Normal);
}
