use vstd::prelude::*;

verus! {

/// How long the splash screen stays up, in microseconds: one second.
pub const SPLASH_MICROS: u64 = 1_000_000;

/// The top-level screens.
#[derive(Clone, Copy, Debug, PartialEq, Eq, Hash, Structural)]
pub enum GameState {
    Splash,
    Menu,
    Game,
}

/// The page shown while in the menu; `Disabled` outside of it.
#[derive(Clone, Copy, Debug, PartialEq, Eq, Hash, Structural)]
pub enum MenuState {
    Main,
    Settings,
    Disabled,
}

/// What a menu button does when clicked.
#[derive(Clone, Copy, Debug, PartialEq, Eq, Structural)]
pub enum MenuButtonAction {
    Play,
    Settings,
    BackToMainMenu,
    BackToSettings,
    Quit,
}

/// A group of entities that appear and go together.
#[derive(Clone, Copy, Debug, PartialEq, Eq, Hash, Structural)]
pub enum Screen {
    Splash,
    MainMenu,
    SettingsMenu,
    Game,
}

/// The pointer's relation to a button.
#[derive(Clone, Copy, Debug, PartialEq, Eq, Structural)]
pub enum Interaction {
    Clicked,
    Hovered,
    Idle,
}

/// The background a button is drawn with.
#[derive(Clone, Copy, Debug, PartialEq, Eq, Structural)]
pub enum ButtonShade {
    Normal,
    Hovered,
    HoveredPressed,
    Pressed,
}

/// The shade of a button: pressed while clicked or while it is the selected
/// option, lighter while hovered.
pub open spec fn shade_of(interaction: Interaction, selected: bool) -> ButtonShade {
    match interaction {
        Interaction::Clicked => ButtonShade::Pressed,
        Interaction::Hovered => if selected {
            ButtonShade::HoveredPressed
        } else {
            ButtonShade::Hovered
        },
        Interaction::Idle => if selected {
            ButtonShade::Pressed
        } else {
            ButtonShade::Normal
        },
    }
}

/// The shade to draw a button with.
pub fn button_shade(interaction: Interaction, selected: bool) -> (r: ButtonShade)
    ensures
        r == shade_of(interaction, selected),
{
    match interaction {
        Interaction::Clicked => ButtonShade::Pressed,
        Interaction::Hovered => if selected {
            ButtonShade::HoveredPressed
        } else {
            ButtonShade::Hovered
        },
        Interaction::Idle => if selected {
            ButtonShade::Pressed
        } else {
            ButtonShade::Normal
        },
    }
}

/// The menu page an action leads to, if it changes the page.
pub open spec fn target_page(action: MenuButtonAction) -> MenuState {
    match action {
        MenuButtonAction::Play => MenuState::Disabled,
        MenuButtonAction::Settings => MenuState::Settings,
        MenuButtonAction::BackToMainMenu => MenuState::Main,
        MenuButtonAction::BackToSettings => MenuState::Settings,
        MenuButtonAction::Quit => MenuState::Main,
    }
}

/// Which screen is up, and the splash screen's clock.
#[derive(Clone, Copy, Debug, PartialEq, Eq, Structural)]
pub struct Scene {
    pub state: GameState,
    pub menu: MenuState,
    /// Time spent on the splash screen so far, in microseconds, up to
    /// `SPLASH_MICROS`.
    pub splash_elapsed: u64,
}

impl Scene {
    /// A menu page is shown exactly while in the menu.
    pub open spec fn wf(&self) -> bool {
        &&& (self.state == GameState::Menu) == (self.menu != MenuState::Disabled)
        &&& self.splash_elapsed <= SPLASH_MICROS
    }

    /// The entities of `screen` exist in this scene.
    pub open spec fn shows_spec(&self, screen: Screen) -> bool {
        match screen {
            Screen::Splash => self.state == GameState::Splash,
            Screen::MainMenu => self.menu == MenuState::Main,
            Screen::SettingsMenu => self.menu == MenuState::Settings,
            Screen::Game => self.state == GameState::Game,
        }
    }

    /// `action` can be taken: it quits, or it moves to a page other than the
    /// current one.
    pub open spec fn accepts_spec(&self, action: MenuButtonAction) -> bool {
        action == MenuButtonAction::Quit || target_page(action) != self.menu
    }

    /// The scene at start-up: the splash screen, with its clock at zero.
    pub fn new() -> (s: Scene)
        ensures
            s.wf(),
            s == (Scene { state: GameState::Splash, menu: MenuState::Disabled, splash_elapsed: 0 }),
    {
        Scene { state: GameState::Splash, menu: MenuState::Disabled, splash_elapsed: 0 }
    }

    /// Whether the entities of `screen` exist in this scene: when the answer
    /// changes from one scene to the next, the screen is built or torn down.
    pub fn shows(&self, screen: Screen) -> (r: bool)
        ensures
            r == self.shows_spec(screen),
    {
        match screen {
            Screen::Splash => self.state == GameState::Splash,
            Screen::MainMenu => self.menu == MenuState::Main,
            Screen::SettingsMenu => self.menu == MenuState::Settings,
            Screen::Game => self.state == GameState::Game,
        }
    }

    /// Whether `action` can be taken from the current menu page.
    pub fn accepts(&self, action: MenuButtonAction) -> (r: bool)
        ensures
            r == self.accepts_spec(action),
    {
        match action {
            MenuButtonAction::Quit => true,
            MenuButtonAction::Play => self.menu != MenuState::Disabled,
            MenuButtonAction::Settings => self.menu != MenuState::Settings,
            MenuButtonAction::BackToMainMenu => self.menu != MenuState::Main,
            MenuButtonAction::BackToSettings => self.menu != MenuState::Settings,
        }
    }

    /// Advances the splash screen's clock by `delta_micros`. Once a second
    /// has gone by, moves to the menu, which opens on its main page, and
    /// returns true.
    pub fn countdown(&mut self, delta_micros: u64) -> (done: bool)
        requires
            old(self).wf(),
            old(self).state == GameState::Splash,
        ensures
            final(self).wf(),
            done == (old(self).splash_elapsed + delta_micros >= SPLASH_MICROS),
            final(self).splash_elapsed == (if done {
                SPLASH_MICROS
            } else {
                (old(self).splash_elapsed + delta_micros) as u64
            }),
            done ==> final(self).state == GameState::Menu && final(self).menu == MenuState::Main,
            !done ==> final(self).state == GameState::Splash && final(self).menu == old(self).menu,
    {
        let left = SPLASH_MICROS - self.splash_elapsed;
        if delta_micros >= left {
            self.splash_elapsed = SPLASH_MICROS;
            self.state = GameState::Menu;
            self.menu = MenuState::Main;
            true
        } else {
            self.splash_elapsed = self.splash_elapsed + delta_micros;
            false
        }
    }

    /// Takes a clicked menu action. Play starts the game and closes the menu;
    /// Settings and the two Back actions change the page; Quit changes
    /// nothing and returns true, asking the application to exit.
    pub fn menu_action(&mut self, action: MenuButtonAction) -> (quit: bool)
        requires
            old(self).wf(),
            old(self).state == GameState::Menu,
            old(self).accepts_spec(action),
        ensures
            final(self).wf(),
            quit == (action == MenuButtonAction::Quit),
            final(self).splash_elapsed == old(self).splash_elapsed,
            quit ==> *final(self) == *old(self),
            !quit ==> final(self).menu == target_page(action),
            final(self).state == (if action == MenuButtonAction::Play {
                GameState::Game
            } else {
                GameState::Menu
            }),
    {
        match action {
            MenuButtonAction::Quit => {
                return true;
            },
            MenuButtonAction::Play => {
                self.state = GameState::Game;
                self.menu = MenuState::Disabled;
            },
            MenuButtonAction::Settings => {
                self.menu = MenuState::Settings;
            },
            MenuButtonAction::BackToMainMenu => {
                self.menu = MenuState::Main;
            },
            MenuButtonAction::BackToSettings => {
                self.menu = MenuState::Settings;
            },
        }
        false
    }
}

} // verus!
