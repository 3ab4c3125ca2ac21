use vstd::prelude::*;
use crate::lighting::Rgb;

verus! {

/// Which screen the game shows.
#[derive(Clone, Copy, Debug, PartialEq, Eq, Hash, Structural)]
pub enum GameState {
    MainMenu,
    Settings,
    InGame,
}

impl Default for GameState {
    /// The game opens on the main menu.
    fn default() -> (r: GameState)
        ensures
            r == GameState::MainMenu,
    {
        GameState::MainMenu
    }
}

/// The player's visual settings.
#[derive(Clone, Copy, Debug, PartialEq, Eq, Structural)]
pub struct GameSettings {
    pub motion_blur_enabled: bool,
    pub post_processing_enabled: bool,
    pub atmospheric_fog_enabled: bool,
}

impl Default for GameSettings {
    /// Every effect starts enabled.
    fn default() -> (r: GameSettings)
        ensures
            r == (GameSettings {
                motion_blur_enabled: true,
                post_processing_enabled: true,
                atmospheric_fog_enabled: true,
            }),
    {
        GameSettings {
            motion_blur_enabled: true,
            post_processing_enabled: true,
            atmospheric_fog_enabled: true,
        }
    }
}

/// How the pointer meets a button.
#[derive(Clone, Copy, Debug, PartialEq, Eq, Structural)]
pub enum ButtonInteraction {
    Pressed,
    Hovered,
    Idle,
}

/// The colour a plain menu button takes when its interaction changes:
/// light grey under the pointer, mid grey otherwise; unchanged when pressed.
pub fn hover_color(interaction: ButtonInteraction) -> (r: Option<Rgb>)
    ensures
        interaction == ButtonInteraction::Hovered ==> r == Some(Rgb { r: 700, g: 700, b: 700 }),
        interaction == ButtonInteraction::Idle ==> r == Some(Rgb { r: 500, g: 500, b: 500 }),
        interaction == ButtonInteraction::Pressed ==> r == None::<Rgb>,
{
    match interaction {
        ButtonInteraction::Hovered => Some(Rgb::new(700, 700, 700)),
        ButtonInteraction::Idle => Some(Rgb::new(500, 500, 500)),
        ButtonInteraction::Pressed => None,
    }
}

/// What the main menu does in a frame.
#[derive(Clone, Copy, Debug, PartialEq, Eq, Structural)]
pub struct MainMenuOutcome {
    /// The screen to switch to, if any.
    pub next_state: Option<GameState>,
    /// Whether to quit the game.
    pub exit: bool,
}

/// The main menu's buttons: play starts a race, settings opens the settings
/// screen (and wins if both are pressed in one frame), exit quits.
pub fn main_menu_system(play_pressed: bool, settings_pressed: bool, exit_pressed: bool) -> (r:
    MainMenuOutcome)
    ensures
        settings_pressed ==> r.next_state == Some(GameState::Settings),
        !settings_pressed && play_pressed ==> r.next_state == Some(GameState::InGame),
        !settings_pressed && !play_pressed ==> r.next_state == None::<GameState>,
        r.exit == exit_pressed,
{
    let mut next_state: Option<GameState> = None;
    if play_pressed {
        next_state = Some(GameState::InGame);
    }
    if settings_pressed {
        next_state = Some(GameState::Settings);
    }
    MainMenuOutcome { next_state, exit: exit_pressed }
}

/// One of the settings that the settings screen toggles.
#[derive(Clone, Copy, Debug, PartialEq, Eq, Structural)]
pub enum SettingToggle {
    MotionBlur,
    PostProcessing,
    AtmosphericFog,
}

/// The buttons pressed on the settings screen in one frame.
#[derive(Clone, Copy, Debug, PartialEq, Eq, Structural)]
pub struct SettingsPresses {
    pub motion_blur: bool,
    pub post_processing: bool,
    pub atmospheric_fog: bool,
    pub back: bool,
}

/// The settings screen: each pressed toggle flips its setting; back returns
/// to the main menu.
pub fn settings_menu_system(settings: &mut GameSettings, presses: SettingsPresses) -> (r: Option<
    GameState,
>)
    ensures
        final(settings).motion_blur_enabled == (old(settings).motion_blur_enabled
            != presses.motion_blur),
        final(settings).post_processing_enabled == (old(settings).post_processing_enabled
            != presses.post_processing),
        final(settings).atmospheric_fog_enabled == (old(settings).atmospheric_fog_enabled
            != presses.atmospheric_fog),
        presses.back ==> r == Some(GameState::MainMenu),
        !presses.back ==> r == None::<GameState>,
{
    if presses.motion_blur {
        settings.motion_blur_enabled = !settings.motion_blur_enabled;
    }
    if presses.post_processing {
        settings.post_processing_enabled = !settings.post_processing_enabled;
    }
    if presses.atmospheric_fog {
        settings.atmospheric_fog_enabled = !settings.atmospheric_fog_enabled;
    }
    if presses.back {
        Some(GameState::MainMenu)
    } else {
        None
    }
}

impl GameSettings {
    /// Whether the given setting is on.
    pub fn is_enabled(&self, toggle: SettingToggle) -> (r: bool)
        ensures
            toggle == SettingToggle::MotionBlur ==> r == self.motion_blur_enabled,
            toggle == SettingToggle::PostProcessing ==> r == self.post_processing_enabled,
            toggle == SettingToggle::AtmosphericFog ==> r == self.atmospheric_fog_enabled,
    {
        match toggle {
            SettingToggle::MotionBlur => self.motion_blur_enabled,
            SettingToggle::PostProcessing => self.post_processing_enabled,
            SettingToggle::AtmosphericFog => self.atmospheric_fog_enabled,
        }
    }
}

/// The colour of a toggle button: green when on, red when off.
pub fn toggle_color(enabled: bool) -> (r: Rgb)
    ensures
        enabled ==> r == (Rgb { r: 200, g: 800, b: 200 }),
        !enabled ==> r == (Rgb { r: 800, g: 200, b: 200 }),
{
    if enabled {
        Rgb::new(200, 800, 200)
    } else {
        Rgb::new(800, 200, 200)
    }
}

/// The text of a toggle button: the setting's name and ON or OFF.
pub fn toggle_label(toggle: SettingToggle, enabled: bool) -> (r: &'static str)
    ensures
        toggle == SettingToggle::MotionBlur && enabled ==> r@ == "MOTION BLUR: ON"@,
        toggle == SettingToggle::MotionBlur && !enabled ==> r@ == "MOTION BLUR: OFF"@,
        toggle == SettingToggle::PostProcessing && enabled ==> r@ == "POST PROCESSING: ON"@,
        toggle == SettingToggle::PostProcessing && !enabled ==> r@ == "POST PROCESSING: OFF"@,
        toggle == SettingToggle::AtmosphericFog && enabled ==> r@ == "ATMOSPHERIC FOG: ON"@,
        toggle == SettingToggle::AtmosphericFog && !enabled ==> r@ == "ATMOSPHERIC FOG: OFF"@,
{
    match toggle {
        SettingToggle::MotionBlur => if enabled {
            "MOTION BLUR: ON"
        } else {
            "MOTION BLUR: OFF"
        },
        SettingToggle::PostProcessing => if enabled {
            "POST PROCESSING: ON"
        } else {
            "POST PROCESSING: OFF"
        },
        SettingToggle::AtmosphericFog => if enabled {
            "ATMOSPHERIC FOG: ON"
        } else {
            "ATMOSPHERIC FOG: OFF"
        },
    }
}

/// Bare marker for the menu stage of the game.
#[derive(Clone, Copy, Debug, PartialEq, Eq, Structural)]
pub struct MenuPlugin;

/// Bare tag of everything on the main menu screen.
#[derive(Clone, Copy, Debug, PartialEq, Eq, Structural)]
pub struct MainMenuUI;

/// Bare tag of everything on the settings screen.
#[derive(Clone, Copy, Debug, PartialEq, Eq, Structural)]
pub struct SettingsMenuUI;

/// Bare tag of the play button.
#[derive(Clone, Copy, Debug, PartialEq, Eq, Structural)]
pub struct PlayButton;

/// Bare tag of the settings button.
#[derive(Clone, Copy, Debug, PartialEq, Eq, Structural)]
pub struct SettingsButton;

/// Bare tag of the exit button.
#[derive(Clone, Copy, Debug, PartialEq, Eq, Structural)]
pub struct ExitButton;

/// Bare tag of the back button.
#[derive(Clone, Copy, Debug, PartialEq, Eq, Structural)]
pub struct BackButton;

/// Bare tag of the motion-blur toggle.
#[derive(Clone, Copy, Debug, PartialEq, Eq, Structural)]
pub struct MotionBlurToggle;

/// Bare tag of the motion-blur toggle's text.
#[derive(Clone, Copy, Debug, PartialEq, Eq, Structural)]
pub struct MotionBlurText;

/// Bare tag of the motion-blur toggle's button.
#[derive(Clone, Copy, Debug, PartialEq, Eq, Structural)]
pub struct MotionBlurButton;

/// Bare tag of the post-processing toggle.
#[derive(Clone, Copy, Debug, PartialEq, Eq, Structural)]
pub struct PostProcessToggle;

/// Bare tag of the post-processing toggle's text.
#[derive(Clone, Copy, Debug, PartialEq, Eq, Structural)]
pub struct PostProcessText;

/// Bare tag of the post-processing toggle's button.
#[derive(Clone, Copy, Debug, PartialEq, Eq, Structural)]
pub struct PostProcessButton;

/// Bare tag of the fog toggle.
#[derive(Clone, Copy, Debug, PartialEq, Eq, Structural)]
pub struct AtmosphericFogToggle;

/// Bare tag of the fog toggle's text.
#[derive(Clone, Copy, Debug, PartialEq, Eq, Structural)]
pub struct AtmosphericFogText;

/// Bare tag of the fog toggle's button.
#[derive(Clone, Copy, Debug, PartialEq, Eq, Structural)]
pub struct AtmosphericFogButton;

} // verus!
