//! The main menu: AI difficulty presets, the menu's configuration state,
//! the effect of each menu button, and the look of the buttons.
use vstd::prelude::*;
use crate::game::Player;
use crate::i18n::Language;
use crate::session::GameMode;

verus! {

/// Search iterations and preset difficulties for the AI opponent.
#[derive(Debug, Clone, Copy, PartialEq, Eq, Structural)]
pub enum AiDifficulty {
    /// 50 iterations: fast, responsive.
    Simple,
    /// 200 iterations: moderate depth.
    Normal,
    /// 1000 iterations: deep tactical search.
    Hard,
}

impl AiDifficulty {
    pub open spec fn spec_iterations(self) -> usize {
        match self {
            AiDifficulty::Simple => 50,
            AiDifficulty::Normal => 200,
            AiDifficulty::Hard => 1000,
        }
    }

    /// The default difficulty.
    pub fn default() -> (d: AiDifficulty)
        ensures
            d == AiDifficulty::Normal,
    {
        AiDifficulty::Normal
    }

    /// Returns the number of MCTS iterations for this difficulty.
    pub fn iterations(self) -> (n: usize)
        ensures
            n == self.spec_iterations(),
    {
        match self {
            AiDifficulty::Simple => 50,
            AiDifficulty::Normal => 200,
            AiDifficulty::Hard => 1000,
        }
    }

    pub open spec fn spec_label(self) -> Seq<char> {
        match self {
            AiDifficulty::Simple => "简单 (50步)"@,
            AiDifficulty::Normal => "普通 (200步)"@,
            AiDifficulty::Hard => "困难 (1000步)"@,
        }
    }

    /// User-facing label in Chinese.
    pub fn label(self) -> (l: &'static str)
        ensures
            l@ == self.spec_label(),
    {
        match self {
            AiDifficulty::Simple => "简单 (50步)",
            AiDifficulty::Normal => "普通 (200步)",
            AiDifficulty::Hard => "困难 (1000步)",
        }
    }
}

/// A harder preset searches more.
pub proof fn lemma_difficulty_iterations_increase()
    ensures
        AiDifficulty::Simple.spec_iterations() < AiDifficulty::Normal.spec_iterations(),
        AiDifficulty::Normal.spec_iterations() < AiDifficulty::Hard.spec_iterations(),
{
}

/// Active view in the main menu hierarchy.
#[derive(Debug, Clone, Copy, PartialEq, Eq, Structural)]
pub enum MenuScreen {
    /// Main landing screen with primary entry points.
    Main,
    /// AI setup screen with player side and difficulty options.
    AiSetup,
}

/// Runtime configuration state maintained while in the main menu.
#[derive(Debug, Clone, Copy, PartialEq, Eq, Structural)]
pub struct MenuSetupConfig {
    pub screen: MenuScreen,
    pub player_color: Player,
    pub difficulty: AiDifficulty,
}

impl MenuSetupConfig {
    /// The main screen, playing Black at normal difficulty.
    pub fn default() -> (c: MenuSetupConfig)
        ensures
            c.screen == MenuScreen::Main,
            c.player_color == Player::Black,
            c.difficulty == AiDifficulty::Normal,
    {
        MenuSetupConfig {
            screen: MenuScreen::Main,
            player_color: Player::Black,
            difficulty: AiDifficulty::Normal,
        }
    }
}

/// Action triggered by pressing a menu button.
#[derive(Debug, Clone, Copy, PartialEq, Eq, Structural)]
pub enum MenuAction {
    /// Start a local 2-player game immediately.
    PlayLocal,
    /// Navigate to the AI match setup screen.
    OpenAiSetup,
    /// Navigate back to the main screen.
    BackToMain,
    /// Select the player's side.
    SelectSide(Player),
    /// Select the AI difficulty.
    SelectDifficulty(AiDifficulty),
    /// Start an AI match with the selected configuration.
    StartAiGame,
    /// Switch between Chinese and English.
    ToggleLanguage,
}

/// A new game that a menu action starts.
#[derive(Debug, Clone, Copy, PartialEq, Eq, Structural)]
pub struct GameStart {
    /// The mode of the new session.
    pub mode: GameMode,
    /// The AI's search iterations, when they are to be set.
    pub ai_iterations: Option<usize>,
}

pub open spec fn spec_menu_config_after(config: MenuSetupConfig, action: MenuAction) -> MenuSetupConfig {
    match action {
        MenuAction::OpenAiSetup => MenuSetupConfig { screen: MenuScreen::AiSetup, ..config },
        MenuAction::BackToMain => MenuSetupConfig { screen: MenuScreen::Main, ..config },
        MenuAction::SelectSide(p) => MenuSetupConfig { player_color: p, ..config },
        MenuAction::SelectDifficulty(d) => MenuSetupConfig { difficulty: d, ..config },
        _ => config,
    }
}

pub open spec fn spec_language_after(language: Language, action: MenuAction) -> Language {
    match action {
        MenuAction::ToggleLanguage => language.spec_toggle(),
        _ => language,
    }
}

pub open spec fn spec_game_start(config: MenuSetupConfig, action: MenuAction) -> Option<GameStart> {
    match action {
        MenuAction::PlayLocal => Some(GameStart { mode: GameMode::Local, ai_iterations: None }),
        MenuAction::StartAiGame => Some(
            GameStart {
                mode: GameMode::AI(config.player_color),
                ai_iterations: Some(config.difficulty.spec_iterations()),
            },
        ),
        _ => None,
    }
}

/// Applies a pressed menu button: navigation and selections change the
/// menu configuration, the language button toggles the language, and the
/// play buttons start a game (local, or against the AI with the selected
/// side and difficulty) that the caller then enters.
pub fn handle_menu_action(
    config: &mut MenuSetupConfig,
    language: &mut Language,
    action: MenuAction,
) -> (start: Option<GameStart>)
    ensures
        *final(config) == spec_menu_config_after(*old(config), action),
        *final(language) == spec_language_after(*old(language), action),
        start == spec_game_start(*old(config), action),
{
    match action {
        MenuAction::PlayLocal => Some(GameStart { mode: GameMode::Local, ai_iterations: None }),
        MenuAction::OpenAiSetup => {
            config.screen = MenuScreen::AiSetup;
            None
        },
        MenuAction::BackToMain => {
            config.screen = MenuScreen::Main;
            None
        },
        MenuAction::SelectSide(player) => {
            config.player_color = player;
            None
        },
        MenuAction::SelectDifficulty(difficulty) => {
            config.difficulty = difficulty;
            None
        },
        MenuAction::StartAiGame => Some(
            GameStart {
                mode: GameMode::AI(config.player_color),
                ai_iterations: Some(config.difficulty.iterations()),
            },
        ),
        MenuAction::ToggleLanguage => {
            *language = language.toggle();
            None
        },
    }
}

/// Choosing a side and a difficulty and then starting starts an AI game on
/// that side with that difficulty's iterations, whatever was chosen before.
pub proof fn lemma_selection_then_start(config: MenuSetupConfig, side: Player, d: AiDifficulty)
    ensures
        spec_game_start(
            spec_menu_config_after(
                spec_menu_config_after(config, MenuAction::SelectSide(side)),
                MenuAction::SelectDifficulty(d),
            ),
            MenuAction::StartAiGame,
        ) == Some(GameStart { mode: GameMode::AI(side), ai_iterations: Some(d.spec_iterations()) }),
{
}

/// Pressing the language button twice restores the language.
pub proof fn lemma_language_button_twice(language: Language)
    ensures
        spec_language_after(
            spec_language_after(language, MenuAction::ToggleLanguage),
            MenuAction::ToggleLanguage,
        ) == language,
{
}

/// The main screen is shown on the main view, the AI setup screen on the
/// setup view. Returns (main shown, setup shown).
pub fn menu_screen_visibility(config: &MenuSetupConfig) -> (r: (bool, bool))
    ensures
        r.0 == (config.screen == MenuScreen::Main),
        r.1 == (config.screen == MenuScreen::AiSetup),
        r.0 != r.1,
{
    (config.screen == MenuScreen::Main, config.screen == MenuScreen::AiSetup)
}

/// The option a selector button stands for.
#[derive(Debug, Clone, Copy, PartialEq, Eq, Structural)]
pub enum OptionMarker {
    Side(Player),
    Difficulty(AiDifficulty),
}

pub open spec fn spec_is_selected(marker: Option<OptionMarker>, config: MenuSetupConfig) -> bool {
    match marker {
        Some(OptionMarker::Side(p)) => p == config.player_color,
        Some(OptionMarker::Difficulty(d)) => d == config.difficulty,
        None => false,
    }
}

/// Whether a selector button shows the current selection.
pub fn is_selected(marker: Option<OptionMarker>, config: &MenuSetupConfig) -> (r: bool)
    ensures
        r == spec_is_selected(marker, *config),
{
    match marker {
        Some(OptionMarker::Side(p)) => p == config.player_color,
        Some(OptionMarker::Difficulty(d)) => d == config.difficulty,
        None => false,
    }
}

/// Pointer interaction with a button.
#[derive(Debug, Clone, Copy, PartialEq, Eq, Structural)]
pub enum Interaction {
    Pressed,
    Hovered,
    Idle,
}

/// The palette entries of a menu button's background.
#[derive(Debug, Clone, Copy, PartialEq, Eq, Structural)]
pub enum ButtonShade {
    Base,
    Hover,
    Pressed,
    Selected,
}

pub open spec fn spec_button_shade(
    selected: bool,
    interaction: Interaction,
    action: MenuAction,
) -> ButtonShade {
    match interaction {
        Interaction::Pressed => ButtonShade::Pressed,
        Interaction::Hovered => ButtonShade::Hover,
        Interaction::Idle => if selected || action == MenuAction::StartAiGame {
            ButtonShade::Selected
        } else {
            ButtonShade::Base
        },
    }
}

/// The background of a menu button: pressed and hovered shades win; at
/// rest, selected options and the start button use the selected shade.
pub fn button_shade(selected: bool, interaction: Interaction, action: MenuAction) -> (s:
    ButtonShade)
    ensures
        s == spec_button_shade(selected, interaction, action),
{
    if selected {
        match interaction {
            Interaction::Pressed => ButtonShade::Pressed,
            Interaction::Hovered => ButtonShade::Hover,
            Interaction::Idle => ButtonShade::Selected,
        }
    } else {
        let base = match action {
            MenuAction::StartAiGame => ButtonShade::Selected,
            _ => ButtonShade::Base,
        };
        match interaction {
            Interaction::Pressed => ButtonShade::Pressed,
            Interaction::Hovered => ButtonShade::Hover,
            Interaction::Idle => base,
        }
    }
}

} // verus!
