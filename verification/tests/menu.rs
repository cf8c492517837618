use hex_go::game::Player;
use hex_go::i18n::Language;
use hex_go::menu::{
    AiDifficulty, ButtonShade, GameStart, Interaction, MenuAction, MenuScreen, MenuSetupConfig,
    OptionMarker, button_shade, handle_menu_action, is_selected, menu_screen_visibility,
};
use hex_go::session::GameMode;

#[test]
fn difficulty_iterations_match_requirements() {
    assert_eq!(AiDifficulty::Simple.iterations(), 50);
    assert_eq!(AiDifficulty::Normal.iterations(), 200);
    assert_eq!(AiDifficulty::Hard.iterations(), 1000);
}

#[test]
fn default_menu_config_is_sane() {
    let config = MenuSetupConfig::default();
    assert_eq!(config.screen, MenuScreen::Main);
    assert_eq!(config.player_color, Player::Black);
    assert_eq!(config.difficulty, AiDifficulty::Normal);
}

#[test]
fn difficulty_labels_are_non_empty() {
    let difficulties = [AiDifficulty::Simple, AiDifficulty::Normal, AiDifficulty::Hard];
    for diff in difficulties {
        assert!(!diff.label().is_empty());
    }
    assert_eq!(AiDifficulty::Hard.label(), "困难 (1000步)");
    assert_eq!(AiDifficulty::default(), AiDifficulty::Normal);
}

#[test]
fn toggle_language_action_toggles_current_language() {
    let mut config = MenuSetupConfig::default();
    let mut lang = Language::ZhCn;
    assert_eq!(handle_menu_action(&mut config, &mut lang, MenuAction::ToggleLanguage), None);
    assert_eq!(lang, Language::EnUs);
    assert_eq!(handle_menu_action(&mut config, &mut lang, MenuAction::ToggleLanguage), None);
    assert_eq!(lang, Language::ZhCn);
    assert_eq!(config, MenuSetupConfig::default());
}

#[test]
fn play_local_action_starts_local_game_session() {
    let mut config = MenuSetupConfig::default();
    let mut lang = Language::EnUs;
    let start = handle_menu_action(&mut config, &mut lang, MenuAction::PlayLocal);
    assert_eq!(start, Some(GameStart { mode: GameMode::Local, ai_iterations: None }));
}

#[test]
fn start_ai_game_action_sets_correct_difficulty_and_color() {
    let mut config = MenuSetupConfig::default();
    config.player_color = Player::White;
    config.difficulty = AiDifficulty::Hard;
    let mut lang = Language::EnUs;
    let start = handle_menu_action(&mut config, &mut lang, MenuAction::StartAiGame).unwrap();
    assert_eq!(start.mode, GameMode::AI(Player::White));
    assert_eq!(start.ai_iterations, Some(1000));
}

#[test]
fn option_actions_mutate_menu_config() {
    let mut config = MenuSetupConfig::default();
    let mut lang = Language::EnUs;
    handle_menu_action(&mut config, &mut lang, MenuAction::OpenAiSetup);
    handle_menu_action(&mut config, &mut lang, MenuAction::SelectDifficulty(AiDifficulty::Simple));
    handle_menu_action(&mut config, &mut lang, MenuAction::SelectSide(Player::White));

    assert_eq!(config.screen, MenuScreen::AiSetup);
    assert_eq!(config.difficulty, AiDifficulty::Simple);
    assert_eq!(config.player_color, Player::White);
    assert_eq!(menu_screen_visibility(&config), (false, true));

    handle_menu_action(&mut config, &mut lang, MenuAction::BackToMain);
    assert_eq!(menu_screen_visibility(&config), (true, false));
}

#[test]
fn selection_highlights_and_button_shades() {
    let config = MenuSetupConfig::default();
    assert!(is_selected(Some(OptionMarker::Side(Player::Black)), &config));
    assert!(!is_selected(Some(OptionMarker::Side(Player::White)), &config));
    assert!(is_selected(Some(OptionMarker::Difficulty(AiDifficulty::Normal)), &config));
    assert!(!is_selected(None, &config));

    assert_eq!(button_shade(true, Interaction::Idle, MenuAction::PlayLocal), ButtonShade::Selected);
    assert_eq!(button_shade(false, Interaction::Idle, MenuAction::PlayLocal), ButtonShade::Base);
    assert_eq!(button_shade(false, Interaction::Idle, MenuAction::StartAiGame), ButtonShade::Selected);
    assert_eq!(button_shade(false, Interaction::Hovered, MenuAction::StartAiGame), ButtonShade::Hover);
    assert_eq!(button_shade(true, Interaction::Pressed, MenuAction::BackToMain), ButtonShade::Pressed);
}
