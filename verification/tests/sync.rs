use hex_go::client::{FocusTarget, ModalKind, UiState};
use hex_go::game::{GameResult, Player, VertexState};
use hex_go::i18n::{I18nStore, Language};
use hex_go::session::{GameMode, GameStatus};
use hex_go::sync::{
    ScoreTexts, current_player_text, decimal_string, default_feedback_for_mode,
    default_feedback_key_for_mode, feedback_text, focus_marker_vertex, format_modal_result,
    game_mode_description, modal_prompt_key, pass_count_text, player_role_tag,
    preview_vertex, result_modal_update, result_panel_visible, result_summary,
    rules_modal_update, show_preview, stone_owner,
};

fn entries(pairs: &[(&str, &str)]) -> Vec<(String, String)> {
    pairs.iter().map(|(k, v)| (k.to_string(), v.to_string())).collect()
}

fn store() -> I18nStore {
    I18nStore::new(
        entries(&[
            ("game.mode_local", "本地双人"),
            ("game.mode_ai_black", "人机对战（执黑）"),
            ("game.turn", "当前：{player}{role}"),
            ("game.over", "对局结束"),
            ("game.passes", "连续停着：{count}"),
            ("player.black", "黑方"),
            ("player.white", "白方"),
            ("role.you", "（你）"),
            ("role.ai", "（AI）"),
            ("role.opponent", "（对手）"),
            ("feedback.select_point", "请选择落子点"),
            ("feedback.your_turn", "轮到你了"),
            ("feedback.ai_thinking", "AI 思考中"),
            ("feedback.ai_playing", "AI 对弈中"),
            ("result.draw_title", "平局"),
            ("result.draw_details", "黑 {black_total} 白 {white_total}"),
            ("result.draw_sidebar", "平局\n黑 {black_total}\n白 {white_total}"),
            ("result.resignation_winner", "{player}{role}胜"),
            ("result.resignation_details", "对方认输"),
            ("result.resignation_sidebar", "{player}{role}\n中盘胜"),
            ("result.score_winner", "{player}{role}胜 {margin} 目"),
        ]),
        entries(&[
            ("game.mode_local", "Local 2-Player"),
            ("game.mode_ai_black", "VS AI (Playing Black)"),
            ("game.turn", "Turn: {player}{role}"),
            ("player.black", "Black"),
            ("player.white", "White"),
            ("role.you", " (You)"),
            ("role.ai", " (AI)"),
            ("result.score_details_modal", "B{black_role} {black_stones}+{black_territory}={black_total}; W{white_role} {white_stones}+{white_territory}+{komi}={white_total}"),
        ]),
    )
}

fn score() -> ScoreTexts {
    ScoreTexts {
        black_stones: 40,
        black_territory: 5,
        white_stones: 38,
        white_territory: 0,
        black_total: "45.0".to_string(),
        white_total: "45.0".to_string(),
        komi: "7.0".to_string(),
        margin: "0.0".to_string(),
    }
}

#[test]
fn unrelated_ui_changes_do_not_reset_an_open_rules_scroll() {
    // The rules dialog opens: it is shown and its scroll position is reset.
    assert_eq!(rules_modal_update(Some(ModalKind::Rules), false), (true, true));
    // Later frames with the dialog still open keep the scroll position.
    assert_eq!(rules_modal_update(Some(ModalKind::Rules), true), (true, false));
    assert_eq!(rules_modal_update(None, true), (false, false));
}

#[test]
fn role_tags_and_descriptions_match_each_mode() {
    let store = store();
    assert_eq!(
        game_mode_description(GameMode::Local, &store, Language::ZhCn),
        store.t(Language::ZhCn, "game.mode_local")
    );
    assert_eq!(
        game_mode_description(GameMode::AI(Player::Black), &store, Language::ZhCn),
        store.t(Language::ZhCn, "game.mode_ai_black")
    );
    assert_eq!(
        game_mode_description(GameMode::AI(Player::White), &store, Language::ZhCn),
        store.t(Language::ZhCn, "game.mode_ai_white")
    );
    assert_eq!(
        game_mode_description(GameMode::Network(Player::Black), &store, Language::ZhCn),
        store.t(Language::ZhCn, "game.mode_network_black")
    );
    assert_eq!(
        game_mode_description(GameMode::Network(Player::White), &store, Language::ZhCn),
        store.t(Language::ZhCn, "game.mode_network_white")
    );
    assert_eq!(
        game_mode_description(GameMode::SelfPlay, &store, Language::ZhCn),
        store.t(Language::ZhCn, "game.mode_self_play")
    );
    assert_eq!(game_mode_description(GameMode::Local, &store, Language::EnUs), "Local 2-Player");
    assert_eq!(
        game_mode_description(GameMode::AI(Player::Black), &store, Language::EnUs),
        "VS AI (Playing Black)"
    );

    assert_eq!(player_role_tag(Player::Black, GameMode::Local, &store, Language::ZhCn), "");
    assert_eq!(player_role_tag(Player::White, GameMode::Local, &store, Language::ZhCn), "");
    assert_eq!(
        player_role_tag(Player::Black, GameMode::AI(Player::Black), &store, Language::ZhCn),
        store.t(Language::ZhCn, "role.you")
    );
    assert_eq!(
        player_role_tag(Player::White, GameMode::AI(Player::Black), &store, Language::ZhCn),
        store.t(Language::ZhCn, "role.ai")
    );
    assert_eq!(
        player_role_tag(Player::Black, GameMode::AI(Player::White), &store, Language::ZhCn),
        store.t(Language::ZhCn, "role.ai")
    );
    assert_eq!(
        player_role_tag(Player::White, GameMode::AI(Player::White), &store, Language::ZhCn),
        store.t(Language::ZhCn, "role.you")
    );
    assert_eq!(
        player_role_tag(Player::Black, GameMode::Network(Player::Black), &store, Language::ZhCn),
        store.t(Language::ZhCn, "role.you")
    );
    assert_eq!(
        player_role_tag(Player::White, GameMode::Network(Player::Black), &store, Language::ZhCn),
        store.t(Language::ZhCn, "role.opponent")
    );
    assert_eq!(
        player_role_tag(Player::Black, GameMode::SelfPlay, &store, Language::ZhCn),
        store.t(Language::ZhCn, "role.ai")
    );
    assert_eq!(
        player_role_tag(Player::White, GameMode::SelfPlay, &store, Language::ZhCn),
        store.t(Language::ZhCn, "role.ai")
    );
    assert_eq!(
        player_role_tag(Player::Black, GameMode::AI(Player::Black), &store, Language::EnUs),
        " (You)"
    );
    assert_eq!(
        player_role_tag(Player::White, GameMode::AI(Player::Black), &store, Language::EnUs),
        " (AI)"
    );
}

#[test]
fn default_feedback_reflects_turn_and_mode() {
    let store = store();
    let playing = GameStatus::Playing;
    assert_eq!(
        default_feedback_for_mode(playing, GameMode::Local, Player::Black, &store, Language::ZhCn),
        store.t(Language::ZhCn, "feedback.select_point")
    );
    assert_eq!(
        default_feedback_for_mode(playing, GameMode::Local, Player::Black, &store, Language::EnUs),
        store.t(Language::EnUs, "feedback.select_point")
    );
    let ai_black = GameMode::AI(Player::Black);
    assert_eq!(
        default_feedback_for_mode(playing, ai_black, Player::Black, &store, Language::ZhCn),
        store.t(Language::ZhCn, "feedback.your_turn")
    );
    let ai_white = GameMode::AI(Player::White);
    assert_eq!(
        default_feedback_for_mode(playing, ai_white, Player::Black, &store, Language::ZhCn),
        store.t(Language::ZhCn, "feedback.ai_thinking")
    );
    assert_eq!(
        default_feedback_for_mode(playing, GameMode::SelfPlay, Player::Black, &store, Language::ZhCn),
        store.t(Language::ZhCn, "feedback.ai_playing")
    );
    assert_eq!(
        default_feedback_for_mode(GameStatus::Finished, GameMode::Local, Player::Black, &store, Language::ZhCn),
        store.t(Language::ZhCn, "game.over")
    );
    assert_eq!(
        default_feedback_key_for_mode(playing, GameMode::Network(Player::White), Player::Black),
        "feedback.waiting_opponent"
    );
}

#[test]
fn feedback_prefers_the_last_command_unless_waiting() {
    let store = store();
    let mut ui = UiState::default();
    ui.feedback_key = Some("feedback.passed");
    // The user's turn: the last command's feedback stays.
    let (text, err) =
        feedback_text(GameStatus::Playing, GameMode::AI(Player::Black), Player::Black, &ui, &store, Language::EnUs);
    assert_eq!(text, "feedback.passed");
    assert!(!err);
    // The AI's turn: the default "thinking" feedback replaces it.
    let (text, _) =
        feedback_text(GameStatus::Playing, GameMode::AI(Player::Black), Player::White, &ui, &store, Language::ZhCn);
    assert_eq!(text, "AI 思考中");
    // An error stays visible even while waiting.
    ui.feedback_is_error = true;
    ui.feedback_key = Some("error.occupied");
    let (text, err) =
        feedback_text(GameStatus::Playing, GameMode::AI(Player::Black), Player::White, &ui, &store, Language::ZhCn);
    assert_eq!(text, "error.occupied");
    assert!(err);
}

#[test]
fn sync_current_player_shows_correct_role_indicator() {
    let store = store();
    let text = current_player_text(GameStatus::Playing, Player::Black, GameMode::AI(Player::Black), &store, Language::ZhCn);
    let expected = store.format(
        Language::ZhCn,
        "game.turn",
        &[
            ("player", store.t(Language::ZhCn, "player.black")),
            ("role", store.t(Language::ZhCn, "role.you")),
        ],
    );
    assert_eq!(text, expected);
}

#[test]
fn sync_current_player_shows_correct_role_indicator_in_english() {
    let store = store();
    let text = current_player_text(GameStatus::Playing, Player::Black, GameMode::AI(Player::Black), &store, Language::EnUs);
    let expected = store.format(
        Language::EnUs,
        "game.turn",
        &[
            ("player", store.t(Language::EnUs, "player.black")),
            ("role", store.t(Language::EnUs, "role.you")),
        ],
    );
    assert_eq!(text, expected);
    assert_eq!(text, "Turn: Black (You)");
    assert_eq!(
        current_player_text(GameStatus::Finished, Player::Black, GameMode::Local, &store, Language::ZhCn),
        "对局结束"
    );
}

#[test]
fn sync_game_mode_updates_mode_text() {
    let store = store();
    assert_eq!(
        game_mode_description(GameMode::AI(Player::Black), &store, Language::ZhCn),
        store.t(Language::ZhCn, "game.mode_ai_black")
    );
}

#[test]
fn sync_game_mode_updates_mode_text_in_english() {
    let store = store();
    assert_eq!(
        game_mode_description(GameMode::AI(Player::Black), &store, Language::EnUs),
        store.t(Language::EnUs, "game.mode_ai_black")
    );
}

#[test]
fn result_triggers_result_modal_and_updates_content() {
    let store = store();
    let mut ui = UiState::default();
    assert!(result_modal_update(&mut ui, true));
    assert_eq!(ui.modal, Some(ModalKind::Result));
    assert!(ui.result_modal_seen);

    let (title, details) =
        format_modal_result(GameResult::Draw, GameMode::Local, &score(), &store, Language::ZhCn);
    assert_eq!(title, "平局");
    assert_eq!(details, "黑 45.0 白 45.0");
}

#[test]
fn closing_result_modal_does_not_retrigger_next_frame() {
    let mut ui = UiState::default();
    assert!(result_modal_update(&mut ui, true));
    ui.modal = None;
    assert!(!result_modal_update(&mut ui, true));
    assert_eq!(ui.modal, None);
}

#[test]
fn result_texts_fill_every_placeholder() {
    let store = store();
    let s = score();
    assert_eq!(
        result_summary(GameMode::AI(Player::Black), GameResult::WinByResignation { winner: Player::White }, &s, &store, Language::ZhCn),
        "白方（AI）\n中盘胜"
    );
    assert_eq!(
        result_summary(GameMode::Local, GameResult::Draw, &s, &store, Language::ZhCn),
        "平局\n黑 45.0\n白 45.0"
    );
    let (title, details) = format_modal_result(
        GameResult::WinByScore { winner: Player::Black },
        GameMode::AI(Player::Black),
        &s,
        &store,
        Language::EnUs,
    );
    assert_eq!(title, "result.score_winner");
    assert_eq!(details, "B (You) 40+5=45.0; W (AI) 38+0+7.0=45.0");
    let (title, _) = format_modal_result(
        GameResult::WinByScore { winner: Player::Black },
        GameMode::Local,
        &s,
        &store,
        Language::ZhCn,
    );
    assert_eq!(title, "黑方胜 0.0 目");
}

#[test]
fn counts_are_written_in_decimal() {
    assert_eq!(decimal_string(0), "0");
    assert_eq!(decimal_string(7), "7");
    assert_eq!(decimal_string(10), "10");
    assert_eq!(decimal_string(1203), "1203");
    assert_eq!(decimal_string(usize::MAX), usize::MAX.to_string());
    assert_eq!(pass_count_text(2, &store(), Language::ZhCn), "连续停着：2");
}

#[test]
fn dialogs_markers_and_stones() {
    assert_eq!(modal_prompt_key(Some(ModalKind::Resign)), Some("modal.resign_prompt"));
    assert_eq!(modal_prompt_key(Some(ModalKind::Restart)), Some("modal.restart_prompt"));
    assert_eq!(modal_prompt_key(Some(ModalKind::Rules)), None);
    assert_eq!(modal_prompt_key(None), None);
    assert!(result_panel_visible(true, false));
    assert!(!result_panel_visible(true, true));
    assert_eq!(stone_owner(Some(VertexState::Occupied(Player::White))), Some(Player::White));
    assert_eq!(stone_owner(Some(VertexState::Empty)), None);

    let mut ui = UiState::default();
    ui.focused_vertex = Some(4);
    assert_eq!(preview_vertex(&ui), Some(4));
    assert_eq!(focus_marker_vertex(&ui), Some(4));
    ui.hovered = Some(9);
    assert_eq!(preview_vertex(&ui), Some(9));
    ui.hovered = None;
    ui.focus = FocusTarget::Pass;
    assert_eq!(preview_vertex(&ui), None);
    assert_eq!(focus_marker_vertex(&ui), None);
    assert!(show_preview(&ui, GameStatus::Playing, GameMode::Local, Player::Black, true));
    assert!(!show_preview(&ui, GameStatus::Playing, GameMode::Local, Player::Black, false));
    assert!(!show_preview(&ui, GameStatus::Finished, GameMode::Local, Player::Black, true));
}
