//! What the in-game interface shows for the session's state: role tags,
//! mode and turn texts, feedback, result texts and dialog visibility.
use vstd::prelude::*;
use crate::client::{ModalKind, UiState, can_do_game_action, spec_user_controls};
use crate::game::{GameResult, Player, VertexState};
use crate::i18n::{I18nStore, Language, opt_view, substitute, translate, var_views};
use crate::session::{GameMode, GameStatus};
use crate::text::string_from_chars;

verus! {

pub open spec fn spec_player_role_tag_key(player: Player, mode: GameMode) -> Option<Seq<char>> {
    match mode {
        GameMode::Local => None,
        GameMode::AI(me) => if player == me {
            Some("role.you"@)
        } else {
            Some("role.ai"@)
        },
        GameMode::Network(me) => if player == me {
            Some("role.you"@)
        } else {
            Some("role.opponent"@)
        },
        GameMode::SelfPlay => Some("role.ai"@),
    }
}

/// The key of the tag shown beside a player's name: none in a local game,
/// "you" for the user's side, "AI" or "opponent" for the other side.
pub fn player_role_tag_key(player: Player, mode: GameMode) -> (k: Option<&'static str>)
    ensures
        opt_view(k) == spec_player_role_tag_key(player, mode),
{
    match mode {
        GameMode::Local => None,
        GameMode::AI(my_player) => {
            if player == my_player {
                Some("role.you")
            } else {
                Some("role.ai")
            }
        },
        GameMode::Network(my_player) => {
            if player == my_player {
                Some("role.you")
            } else {
                Some("role.opponent")
            }
        },
        GameMode::SelfPlay => Some("role.ai"),
    }
}

pub open spec fn spec_player_role_tag(
    player: Player,
    mode: GameMode,
    store: I18nStore,
    lang: Language,
) -> Seq<char> {
    match spec_player_role_tag_key(player, mode) {
        Some(k) => translate(store.catalog(lang), k),
        None => Seq::empty(),
    }
}

/// The translated role tag of a player, empty when there is none.
pub fn player_role_tag<'a>(player: Player, mode: GameMode, store: &'a I18nStore, lang: Language) -> (r:
    &'a str)
    ensures
        r@ == spec_player_role_tag(player, mode, *store, lang),
{
    match player_role_tag_key(player, mode) {
        Some(key) => store.t(lang, key),
        None => {
            proof {
                reveal_strlit("");
            }
            ""
        },
    }
}

pub open spec fn spec_game_mode_key(mode: GameMode) -> Seq<char> {
    match mode {
        GameMode::Local => "game.mode_local"@,
        GameMode::AI(Player::Black) => "game.mode_ai_black"@,
        GameMode::AI(Player::White) => "game.mode_ai_white"@,
        GameMode::Network(Player::Black) => "game.mode_network_black"@,
        GameMode::Network(Player::White) => "game.mode_network_white"@,
        GameMode::SelfPlay => "game.mode_self_play"@,
    }
}

/// The key of the description of a game mode.
pub fn game_mode_key(mode: GameMode) -> (k: &'static str)
    ensures
        k@ == spec_game_mode_key(mode),
{
    match mode {
        GameMode::Local => "game.mode_local",
        GameMode::AI(Player::Black) => "game.mode_ai_black",
        GameMode::AI(Player::White) => "game.mode_ai_white",
        GameMode::Network(Player::Black) => "game.mode_network_black",
        GameMode::Network(Player::White) => "game.mode_network_white",
        GameMode::SelfPlay => "game.mode_self_play",
    }
}

/// The translated description of a game mode.
pub fn game_mode_description<'a>(mode: GameMode, store: &'a I18nStore, lang: Language) -> (r:
    &'a str)
    ensures
        r@ == translate(store.catalog(lang), spec_game_mode_key(mode)),
{
    store.t(lang, game_mode_key(mode))
}

pub open spec fn spec_default_feedback_key(
    status: GameStatus,
    mode: GameMode,
    current: Player,
) -> Seq<char> {
    if status != GameStatus::Playing {
        "game.over"@
    } else {
        match mode {
            GameMode::Local => "feedback.select_point"@,
            GameMode::AI(me) => if current == me {
                "feedback.your_turn"@
            } else {
                "feedback.ai_thinking"@
            },
            GameMode::Network(me) => if current == me {
                "feedback.your_turn"@
            } else {
                "feedback.waiting_opponent"@
            },
            GameMode::SelfPlay => "feedback.ai_playing"@,
        }
    }
}

/// The key of the feedback shown when nothing else is to be said: the game
/// is over, it is the user's turn, or the other side is thinking.
pub fn default_feedback_key_for_mode(status: GameStatus, mode: GameMode, current: Player) -> (k:
    &'static str)
    ensures
        k@ == spec_default_feedback_key(status, mode, current),
{
    if status != GameStatus::Playing {
        return "game.over";
    }
    match mode {
        GameMode::Local => "feedback.select_point",
        GameMode::AI(my_player) => {
            if current == my_player {
                "feedback.your_turn"
            } else {
                "feedback.ai_thinking"
            }
        },
        GameMode::Network(my_player) => {
            if current == my_player {
                "feedback.your_turn"
            } else {
                "feedback.waiting_opponent"
            }
        },
        GameMode::SelfPlay => "feedback.ai_playing",
    }
}

/// The translated default feedback.
pub fn default_feedback_for_mode(
    status: GameStatus,
    mode: GameMode,
    current: Player,
    store: &I18nStore,
    lang: Language,
) -> (r: String)
    ensures
        r@ == translate(store.catalog(lang), spec_default_feedback_key(status, mode, current)),
{
    store.t(lang, default_feedback_key_for_mode(status, mode, current)).to_owned()
}

/// The other side is to move while the game is on, and no error or dialog
/// is shown: then the default feedback replaces the last command's.
pub open spec fn spec_is_waiting_opponent(
    status: GameStatus,
    mode: GameMode,
    current: Player,
    ui: UiState,
) -> bool {
    &&& status == GameStatus::Playing
    &&& !ui.feedback_is_error
    &&& ui.modal is None
    &&& match mode {
        GameMode::AI(me) => current != me,
        GameMode::Network(me) => current != me,
        GameMode::SelfPlay => true,
        GameMode::Local => false,
    }
}

pub open spec fn spec_feedback_key(
    status: GameStatus,
    mode: GameMode,
    current: Player,
    ui: UiState,
) -> Seq<char> {
    if spec_is_waiting_opponent(status, mode, current, ui) {
        spec_default_feedback_key(status, mode, current)
    } else {
        match opt_view(ui.feedback_key) {
            Some(k) => k,
            None => spec_default_feedback_key(status, mode, current),
        }
    }
}

/// The feedback line: its translated text, and whether it reports an error.
pub fn feedback_text(
    status: GameStatus,
    mode: GameMode,
    current: Player,
    ui: &UiState,
    store: &I18nStore,
    lang: Language,
) -> (r: (String, bool))
    ensures
        r.0@ == translate(store.catalog(lang), spec_feedback_key(status, mode, current, *ui)),
        r.1 == ui.feedback_is_error,
{
    let is_waiting_opponent = status == GameStatus::Playing && !ui.feedback_is_error
        && ui.modal.is_none() && match mode {
        GameMode::AI(my_player) => current != my_player,
        GameMode::Network(my_player) => current != my_player,
        GameMode::SelfPlay => true,
        GameMode::Local => false,
    };
    let text = if is_waiting_opponent {
        default_feedback_for_mode(status, mode, current, store, lang)
    } else {
        match ui.feedback_key {
            Some(key) => store.t(lang, key).to_owned(),
            None => default_feedback_for_mode(status, mode, current, store, lang),
        }
    };
    (text, ui.feedback_is_error)
}

pub open spec fn spec_player_name_key(player: Player) -> Seq<char> {
    match player {
        Player::Black => "player.black"@,
        Player::White => "player.white"@,
    }
}

/// The key of a player's name.
pub fn player_name_key(player: Player) -> (k: &'static str)
    ensures
        k@ == spec_player_name_key(player),
{
    match player {
        Player::Black => "player.black",
        Player::White => "player.white",
    }
}

/// The translated name of a player.
pub fn player_name<'a>(player: Player, store: &'a I18nStore, lang: Language) -> (r: &'a str)
    ensures
        r@ == translate(store.catalog(lang), spec_player_name_key(player)),
{
    store.t(lang, player_name_key(player))
}

pub open spec fn spec_current_player_text(
    status: GameStatus,
    current: Player,
    mode: GameMode,
    store: I18nStore,
    lang: Language,
) -> Seq<char> {
    if status == GameStatus::Playing {
        substitute(
            translate(store.catalog(lang), "game.turn"@),
            seq![
                ("player"@, translate(store.catalog(lang), spec_player_name_key(current))),
                ("role"@, spec_player_role_tag(current, mode, store, lang)),
            ],
        )
    } else {
        translate(store.catalog(lang), "game.over"@)
    }
}

/// The turn line: whose turn it is and their role, or that the game is over.
pub fn current_player_text(
    status: GameStatus,
    current: Player,
    mode: GameMode,
    store: &I18nStore,
    lang: Language,
) -> (r: String)
    ensures
        r@ == spec_current_player_text(status, current, mode, *store, lang),
{
    match status {
        GameStatus::Playing => {
            let role = player_role_tag(current, mode, store, lang);
            let p_name = player_name(current, store, lang);
            let mut vars: Vec<(&str, &str)> = Vec::new();
            vars.push(("player", p_name));
            vars.push(("role", role));
            assert(var_views(vars@) =~= seq![("player"@, p_name@), ("role"@, role@)]);
            store.format(lang, "game.turn", vars.as_slice())
        },
        GameStatus::Finished => store.t(lang, "game.over").to_owned(),
    }
}

/// The decimal digit for `d < 10`.
pub open spec fn digit_char(d: nat) -> char {
    ((48 + d) as u32) as char
}

/// The decimal representation of `n`, without leading zeros.
pub open spec fn decimal(n: nat) -> Seq<char>
    decreases n,
{
    if n < 10 {
        seq![digit_char(n)]
    } else {
        decimal(n / 10).push(digit_char(n % 10))
    }
}

/// Appends the decimal representation of `n` to `out`.
pub fn push_decimal(n: usize, out: &mut Vec<char>)
    ensures
        final(out)@ == old(out)@ + decimal(n as nat),
    decreases n,
{
    if n >= 10 {
        push_decimal(n / 10, out);
    }
    let d: u8 = (n % 10) as u8;
    let c = (d + 48) as char;
    assert(c == digit_char((n % 10) as nat));
    let ghost mid = out@;
    out.push(c);
    if n >= 10 {
        assert(out@ =~= old(out)@ + decimal((n / 10) as nat).push(c));
    } else {
        assert(out@ =~= old(out)@ + seq![c]);
    }
}

/// The decimal representation of `n` as a string.
pub fn decimal_string(n: usize) -> (s: String)
    ensures
        s@ == decimal(n as nat),
{
    let mut out: Vec<char> = Vec::new();
    push_decimal(n, &mut out);
    assert(out@ =~= decimal(n as nat));
    string_from_chars(&out)
}

/// The pass-count line.
pub fn pass_count_text(passes: usize, store: &I18nStore, lang: Language) -> (r: String)
    ensures
        r@ == substitute(
            translate(store.catalog(lang), "game.passes"@),
            seq![("count"@, decimal(passes as nat))],
        ),
{
    let count_str = decimal_string(passes);
    let mut vars: Vec<(&str, &str)> = Vec::new();
    vars.push(("count", count_str.as_str()));
    assert(var_views(vars@) =~= seq![("count"@, decimal(passes as nat))]);
    store.format(lang, "game.passes", vars.as_slice())
}

/// The area score of a finished game: stone and territory counts, and the
/// totals, komi and margin already written with one decimal.
pub struct ScoreTexts {
    pub black_stones: usize,
    pub black_territory: usize,
    pub white_stones: usize,
    pub white_territory: usize,
    pub black_total: String,
    pub white_total: String,
    pub komi: String,
    pub margin: String,
}

/// The variables of the detailed score lines.
pub open spec fn score_detail_vars(
    score: ScoreTexts,
    black_role: Seq<char>,
    white_role: Seq<char>,
) -> Seq<(Seq<char>, Seq<char>)> {
    seq![
        ("black_role"@, black_role),
        ("black_stones"@, decimal(score.black_stones as nat)),
        ("black_territory"@, decimal(score.black_territory as nat)),
        ("black_total"@, score.black_total@),
        ("white_role"@, white_role),
        ("white_stones"@, decimal(score.white_stones as nat)),
        ("white_territory"@, decimal(score.white_territory as nat)),
        ("komi"@, score.komi@),
        ("white_total"@, score.white_total@),
    ]
}

/// The variables naming the winner.
pub open spec fn winner_vars(name: Seq<char>, role: Seq<char>) -> Seq<(Seq<char>, Seq<char>)> {
    seq![("player"@, name), ("role"@, role)]
}

pub open spec fn spec_result_summary(
    mode: GameMode,
    result: GameResult,
    score: ScoreTexts,
    store: I18nStore,
    lang: Language,
) -> Seq<char> {
    let cat = store.catalog(lang);
    match result {
        GameResult::WinByResignation { winner } => substitute(
            translate(cat, "result.resignation_sidebar"@),
            winner_vars(
                translate(cat, spec_player_name_key(winner)),
                spec_player_role_tag(winner, mode, store, lang),
            ),
        ),
        GameResult::WinByScore { winner } => substitute(
            translate(cat, "result.score_details_sidebar"@),
            winner_vars(
                translate(cat, spec_player_name_key(winner)),
                spec_player_role_tag(winner, mode, store, lang),
            ).push(("margin"@, score.margin@)) + score_detail_vars(
                score,
                spec_player_role_tag(Player::Black, mode, store, lang),
                spec_player_role_tag(Player::White, mode, store, lang),
            ),
        ),
        GameResult::Draw => substitute(
            translate(cat, "result.draw_sidebar"@),
            seq![("black_total"@, score.black_total@), ("white_total"@, score.white_total@)],
        ),
    }
}

/// Pushes the variables of the detailed score lines.
fn push_score_detail_vars<'a>(
    vars: &mut Vec<(&'a str, &'a str)>,
    score: &'a ScoreTexts,
    black_role: &'a str,
    white_role: &'a str,
    b_stones: &'a str,
    b_territory: &'a str,
    w_stones: &'a str,
    w_territory: &'a str,
)
    requires
        b_stones@ == decimal(score.black_stones as nat),
        b_territory@ == decimal(score.black_territory as nat),
        w_stones@ == decimal(score.white_stones as nat),
        w_territory@ == decimal(score.white_territory as nat),
    ensures
        var_views(final(vars)@) == var_views(old(vars)@) + score_detail_vars(
            *score,
            black_role@,
            white_role@,
        ),
{
    let ghost before = var_views(vars@);
    vars.push(("black_role", black_role));
    vars.push(("black_stones", b_stones));
    vars.push(("black_territory", b_territory));
    vars.push(("black_total", score.black_total.as_str()));
    vars.push(("white_role", white_role));
    vars.push(("white_stones", w_stones));
    vars.push(("white_territory", w_territory));
    vars.push(("komi", score.komi.as_str()));
    vars.push(("white_total", score.white_total.as_str()));
    assert(var_views(vars@) =~= before + score_detail_vars(*score, black_role@, white_role@));
}

/// The result card of the sidebar.
pub fn result_summary(
    mode: GameMode,
    result: GameResult,
    score: &ScoreTexts,
    store: &I18nStore,
    lang: Language,
) -> (r: String)
    ensures
        r@ == spec_result_summary(mode, result, *score, *store, lang),
{
    match result {
        GameResult::WinByResignation { winner } => {
            let role = player_role_tag(winner, mode, store, lang);
            let p_name = player_name(winner, store, lang);
            let mut vars: Vec<(&str, &str)> = Vec::new();
            vars.push(("player", p_name));
            vars.push(("role", role));
            assert(var_views(vars@) =~= winner_vars(p_name@, role@));
            store.format(lang, "result.resignation_sidebar", vars.as_slice())
        },
        GameResult::WinByScore { winner } => {
            let winner_role = player_role_tag(winner, mode, store, lang);
            let black_role = player_role_tag(Player::Black, mode, store, lang);
            let white_role = player_role_tag(Player::White, mode, store, lang);
            let b_stones = decimal_string(score.black_stones);
            let b_territory = decimal_string(score.black_territory);
            let w_stones = decimal_string(score.white_stones);
            let w_territory = decimal_string(score.white_territory);
            let p_name = player_name(winner, store, lang);
            let mut vars: Vec<(&str, &str)> = Vec::new();
            vars.push(("player", p_name));
            vars.push(("role", winner_role));
            vars.push(("margin", score.margin.as_str()));
            assert(var_views(vars@) =~= winner_vars(p_name@, winner_role@).push(
                ("margin"@, score.margin@),
            ));
            push_score_detail_vars(
                &mut vars,
                score,
                black_role,
                white_role,
                b_stones.as_str(),
                b_territory.as_str(),
                w_stones.as_str(),
                w_territory.as_str(),
            );
            store.format(lang, "result.score_details_sidebar", vars.as_slice())
        },
        GameResult::Draw => {
            let mut vars: Vec<(&str, &str)> = Vec::new();
            vars.push(("black_total", score.black_total.as_str()));
            vars.push(("white_total", score.white_total.as_str()));
            assert(var_views(vars@) =~= seq![
                ("black_total"@, score.black_total@),
                ("white_total"@, score.white_total@),
            ]);
            store.format(lang, "result.draw_sidebar", vars.as_slice())
        },
    }
}

pub open spec fn spec_modal_result(
    mode: GameMode,
    result: GameResult,
    score: ScoreTexts,
    store: I18nStore,
    lang: Language,
) -> (Seq<char>, Seq<char>) {
    let cat = store.catalog(lang);
    match result {
        GameResult::WinByResignation { winner } => (
            substitute(
                translate(cat, "result.resignation_winner"@),
                winner_vars(
                    translate(cat, spec_player_name_key(winner)),
                    spec_player_role_tag(winner, mode, store, lang),
                ),
            ),
            translate(cat, "result.resignation_details"@),
        ),
        GameResult::WinByScore { winner } => (
            substitute(
                translate(cat, "result.score_winner"@),
                winner_vars(
                    translate(cat, spec_player_name_key(winner)),
                    spec_player_role_tag(winner, mode, store, lang),
                ).push(("margin"@, score.margin@)),
            ),
            substitute(
                translate(cat, "result.score_details_modal"@),
                score_detail_vars(
                    score,
                    spec_player_role_tag(Player::Black, mode, store, lang),
                    spec_player_role_tag(Player::White, mode, store, lang),
                ),
            ),
        ),
        GameResult::Draw => (
            translate(cat, "result.draw_title"@),
            substitute(
                translate(cat, "result.draw_details"@),
                seq![("black_total"@, score.black_total@), ("white_total"@, score.white_total@)],
            ),
        ),
    }
}

/// The title and the details of the result dialog.
pub fn format_modal_result(
    result: GameResult,
    mode: GameMode,
    score: &ScoreTexts,
    store: &I18nStore,
    lang: Language,
) -> (r: (String, String))
    ensures
        (r.0@, r.1@) == spec_modal_result(mode, result, *score, *store, lang),
{
    match result {
        GameResult::WinByResignation { winner } => {
            let role = player_role_tag(winner, mode, store, lang);
            let p_name = player_name(winner, store, lang);
            let mut vars: Vec<(&str, &str)> = Vec::new();
            vars.push(("player", p_name));
            vars.push(("role", role));
            assert(var_views(vars@) =~= winner_vars(p_name@, role@));
            let title = store.format(lang, "result.resignation_winner", vars.as_slice());
            let details = store.t(lang, "result.resignation_details").to_owned();
            (title, details)
        },
        GameResult::WinByScore { winner } => {
            let winner_role = player_role_tag(winner, mode, store, lang);
            let black_role = player_role_tag(Player::Black, mode, store, lang);
            let white_role = player_role_tag(Player::White, mode, store, lang);
            let b_stones = decimal_string(score.black_stones);
            let b_territory = decimal_string(score.black_territory);
            let w_stones = decimal_string(score.white_stones);
            let w_territory = decimal_string(score.white_territory);
            let p_name = player_name(winner, store, lang);
            let mut title_vars: Vec<(&str, &str)> = Vec::new();
            title_vars.push(("player", p_name));
            title_vars.push(("role", winner_role));
            title_vars.push(("margin", score.margin.as_str()));
            assert(var_views(title_vars@) =~= winner_vars(p_name@, winner_role@).push(
                ("margin"@, score.margin@),
            ));
            let title = store.format(lang, "result.score_winner", title_vars.as_slice());
            let mut vars: Vec<(&str, &str)> = Vec::new();
            push_score_detail_vars(
                &mut vars,
                score,
                black_role,
                white_role,
                b_stones.as_str(),
                b_territory.as_str(),
                w_stones.as_str(),
                w_territory.as_str(),
            );
            assert(var_views(Seq::<(&str, &str)>::empty()) =~= Seq::<
                (Seq<char>, Seq<char>),
            >::empty());
            assert(var_views(vars@) =~= score_detail_vars(*score, black_role@, white_role@));
            let details = store.format(lang, "result.score_details_modal", vars.as_slice());
            (title, details)
        },
        GameResult::Draw => {
            let title = store.t(lang, "result.draw_title").to_owned();
            let mut vars: Vec<(&str, &str)> = Vec::new();
            vars.push(("black_total", score.black_total.as_str()));
            vars.push(("white_total", score.white_total.as_str()));
            assert(var_views(vars@) =~= seq![
                ("black_total"@, score.black_total@),
                ("white_total"@, score.white_total@),
            ]);
            let details = store.format(lang, "result.draw_details", vars.as_slice());
            (title, details)
        },
    }
}

/// The texts of a won game name the winner: in the sidebar card and in the
/// dialog title, `{player}` is the winner's name (the text of `player.black`
/// for Black, of `player.white` for White) and `{role}` the winner's role
/// tag, whether the game was won on the score or by resignation.
pub proof fn lemma_result_texts_name_the_winner(
    mode: GameMode,
    winner: Player,
    score: ScoreTexts,
    store: I18nStore,
    lang: Language,
)
    ensures
        ({
            let cat = store.catalog(lang);
            let name = translate(
                cat,
                if winner == Player::Black {
                    "player.black"@
                } else {
                    "player.white"@
                },
            );
            let who = seq![
                ("player"@, name),
                ("role"@, spec_player_role_tag(winner, mode, store, lang)),
            ];
            let by_score = GameResult::WinByScore { winner };
            let by_resignation = GameResult::WinByResignation { winner };
            &&& spec_result_summary(mode, by_score, score, store, lang) == substitute(
                translate(cat, "result.score_details_sidebar"@),
                who.push(("margin"@, score.margin@)) + score_detail_vars(
                    score,
                    spec_player_role_tag(Player::Black, mode, store, lang),
                    spec_player_role_tag(Player::White, mode, store, lang),
                ),
            )
            &&& spec_modal_result(mode, by_score, score, store, lang).0 == substitute(
                translate(cat, "result.score_winner"@),
                who.push(("margin"@, score.margin@)),
            )
            &&& spec_result_summary(mode, by_resignation, score, store, lang) == substitute(
                translate(cat, "result.resignation_sidebar"@),
                who,
            )
            &&& spec_modal_result(mode, by_resignation, score, store, lang).0 == substitute(
                translate(cat, "result.resignation_winner"@),
                who,
            )
        }),
{
    assert(spec_player_name_key(winner) == if winner == Player::Black {
        "player.black"@
    } else {
        "player.white"@
    });
}

pub open spec fn spec_modal_prompt_key(modal: Option<ModalKind>) -> Option<Seq<char>> {
    match modal {
        Some(ModalKind::Resign) => Some("modal.resign_prompt"@),
        Some(ModalKind::Restart) => Some("modal.restart_prompt"@),
        _ => None,
    }
}

/// The confirmation dialog shows a prompt for a resign or restart request,
/// and is hidden otherwise.
pub fn modal_prompt_key(modal: Option<ModalKind>) -> (k: Option<&'static str>)
    ensures
        opt_view(k) == spec_modal_prompt_key(modal),
{
    match modal {
        Some(ModalKind::Resign) => Some("modal.resign_prompt"),
        Some(ModalKind::Restart) => Some("modal.restart_prompt"),
        Some(ModalKind::Rules) | Some(ModalKind::Result) => None,
        None => None,
    }
}

/// The rules dialog is shown while it is the open dialog; its scroll
/// position is reset only when it has just been opened.
/// Returns (shown, reset the scroll).
pub fn rules_modal_update(modal: Option<ModalKind>, was_open: bool) -> (r: (bool, bool))
    ensures
        r.0 == (modal == Some(ModalKind::Rules)),
        r.1 == (r.0 && !was_open),
{
    let is_open = modal == Some(ModalKind::Rules);
    (is_open, is_open && !was_open)
}

/// The dialog and the seen flag after a frame: the result dialog opens, and
/// is marked seen, the first time a result is present while no other dialog
/// is open; otherwise both stay as they are.
pub open spec fn spec_result_modal_update(
    modal: Option<ModalKind>,
    seen: bool,
    has_result: bool,
) -> (Option<ModalKind>, bool) {
    if has_result && !seen && modal is None {
        (Some(ModalKind::Result), true)
    } else {
        (modal, seen)
    }
}

/// Opens the result dialog once, the first time a result is seen while no
/// other dialog is open, and reports whether the result dialog is open.
pub fn result_modal_update(ui: &mut UiState, has_result: bool) -> (open: bool)
    ensures
        (final(ui).modal, final(ui).result_modal_seen) == spec_result_modal_update(
            old(ui).modal,
            old(ui).result_modal_seen,
            has_result,
        ),
        final(ui).hovered == old(ui).hovered,
        final(ui).focused_vertex == old(ui).focused_vertex,
        final(ui).focus == old(ui).focus,
        final(ui).feedback == old(ui).feedback,
        final(ui).feedback_key == old(ui).feedback_key,
        final(ui).feedback_is_error == old(ui).feedback_is_error,
        open == (final(ui).modal == Some(ModalKind::Result)),
{
    if has_result && !ui.result_modal_seen && ui.modal.is_none() {
        ui.modal = Some(ModalKind::Result);
        ui.result_modal_seen = true;
    }
    ui.modal == Some(ModalKind::Result)
}

/// Once the result dialog has been seen, a frame leaves the dialog state as
/// it is: closing the dialog does not make a later frame open it again. The
/// seen flag is never cleared by a frame.
pub proof fn lemma_result_modal_not_reopened(
    modal: Option<ModalKind>,
    seen: bool,
    has_result: bool,
)
    ensures
        seen ==> spec_result_modal_update(modal, seen, has_result) == (modal, seen),
        spec_result_modal_update(modal, seen, has_result).1 == (seen || (has_result
            && modal is None)),
{
}

/// The sidebar result card is shown when there is a result and the layout
/// is not a mobile one.
pub fn result_panel_visible(has_result: bool, is_mobile: bool) -> (r: bool)
    ensures
        r == (has_result && !is_mobile),
{
    has_result && !is_mobile
}

/// The colour of the stone drawn on a vertex, if any.
pub fn stone_owner(state: Option<VertexState>) -> (r: Option<Player>)
    ensures
        r == match state {
            Some(VertexState::Occupied(p)) => Some(p),
            _ => None,
        },
{
    match state {
        Some(VertexState::Occupied(p)) => Some(p),
        _ => None,
    }
}

/// The vertex a preview stone may be drawn on: the hovered one, else the
/// focused one while the board has focus.
pub fn preview_vertex(ui: &UiState) -> (r: Option<usize>)
    ensures
        r == match ui.hovered {
            Some(v) => Some(v),
            None => if ui.focus == crate::client::FocusTarget::Board {
                ui.focused_vertex
            } else {
                None
            },
        },
{
    match ui.hovered {
        Some(v) => Some(v),
        None => {
            if ui.focus == crate::client::FocusTarget::Board {
                ui.focused_vertex
            } else {
                None
            }
        },
    }
}

/// A preview stone is drawn when no dialog is open, the game is on, the user
/// may act, and the preview vertex is empty.
pub fn show_preview(
    ui: &UiState,
    status: GameStatus,
    mode: GameMode,
    current: Player,
    vertex_is_empty: bool,
) -> (r: bool)
    ensures
        r == (ui.modal is None && status == GameStatus::Playing && spec_user_controls(mode, current)
            && vertex_is_empty),
{
    ui.modal.is_none() && status == GameStatus::Playing && can_do_game_action(mode, current, ui)
        && vertex_is_empty
}

/// The focus marker is drawn on the focused vertex while the board has focus
/// and no dialog is open.
pub fn focus_marker_vertex(ui: &UiState) -> (r: Option<usize>)
    ensures
        r == (if ui.focus == crate::client::FocusTarget::Board && ui.modal is None {
            ui.focused_vertex
        } else {
            None
        }),
{
    if ui.focus == crate::client::FocusTarget::Board && ui.modal.is_none() {
        ui.focused_vertex
    } else {
        None
    }
}

} // verus!
