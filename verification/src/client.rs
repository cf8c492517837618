//! In-game interface state: keyboard focus, modal dialogs, whether the user
//! may act, and the feedback shown after a command.
use vstd::prelude::*;
use crate::game::Player;
use crate::i18n::opt_view;
use crate::session::{GameMode, GameStatus, SessionCommand, SessionError};

verus! {

/// High-level lifecycle states of the application.
#[derive(Debug, Clone, Copy, PartialEq, Eq, Structural)]
pub enum AppState {
    /// Active on startup and when browsing menus or configuring a match.
    MainMenu,
    /// Active during an ongoing local or AI game session.
    InGame,
}

impl AppState {
    /// The application starts in the main menu.
    pub fn default() -> (s: AppState)
        ensures
            s == AppState::MainMenu,
    {
        AppState::MainMenu
    }
}

/// The interface element that has keyboard focus.
#[derive(Debug, Clone, Copy, PartialEq, Eq, Structural)]
pub enum FocusTarget {
    Board,
    Pass,
    Resign,
    Restart,
    Rules,
    MainMenu,
}

/// Number of focus targets in the focus cycle.
pub const FOCUS_TARGETS: usize = 6;

impl FocusTarget {
    /// The place of the target in the focus cycle.
    pub open spec fn spec_position(self) -> int {
        match self {
            FocusTarget::Board => 0,
            FocusTarget::Pass => 1,
            FocusTarget::Resign => 2,
            FocusTarget::Restart => 3,
            FocusTarget::Rules => 4,
            FocusTarget::MainMenu => 5,
        }
    }

    /// The target at a place of the focus cycle.
    pub open spec fn spec_at(i: int) -> FocusTarget {
        if i == 0 {
            FocusTarget::Board
        } else if i == 1 {
            FocusTarget::Pass
        } else if i == 2 {
            FocusTarget::Resign
        } else if i == 3 {
            FocusTarget::Restart
        } else if i == 4 {
            FocusTarget::Rules
        } else {
            FocusTarget::MainMenu
        }
    }

    /// The next target of the cycle, or the previous one when `reverse`.
    pub open spec fn spec_next(self, reverse: bool) -> FocusTarget {
        let step: int = if reverse {
            5
        } else {
            1
        };
        FocusTarget::spec_at((self.spec_position() + step) % 6)
    }

    /// The board has focus at first.
    pub fn default() -> (f: FocusTarget)
        ensures
            f == FocusTarget::Board,
    {
        FocusTarget::Board
    }

    /// Moves focus along the cycle Board, Pass, Resign, Restart, Rules,
    /// MainMenu; backwards when `reverse`.
    pub fn next(self, reverse: bool) -> (f: FocusTarget)
        ensures
            f == self.spec_next(reverse),
    {
        let order: [FocusTarget; 6] = [
            FocusTarget::Board,
            FocusTarget::Pass,
            FocusTarget::Resign,
            FocusTarget::Restart,
            FocusTarget::Rules,
            FocusTarget::MainMenu,
        ];
        let mut index: usize = 0;
        while index < FOCUS_TARGETS && order[index] != self
            invariant
                index <= FOCUS_TARGETS,
                forall|j: int| 0 <= j < 6 ==> #[trigger] order@[j] == FocusTarget::spec_at(j),
                forall|j: int| 0 <= j < index ==> FocusTarget::spec_at(j) != self,
            decreases FOCUS_TARGETS - index,
        {
            index = index + 1;
        }
        assert(index < 6) by {
            assert(FocusTarget::spec_at(self.spec_position()) == self);
        }
        assert(index == self.spec_position());
        let offset: usize = if reverse {
            FOCUS_TARGETS - 1
        } else {
            1
        };
        order[(index + offset) % FOCUS_TARGETS]
    }
}

/// Moving focus forward and then backward (or backward and then forward)
/// returns to the same target.
pub proof fn lemma_focus_cycle_reversible(f: FocusTarget)
    ensures
        f.spec_next(false).spec_next(true) == f,
        f.spec_next(true).spec_next(false) == f,
{
}

/// Moving focus forward visits all six targets before it comes back.
pub proof fn lemma_focus_cycle_visits_all(f: FocusTarget)
    ensures
        f.spec_next(false).spec_next(false).spec_next(false).spec_next(false).spec_next(
            false,
        ).spec_next(false) == f,
        f.spec_next(false) != f,
        f.spec_next(false).spec_next(false) != f,
        f.spec_next(false).spec_next(false).spec_next(false) != f,
        f.spec_next(false).spec_next(false).spec_next(false).spec_next(false) != f,
        f.spec_next(false).spec_next(false).spec_next(false).spec_next(false).spec_next(false)
            != f,
{
}

/// A dialog that covers the board.
#[derive(Debug, Clone, Copy, PartialEq, Eq, Structural)]
pub enum ModalKind {
    Resign,
    Restart,
    Rules,
    Result,
}

/// Interface state of a game in progress.
pub struct UiState {
    pub hovered: Option<usize>,
    pub focused_vertex: Option<usize>,
    pub focus: FocusTarget,
    pub modal: Option<ModalKind>,
    pub feedback: String,
    pub feedback_key: Option<&'static str>,
    pub feedback_is_error: bool,
    pub result_modal_seen: bool,
}

impl UiState {
    /// Nothing hovered or focused but the board, no dialog, no feedback.
    pub fn default() -> (u: UiState)
        ensures
            u.hovered is None,
            u.focused_vertex is None,
            u.focus == FocusTarget::Board,
            u.modal is None,
            u.feedback@ == Seq::<char>::empty(),
            u.feedback_key is None,
            !u.feedback_is_error,
            !u.result_modal_seen,
    {
        UiState {
            hovered: None,
            focused_vertex: None,
            focus: FocusTarget::Board,
            modal: None,
            feedback: String::new(),
            feedback_key: None,
            feedback_is_error: false,
            result_modal_seen: false,
        }
    }
}

/// Whether the side to move is played from this device.
pub open spec fn spec_user_controls(mode: GameMode, current: Player) -> bool {
    match mode {
        GameMode::Local => true,
        GameMode::Network(p) => p == current,
        GameMode::AI(p) => p == current,
        GameMode::SelfPlay => false,
    }
}

/// The user may act on the game: no dialog is open and the side to move is
/// played from this device.
pub fn can_do_game_action(mode: GameMode, current_player: Player, ui: &UiState) -> (r: bool)
    ensures
        r == (ui.modal is None && spec_user_controls(mode, current_player)),
{
    if ui.modal.is_some() {
        return false;
    }
    match mode {
        GameMode::Local => true,
        GameMode::Network(player) => player == current_player,
        GameMode::AI(player) => player == current_player,
        GameMode::SelfPlay => false,
    }
}

pub open spec fn spec_command_feedback_key(command: SessionCommand) -> Seq<char> {
    match command {
        SessionCommand::Place(_) => "feedback.placed"@,
        SessionCommand::Pass => "feedback.passed"@,
        SessionCommand::Resign => "feedback.resigned"@,
        SessionCommand::Restart => "feedback.restarted"@,
    }
}

/// The translation key of the feedback after an accepted command.
pub fn command_feedback_key(command: SessionCommand) -> (k: &'static str)
    ensures
        k@ == spec_command_feedback_key(command),
{
    match command {
        SessionCommand::Place(_) => "feedback.placed",
        SessionCommand::Pass => "feedback.passed",
        SessionCommand::Resign => "feedback.resigned",
        SessionCommand::Restart => "feedback.restarted",
    }
}

pub open spec fn spec_command_feedback_text(command: SessionCommand) -> Seq<char> {
    match command {
        SessionCommand::Place(_) => "落子成功"@,
        SessionCommand::Pass => "已停着"@,
        SessionCommand::Resign => "对局因认输结束"@,
        SessionCommand::Restart => "已开始新对局"@,
    }
}

/// The built-in feedback text after an accepted command.
pub fn command_feedback_text(command: SessionCommand) -> (t: &'static str)
    ensures
        t@ == spec_command_feedback_text(command),
{
    match command {
        SessionCommand::Place(_) => "落子成功",
        SessionCommand::Pass => "已停着",
        SessionCommand::Resign => "对局因认输结束",
        SessionCommand::Restart => "已开始新对局",
    }
}

pub open spec fn spec_error_key(error: SessionError) -> Seq<char> {
    match error {
        SessionError::InvalidVertex => "error.invalid_vertex"@,
        SessionError::Occupied => "error.occupied"@,
        SessionError::Suicide => "error.suicide"@,
        SessionError::Superko => "error.superko"@,
        SessionError::GameOver => "error.game_over"@,
    }
}

/// The translation key of the feedback after a refused command.
pub fn error_key(error: SessionError) -> (k: &'static str)
    ensures
        k@ == spec_error_key(error),
{
    match error {
        SessionError::InvalidVertex => "error.invalid_vertex",
        SessionError::Occupied => "error.occupied",
        SessionError::Suicide => "error.suicide",
        SessionError::Superko => "error.superko",
        SessionError::GameOver => "error.game_over",
    }
}

pub open spec fn spec_error_message(error: SessionError) -> Seq<char> {
    match error {
        SessionError::InvalidVertex => "该交点不在棋盘上"@,
        SessionError::Occupied => "该处已有棋子"@,
        SessionError::Suicide => "禁止自杀落子"@,
        SessionError::Superko => "该落子违反全局同形规则"@,
        SessionError::GameOver => "对局已经结束"@,
    }
}

/// The built-in message for a refused command.
pub fn error_message(error: SessionError) -> (m: &'static str)
    ensures
        m@ == spec_error_message(error),
{
    match error {
        SessionError::InvalidVertex => "该交点不在棋盘上",
        SessionError::Occupied => "该处已有棋子",
        SessionError::Suicide => "禁止自杀落子",
        SessionError::Superko => "该落子违反全局同形规则",
        SessionError::GameOver => "对局已经结束",
    }
}

/// A command reaches the session only when no dialog is open, the user may
/// act (a restart is allowed regardless), and a restart is not asked for
/// while the game is still being played.
pub open spec fn spec_should_submit(
    modal_open: bool,
    user_controls: bool,
    command: SessionCommand,
    status: GameStatus,
) -> bool {
    &&& !modal_open
    &&& user_controls || command == SessionCommand::Restart
    &&& !(command == SessionCommand::Restart && status == GameStatus::Playing)
}

/// Whether a command from the interface is handed to the session.
pub fn should_submit(
    ui: &UiState,
    mode: GameMode,
    current_player: Player,
    status: GameStatus,
    command: SessionCommand,
) -> (r: bool)
    ensures
        r == spec_should_submit(
            ui.modal is Some,
            spec_user_controls(mode, current_player),
            command,
            status,
        ),
{
    if ui.modal.is_some() {
        return false;
    }
    if !can_do_game_action(mode, current_player, ui) && command != SessionCommand::Restart {
        return false;
    }
    if command == SessionCommand::Restart && status == GameStatus::Playing {
        return false;
    }
    true
}

/// Records the session's answer to a submitted command as feedback: the
/// command's confirmation when accepted, the error's message when refused.
pub fn record_submit_outcome(
    ui: &mut UiState,
    command: SessionCommand,
    outcome: Result<(), SessionError>,
)
    ensures
        final(ui).hovered == old(ui).hovered,
        final(ui).focused_vertex == old(ui).focused_vertex,
        final(ui).focus == old(ui).focus,
        final(ui).modal == old(ui).modal,
        final(ui).result_modal_seen == old(ui).result_modal_seen,
        match outcome {
            Ok(()) => {
                &&& !final(ui).feedback_is_error
                &&& opt_view(final(ui).feedback_key) == Some(spec_command_feedback_key(command))
                &&& final(ui).feedback@ == spec_command_feedback_text(command)
            },
            Err(e) => {
                &&& final(ui).feedback_is_error
                &&& opt_view(final(ui).feedback_key) == Some(spec_error_key(e))
                &&& final(ui).feedback@ == spec_error_message(e)
            },
        },
{
    match outcome {
        Ok(()) => {
            ui.feedback_is_error = false;
            ui.feedback_key = Some(command_feedback_key(command));
            ui.feedback = command_feedback_text(command).to_owned();
        },
        Err(error) => {
            ui.feedback_is_error = true;
            ui.feedback_key = Some(error_key(error));
            ui.feedback = error_message(error).to_owned();
        },
    }
}

} // verus!
