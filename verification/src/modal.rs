//! The modal keystroke interpreter: tracks the current mode, buffers
//! multi-key Normal-mode commands and a numeric repeat count, and turns one
//! key event at a time into at most one [`InputAction`].
//!
//! The whole transition relation is written out as spec functions
//! ([`spec_normal_step`], [`spec_evaluate_normal`], [`spec_insert_step`],
//! [`spec_process_key`]); every executable step is proved to follow them.
//! For a fixed starting state and key sequence the resolved actions are
//! fully determined: the interpreter sees only discrete key events, never
//! timing.

use vstd::prelude::*;
use crate::key::{KeyCode, KeyEvent, KeyEventKind};
use crate::text_target::TextTarget;

verus! {

#[derive(Clone, Copy, Debug)]
pub enum Direction {
    Up,
    Down,
    Left,
    Right,
}

#[derive(Clone, Copy, Debug)]
pub enum VerticalDirection {
    Up,
    Down,
}

/// An intermediate, not-yet-actionable Normal-mode command, awaiting a
/// repeat count, a target, or nothing further. `Invalid` absorbs an unbound
/// keystroke so the accumulator clears cleanly on the next evaluation.
#[derive(Clone, Copy, Debug)]
pub enum Command {
    SwitchInsert,
    Move(Direction),
    Quit,
    NewLineAndInsert(VerticalDirection),
    Invalid,
    CommandInput,
    Delete,
    Paste(Direction),
}

/// The accumulator for multi-keystroke Normal-mode commands: an optional
/// repeat count, an optional pending command, and an optional target.
#[derive(Clone, Copy, Debug)]
pub struct NormalInput {
    pub num_modifier: Option<usize>,
    pub command: Option<Command>,
    pub target: Option<TextTarget>,
}

/// The interpreter's entire persistent state: exactly one mode is active.
#[derive(Clone, Copy, Debug)]
pub enum InputMode {
    Normal(NormalInput),
    Insert,
    Command,
}

/// Everything the interpreter can ask of its caller: a resolved, ready-to-
/// apply editing or session-control instruction.
#[derive(Clone, Copy, Debug)]
pub enum InputAction {
    NoAction,
    InvalidCommand,
    Save,
    Quit,
    SaveAndQuit,
    MoveCursor { direction: Direction, count: usize },
    InsertChar(char),
    SwitchMode(InputMode),
    NewLine { count: usize },
    DeleteBehind { count: usize },
    DeleteAhead { count: usize },
    PasteYanked(Direction),
    NewLineAndInsert(VerticalDirection),
    CommandPrompt,
    Delete { target: TextTarget, count: usize },
}

pub struct ModalInputter {
    pub mode: InputMode,
}

/// The empty accumulator: no count, no command, no target.
pub open spec fn empty_normal() -> NormalInput {
    NormalInput { num_modifier: None, command: None, target: None }
}

/// Whether the character is a decimal digit.
pub open spec fn is_digit(c: char) -> bool {
    48 <= c as u32 <= 57
}

/// The decimal value of a digit character.
pub open spec fn digit_val(c: char) -> int {
    c as u32 - 48
}

/// Decimal accumulation of a repeat count: a new digit multiplies the count
/// by ten and adds itself, saturating at the largest representable count.
/// A leading zero with no count yet is ignored: zero is a motion, not a
/// count digit.
pub open spec fn spec_push_digit(cur: Option<usize>, c: char) -> Option<usize> {
    let d = digit_val(c);
    match cur {
        Some(n) => Some(
            if n * 10 + d > usize::MAX {
                usize::MAX
            } else {
                (n * 10 + d) as usize
            },
        ),
        None => if d == 0 {
            None
        } else {
            Some(d as usize)
        },
    }
}

/// The direction a Normal-mode movement key names: `h`/`j`/`k`/`l` or the
/// arrow keys.
pub open spec fn direction_of_key(code: KeyCode) -> Option<Direction> {
    match code {
        KeyCode::Left => Some(Direction::Left),
        KeyCode::Right => Some(Direction::Right),
        KeyCode::Down => Some(Direction::Down),
        KeyCode::Up => Some(Direction::Up),
        KeyCode::Char(c) => {
            if c == 'h' {
                Some(Direction::Left)
            } else if c == 'j' {
                Some(Direction::Down)
            } else if c == 'k' {
                Some(Direction::Up)
            } else if c == 'l' {
                Some(Direction::Right)
            } else {
                None
            }
        },
        _ => None,
    }
}

/// How one key event updates the Normal-mode accumulator. A released key
/// changes nothing. While a two-stage command (`d`, `Z`) awaits its target,
/// only its continuation keys are accepted; anything else turns the pending
/// command invalid. With nothing pending, digits accumulate the repeat
/// count, bound keys set the pending command (and, for one-step commands,
/// its target), and an unbound key sets the invalid command.
pub open spec fn spec_normal_step(input: NormalInput, ev: KeyEvent) -> NormalInput {
    if ev.kind != KeyEventKind::Press {
        input
    } else if input.command matches Some(Command::Delete) && input.target is None {
        match ev.code {
            KeyCode::Char(c) => {
                if c == 'd' {
                    NormalInput { target: Some(TextTarget::WholeRow), ..input }
                } else {
                    NormalInput { command: Some(Command::Invalid), ..input }
                }
            },
            _ => NormalInput { command: Some(Command::Invalid), ..input },
        }
    } else if input.command matches Some(Command::Quit) && input.target is None {
        match ev.code {
            KeyCode::Char(c) => {
                if c == 'Z' {
                    NormalInput { target: Some(TextTarget::All), ..input }
                } else if c == 'Q' {
                    NormalInput { target: Some(TextTarget::Nothing), ..input }
                } else {
                    NormalInput { command: Some(Command::Invalid), ..input }
                }
            },
            _ => NormalInput { command: Some(Command::Invalid), ..input },
        }
    } else {
        match ev.code {
            KeyCode::Char(c) => {
                if is_digit(c) {
                    NormalInput { num_modifier: spec_push_digit(input.num_modifier, c), ..input }
                } else if c == 'o' {
                    NormalInput {
                        command: Some(Command::NewLineAndInsert(VerticalDirection::Down)),
                        ..input
                    }
                } else if c == 'O' {
                    NormalInput {
                        command: Some(Command::NewLineAndInsert(VerticalDirection::Up)),
                        ..input
                    }
                } else if c == 'd' {
                    NormalInput { command: Some(Command::Delete), ..input }
                } else if c == 'x' {
                    NormalInput {
                        command: Some(Command::Delete),
                        target: Some(TextTarget::UnderCursor),
                        ..input
                    }
                } else if c == 'D' {
                    NormalInput {
                        command: Some(Command::Delete),
                        target: Some(TextTarget::RowAfterCursor),
                        ..input
                    }
                } else if c == 'p' {
                    NormalInput { command: Some(Command::Paste(Direction::Right)), ..input }
                } else if c == 'P' {
                    NormalInput { command: Some(Command::Paste(Direction::Left)), ..input }
                } else if c == 'i' {
                    NormalInput { command: Some(Command::SwitchInsert), ..input }
                } else if direction_of_key(ev.code) is Some {
                    NormalInput {
                        command: Some(Command::Move(direction_of_key(ev.code)->Some_0)),
                        ..input
                    }
                } else if c == ':' {
                    NormalInput { command: Some(Command::CommandInput), ..input }
                } else if c == 'Z' {
                    NormalInput { command: Some(Command::Quit), ..input }
                } else {
                    NormalInput { command: Some(Command::Invalid), ..input }
                }
            },
            KeyCode::Up | KeyCode::Down | KeyCode::Left | KeyCode::Right => {
                NormalInput {
                    command: Some(Command::Move(direction_of_key(ev.code)->Some_0)),
                    ..input
                }
            },
            _ => NormalInput { command: Some(Command::Invalid), ..input },
        }
    }
}

/// Resolution of the accumulator. `None` means the buffer is incomplete —
/// no command yet, or a two-stage command still awaiting its target — and
/// must persist. Otherwise the resolved action carries the repeat count
/// (1 when none was typed); an invalid buffer resolves to no action.
pub open spec fn spec_evaluate_normal(input: NormalInput) -> Option<InputAction> {
    match input.command {
        None => None,
        Some(cmd) => {
            let count = match input.num_modifier {
                Some(n) => n,
                None => 1,
            };
            match cmd {
                Command::Paste(direction) => Some(InputAction::PasteYanked(direction)),
                Command::CommandInput => Some(InputAction::CommandPrompt),
                Command::SwitchInsert => Some(InputAction::SwitchMode(InputMode::Insert)),
                Command::Move(direction) => Some(InputAction::MoveCursor { direction, count }),
                Command::NewLineAndInsert(v) => Some(InputAction::NewLineAndInsert(v)),
                Command::Quit => match input.target {
                    Some(TextTarget::Nothing) => Some(InputAction::Quit),
                    Some(TextTarget::All) => Some(InputAction::SaveAndQuit),
                    Some(_) => Some(InputAction::NoAction),
                    None => None,
                },
                Command::Delete => match input.target {
                    Some(target) => Some(InputAction::Delete { target, count }),
                    None => None,
                },
                Command::Invalid => Some(InputAction::NoAction),
            }
        },
    }
}

/// What one key event yields in Insert mode. A released key yields nothing;
/// control-s asks for a save; a printable character inserts itself; arrows
/// move by one; Backspace, Delete and Enter edit by one; Escape returns to
/// Normal mode with an empty accumulator.
pub open spec fn spec_insert_step(ev: KeyEvent) -> InputAction {
    if ev.kind != KeyEventKind::Press {
        InputAction::NoAction
    } else {
        match ev.code {
            KeyCode::Char(c) => {
                if c == 's' && ev.ctrl {
                    InputAction::Save
                } else {
                    InputAction::InsertChar(c)
                }
            },
            KeyCode::Esc => InputAction::SwitchMode(InputMode::Normal(empty_normal())),
            KeyCode::Up => InputAction::MoveCursor { direction: Direction::Up, count: 1 },
            KeyCode::Down => InputAction::MoveCursor { direction: Direction::Down, count: 1 },
            KeyCode::Left => InputAction::MoveCursor { direction: Direction::Left, count: 1 },
            KeyCode::Right => InputAction::MoveCursor { direction: Direction::Right, count: 1 },
            KeyCode::Backspace => InputAction::DeleteBehind { count: 1 },
            KeyCode::Delete => InputAction::DeleteAhead { count: 1 },
            KeyCode::Enter => InputAction::NewLine { count: 1 },
            KeyCode::Other => InputAction::NoAction,
        }
    }
}

/// One full interpreter step: the mode after the key and the action it
/// yields. In Normal mode the accumulator is stepped and then evaluated —
/// a resolved action (or a detected-invalid buffer) resets the accumulator,
/// an incomplete one persists and yields nothing. Insert mode is stateless;
/// Command mode always asks for the command prompt.
pub open spec fn spec_process_key(mode: InputMode, ev: KeyEvent) -> (InputMode, InputAction) {
    match mode {
        InputMode::Normal(input) => {
            let stepped = spec_normal_step(input, ev);
            match spec_evaluate_normal(stepped) {
                Some(action) => (InputMode::Normal(empty_normal()), action),
                None => (InputMode::Normal(stepped), InputAction::NoAction),
            }
        },
        InputMode::Insert => (InputMode::Insert, spec_insert_step(ev)),
        InputMode::Command => (InputMode::Command, InputAction::CommandPrompt),
    }
}

/// Resolution of a completed `:`-command line: `w` saves, `q` quits, `wq`
/// does both; anything else is the invalid command.
pub open spec fn spec_evaluate_cmd(s: Seq<char>) -> InputAction {
    if s == seq!['w'] {
        InputAction::Save
    } else if s == seq!['q'] {
        InputAction::Quit
    } else if s == seq!['w', 'q'] {
        InputAction::SaveAndQuit
    } else {
        InputAction::InvalidCommand
    }
}

impl NormalInput {
    /// Appends a digit to the repeat count, or starts the count with it; a
    /// leading zero is ignored. Saturates rather than wrapping.
    pub fn insert_num_modifier(&mut self, num: char)
        requires
            is_digit(num),
        ensures
            final(self).num_modifier == spec_push_digit(old(self).num_modifier, num),
            final(self).command == old(self).command,
            final(self).target == old(self).target,
    {
        let d = (num as u32 - 48) as usize;
        self.num_modifier = match self.num_modifier {
            Some(n) => match n.checked_mul(10) {
                Some(m) => match m.checked_add(d) {
                    Some(v) => Some(v),
                    None => Some(usize::MAX),
                },
                None => Some(usize::MAX),
            },
            None => if d == 0 {
                None
            } else {
                Some(d)
            },
        };
    }
}

impl Default for NormalInput {
    /// The empty accumulator.
    fn default() -> (r: NormalInput)
        ensures
            r == empty_normal(),
    {
        NormalInput { num_modifier: None, command: None, target: None }
    }
}

impl Default for InputMode {
    /// Normal mode with an empty accumulator.
    fn default() -> (r: InputMode)
        ensures
            r == InputMode::Normal(empty_normal()),
    {
        InputMode::Normal(NormalInput::default())
    }
}

impl Default for ModalInputter {
    /// An interpreter starting in Normal mode with an empty accumulator.
    fn default() -> (r: ModalInputter)
        ensures
            r.mode == InputMode::Normal(empty_normal()),
    {
        ModalInputter { mode: InputMode::default() }
    }
}

impl ModalInputter {
    /// Feeds one key event through the interpreter, updating the mode and
    /// yielding the resolved action, exactly as [`spec_process_key`] says.
    pub fn process_key_press(&mut self, ev_key: KeyEvent) -> (r: InputAction)
        ensures
            ({
                let (mode2, action) = spec_process_key(old(self).mode, ev_key);
                final(self).mode == mode2 && r == action
            }),
    {
        match self.mode {
            InputMode::Normal(input) => {
                let new_input = self.handle_normal_input(ev_key, input);
                match evaluate_normal_input(new_input) {
                    Some(action) => {
                        // the input buffer is reset since the action is issued
                        self.mode = InputMode::Normal(NormalInput::default());
                        action
                    },
                    None => {
                        // keep waiting for more keys
                        self.mode = InputMode::Normal(new_input);
                        InputAction::NoAction
                    },
                }
            },
            InputMode::Insert => self.handle_insert_input(ev_key),
            InputMode::Command => InputAction::CommandPrompt,
        }
    }

    /// One Normal-mode accumulator step, per [`spec_normal_step`].
    pub fn handle_normal_input(&self, ev_key: KeyEvent, input_buffer: NormalInput) -> (r:
        NormalInput)
        ensures
            r == spec_normal_step(input_buffer, ev_key),
    {
        if !matches!(ev_key.kind, KeyEventKind::Press) {
            return input_buffer;
        }
        let mut new_input = input_buffer;
        let awaiting_delete = matches!(input_buffer.command, Some(Command::Delete))
            && matches!(input_buffer.target, None);
        let awaiting_quit = matches!(input_buffer.command, Some(Command::Quit)) && matches!(
            input_buffer.target,
            None,
        );
        if awaiting_delete {
            match ev_key.code {
                KeyCode::Char(c) if c == 'd' => {
                    new_input.target = Some(TextTarget::WholeRow);
                },
                _ => {
                    new_input.command = Some(Command::Invalid);
                },
            }
            return new_input;
        }
        if awaiting_quit {
            match ev_key.code {
                KeyCode::Char(c) if c == 'Z' => {
                    new_input.target = Some(TextTarget::All);
                },
                KeyCode::Char(c) if c == 'Q' => {
                    new_input.target = Some(TextTarget::Nothing);
                },
                _ => {
                    new_input.command = Some(Command::Invalid);
                },
            }
            return new_input;
        }
        match ev_key.code {
            KeyCode::Char(c) => {
                let cv = c as u32;
                if 48 <= cv && cv <= 57 {
                    new_input.insert_num_modifier(c);
                } else if c == 'o' {
                    new_input.command = Some(Command::NewLineAndInsert(VerticalDirection::Down));
                } else if c == 'O' {
                    new_input.command = Some(Command::NewLineAndInsert(VerticalDirection::Up));
                } else if c == 'd' {
                    new_input.command = Some(Command::Delete);
                } else if c == 'x' {
                    new_input.command = Some(Command::Delete);
                    new_input.target = Some(TextTarget::UnderCursor);
                } else if c == 'D' {
                    new_input.command = Some(Command::Delete);
                    new_input.target = Some(TextTarget::RowAfterCursor);
                } else if c == 'p' {
                    new_input.command = Some(Command::Paste(Direction::Right));
                } else if c == 'P' {
                    new_input.command = Some(Command::Paste(Direction::Left));
                } else if c == 'i' {
                    new_input.command = Some(Command::SwitchInsert);
                } else if c == 'h' {
                    new_input.command = Some(Command::Move(Direction::Left));
                } else if c == 'j' {
                    new_input.command = Some(Command::Move(Direction::Down));
                } else if c == 'k' {
                    new_input.command = Some(Command::Move(Direction::Up));
                } else if c == 'l' {
                    new_input.command = Some(Command::Move(Direction::Right));
                } else if c == ':' {
                    new_input.command = Some(Command::CommandInput);
                } else if c == 'Z' {
                    new_input.command = Some(Command::Quit);
                } else {
                    new_input.command = Some(Command::Invalid);
                }
            },
            KeyCode::Up => {
                new_input.command = Some(Command::Move(Direction::Up));
            },
            KeyCode::Down => {
                new_input.command = Some(Command::Move(Direction::Down));
            },
            KeyCode::Left => {
                new_input.command = Some(Command::Move(Direction::Left));
            },
            KeyCode::Right => {
                new_input.command = Some(Command::Move(Direction::Right));
            },
            _ => {
                new_input.command = Some(Command::Invalid);
            },
        }
        new_input
    }

    /// One Insert-mode step, per [`spec_insert_step`].
    pub fn handle_insert_input(&self, ev_key: KeyEvent) -> (r: InputAction)
        ensures
            r == spec_insert_step(ev_key),
    {
        if !matches!(ev_key.kind, KeyEventKind::Press) {
            return InputAction::NoAction;
        }
        match ev_key.code {
            KeyCode::Char(c) => {
                if c == 's' && ev_key.ctrl {
                    InputAction::Save
                } else {
                    InputAction::InsertChar(c)
                }
            },
            KeyCode::Esc => InputAction::SwitchMode(InputMode::Normal(NormalInput::default())),
            KeyCode::Up => InputAction::MoveCursor { direction: Direction::Up, count: 1 },
            KeyCode::Down => InputAction::MoveCursor { direction: Direction::Down, count: 1 },
            KeyCode::Left => InputAction::MoveCursor { direction: Direction::Left, count: 1 },
            KeyCode::Right => InputAction::MoveCursor { direction: Direction::Right, count: 1 },
            KeyCode::Backspace => InputAction::DeleteBehind { count: 1 },
            KeyCode::Delete => InputAction::DeleteAhead { count: 1 },
            KeyCode::Enter => InputAction::NewLine { count: 1 },
            KeyCode::Other => InputAction::NoAction,
        }
    }

    /// Moves the interpreter to the given mode.
    pub fn switch(&mut self, new_mode: InputMode)
        ensures
            final(self).mode == new_mode,
    {
        self.mode = new_mode;
    }

    /// Resolves a completed `:`-command line, per [`spec_evaluate_cmd`].
    pub fn evaluate_cmd_input(&self, cmd_input: &str) -> (r: InputAction)
        ensures
            r == spec_evaluate_cmd(cmd_input@),
    {
        let len = vstd::string::StrSliceExecFns::unicode_len(cmd_input);
        if len == 1 {
            let c0 = vstd::string::StrSliceExecFns::get_char(cmd_input, 0);
            if c0 == 'w' {
                proof {
                    assert(cmd_input@ =~= seq!['w']);
                }
                InputAction::Save
            } else if c0 == 'q' {
                proof {
                    assert(cmd_input@ =~= seq!['q']);
                }
                InputAction::Quit
            } else {
                InputAction::InvalidCommand
            }
        } else if len == 2 {
            let c0 = vstd::string::StrSliceExecFns::get_char(cmd_input, 0);
            let c1 = vstd::string::StrSliceExecFns::get_char(cmd_input, 1);
            if c0 == 'w' && c1 == 'q' {
                proof {
                    assert(cmd_input@ =~= seq!['w', 'q']);
                }
                InputAction::SaveAndQuit
            } else {
                InputAction::InvalidCommand
            }
        } else {
            InputAction::InvalidCommand
        }
    }
}

/// Resolves the buffered Normal-mode input into an action, per
/// [`spec_evaluate_normal`]: `None` while the buffer is incomplete and must
/// persist, `Some` once it resolves (possibly to no action, for an invalid
/// buffer).
pub fn evaluate_normal_input(input: NormalInput) -> (r: Option<InputAction>)
    ensures
        r == spec_evaluate_normal(input),
{
    let command = match input.command {
        Some(c) => c,
        None => {
            return None;
        },
    };
    let count = match input.num_modifier {
        Some(num) => num,
        None => 1,  // the action happens at least once
    };
    let action = match command {
        Command::Paste(direction) => InputAction::PasteYanked(direction),
        Command::CommandInput => InputAction::CommandPrompt,
        Command::SwitchInsert => InputAction::SwitchMode(InputMode::Insert),
        Command::Move(direction) => InputAction::MoveCursor { direction, count },
        Command::NewLineAndInsert(v_direction) => InputAction::NewLineAndInsert(v_direction),
        Command::Quit => match input.target {
            Some(target) => match target {
                TextTarget::Nothing => InputAction::Quit,
                TextTarget::All => InputAction::SaveAndQuit,
                _ => InputAction::NoAction,
            },
            None => {
                return None;
            },
        },
        Command::Delete => match input.target {
            Some(target) => InputAction::Delete { target, count },
            None => {
                return None;
            },
        },
        Command::Invalid => InputAction::NoAction,
    };
    Some(action)
}

} // verus!
