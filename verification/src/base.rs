//! Shared vocabulary: shapes, movement and action tags, specifiers, keys and
//! classified key edges, and the incremental digit-entry rule used by counts
//! and character-code accumulators.

use vstd::prelude::*;

verus! {

/// The shape of a text range: it governs how register cells merge and how
/// pasted text is laid out.
#[derive(Clone, Copy, Debug, PartialEq, Eq)]
pub enum TargetShape {
    /// An arbitrary range of characters.
    CharWise,
    /// A range of whole lines.
    LineWise,
    /// A rectangular range of columns.
    BlockWise,
}

/// A one-dimensional movement direction.
#[derive(Clone, Copy, Debug, PartialEq, Eq)]
pub enum MoveDir1D {
    /// Towards the start.
    Previous,
    /// Towards the end.
    Next,
}

/// Whether typed characters are inserted or overwrite what is under the
/// cursor.
#[derive(Clone, Copy, Debug, PartialEq, Eq)]
pub enum InsertStyle {
    /// Insert before the cursor.
    Insert,
    /// Replace the character under the cursor.
    Replace,
}

/// A numeric prefix for an action: either an explicit number, or a
/// placeholder resolved against the accumulated context at dispatch time.
#[derive(Clone, Copy, Debug, PartialEq, Eq)]
pub enum Count {
    /// Use the context's count, defaulting to 1.
    Contextual,
    /// Use the context's count minus one, defaulting to 0 and never going
    /// below 0.
    MinusOne,
    /// Use exactly this number.
    Exact(usize),
}

/// A parameter that is either an explicit value or a placeholder meaning
/// "derive from the current input context".
#[derive(Clone, Copy, Debug, PartialEq, Eq)]
pub enum Specifier<T> {
    /// Derive the value from the accumulated context.
    Contextual,
    /// Use exactly this value.
    Exact(T),
}

/// A character to operate with, as entered by the user.
#[derive(Clone, Copy, Debug, PartialEq, Eq)]
pub enum Char {
    /// A single literal character.
    Single(char),
    /// A two-character digraph mnemonic, to be looked up in a digraph table
    /// by the consumer.
    Digraph(char, char),
}

/// A buffer mark to operate on.
#[derive(Clone, Copy, Debug, PartialEq, Eq)]
pub enum Mark {
    /// The position of the last jump within the buffer.
    LastJump,
    /// A mark named by a character.
    BufferNamed(char),
}

/// A tag for the kind of edit an editing command performs; consumed opaquely
/// by the dispatch pipeline.
#[derive(Clone, Copy, Debug, PartialEq, Eq)]
pub enum EditAction {
    /// Move the cursor without modifying text.
    Motion,
    /// Remove the targeted text.
    Delete,
    /// Copy the targeted text.
    Yank,
}

/// The kinds of repetition that dispatched actions are tracked for.
#[derive(Clone, Copy, Debug, PartialEq, Eq)]
pub enum RepeatType {
    /// A sequence of edits repeated together.
    EditSequence,
    /// The single most recent repeatable action.
    LastAction,
    /// The most recent selection-changing action.
    LastSelection,
}

/// How a dispatched action relates to a tracked repeat sequence; produced by
/// the action vocabulary and consumed opaquely here.
#[derive(Clone, Copy, Debug, PartialEq, Eq)]
pub enum SequenceStatus {
    /// The action stands alone.
    Atom,
    /// The action ends the current sequence.
    Break,
    /// The action is not tracked.
    Ignore,
    /// The action extends the current sequence.
    Track,
}

/// A key as delivered by the terminal, reduced to what this core reads of
/// it: whether it carries a literal character.
#[derive(Clone, Copy, Debug, PartialEq, Eq)]
pub enum TerminalKey {
    /// A key that types the given character.
    Char(char),
    /// Any key that carries no literal character (escape, arrows, ...).
    Other,
}

impl TerminalKey {
    /// The literal character this key types, if it types one.
    pub fn get_char(&self) -> (r: Option<char>)
        ensures
            r == (match *self {
                TerminalKey::Char(c) => Some(c),
                TerminalKey::Other => None::<char>,
            }),
    {
        match self {
            TerminalKey::Char(c) => Some(*c),
            TerminalKey::Other => None,
        }
    }
}

/// The classes that the external key classifier sorts keys into while a
/// sequence is being accumulated.
#[derive(Clone, Copy, Debug, PartialEq, Eq)]
pub enum CommonKeyClass {
    /// A digit of the numeric prefix count.
    Count,
    /// A register name.
    Register,
    /// A mark name.
    Mark,
    /// An octal digit of a character code.
    Octal,
    /// A decimal digit of a character code.
    Decimal,
    /// A hexadecimal digit of a character code.
    Hexadecimal,
    /// The first character of a digraph.
    Digraph1,
    /// The second character of a digraph.
    Digraph2,
}

/// A classified key event handed to the accumulator by the external key
/// classifier.
#[derive(Clone, Copy, Debug, PartialEq, Eq)]
pub enum EdgeEvent {
    /// The key matched a bound sequence literally.
    Key(TerminalKey),
    /// The key fell through to a less specific binding.
    Fallthrough,
    /// The key is to be recorded verbatim, whatever it is.
    Any,
    /// The key belongs to the given class.
    Class(CommonKeyClass),
}

/// An action to insert text, as emitted for unmapped character keys.
#[derive(Clone, Copy, Debug, PartialEq, Eq)]
pub enum InsertTextAction {
    /// Type a character at the cursor, on the given side, the given number
    /// of times.
    Type(Specifier<Char>, MoveDir1D, Count),
}

/// An action on the prompt (command or search bar).
#[derive(Clone, Copy, Debug, PartialEq, Eq)]
pub enum PromptAction {
    /// Abort the prompt; the flag says whether to abort only when the
    /// prompt is empty.
    Abort(bool),
}

/// The actions this core emits towards the dispatch pipeline.
#[derive(Clone, Copy, Debug, PartialEq, Eq)]
pub enum Action {
    /// Insert text.
    InsertText(InsertTextAction),
    /// Act on the prompt.
    Prompt(PromptAction),
}

/// What the command bar is currently prompting for.
#[derive(Clone, Copy, Debug, PartialEq, Eq)]
pub enum CommandType {
    /// Entering a command.
    Command,
    /// Entering a search in the given direction; the flag says whether the
    /// search is incremental.
    Search(MoveDir1D, bool),
}

/// The digit value of the character typed by `key` in the given base, if it
/// has one: `0`-`9`, then `a`-`f` or `A`-`F` for values 10 to 15.
pub open spec fn spec_keycode_to_num(key: TerminalKey, base: u32) -> Option<u32> {
    match key {
        TerminalKey::Char(c) => {
            let n = c as u32;
            if 48 <= n && n <= 57 && n - 48 < base {
                Some((n - 48) as u32)
            } else if 97 <= n && n <= 102 && n - 87 < base {
                Some((n - 87) as u32)
            } else if 65 <= n && n <= 70 && n - 55 < base {
                Some((n - 55) as u32)
            } else {
                None
            }
        },
        TerminalKey::Other => None,
    }
}

/// The digit value of the character typed by `key` in the given base, if it
/// has one.
pub fn keycode_to_num(key: &TerminalKey, base: u32) -> (r: Option<u32>)
    ensures
        r == spec_keycode_to_num(*key, base),
{
    match key {
        TerminalKey::Char(c) => {
            let n = *c as u32;
            if 48 <= n && n <= 57 && n - 48 < base {
                Some(n - 48)
            } else if 97 <= n && n <= 102 && n - 87 < base {
                Some(n - 87)
            } else if 65 <= n && n <= 70 && n - 55 < base {
                Some(n - 55)
            } else {
                None
            }
        },
        TerminalKey::Other => None,
    }
}

/// One step of incremental digit entry over `u32`: the current value (0 when
/// absent) times the base, plus the incoming digit, saturating at the
/// largest `u32` so that runaway input can never halt accumulation.
pub open spec fn spec_muladd_u32(v: Option<u32>, mul: u32, add: u32) -> u32 {
    let base = match v {
        Some(n) => n as int,
        None => 0int,
    };
    if base * mul + add > u32::MAX {
        u32::MAX
    } else {
        (base * mul + add) as u32
    }
}

/// One step of incremental digit entry over `u32`.
pub fn option_muladd_u32(v: &Option<u32>, mul: u32, add: u32) -> (r: u32)
    ensures
        r == spec_muladd_u32(*v, mul, add),
{
    let base = match v {
        Some(n) => *n,
        None => 0,
    };
    match base.checked_mul(mul) {
        Some(p) => p.saturating_add(add),
        None => u32::MAX,
    }
}

/// One step of incremental digit entry over `usize`, saturating at the
/// largest `usize`.
pub open spec fn spec_muladd_usize(v: Option<usize>, mul: usize, add: usize) -> usize {
    let base = match v {
        Some(n) => n as int,
        None => 0int,
    };
    if base * mul + add > usize::MAX {
        usize::MAX
    } else {
        (base * mul + add) as usize
    }
}

/// One step of incremental digit entry over `usize`.
pub fn option_muladd_usize(v: &Option<usize>, mul: usize, add: usize) -> (r: usize)
    ensures
        r == spec_muladd_usize(*v, mul, add),
{
    let base = match v {
        Some(n) => *n,
        None => 0,
    };
    match base.checked_mul(mul) {
        Some(p) => p.saturating_add(add),
        None => usize::MAX,
    }
}

} // verus!
