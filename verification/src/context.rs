//! The input context: per-sequence and persistent accumulator state, the
//! resolve protocol that turns contextual placeholders into concrete values,
//! and the mode state machine that decides what an unmapped key means.

use vstd::prelude::*;
use vstd::string::StringExecFns;

use crate::base::{
    keycode_to_num,
    option_muladd_u32,
    option_muladd_usize,
    spec_keycode_to_num,
    spec_muladd_u32,
    spec_muladd_usize,
    Action,
    Char,
    CommonKeyClass,
    Count,
    EdgeEvent,
    EditAction,
    InsertStyle,
    InsertTextAction,
    Mark,
    MoveDir1D,
    PromptAction,
    RepeatType,
    SequenceStatus,
    Specifier,
    TargetShape,
    TerminalKey,
};
use crate::register::Register;

verus! {

/// Declares `regex::Regex` to the verifier as an opaque type, so that the
/// context can name it in a signature. Relied on only as a carrier: no
/// method of it is called here.
#[verifier::external_type_specification]
#[verifier::external_body]
pub struct ExRegex(regex::Regex);

/// A Unicode scalar value: a code that names a character.
pub open spec fn valid_scalar(code: u32) -> bool {
    code <= 0x10FFFF && !(0xD800 <= code && code <= 0xDFFF)
}

/// Relies on `char::from_u32`: it returns the character with the given code
/// exactly when the code is a Unicode scalar value (at most 0x10FFFF and
/// not a surrogate), and `None` otherwise.
#[verifier::external_body]
fn char_from_u32(code: u32) -> (r: Option<char>)
    ensures
        r is Some <==> valid_scalar(code),
        r matches Some(c) ==> c as u32 == code,
{
    char::from_u32(code)
}

/// Accumulates raw sub-codes during a single key sequence: the last literal
/// key, three independent numeric character-code entries, and the two
/// stages of a digraph.
#[derive(Clone, Copy, Debug, PartialEq, Eq)]
pub struct CharacterContext {
    /// The most recent key recorded verbatim.
    pub any: Option<TerminalKey>,
    /// A character code accumulated in octal.
    pub oct: Option<u32>,
    /// A character code accumulated in decimal.
    pub dec: Option<u32>,
    /// A character code accumulated in hexadecimal.
    pub hex: Option<u32>,
    /// The first character of a digraph.
    pub digraph1: Option<char>,
    /// The second character of a digraph.
    pub digraph2: Option<char>,
}

/// The literal character recorded by the "any" slot, if the recorded key
/// carries one.
pub open spec fn any_char(ch: CharacterContext) -> Option<char> {
    match ch.any {
        Some(TerminalKey::Char(c)) => Some(c),
        _ => None,
    }
}

/// The fully entered digraph, if both of its characters have been seen.
pub open spec fn digraph_pair(ch: CharacterContext) -> Option<(char, char)> {
    if ch.digraph1 is Some && ch.digraph2 is Some {
        Some((ch.digraph1->0, ch.digraph2->0))
    } else {
        None
    }
}

/// The numeric character code entered so far, preferring the hexadecimal,
/// then the decimal, then the octal accumulator.
pub open spec fn accumulated_code(ch: CharacterContext) -> Option<u32> {
    if ch.hex is Some {
        ch.hex
    } else if ch.dec is Some {
        ch.dec
    } else if ch.oct is Some {
        ch.oct
    } else {
        None
    }
}

/// What [`CharacterContext::get_typed`] must return: the literal key's
/// character first, then a complete digraph, then the character named by an
/// accumulated code, and nothing when no accumulator holds a character.
pub open spec fn typed_char_ok(ch: CharacterContext, r: Option<Char>) -> bool {
    &&& (any_char(ch) matches Some(c) ==> r == Some(Char::Single(c)))
    &&& (any_char(ch) is None ==> (digraph_pair(ch) matches Some(p) ==> r == Some(
        Char::Digraph(p.0, p.1),
    )))
    &&& (any_char(ch) is None && digraph_pair(ch) is None ==> (accumulated_code(ch) matches Some(
        code,
    ) ==> {
        &&& valid_scalar(code) ==> (r matches Some(t) && t matches Char::Single(c2) && c2 as u32
            == code)
        &&& !valid_scalar(code) ==> r is None
    }))
    &&& (any_char(ch) is None && digraph_pair(ch) is None && accumulated_code(ch) is None ==> r
        is None)
}

impl CharacterContext {
    /// The state with every accumulator empty.
    pub open spec fn spec_default() -> CharacterContext {
        CharacterContext {
            any: None,
            oct: None,
            dec: None,
            hex: None,
            digraph1: None,
            digraph2: None,
        }
    }

    /// The character the user is currently typing, combined from whichever
    /// accumulators are populated.
    pub fn get_typed(&self) -> (r: Option<Char>)
        ensures
            typed_char_ok(*self, r),
    {
        if let Some(TerminalKey::Char(c)) = self.any {
            Some(Char::Single(c))
        } else if self.digraph1.is_some() && self.digraph2.is_some() {
            Some(Char::Digraph(self.digraph1.unwrap(), self.digraph2.unwrap()))
        } else if let Some(code) = self.hex {
            match char_from_u32(code) {
                Some(c) => Some(Char::Single(c)),
                None => None,
            }
        } else if let Some(code) = self.dec {
            match char_from_u32(code) {
                Some(c) => Some(Char::Single(c)),
                None => None,
            }
        } else if let Some(code) = self.oct {
            match char_from_u32(code) {
                Some(c) => Some(Char::Single(c)),
                None => None,
            }
        } else {
            None
        }
    }
}

impl Default for CharacterContext {
    fn default() -> (r: Self)
        ensures
            r == Self::spec_default(),
    {
        CharacterContext {
            any: None,
            oct: None,
            dec: None,
            hex: None,
            digraph1: None,
            digraph2: None,
        }
    }
}

/// Context specific to a single action; reset every time a full sequence of
/// key bindings has been pressed.
#[derive(Clone, Copy, Debug, PartialEq, Eq)]
pub struct ActionContext {
    /// The finalized numeric prefix, if one was entered.
    pub count: Option<usize>,
    /// The numeric prefix still being typed, before finalization.
    pub counting: Option<usize>,
    /// The register chosen for the pending action, if any.
    pub register: Option<Register>,
}

impl ActionContext {
    /// The state with no count and no chosen register.
    pub open spec fn spec_default() -> ActionContext {
        ActionContext { count: None, counting: None, register: None }
    }
}

impl Default for ActionContext {
    fn default() -> (r: Self)
        ensures
            r == Self::spec_default(),
    {
        ActionContext { count: None, counting: None, register: None }
    }
}

/// Context preserved across actions; it changes with the mode or through
/// later key sequences.
#[derive(Clone, Copy, Debug, PartialEq, Eq)]
pub struct PersistentContext {
    /// The direction of the current regular-expression search.
    pub regexsearch_dir: MoveDir1D,
    /// Whether searches are incremental.
    pub regexsearch_inc: bool,
    /// Whether a repeat (dot-repeat or macro) is currently being replayed.
    pub repeating: bool,
    /// Whether typed characters insert or overwrite.
    pub insert: InsertStyle,
    /// A pending visual-shape override, if any.
    pub shape: Option<TargetShape>,
    /// Whether the shift flag is set.
    pub shift: bool,
}

impl PersistentContext {
    /// The state a fresh session starts from: forward, incremental search,
    /// inserting, with no repeat, no shape override and no shift.
    pub open spec fn spec_default() -> PersistentContext {
        PersistentContext {
            regexsearch_dir: MoveDir1D::Next,
            regexsearch_inc: true,
            repeating: false,
            insert: InsertStyle::Insert,
            shape: None,
            shift: false,
        }
    }
}

impl Default for PersistentContext {
    fn default() -> (r: Self)
        ensures
            r == Self::spec_default(),
    {
        PersistentContext {
            regexsearch_dir: MoveDir1D::Next,
            regexsearch_inc: true,
            repeating: false,
            insert: InsertStyle::Insert,
            shape: None,
            shift: false,
        }
    }
}

/// The full input context: per-action state, persistent state, and the
/// character accumulators.
#[derive(Clone, Copy, Debug, PartialEq, Eq)]
pub struct EmacsContext {
    /// Per-sequence action context.
    pub action: ActionContext,
    /// State that survives sequence boundaries.
    pub persist: PersistentContext,
    /// The character accumulators.
    pub ch: CharacterContext,
}

impl EmacsContext {
    /// The context a fresh session starts from.
    pub open spec fn spec_default() -> EmacsContext {
        EmacsContext {
            action: ActionContext::spec_default(),
            persist: PersistentContext::spec_default(),
            ch: CharacterContext::spec_default(),
        }
    }

    /// One-way merge used when composing nested contexts: an explicit count
    /// in `other` overrides this context's count; nothing else is taken.
    pub fn overrides(&mut self, other: &Self)
        ensures
            *final(self) == (EmacsContext {
                action: ActionContext {
                    count: if other.action.count is Some {
                        other.action.count
                    } else {
                        old(self).action.count
                    },
                    ..old(self).action
                },
                ..*old(self)
            }),
    {
        if other.action.count.is_some() {
            self.action.count = other.action.count;
        }
    }

    /// Clear the per-sequence action context; the persistent context and
    /// the character accumulators are untouched.
    pub fn reset(&mut self)
        ensures
            *final(self) == (EmacsContext { action: ActionContext::spec_default(), ..*old(self) }),
    {
        self.action = ActionContext::default();
    }

    /// Produce the snapshot handed to the dispatcher when a completed key
    /// sequence is dispatched: the persistent context is copied, while the
    /// action context and the character accumulators are moved out, leaving
    /// this context holding their defaults for the next sequence.
    pub fn take(&mut self) -> (r: Self)
        ensures
            r == *old(self),
            *final(self) == (EmacsContext {
                action: ActionContext::spec_default(),
                persist: old(self).persist,
                ch: CharacterContext::spec_default(),
            }),
    {
        let snap = EmacsContext { action: self.action, persist: self.persist, ch: self.ch };
        self.action = ActionContext::default();
        self.ch = CharacterContext::default();
        snap
    }

    /// Resolve a count specifier: a contextual count falls back to 1, a
    /// minus-one count falls back to 0 and subtracts one without going
    /// below zero, and an exact count is itself.
    pub fn resolve_count(&self, count: &Count) -> (r: usize)
        ensures
            r == spec_resolve_count(*self, *count),
    {
        match count {
            Count::Contextual => match self.action.count {
                Some(n) => n,
                None => 1,
            },
            Count::MinusOne => {
                let v = match self.action.count {
                    Some(n) => n,
                    None => 0,
                };
                if v >= 1 {
                    v - 1
                } else {
                    0
                }
            },
            Count::Exact(n) => *n,
        }
    }

    /// Resolve a character specifier: contextual means whatever character
    /// the accumulators currently hold.
    pub fn resolve_char(&self, c: &Specifier<Char>) -> (r: Option<Char>)
        ensures
            *c matches Specifier::Exact(exact) ==> r == Some(exact),
            *c matches Specifier::Contextual ==> typed_char_ok(self.ch, r),
    {
        match c {
            Specifier::Contextual => self.ch.get_typed(),
            Specifier::Exact(c) => Some(*c),
        }
    }

    /// Resolve a mark specifier: contextual means the last jump.
    pub fn resolve_mark(&self, mark: &Specifier<Mark>) -> (r: Mark)
        ensures
            r == (match *mark {
                Specifier::Contextual => Mark::LastJump,
                Specifier::Exact(m) => m,
            }),
    {
        match mark {
            Specifier::Contextual => Mark::LastJump,
            Specifier::Exact(m) => *m,
        }
    }

    /// Resolve an edit-action specifier: contextual means a plain motion.
    pub fn resolve_edit_action(&self, action: &Specifier<EditAction>) -> (r: EditAction)
        ensures
            r == (match *action {
                Specifier::Contextual => EditAction::Motion,
                Specifier::Exact(a) => a,
            }),
    {
        match action {
            Specifier::Contextual => EditAction::Motion,
            Specifier::Exact(a) => *a,
        }
    }

    /// Apply one classified key edge to the accumulators.
    pub fn event(&mut self, ev: &EdgeEvent, ke: &TerminalKey)
        ensures
            *final(self) == spec_event(*old(self), *ev, *ke),
    {
        match ev {
            EdgeEvent::Key(_) | EdgeEvent::Fallthrough => {
                // Nothing to accumulate.
            },
            EdgeEvent::Class(CommonKeyClass::Count) => {
                if let Some(n) = keycode_to_num(ke, 10) {
                    let new = option_muladd_usize(&self.action.counting, 10, n as usize);
                    self.action.counting = Some(new);
                }
            },
            // Track literals, code points and digraphs.
            EdgeEvent::Any => {
                self.ch.any = Some(*ke);
            },
            EdgeEvent::Class(CommonKeyClass::Octal) => {
                if let Some(n) = keycode_to_num(ke, 8) {
                    let new = option_muladd_u32(&self.ch.oct, 8, n);
                    self.ch.oct = Some(new);
                }
            },
            EdgeEvent::Class(CommonKeyClass::Decimal) => {
                if let Some(n) = keycode_to_num(ke, 10) {
                    let new = option_muladd_u32(&self.ch.dec, 10, n);
                    self.ch.dec = Some(new);
                }
            },
            EdgeEvent::Class(CommonKeyClass::Hexadecimal) => {
                if let Some(n) = keycode_to_num(ke, 16) {
                    let new = option_muladd_u32(&self.ch.hex, 16, n);
                    self.ch.hex = Some(new);
                }
            },
            EdgeEvent::Class(CommonKeyClass::Digraph1) => {
                if let Some(c) = ke.get_char() {
                    self.ch.digraph1 = Some(c);
                }
            },
            EdgeEvent::Class(CommonKeyClass::Digraph2) => {
                if let Some(c) = ke.get_char() {
                    self.ch.digraph2 = Some(c);
                }
            },
            // Other classes are not accumulated.
            EdgeEvent::Class(_) => {
                // Nothing to accumulate.
            },
        }
    }

    /// The character to replace with; no replace character is accumulated.
    pub fn get_replace_char(&self) -> (r: Option<Char>)
        ensures
            r is None,
    {
        None
    }

    /// The compiled search expression; none is accumulated by this context.
    pub fn get_search_regex(&self) -> (r: Option<regex::Regex>)
        ensures
            r is None,
    {
        None
    }

    /// The direction of the current search.
    pub fn get_search_regex_dir(&self) -> (r: MoveDir1D)
        ensures
            r == self.persist.regexsearch_dir,
    {
        self.persist.regexsearch_dir
    }

    /// The character to search for; none is accumulated by this context.
    pub fn get_search_char(&self) -> (r: Option<(MoveDir1D, bool, Char)>)
        ensures
            r is None,
    {
        None
    }

    /// The pending visual-shape override, if any.
    pub fn get_target_shape(&self) -> (r: Option<TargetShape>)
        ensures
            r == self.persist.shape,
    {
        self.persist.shape
    }

    /// The current insert style.
    pub fn get_insert_style(&self) -> (r: Option<InsertStyle>)
        ensures
            r == Some(self.persist.insert),
    {
        Some(self.persist.insert)
    }

    /// Whether the cursor may rest past the last column; it always may
    /// under this context.
    pub fn get_last_column(&self) -> (r: bool)
        ensures
            r == true,
    {
        true
    }

    /// The register chosen for the pending action, if any.
    pub fn get_register(&self) -> (r: Option<Register>)
        ensures
            r == self.action.register,
    {
        self.action.register
    }

    /// Whether a chosen register is to be appended to; never under this
    /// context.
    pub fn get_register_append(&self) -> (r: bool)
        ensures
            r == false,
    {
        false
    }

    /// Whether searches are incremental.
    pub fn is_search_incremental(&self) -> (r: bool)
        ensures
            r == self.persist.regexsearch_inc,
    {
        self.persist.regexsearch_inc
    }
}

impl Default for EmacsContext {
    fn default() -> (r: Self)
        ensures
            r == Self::spec_default(),
    {
        EmacsContext {
            action: ActionContext::default(),
            persist: PersistentContext::default(),
            ch: CharacterContext::default(),
        }
    }
}

/// A contextual count falls back to 1; a minus-one count falls back to 0
/// and saturates at 0 when subtracting; an exact count is itself.
pub open spec fn spec_resolve_count(ctx: EmacsContext, count: Count) -> usize {
    match count {
        Count::Contextual => match ctx.action.count {
            Some(n) => n,
            None => 1,
        },
        Count::MinusOne => {
            let v = match ctx.action.count {
                Some(n) => n,
                None => 0,
            };
            if v >= 1 {
                (v - 1) as usize
            } else {
                0
            }
        },
        Count::Exact(n) => n,
    }
}

/// What one classified key edge does to the accumulators: exactly one
/// accumulator is updated by the shared incremental digit rule, or a
/// literal is recorded, or nothing changes.
pub open spec fn spec_event(ctx: EmacsContext, ev: EdgeEvent, ke: TerminalKey) -> EmacsContext {
    match ev {
        EdgeEvent::Key(_) => ctx,
        EdgeEvent::Fallthrough => ctx,
        EdgeEvent::Any => EmacsContext {
            ch: CharacterContext { any: Some(ke), ..ctx.ch },
            ..ctx
        },
        EdgeEvent::Class(CommonKeyClass::Count) => match spec_keycode_to_num(ke, 10) {
            Some(n) => EmacsContext {
                action: ActionContext {
                    counting: Some(spec_muladd_usize(ctx.action.counting, 10, n as usize)),
                    ..ctx.action
                },
                ..ctx
            },
            None => ctx,
        },
        EdgeEvent::Class(CommonKeyClass::Octal) => match spec_keycode_to_num(ke, 8) {
            Some(n) => EmacsContext {
                ch: CharacterContext { oct: Some(spec_muladd_u32(ctx.ch.oct, 8, n)), ..ctx.ch },
                ..ctx
            },
            None => ctx,
        },
        EdgeEvent::Class(CommonKeyClass::Decimal) => match spec_keycode_to_num(ke, 10) {
            Some(n) => EmacsContext {
                ch: CharacterContext { dec: Some(spec_muladd_u32(ctx.ch.dec, 10, n)), ..ctx.ch },
                ..ctx
            },
            None => ctx,
        },
        EdgeEvent::Class(CommonKeyClass::Hexadecimal) => match spec_keycode_to_num(ke, 16) {
            Some(n) => EmacsContext {
                ch: CharacterContext { hex: Some(spec_muladd_u32(ctx.ch.hex, 16, n)), ..ctx.ch },
                ..ctx
            },
            None => ctx,
        },
        EdgeEvent::Class(CommonKeyClass::Digraph1) => match ke {
            TerminalKey::Char(c) => EmacsContext {
                ch: CharacterContext { digraph1: Some(c), ..ctx.ch },
                ..ctx
            },
            TerminalKey::Other => ctx,
        },
        EdgeEvent::Class(CommonKeyClass::Digraph2) => match ke {
            TerminalKey::Char(c) => EmacsContext {
                ch: CharacterContext { digraph2: Some(c), ..ctx.ch },
                ..ctx
            },
            TerminalKey::Other => ctx,
        },
        EdgeEvent::Class(_) => ctx,
    }
}

/// The modes the engine can be in.
#[derive(Clone, Copy, Debug, Default, Eq, Hash, PartialEq)]
pub enum EmacsMode {
    /// Ordinary typing.
    #[default]
    Insert,
    /// Command bar entry.
    Command,
    /// Search bar entry.
    Search,
}

/// The classifications the action vocabulary computed of a dispatched
/// action; consumed opaquely when deciding what to track for repetition.
#[derive(Clone, Copy, Debug, PartialEq, Eq)]
pub struct ActionClassifications {
    /// Whether the action bounds an edit sequence.
    pub edit_sequence: SequenceStatus,
    /// Whether the action is repeatable as the last action.
    pub last_action: SequenceStatus,
    /// Whether the action is repeatable as the last selection.
    pub last_selection: SequenceStatus,
}

/// The single action emitted for an unmapped key that types a character:
/// insert it before the cursor, a contextual number of times.
pub open spec fn type_char_action(c: char) -> Action {
    Action::InsertText(
        InsertTextAction::Type(
            Specifier::Exact(Char::Single(c)),
            MoveDir1D::Previous,
            Count::Contextual,
        ),
    )
}

impl EmacsMode {
    /// Enter this mode, coming from `prev`: entering a prompt clears any
    /// pending visual-shape override; no actions are emitted.
    pub fn enter(&self, prev: EmacsMode, ctx: &mut EmacsContext) -> (r: Vec<Action>)
        ensures
            r@ == Seq::<Action>::empty(),
            *self matches EmacsMode::Insert ==> *final(ctx) == *old(ctx),
            !(*self matches EmacsMode::Insert) ==> *final(ctx) == (EmacsContext {
                persist: PersistentContext { shape: None, ..old(ctx).persist },
                ..*old(ctx)
            }),
    {
        match self {
            EmacsMode::Insert => Vec::new(),
            EmacsMode::Command | EmacsMode::Search => {
                ctx.persist.shape = None;
                Vec::new()
            },
        }
    }

    /// The status text to display for this mode: only insert mode in
    /// replace style shows one.
    pub fn show(&self, ctx: &EmacsContext) -> (r: Option<String>)
        ensures
            (*self matches EmacsMode::Insert && ctx.persist.insert matches InsertStyle::Replace)
                ==> (r matches Some(s) && s@ == "Overwrite mode enabled"@),
            !(*self matches EmacsMode::Insert && ctx.persist.insert matches InsertStyle::Replace)
                ==> r is None,
    {
        match self {
            EmacsMode::Insert => {
                match ctx.persist.insert {
                    InsertStyle::Insert => None,
                    InsertStyle::Replace => Some(String::from_str("Overwrite mode enabled")),
                }
            },
            EmacsMode::Command | EmacsMode::Search => None,
        }
    }

    /// Classify a dispatched action for repeat tracking: insert and command
    /// mode report the action's three classifications, one per repeat kind;
    /// nothing performed in search mode is ever recorded for repetition.
    pub fn sequences(&self, acts: &ActionClassifications) -> (r: Vec<(RepeatType, SequenceStatus)>)
        ensures
            !(*self matches EmacsMode::Search) ==> r@ == seq![
                (RepeatType::EditSequence, acts.edit_sequence),
                (RepeatType::LastAction, acts.last_action),
                (RepeatType::LastSelection, acts.last_selection),
            ],
            *self matches EmacsMode::Search ==> r@ == Seq::<(RepeatType, SequenceStatus)>::empty(),
    {
        match self {
            EmacsMode::Insert | EmacsMode::Command => {
                let mut r: Vec<(RepeatType, SequenceStatus)> = Vec::new();
                r.push((RepeatType::EditSequence, acts.edit_sequence));
                r.push((RepeatType::LastAction, acts.last_action));
                r.push((RepeatType::LastSelection, acts.last_selection));
                proof {
                    assert(r@ =~= seq![
                        (RepeatType::EditSequence, acts.edit_sequence),
                        (RepeatType::LastAction, acts.last_action),
                        (RepeatType::LastSelection, acts.last_selection),
                    ]);
                }
                r
            },
            EmacsMode::Search => Vec::new(),
        }
    }

    /// Handle a key that matched no bound sequence. The repeat flag is
    /// always cleared. A key that types a character emits one insert-type
    /// action and keeps the mode, in every mode; a non-character key does
    /// nothing in insert and command mode, while in search mode it emits
    /// one abort-prompt action and transitions to insert mode.
    pub fn unmapped(&self, ke: &TerminalKey, ctx: &mut EmacsContext) -> (r: (
        Vec<Action>,
        Option<EmacsMode>,
    ))
        ensures
            *final(ctx) == (EmacsContext {
                persist: PersistentContext { repeating: false, ..old(ctx).persist },
                ..*old(ctx)
            }),
            *ke matches TerminalKey::Char(c) ==> r.0@ == seq![type_char_action(c)] && r.1 is None,
            (*ke matches TerminalKey::Other && !(*self matches EmacsMode::Search)) ==> (r.0@
                == Seq::<Action>::empty() && r.1 is None),
            (*ke matches TerminalKey::Other && *self matches EmacsMode::Search) ==> (r.0@ == seq![
                Action::Prompt(PromptAction::Abort(false)),
            ] && r.1 == Some(EmacsMode::Insert)),
    {
        ctx.persist.repeating = false;
        match self {
            EmacsMode::Insert => {
                if let Some(c) = ke.get_char() {
                    let it = InsertTextAction::Type(
                        Specifier::Exact(Char::Single(c)),
                        MoveDir1D::Previous,
                        Count::Contextual,
                    );
                    let mut acts: Vec<Action> = Vec::new();
                    acts.push(Action::InsertText(it));
                    proof {
                        assert(acts@ =~= seq![type_char_action(c)]);
                    }
                    (acts, None)
                } else {
                    (Vec::new(), None)
                }
            },
            EmacsMode::Command => {
                if let Some(c) = ke.get_char() {
                    let it = InsertTextAction::Type(
                        Specifier::Exact(Char::Single(c)),
                        MoveDir1D::Previous,
                        Count::Contextual,
                    );
                    let mut acts: Vec<Action> = Vec::new();
                    acts.push(Action::InsertText(it));
                    proof {
                        assert(acts@ =~= seq![type_char_action(c)]);
                    }
                    (acts, None)
                } else {
                    (Vec::new(), None)
                }
            },
            EmacsMode::Search => {
                if let Some(c) = ke.get_char() {
                    let it = InsertTextAction::Type(
                        Specifier::Exact(Char::Single(c)),
                        MoveDir1D::Previous,
                        Count::Contextual,
                    );
                    let mut acts: Vec<Action> = Vec::new();
                    acts.push(Action::InsertText(it));
                    proof {
                        assert(acts@ =~= seq![type_char_action(c)]);
                    }
                    (acts, None)
                } else {
                    let mut acts: Vec<Action> = Vec::new();
                    acts.push(Action::Prompt(PromptAction::Abort(false)));
                    proof {
                        assert(acts@ =~= seq![Action::Prompt(PromptAction::Abort(false))]);
                    }
                    (acts, Some(EmacsMode::Insert))
                }
            },
        }
    }
}

} // verus!

