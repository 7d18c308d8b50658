use modalcore::base::{
    Action, Char, CommonKeyClass, Count, EdgeEvent, EditAction, InsertStyle, InsertTextAction,
    Mark, MoveDir1D, PromptAction, RepeatType, SequenceStatus, Specifier, TargetShape,
    TerminalKey,
};
use modalcore::context::{
    ActionClassifications, ActionContext, CharacterContext, EmacsContext, EmacsMode,
    PersistentContext,
};
use modalcore::register::Register;

fn feed(ctx: &mut EmacsContext, class: CommonKeyClass, keys: &[char]) {
    for k in keys {
        ctx.event(&EdgeEvent::Class(class), &TerminalKey::Char(*k));
    }
}

#[test]
fn test_mode_show() {
    let mut ctx: EmacsContext = EmacsContext::default();

    assert_eq!(EmacsMode::Search.show(&ctx), None);

    ctx.persist.insert = InsertStyle::Insert;
    assert_eq!(EmacsMode::Insert.show(&ctx), None);

    ctx.persist.insert = InsertStyle::Replace;
    assert_eq!(EmacsMode::Insert.show(&ctx), Some("Overwrite mode enabled".into()));
}

#[test]
fn count_digits_accumulate_in_base_ten() {
    let mut ctx = EmacsContext::default();
    assert_eq!(ctx.action.counting, None);

    feed(&mut ctx, CommonKeyClass::Count, &['1', '2', '3']);

    assert_eq!(ctx.action.counting, Some(123));
}

#[test]
fn hex_digits_accumulate_in_base_sixteen() {
    let mut ctx = EmacsContext::default();

    feed(&mut ctx, CommonKeyClass::Hexadecimal, &['a', 'f']);

    assert_eq!(ctx.ch.hex, Some(175));
}

#[test]
fn octal_and_decimal_accumulate_independently() {
    let mut ctx = EmacsContext::default();

    feed(&mut ctx, CommonKeyClass::Octal, &['7', '7']);
    feed(&mut ctx, CommonKeyClass::Decimal, &['9']);

    assert_eq!(ctx.ch.oct, Some(63));
    assert_eq!(ctx.ch.dec, Some(9));
    assert_eq!(ctx.ch.hex, None);
}

#[test]
fn non_digit_keys_leave_accumulators_alone() {
    let mut ctx = EmacsContext::default();

    ctx.event(&EdgeEvent::Class(CommonKeyClass::Count), &TerminalKey::Char('x'));
    ctx.event(&EdgeEvent::Class(CommonKeyClass::Count), &TerminalKey::Other);
    ctx.event(&EdgeEvent::Fallthrough, &TerminalKey::Char('1'));
    ctx.event(&EdgeEvent::Key(TerminalKey::Char('1')), &TerminalKey::Char('1'));

    assert_eq!(ctx, EmacsContext::default());
}

#[test]
fn any_and_digraph_events_record_keys() {
    let mut ctx = EmacsContext::default();

    ctx.event(&EdgeEvent::Any, &TerminalKey::Char('z'));
    ctx.event(&EdgeEvent::Class(CommonKeyClass::Digraph1), &TerminalKey::Char('d'));
    ctx.event(&EdgeEvent::Class(CommonKeyClass::Digraph2), &TerminalKey::Char('g'));

    assert_eq!(ctx.ch.any, Some(TerminalKey::Char('z')));
    assert_eq!(ctx.ch.digraph1, Some('d'));
    assert_eq!(ctx.ch.digraph2, Some('g'));
}

#[test]
fn contextual_count_defaults_to_one() {
    let ctx = EmacsContext::default();
    assert_eq!(ctx.resolve_count(&Count::Contextual), 1);
}

#[test]
fn minus_one_count_saturates_at_zero() {
    let mut ctx = EmacsContext::default();
    assert_eq!(ctx.resolve_count(&Count::MinusOne), 0);

    ctx.action.count = Some(0);
    assert_eq!(ctx.resolve_count(&Count::MinusOne), 0);

    ctx.action.count = Some(5);
    assert_eq!(ctx.resolve_count(&Count::MinusOne), 4);
}

#[test]
fn explicit_counts_resolve_verbatim() {
    let mut ctx = EmacsContext::default();
    ctx.action.count = Some(7);

    assert_eq!(ctx.resolve_count(&Count::Contextual), 7);
    assert_eq!(ctx.resolve_count(&Count::Exact(3)), 3);
}

#[test]
fn contextual_char_comes_from_accumulators() {
    let mut ctx = EmacsContext::default();
    assert_eq!(ctx.resolve_char(&Specifier::Contextual), None);

    // A decimal code point names its character.
    ctx.ch.dec = Some(97);
    assert_eq!(ctx.resolve_char(&Specifier::Contextual), Some(Char::Single('a')));

    // A literal key wins over an accumulated code.
    ctx.ch.any = Some(TerminalKey::Char('x'));
    assert_eq!(ctx.resolve_char(&Specifier::Contextual), Some(Char::Single('x')));

    assert_eq!(
        ctx.resolve_char(&Specifier::Exact(Char::Single('k'))),
        Some(Char::Single('k'))
    );
}

#[test]
fn digraph_resolves_as_pair() {
    let mut ctx = EmacsContext::default();
    ctx.ch.digraph1 = Some('d');
    ctx.ch.digraph2 = Some('g');

    assert_eq!(ctx.resolve_char(&Specifier::Contextual), Some(Char::Digraph('d', 'g')));
}

#[test]
fn surrogate_code_resolves_to_nothing() {
    let mut ctx = EmacsContext::default();
    ctx.ch.hex = Some(0xD800);

    assert_eq!(ctx.resolve_char(&Specifier::Contextual), None);
}

#[test]
fn marks_and_actions_resolve_with_defaults() {
    let ctx = EmacsContext::default();

    assert_eq!(ctx.resolve_mark(&Specifier::Contextual), Mark::LastJump);
    assert_eq!(
        ctx.resolve_mark(&Specifier::Exact(Mark::BufferNamed('m'))),
        Mark::BufferNamed('m')
    );
    assert_eq!(ctx.resolve_edit_action(&Specifier::Contextual), EditAction::Motion);
    assert_eq!(
        ctx.resolve_edit_action(&Specifier::Exact(EditAction::Yank)),
        EditAction::Yank
    );
}

#[test]
fn take_moves_state_out_and_keeps_persist() {
    let mut ctx = EmacsContext::default();
    ctx.action.count = Some(4);
    ctx.ch.dec = Some(65);
    ctx.persist.shift = true;
    let persist_before = ctx.persist;

    let snap = ctx.take();

    assert_eq!(snap.action.count, Some(4));
    assert_eq!(snap.ch.dec, Some(65));
    assert_eq!(snap.persist, persist_before);
    assert_eq!(ctx.action, ActionContext::default());
    assert_eq!(ctx.ch, CharacterContext::default());
    assert_eq!(ctx.persist, persist_before);
}

#[test]
fn reset_clears_only_action_context() {
    let mut ctx = EmacsContext::default();
    ctx.action.count = Some(2);
    ctx.action.register = Some(Register::Named('a'));
    ctx.ch.oct = Some(7);
    ctx.persist.repeating = true;

    ctx.reset();

    assert_eq!(ctx.action, ActionContext::default());
    assert_eq!(ctx.ch.oct, Some(7));
    assert!(ctx.persist.repeating);
}

#[test]
fn overrides_takes_only_an_explicit_count() {
    let mut ctx = EmacsContext::default();
    ctx.action.count = Some(2);
    ctx.action.register = Some(Register::Named('a'));

    let mut other = EmacsContext::default();
    other.action.count = Some(9);
    other.action.register = Some(Register::Named('z'));
    ctx.overrides(&other);

    assert_eq!(ctx.action.count, Some(9));
    assert_eq!(ctx.action.register, Some(Register::Named('a')));

    let no_count = EmacsContext::default();
    ctx.overrides(&no_count);
    assert_eq!(ctx.action.count, Some(9));
}

#[test]
fn unmapped_search_aborts_on_non_character_key() {
    let mut ctx = EmacsContext::default();
    ctx.persist.repeating = true;

    let (acts, next) = EmacsMode::Search.unmapped(&TerminalKey::Other, &mut ctx);

    assert_eq!(acts, vec![Action::Prompt(PromptAction::Abort(false))]);
    assert_eq!(next, Some(EmacsMode::Insert));
    assert!(!ctx.persist.repeating);
}

#[test]
fn unmapped_character_key_types_in_every_mode() {
    let expected = Action::InsertText(InsertTextAction::Type(
        Specifier::Exact(Char::Single('h')),
        MoveDir1D::Previous,
        Count::Contextual,
    ));

    for mode in [EmacsMode::Insert, EmacsMode::Command, EmacsMode::Search] {
        let mut ctx = EmacsContext::default();
        let (acts, next) = mode.unmapped(&TerminalKey::Char('h'), &mut ctx);
        assert_eq!(acts, vec![expected]);
        assert_eq!(next, None);
    }
}

#[test]
fn unmapped_non_character_key_is_ignored_outside_search() {
    for mode in [EmacsMode::Insert, EmacsMode::Command] {
        let mut ctx = EmacsContext::default();
        let (acts, next) = mode.unmapped(&TerminalKey::Other, &mut ctx);
        assert_eq!(acts, vec![]);
        assert_eq!(next, None);
    }
}

#[test]
fn entering_a_prompt_clears_shape_override() {
    let mut ctx = EmacsContext::default();
    ctx.persist.shape = Some(TargetShape::BlockWise);
    let acts = EmacsMode::Search.enter(EmacsMode::Insert, &mut ctx);
    assert!(acts.is_empty());
    assert_eq!(ctx.persist.shape, None);

    ctx.persist.shape = Some(TargetShape::LineWise);
    let acts = EmacsMode::Insert.enter(EmacsMode::Search, &mut ctx);
    assert!(acts.is_empty());
    assert_eq!(ctx.persist.shape, Some(TargetShape::LineWise));
}

#[test]
fn sequences_track_nothing_in_search_mode() {
    let acts = ActionClassifications {
        edit_sequence: SequenceStatus::Track,
        last_action: SequenceStatus::Atom,
        last_selection: SequenceStatus::Ignore,
    };

    assert_eq!(
        EmacsMode::Insert.sequences(&acts),
        vec![
            (RepeatType::EditSequence, SequenceStatus::Track),
            (RepeatType::LastAction, SequenceStatus::Atom),
            (RepeatType::LastSelection, SequenceStatus::Ignore),
        ]
    );
    assert_eq!(EmacsMode::Command.sequences(&acts).len(), 3);
    assert_eq!(EmacsMode::Search.sequences(&acts), vec![]);
}

#[test]
fn context_getters_report_accumulated_state() {
    let mut ctx = EmacsContext::default();
    ctx.persist.regexsearch_dir = MoveDir1D::Previous;
    ctx.persist.regexsearch_inc = false;
    ctx.action.register = Some(Register::Named('r'));

    assert_eq!(ctx.get_replace_char(), None);
    assert!(ctx.get_search_regex().is_none());
    assert_eq!(ctx.get_search_regex_dir(), MoveDir1D::Previous);
    assert_eq!(ctx.get_search_char(), None);
    assert_eq!(ctx.get_target_shape(), None);
    assert_eq!(ctx.get_insert_style(), Some(InsertStyle::Insert));
    assert!(ctx.get_last_column());
    assert_eq!(ctx.get_register(), Some(Register::Named('r')));
    assert!(!ctx.get_register_append());
    assert!(!ctx.is_search_incremental());

    let persist = PersistentContext::default();
    assert_eq!(persist.regexsearch_dir, MoveDir1D::Next);
    assert!(persist.regexsearch_inc);
}
