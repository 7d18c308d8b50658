use modalcore::base::TargetShape::{BlockWise, CharWise, LineWise};
use modalcore::register::{Register, RegisterCell, RegisterPutFlags, RegisterStore};
use modalcore::text::EditRope;

fn cell(shape: modalcore::base::TargetShape, s: &str) -> RegisterCell {
    RegisterCell::new(shape, EditRope::from_str(s))
}

fn no_flags() -> RegisterPutFlags {
    RegisterPutFlags { append: false, delete: false, notext: false }
}

#[test]
fn test_cell_merge() {
    let a = RegisterCell::new(CharWise, EditRope::from_str("a"));
    let b = RegisterCell::new(BlockWise, EditRope::from_str("1\n2"));
    let c = RegisterCell::new(LineWise, EditRope::from_str("q\nr\ns\n"));

    // Test appending to a CharWise cell.
    assert_eq!(a.merge(&a), RegisterCell::new(CharWise, EditRope::from_str("aa")));
    assert_eq!(a.merge(&b), RegisterCell::new(CharWise, EditRope::from_str("a1\n2")));
    assert_eq!(a.merge(&c), RegisterCell::new(LineWise, EditRope::from_str("a\nq\nr\ns\n")));

    // Test appending to a BlockWise cell.
    assert_eq!(b.merge(&a), RegisterCell::new(BlockWise, EditRope::from_str("1\n2\na")));
    assert_eq!(b.merge(&b), RegisterCell::new(BlockWise, EditRope::from_str("1\n2\n1\n2")));
    assert_eq!(b.merge(&c), RegisterCell::new(LineWise, EditRope::from_str("1\n2\nq\nr\ns\n")));

    // Test appending to a LineWise cell.
    assert_eq!(c.merge(&a), RegisterCell::new(LineWise, EditRope::from_str("q\nr\ns\na\n")));
    assert_eq!(c.merge(&b), RegisterCell::new(LineWise, EditRope::from_str("q\nr\ns\n1\n2\n")));
    assert_eq!(c.merge(&c), RegisterCell::new(LineWise, EditRope::from_str("q\nr\ns\nq\nr\ns\n")));
}

#[test]
fn virtual_writes_change_nothing() {
    let mut store = RegisterStore::new();
    store.put(&Register::Named('a'), cell(CharWise, "kept"), no_flags());

    store.put(&Register::Blackhole, cell(LineWise, "dropped\n"), no_flags());
    store.put(&Register::UnnamedCursorGroup, cell(CharWise, "dropped"), no_flags());

    assert_eq!(store.get(&Register::Unnamed), cell(CharWise, "kept"));
    assert_eq!(store.get(&Register::Named('a')), cell(CharWise, "kept"));
    assert_eq!(store.get(&Register::Blackhole), RegisterCell::default());
    assert_eq!(store.get(&Register::UnnamedCursorGroup), RegisterCell::default());
    assert_eq!(store.get(&Register::LastYanked), RegisterCell::default());
    assert_eq!(store.get(&Register::SmallDelete), RegisterCell::default());
}

#[test]
fn yank_updates_last_yanked() {
    let mut store = RegisterStore::new();
    let yanked = cell(LineWise, "copied\n");

    store.put(&Register::Unnamed, yanked.clone(), no_flags());

    assert_eq!(store.get(&Register::LastYanked), yanked.clone());
    assert_eq!(store.get(&Register::Unnamed), yanked);
}

#[test]
fn small_delete_skips_ring() {
    let mut store = RegisterStore::new();
    let seeded = cell(LineWise, "old\n");
    store.put(&Register::RecentlyDeleted(0), seeded.clone(), no_flags());

    let small = cell(CharWise, "word");
    let del = RegisterPutFlags { append: false, delete: true, notext: false };
    store.put(&Register::Unnamed, small.clone(), del);

    assert_eq!(store.get(&Register::SmallDelete), small);
    assert_eq!(store.get(&Register::RecentlyDeleted(0)), seeded);
    for off in 1..9 {
        assert_eq!(store.get(&Register::RecentlyDeleted(off)), RegisterCell::default());
    }
}

#[test]
fn line_delete_shifts_ring() {
    let mut store = RegisterStore::new();
    let del = RegisterPutFlags { append: false, delete: true, notext: false };

    let first = cell(LineWise, "one\n");
    let second = cell(LineWise, "two\n");
    store.put(&Register::Unnamed, first.clone(), del);
    store.put(&Register::Unnamed, second.clone(), del);

    assert_eq!(store.get(&Register::RecentlyDeleted(0)), second);
    assert_eq!(store.get(&Register::RecentlyDeleted(1)), first);
    assert_eq!(store.get(&Register::RecentlyDeleted(2)), RegisterCell::default());
    // The small-delete slot is untouched by full-line deletions.
    assert_eq!(store.get(&Register::SmallDelete), RegisterCell::default());
}

#[test]
fn ring_drops_oldest_entry() {
    let mut store = RegisterStore::new();
    let del = RegisterPutFlags { append: false, delete: true, notext: false };

    let marker = cell(LineWise, "first\n");
    store.put(&Register::Unnamed, marker.clone(), del);
    for _ in 0..9 {
        store.put(&Register::Unnamed, cell(LineWise, "later\n"), del);
    }

    // Nine newer entries pushed the marker out of the ring.
    for off in 0..9 {
        assert_eq!(store.get(&Register::RecentlyDeleted(off)), cell(LineWise, "later\n"));
    }
}

#[test]
fn ring_offset_out_of_range_reads_default() {
    let mut store = RegisterStore::new();
    let del = RegisterPutFlags { append: false, delete: true, notext: false };
    store.put(&Register::Unnamed, cell(LineWise, "one\n"), del);
    store.put(&Register::RecentlyDeleted(9), cell(CharWise, "ignored"), no_flags());

    assert_eq!(store.get(&Register::RecentlyDeleted(9)), RegisterCell::default());
    assert_eq!(store.get(&Register::RecentlyDeleted(0)), cell(LineWise, "one\n"));
}

#[test]
fn append_merges_with_current_value() {
    let mut store = RegisterStore::new();
    store.put(&Register::Named('a'), cell(CharWise, "foo"), no_flags());

    let append = RegisterPutFlags { append: true, delete: false, notext: false };
    store.put(&Register::Named('a'), cell(CharWise, "bar"), append);

    assert_eq!(store.get(&Register::Named('a')), cell(CharWise, "foobar"));
    assert_eq!(store.get(&Register::Unnamed), cell(CharWise, "foobar"));
}

#[test]
fn notext_skips_unnamed() {
    let mut store = RegisterStore::new();
    store.put(&Register::Unnamed, cell(CharWise, "kept"), no_flags());

    let notext = RegisterPutFlags { append: false, delete: false, notext: true };
    store.put(&Register::Named('m'), cell(CharWise, "recording"), notext);

    assert_eq!(store.get(&Register::Named('m')), cell(CharWise, "recording"));
    assert_eq!(store.get(&Register::Unnamed), cell(CharWise, "kept"));
}

#[test]
fn read_only_registers_ignore_put() {
    let mut store = RegisterStore::new();
    store.put(&Register::LastCommand, cell(CharWise, "ignored"), no_flags());

    assert_eq!(store.get(&Register::LastCommand), RegisterCell::default());
    // The value still propagated to the unnamed register.
    assert_eq!(store.get(&Register::Unnamed), cell(CharWise, "ignored"));
}

#[test]
fn history_setters_populate_slots() {
    let mut store = RegisterStore::new();
    store.set_last_cmd(EditRope::from_str("write"));
    store.set_last_search(EditRope::from_str("needle"));

    assert_eq!(store.get(&Register::LastCommand), cell(CharWise, "write"));
    assert_eq!(store.get(&Register::LastSearch), cell(CharWise, "needle"));
}

#[test]
fn last_macro_resolves_live() {
    let mut store = RegisterStore::new();
    store.put(&Register::Named('q'), cell(CharWise, "first"), no_flags());

    let ran = store.get_macro(Register::Named('q'));
    assert_eq!(ran, EditRope::from_str("first"));

    store.put(&Register::Named('q'), cell(CharWise, "second"), no_flags());

    assert_eq!(store.get_last_macro(), Some(EditRope::from_str("second")));
}

#[test]
fn no_macro_yet_returns_none() {
    let store = RegisterStore::new();
    assert_eq!(store.get_last_macro(), None);
}

#[test]
fn rope_counts_full_lines() {
    assert_eq!(EditRope::from_str("word").get_lines(), 0);
    assert_eq!(EditRope::from_str("one\n").get_lines(), 1);
    assert_eq!(EditRope::from_str("a\nb").get_lines(), 1);
    assert_eq!(EditRope::from_str("q\nr\ns\n").get_lines(), 3);
    assert_eq!(EditRope::new().get_lines(), 0);
}

#[test]
fn rope_into_string_round_trips() {
    assert_eq!(EditRope::from_str("a\nb").into_string(), String::from("a\nb"));
    assert_eq!(EditRope::new().into_string(), String::new());
}
