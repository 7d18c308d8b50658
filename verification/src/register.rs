//! Register storage: shape-tagged text cells, the merge algebra that append
//! writes follow, and the store that owns every named and special-purpose
//! register slot.

use vstd::prelude::*;

use crate::base::TargetShape;
use crate::text::{count_newlines, EditRope};

verus! {

/// A register identifier: each variant maps to exactly one storage slot or
/// is computed on read.
#[derive(Clone, Copy, Debug, PartialEq, Eq)]
pub enum Register {
    /// The default register, updated by every normal text write.
    Unnamed,
    /// The default register for macro recordings.
    UnnamedMacro,
    /// A virtual register for cursor groups; never stores anything.
    UnnamedCursorGroup,
    /// A register named by a single character.
    Named(char),
    /// A slot of the most-recently-deleted ring; offset 0 is the newest.
    RecentlyDeleted(usize),
    /// The most recent deletion that spanned less than one full line.
    SmallDelete,
    /// The name of the alternate buffer.
    AltBufName,
    /// The name of the current buffer; read-only through [`RegisterStore::put`].
    CurBufName,
    /// The most recently executed command; read-only through [`RegisterStore::put`].
    LastCommand,
    /// The most recently inserted text; read-only through [`RegisterStore::put`].
    LastInserted,
    /// The most recent search; read-only through [`RegisterStore::put`].
    LastSearch,
    /// The most recently yanked text.
    LastYanked,
    /// The operating system's primary selection; currently inert.
    SelectionPrimary,
    /// The operating system's clipboard; currently inert.
    SelectionClipboard,
    /// A register that discards everything written to it.
    Blackhole,
}

/// The options a write to the store can carry, freely combinable.
#[derive(Clone, Copy, Debug, PartialEq, Eq)]
pub struct RegisterPutFlags {
    /// Merge with the register's current value instead of replacing it.
    pub append: bool,
    /// The value comes from deleting text, which routes writes to
    /// [`Register::Unnamed`] through the delete classification rule.
    pub delete: bool,
    /// The write is not a normal text update: skip propagating the value to
    /// [`Register::Unnamed`].
    pub notext: bool,
}

impl RegisterPutFlags {
    /// No option set: a plain replacing write.
    pub fn none() -> (r: Self)
        ensures
            r == (RegisterPutFlags { append: false, delete: false, notext: false }),
    {
        RegisterPutFlags { append: false, delete: false, notext: false }
    }
}

/// The mathematical value of a register cell: a shape and the characters
/// stored under it.
#[verifier::ext_equal]
pub struct CellModel {
    /// The shape of the stored text.
    pub shape: TargetShape,
    /// The stored characters.
    pub value: Seq<char>,
}

/// The value an untouched register holds: character-wise empty text.
pub open spec fn cell_default() -> CellModel {
    CellModel { shape: TargetShape::CharWise, value: Seq::<char>::empty() }
}

/// The merge algebra for appending one cell to another. Line-wise content is
/// "sticky": any combination with it is line-wise and keeps a trailing line
/// break. Combinations without a line-wise operand keep the shape of the
/// cell being appended to, and insert a line break only when at least one
/// operand is block-wise.
pub open spec fn merge_model(a: CellModel, b: CellModel) -> CellModel {
    match (a.shape, b.shape) {
        (TargetShape::CharWise, TargetShape::CharWise) => CellModel {
            shape: TargetShape::CharWise,
            value: a.value + b.value,
        },
        (TargetShape::CharWise, TargetShape::BlockWise) => CellModel {
            shape: TargetShape::CharWise,
            value: a.value + b.value,
        },
        (TargetShape::LineWise, TargetShape::LineWise) => CellModel {
            shape: TargetShape::LineWise,
            value: a.value + b.value,
        },
        (TargetShape::BlockWise, TargetShape::BlockWise) => CellModel {
            shape: TargetShape::BlockWise,
            value: a.value + seq!['\n'] + b.value,
        },
        (TargetShape::BlockWise, TargetShape::CharWise) => CellModel {
            shape: TargetShape::BlockWise,
            value: a.value + seq!['\n'] + b.value,
        },
        (TargetShape::BlockWise, TargetShape::LineWise) => CellModel {
            shape: TargetShape::LineWise,
            value: a.value + seq!['\n'] + b.value,
        },
        (TargetShape::CharWise, TargetShape::LineWise) => CellModel {
            shape: TargetShape::LineWise,
            value: a.value + seq!['\n'] + b.value,
        },
        (TargetShape::LineWise, TargetShape::BlockWise) => CellModel {
            shape: TargetShape::LineWise,
            value: a.value + b.value + seq!['\n'],
        },
        (TargetShape::LineWise, TargetShape::CharWise) => CellModel {
            shape: TargetShape::LineWise,
            value: a.value + b.value + seq!['\n'],
        },
    }
}

/// The current value stored under a register: a shape and a text.
#[derive(Debug, PartialEq)]
pub struct RegisterCell {
    /// The shape of the text within the register.
    pub shape: TargetShape,
    /// The stored text.
    pub value: EditRope,
}

impl View for RegisterCell {
    type V = CellModel;

    open spec fn view(&self) -> CellModel {
        CellModel { shape: self.shape, value: self.value@ }
    }
}

impl Clone for RegisterCell {
    fn clone(&self) -> (r: Self)
        ensures
            r@ == self@,
    {
        RegisterCell { shape: self.shape, value: self.value.clone() }
    }
}

impl Default for RegisterCell {
    fn default() -> (r: Self)
        ensures
            r@ == cell_default(),
    {
        RegisterCell { shape: TargetShape::CharWise, value: EditRope::new() }
    }
}

impl RegisterCell {
    /// Create a new cell.
    pub fn new(shape: TargetShape, value: EditRope) -> (r: Self)
        ensures
            r@ == (CellModel { shape, value: value@ }),
    {
        RegisterCell { shape, value }
    }

    /// Merge the contents of two register cells, respecting their shapes.
    pub fn merge(&self, other: &RegisterCell) -> (r: RegisterCell)
        ensures
            r@ == merge_model(self@, other@),
    {
        proof {
            reveal_strlit("\n");
            assert("\n"@ =~= seq!['\n']);
        }
        let newline = EditRope::from_str("\n");
        match (self.shape, other.shape) {
            (TargetShape::CharWise, TargetShape::CharWise)
            | (TargetShape::LineWise, TargetShape::LineWise)
            | (TargetShape::CharWise, TargetShape::BlockWise) => {
                // These combinations keep the existing cell's shape and need
                // no separator.
                let text = self.value.concat(&other.value);
                RegisterCell::new(self.shape, text)
            },
            (TargetShape::BlockWise, TargetShape::BlockWise)
            | (TargetShape::BlockWise, TargetShape::CharWise) => {
                // These combinations keep the existing cell's shape, with a
                // line break between the contents.
                let text = self.value.concat(&newline).concat(&other.value);
                RegisterCell::new(self.shape, text)
            },
            (TargetShape::BlockWise, TargetShape::LineWise)
            | (TargetShape::CharWise, TargetShape::LineWise) => {
                // These combinations take on the appended cell's shape, with
                // a line break between the contents.
                let text = self.value.concat(&newline).concat(&other.value);
                RegisterCell::new(other.shape, text)
            },
            (TargetShape::LineWise, TargetShape::BlockWise)
            | (TargetShape::LineWise, TargetShape::CharWise) => {
                // These combinations keep the existing cell's shape, with a
                // line break appended after the contents.
                let text = self.value.concat(&other.value).concat(&newline);
                RegisterCell::new(self.shape, text)
            },
        }
    }
}

/// The mathematical state of a register store.
#[verifier::ext_equal]
pub struct StoreModel {
    /// The alternate buffer's name.
    pub altbufname: CellModel,
    /// The current buffer's name.
    pub curbufname: CellModel,
    /// The most recently executed command.
    pub last_command: CellModel,
    /// The most recently inserted text.
    pub last_inserted: CellModel,
    /// The most recent search.
    pub last_search: CellModel,
    /// The most recently yanked text.
    pub last_yanked: CellModel,
    /// The ring of recent multi-line deletions; index 0 is the newest.
    pub last_deleted: Seq<CellModel>,
    /// The register last used to source a macro run, if any.
    pub last_macro: Option<Register>,
    /// The most recent deletion spanning less than one full line.
    pub small_delete: CellModel,
    /// The unnamed register.
    pub unnamed: CellModel,
    /// The unnamed macro register.
    pub unnamed_macro: CellModel,
    /// The named registers that have been written.
    pub named: Map<char, CellModel>,
}

/// The state of a store in which nothing has been written yet.
pub open spec fn store_init() -> StoreModel {
    StoreModel {
        altbufname: cell_default(),
        curbufname: cell_default(),
        last_command: cell_default(),
        last_inserted: cell_default(),
        last_search: cell_default(),
        last_yanked: cell_default(),
        last_deleted: Seq::new(9, |i: int| cell_default()),
        last_macro: None,
        small_delete: cell_default(),
        unnamed: cell_default(),
        unnamed_macro: cell_default(),
        named: Map::empty(),
    }
}

/// What a read of `reg` returns: the stored cell, or the default for
/// virtual, inert and never-written registers.
pub open spec fn spec_get(m: StoreModel, reg: Register) -> CellModel {
    match reg {
        Register::Unnamed => m.unnamed,
        Register::UnnamedMacro => m.unnamed_macro,
        Register::UnnamedCursorGroup => cell_default(),
        Register::Named(name) => if m.named.contains_key(name) {
            m.named[name]
        } else {
            cell_default()
        },
        Register::RecentlyDeleted(off) => if off < m.last_deleted.len() {
            m.last_deleted[off as int]
        } else {
            cell_default()
        },
        Register::SmallDelete => m.small_delete,
        Register::AltBufName => m.altbufname,
        Register::CurBufName => m.curbufname,
        Register::LastCommand => m.last_command,
        Register::LastInserted => m.last_inserted,
        Register::LastSearch => m.last_search,
        Register::LastYanked => m.last_yanked,
        Register::SelectionPrimary => cell_default(),
        Register::SelectionClipboard => cell_default(),
        Register::Blackhole => cell_default(),
    }
}

/// The delete classification rule: a deletion spanning less than one full
/// line overwrites the small-delete slot only; anything longer is pushed
/// onto the front of the ring, whose oldest entry falls off.
pub open spec fn push_deleted_model(m: StoreModel, cell: CellModel) -> StoreModel {
    if count_newlines(cell.value) < 1 {
        StoreModel { small_delete: cell, ..m }
    } else {
        StoreModel { last_deleted: (seq![cell] + m.last_deleted).take(9), ..m }
    }
}

/// The cell a write actually stores: the incoming cell, or, for an
/// appending write, the register's current value merged with it.
pub open spec fn effective_cell(m: StoreModel, reg: Register, cell: CellModel, flags: RegisterPutFlags) -> CellModel {
    if flags.append {
        merge_model(spec_get(m, reg), cell)
    } else {
        cell
    }
}

/// What a write of `cell` to `reg` under `flags` does to the store.
pub open spec fn spec_put(m: StoreModel, reg: Register, cell: CellModel, flags: RegisterPutFlags) -> StoreModel {
    let eff = effective_cell(m, reg, cell, flags);
    match reg {
        Register::Blackhole => m,
        Register::UnnamedCursorGroup => m,
        _ => {
            let stored = match reg {
                Register::Unnamed => if flags.delete {
                    push_deleted_model(m, eff)
                } else {
                    StoreModel { last_yanked: eff, ..m }
                },
                Register::UnnamedMacro => StoreModel { unnamed_macro: eff, ..m },
                Register::Named(name) => StoreModel { named: m.named.insert(name, eff), ..m },
                Register::RecentlyDeleted(off) => if off < m.last_deleted.len() {
                    StoreModel { last_deleted: m.last_deleted.update(off as int, eff), ..m }
                } else {
                    m
                },
                Register::SmallDelete => StoreModel { small_delete: eff, ..m },
                Register::AltBufName => StoreModel { altbufname: eff, ..m },
                Register::LastYanked => StoreModel { last_yanked: eff, ..m },
                // The operating system selections are currently inert, and
                // the read-only history registers are never overwritten from
                // here; both still propagate the value.
                _ => m,
            };
            if flags.notext {
                stored
            } else {
                StoreModel { unnamed: eff, ..stored }
            }
        },
    }
}

/// The key-to-cell mapping held by an association sequence; a later entry
/// for a key overrides an earlier one.
pub open spec fn named_model_seq(s: Seq<(char, CellModel)>) -> Map<char, CellModel>
    decreases s.len(),
{
    if s.len() == 0 {
        Map::empty()
    } else {
        named_model_seq(s.drop_last()).insert(s.last().0, s.last().1)
    }
}

/// No two entries of `s` carry the same key.
pub open spec fn unique_keys(s: Seq<(char, CellModel)>) -> bool {
    forall|i: int, j: int|
        0 <= i < j < s.len() ==> (#[trigger] s[i]).0 != (#[trigger] s[j]).0
}

proof fn lemma_named_model_lookup(s: Seq<(char, CellModel)>, i: int)
    requires
        0 <= i < s.len(),
        unique_keys(s),
    ensures
        named_model_seq(s).contains_key(s[i].0),
        named_model_seq(s)[s[i].0] == s[i].1,
    decreases s.len(),
{
    if i < s.len() - 1 {
        assert(unique_keys(s.drop_last()));
        lemma_named_model_lookup(s.drop_last(), i);
        assert(s.drop_last()[i] == s[i]);
        assert(s.last().0 != s[i].0);
    }
}

proof fn lemma_named_model_absent(s: Seq<(char, CellModel)>, c: char)
    requires
        forall|j: int| 0 <= j < s.len() ==> (#[trigger] s[j]).0 != c,
    ensures
        !named_model_seq(s).contains_key(c),
    decreases s.len(),
{
    if s.len() > 0 {
        lemma_named_model_absent(s.drop_last(), c);
    }
}

proof fn lemma_named_model_push(s: Seq<(char, CellModel)>, p: (char, CellModel))
    ensures
        named_model_seq(s.push(p)) == named_model_seq(s).insert(p.0, p.1),
{
    assert(s.push(p).drop_last() =~= s);
    assert(s.push(p).last() == p);
}

proof fn lemma_named_model_update(s: Seq<(char, CellModel)>, i: int, v: CellModel)
    requires
        0 <= i < s.len(),
        unique_keys(s),
    ensures
        named_model_seq(s.update(i, (s[i].0, v))) == named_model_seq(s).insert(s[i].0, v),
    decreases s.len(),
{
    let c = s[i].0;
    let s2 = s.update(i, (c, v));
    if i == s.len() - 1 {
        assert(s2.drop_last() =~= s.drop_last());
        assert(s2.last() == (c, v));
        assert(named_model_seq(s.drop_last()).insert(c, s[i].1).insert(c, v) =~= named_model_seq(
            s.drop_last(),
        ).insert(c, v));
    } else {
        assert(unique_keys(s.drop_last()));
        lemma_named_model_update(s.drop_last(), i, v);
        assert(s2.drop_last() =~= s.drop_last().update(i, (c, v)));
        assert(s2.last() == s.last());
        let l = s.last();
        assert(s[i].0 != l.0);
        assert(named_model_seq(s.drop_last()).insert(c, v).insert(l.0, l.1) =~= named_model_seq(
            s.drop_last(),
        ).insert(l.0, l.1).insert(c, v));
    }
}

/// Storage for register values: recently cut and copied text, command and
/// search history slots, and recorded macros.
pub struct RegisterStore {
    altbufname: RegisterCell,
    curbufname: RegisterCell,
    last_command: RegisterCell,
    last_inserted: RegisterCell,
    last_search: RegisterCell,
    last_yanked: RegisterCell,
    last_deleted: Vec<RegisterCell>,
    last_macro: Option<Register>,
    small_delete: RegisterCell,
    unnamed: RegisterCell,
    unnamed_macro: RegisterCell,
    named: Vec<(char, RegisterCell)>,
}

impl View for RegisterStore {
    type V = StoreModel;

    closed spec fn view(&self) -> StoreModel {
        StoreModel {
            altbufname: self.altbufname@,
            curbufname: self.curbufname@,
            last_command: self.last_command@,
            last_inserted: self.last_inserted@,
            last_search: self.last_search@,
            last_yanked: self.last_yanked@,
            last_deleted: self.last_deleted@.map_values(|c: RegisterCell| c@),
            last_macro: self.last_macro,
            small_delete: self.small_delete@,
            unnamed: self.unnamed@,
            unnamed_macro: self.unnamed_macro@,
            named: named_model_seq(self.named@.map_values(|p: (char, RegisterCell)| (p.0, p.1@))),
        }
    }
}

impl RegisterStore {
    /// The store's invariant: the deletion ring always has exactly nine
    /// slots, and no register name is stored twice.
    pub open spec fn wf(&self) -> bool {
        &&& self@.last_deleted.len() == 9
        &&& self.named_wf()
    }

    pub closed spec fn named_wf(&self) -> bool {
        unique_keys(self.named@.map_values(|p: (char, RegisterCell)| (p.0, p.1@)))
    }

    /// Create a store with every slot empty.
    pub fn new() -> (r: Self)
        ensures
            r.wf(),
            r@ == store_init(),
    {
        let mut ring: Vec<RegisterCell> = Vec::new();
        let mut i: usize = 0;
        while i < 9
            invariant
                i <= 9,
                ring@.len() == i,
                forall|j: int| 0 <= j < i ==> #[trigger] ring@[j]@ == cell_default(),
            decreases 9 - i,
        {
            ring.push(RegisterCell::default());
            i = i + 1;
        }
        let r = RegisterStore {
            altbufname: RegisterCell::default(),
            curbufname: RegisterCell::default(),
            last_command: RegisterCell::default(),
            last_inserted: RegisterCell::default(),
            last_search: RegisterCell::default(),
            last_yanked: RegisterCell::default(),
            last_deleted: ring,
            last_macro: None,
            small_delete: RegisterCell::default(),
            unnamed: RegisterCell::default(),
            unnamed_macro: RegisterCell::default(),
            named: Vec::new(),
        };
        proof {
            assert(r@.last_deleted =~= store_init().last_deleted);
            assert(r@.named =~= store_init().named);
            assert(r@ =~= store_init());
        }
        r
    }

    /// Get the current value of a register.
    ///
    /// Virtual and inert registers, out-of-range ring offsets, and names
    /// never written all read as the default empty cell.
    pub fn get(&self, reg: &Register) -> (r: RegisterCell)
        requires
            self.wf(),
        ensures
            r@ == spec_get(self@, *reg),
    {
        match reg {
            Register::Unnamed => self.unnamed.clone(),
            Register::UnnamedMacro => self.unnamed_macro.clone(),
            Register::UnnamedCursorGroup => RegisterCell::default(),
            Register::RecentlyDeleted(off) => {
                if *off < self.last_deleted.len() {
                    self.last_deleted[*off].clone()
                } else {
                    RegisterCell::default()
                }
            },
            Register::SmallDelete => self.small_delete.clone(),
            Register::Named(name) => {
                let found = Self::named_lookup(&self.named, *name);
                proof {
                    let s = self.named@.map_values(|p: (char, RegisterCell)| (p.0, p.1@));
                    match found {
                        Some(i) => lemma_named_model_lookup(s, i as int),
                        None => lemma_named_model_absent(s, *name),
                    }
                }
                match found {
                    Some(i) => self.named[i].1.clone(),
                    None => RegisterCell::default(),
                }
            },
            Register::AltBufName => self.altbufname.clone(),
            Register::LastSearch => self.last_search.clone(),
            Register::LastYanked => self.last_yanked.clone(),
            // Operating system selections: inert until a clipboard
            // collaborator is wired in; they degrade to empty.
            Register::SelectionPrimary => RegisterCell::default(),
            Register::SelectionClipboard => RegisterCell::default(),
            // Read-only registers.
            Register::CurBufName => self.curbufname.clone(),
            Register::LastCommand => self.last_command.clone(),
            Register::LastInserted => self.last_inserted.clone(),
            // The blackhole register.
            Register::Blackhole => RegisterCell::default(),
        }
    }

    fn named_lookup(named: &Vec<(char, RegisterCell)>, name: char) -> (r: Option<usize>)
        ensures
            match r {
                Some(i) => i < named@.len() && named@[i as int].0 == name,
                None => forall|j: int| 0 <= j < named@.len() ==> (#[trigger] named@[j]).0 != name,
            },
    {
        let mut i: usize = 0;
        while i < named.len()
            invariant
                i <= named@.len(),
                forall|j: int| 0 <= j < i ==> (#[trigger] named@[j]).0 != name,
            decreases named@.len() - i,
        {
            if named[i].0 == name {
                return Some(i);
            }
            i = i + 1;
        }
        None
    }

    fn _push_deleted(&mut self, cell: RegisterCell)
        requires
            old(self).wf(),
        ensures
            final(self).wf(),
            final(self)@ == push_deleted_model(old(self)@, cell@),
    {
        if cell.value.get_lines() < 1 {
            self.small_delete = cell;
            proof {
                assert(final(self)@ =~= push_deleted_model(old(self)@, cell@));
            }
        } else {
            self.last_deleted.insert(0, cell);
            self.last_deleted.truncate(9);
            proof {
                let expect = (seq![cell@] + old(self)@.last_deleted).take(9);
                let got = self.last_deleted@.map_values(|c: RegisterCell| c@);
                assert(got =~= expect);
                assert(final(self)@ =~= push_deleted_model(old(self)@, cell@));
            }
        }
    }

    /// Update the current value of a register with `cell`.
    ///
    /// An appending write first merges the register's current value with
    /// `cell`. Unless the write is flagged as a non-text update, the stored
    /// value also becomes the new content of [`Register::Unnamed`], so that
    /// every normal yank or delete is also accessible as "the last thing".
    /// Writes to virtual, inert and read-only registers change nothing of
    /// their own slot.
    pub fn put(&mut self, reg: &Register, cell: RegisterCell, flags: RegisterPutFlags)
        requires
            old(self).wf(),
        ensures
            final(self).wf(),
            final(self)@ == spec_put(old(self)@, *reg, cell@, flags),
    {
        let ghost incoming = cell@;
        let mut cell = cell;
        if flags.append {
            cell = self.get(reg).merge(&cell);
        }
        proof {
            assert(cell@ == effective_cell(old(self)@, *reg, incoming, flags));
        }
        let unnamed = match reg {
            Register::Blackhole => {
                return ;
            },
            Register::UnnamedCursorGroup => {
                return ;
            },
            Register::Unnamed => {
                if flags.delete {
                    self._push_deleted(cell.clone());
                } else {
                    self.last_yanked = cell.clone();
                }
                cell
            },
            Register::UnnamedMacro => {
                self.unnamed_macro = cell.clone();
                cell
            },
            Register::Named(name) => {
                let found = Self::named_lookup(&self.named, *name);
                proof {
                    let s = self.named@.map_values(|p: (char, RegisterCell)| (p.0, p.1@));
                    match found {
                        Some(i) => lemma_named_model_update(s, i as int, cell@),
                        None => lemma_named_model_push(s, (*name, cell@)),
                    }
                }
                match found {
                    Some(i) => {
                        self.named[i] = (*name, cell.clone());
                        proof {
                            let s = old(self).named@.map_values(
                                |p: (char, RegisterCell)| (p.0, p.1@),
                            );
                            let s2 = self.named@.map_values(|p: (char, RegisterCell)| (p.0, p.1@));
                            assert(s2 =~= s.update(i as int, (*name, cell@)));
                        }
                    },
                    None => {
                        self.named.push((*name, cell.clone()));
                        proof {
                            let s = old(self).named@.map_values(
                                |p: (char, RegisterCell)| (p.0, p.1@),
                            );
                            let s2 = self.named@.map_values(|p: (char, RegisterCell)| (p.0, p.1@));
                            assert(s2 =~= s.push((*name, cell@)));
                        }
                    },
                }
                cell
            },
            Register::RecentlyDeleted(off) => {
                if *off < self.last_deleted.len() {
                    self.last_deleted[*off] = cell.clone();
                    proof {
                        let got = self.last_deleted@.map_values(|c: RegisterCell| c@);
                        let expect = old(self)@.last_deleted.update(*off as int, cell@);
                        assert(got =~= expect);
                    }
                }
                cell
            },
            Register::SmallDelete => {
                self.small_delete = cell.clone();
                cell
            },
            Register::AltBufName => {
                self.altbufname = cell.clone();
                cell
            },
            Register::LastYanked => {
                self.last_yanked = cell.clone();
                cell
            },
            // Operating system selections: accepted and dropped until a
            // clipboard collaborator is wired in; still propagated.
            Register::SelectionPrimary => cell,
            Register::SelectionClipboard => cell,
            // Read-only registers: the value passes through for propagation
            // but the backing slot is never overwritten from here.
            Register::CurBufName => cell,
            Register::LastCommand => cell,
            Register::LastInserted => cell,
            Register::LastSearch => cell,
        };
        if !flags.notext {
            self.unnamed = unnamed;
        }
        proof {
            assert(final(self)@ =~= spec_put(old(self)@, *reg, incoming, flags));
        }
    }

    /// Record `reg` as the register last used to source a macro run, and
    /// return its current text content.
    pub fn get_macro(&mut self, reg: Register) -> (r: EditRope)
        requires
            old(self).wf(),
        ensures
            final(self).wf(),
            final(self)@ == (StoreModel { last_macro: Some(reg), ..old(self)@ }),
            r@ == spec_get(old(self)@, reg).value,
    {
        self.last_macro = Some(reg);
        self.get(&reg).value
    }

    /// Return the text of the register remembered by the last call to
    /// [`RegisterStore::get_macro`], re-resolved against the store's current
    /// state, or nothing if no macro has ever been run.
    pub fn get_last_macro(&self) -> (r: Option<EditRope>)
        requires
            self.wf(),
        ensures
            self@.last_macro is None ==> r is None,
            self@.last_macro matches Some(reg) ==> (r matches Some(t) && t@ == spec_get(
                self@,
                reg,
            ).value),
    {
        match &self.last_macro {
            Some(reg) => Some(self.get(reg).value),
            None => None,
        }
    }

    /// Record the most recently executed command; this and
    /// [`RegisterStore::set_last_search`] are the only way the two
    /// read-only history slots are populated.
    pub fn set_last_cmd(&mut self, rope: EditRope)
        requires
            old(self).wf(),
        ensures
            final(self).wf(),
            final(self)@ == (StoreModel {
                last_command: CellModel { shape: TargetShape::CharWise, value: rope@ },
                ..old(self)@
            }),
    {
        self.last_command = RegisterCell::new(TargetShape::CharWise, rope);
    }

    /// Record the most recent search.
    pub fn set_last_search(&mut self, rope: EditRope)
        requires
            old(self).wf(),
        ensures
            final(self).wf(),
            final(self)@ == (StoreModel {
                last_search: CellModel { shape: TargetShape::CharWise, value: rope@ },
                ..old(self)@
            }),
    {
        self.last_search = RegisterCell::new(TargetShape::CharWise, rope);
    }
}

/// In a fresh store every register, of whatever kind, reads as the default
/// empty cell, and no macro has been run.
pub proof fn lemma_fresh_store_reads_default(reg: Register)
    ensures
        spec_get(store_init(), reg) == cell_default(),
        store_init().last_macro is None,
{
}

/// Writing to the blackhole or cursor-group register never changes any
/// observable register, the unnamed one included, whatever the flags.
pub proof fn lemma_virtual_writes_change_nothing(
    m: StoreModel,
    cell: CellModel,
    flags: RegisterPutFlags,
)
    ensures
        spec_put(m, Register::Blackhole, cell, flags) == m,
        spec_put(m, Register::UnnamedCursorGroup, cell, flags) == m,
{
}

/// A write to the unnamed register that is neither a deletion nor a
/// non-text update is a yank: the stored value becomes the content of both
/// the unnamed and the last-yanked register.
pub proof fn lemma_yank_updates_last_yanked(
    m: StoreModel,
    cell: CellModel,
    flags: RegisterPutFlags,
)
    requires
        !flags.delete,
        !flags.notext,
    ensures
        ({
            let eff = effective_cell(m, Register::Unnamed, cell, flags);
            let m2 = spec_put(m, Register::Unnamed, cell, flags);
            &&& spec_get(m2, Register::LastYanked) == eff
            &&& spec_get(m2, Register::Unnamed) == eff
        }),
{
}

/// Delete classification: a deleting write to the unnamed register whose
/// value spans less than one full line overwrites the small-delete slot and
/// leaves the ring unchanged; one spanning at least one line is pushed onto
/// ring slot 0, shifting every older entry back by one and dropping the
/// oldest slot's content.
pub proof fn lemma_delete_classification(m: StoreModel, cell: CellModel, flags: RegisterPutFlags)
    requires
        flags.delete,
        m.last_deleted.len() == 9,
    ensures
        ({
            let eff = effective_cell(m, Register::Unnamed, cell, flags);
            let m2 = spec_put(m, Register::Unnamed, cell, flags);
            &&& count_newlines(eff.value) == 0 ==> m2.small_delete == eff && m2.last_deleted
                == m.last_deleted
            &&& count_newlines(eff.value) >= 1 ==> {
                &&& m2.last_deleted.len() == 9
                &&& m2.last_deleted[0] == eff
                &&& forall|i: int| 1 <= i < 9 ==> m2.last_deleted[i] == m.last_deleted[i - 1]
            }
        }),
{
}

/// An out-of-range ring offset always reads as the default empty cell, and
/// a write to it is a no-op on the ring.
pub proof fn lemma_ring_out_of_range(
    m: StoreModel,
    off: usize,
    cell: CellModel,
    flags: RegisterPutFlags,
)
    requires
        m.last_deleted.len() == 9,
        off >= 9,
    ensures
        spec_get(m, Register::RecentlyDeleted(off)) == cell_default(),
        spec_put(m, Register::RecentlyDeleted(off), cell, flags).last_deleted == m.last_deleted,
{
}

/// Macro repetition is live: after a macro run from a named register is
/// recorded and that register is then overwritten, resolving the remembered
/// register sees the newly stored value, not the text visible when the
/// macro ran.
pub proof fn lemma_macro_live_resolution(
    m: StoreModel,
    name: char,
    cell: CellModel,
    flags: RegisterPutFlags,
)
    ensures
        ({
            let m1 = StoreModel { last_macro: Some(Register::Named(name)), ..m };
            let m2 = spec_put(m1, Register::Named(name), cell, flags);
            let eff = effective_cell(m1, Register::Named(name), cell, flags);
            &&& m2.last_macro == Some(Register::Named(name))
            &&& spec_get(m2, Register::Named(name)) == eff
        }),
{
}

impl Default for RegisterStore {
    fn default() -> (r: RegisterStore)
        ensures
            r.wf(),
            r@ == store_init(),
    {
        RegisterStore::new()
    }
}

} // verus!
