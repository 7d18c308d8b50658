//! A minimal owned text value: the unit of content stored in registers.
//!
//! Registers and the command bar only need a handful of text operations:
//! empty construction, construction from a literal, concatenation, counting
//! line breaks, and conversion to a `String`.

use vstd::prelude::*;
use vstd::string::StringExecFns;

verus! {

/// The number of line breaks in `s`: a text value "spans" this many full
/// (newline-terminated) lines.
pub open spec fn count_newlines(s: Seq<char>) -> nat
    decreases s.len(),
{
    if s.len() == 0 {
        0
    } else {
        count_newlines(s.drop_last()) + if s.last() == '\n' {
            1nat
        } else {
            0nat
        }
    }
}

proof fn lemma_count_newlines_take_step(s: Seq<char>, i: int)
    requires
        0 <= i < s.len(),
    ensures
        count_newlines(s.take(i + 1)) == count_newlines(s.take(i)) + if s[i] == '\n' {
            1nat
        } else {
            0nat
        },
        count_newlines(s.take(i)) <= i,
    decreases i,
{
    assert(s.take(i + 1).drop_last() =~= s.take(i));
    if i > 0 {
        lemma_count_newlines_take_step(s, i - 1);
    }
}

/// An owned piece of text, ordered by character.
#[derive(Debug)]
pub struct EditRope {
    text: String,
}

impl View for EditRope {
    type V = Seq<char>;

    closed spec fn view(&self) -> Seq<char> {
        self.text@
    }
}

impl Clone for EditRope {
    fn clone(&self) -> (r: Self)
        ensures
            r@ == self@,
    {
        EditRope { text: self.text.clone() }
    }
}

impl PartialEq for EditRope {
    fn eq(&self, other: &Self) -> (r: bool) {
        self.text == other.text
    }
}

impl vstd::std_specs::cmp::PartialEqSpecImpl for EditRope {
    open spec fn obeys_eq_spec() -> bool {
        true
    }

    open spec fn eq_spec(&self, other: &Self) -> bool {
        self@ == other@
    }
}

impl EditRope {
    /// An empty text value.
    pub fn new() -> (r: Self)
        ensures
            r@ == Seq::<char>::empty(),
    {
        EditRope { text: String::new() }
    }

    /// The text value holding exactly the characters of `s`.
    pub fn from_str(s: &str) -> (r: Self)
        ensures
            r@ == s@,
    {
        EditRope { text: String::from_str(s) }
    }

    /// Concatenation: the characters of `self` followed by those of `other`.
    pub fn concat(&self, other: &EditRope) -> (r: EditRope)
        ensures
            r@ == self@ + other@,
    {
        EditRope { text: self.text.clone().concat(other.text.as_str()) }
    }

    /// The number of characters held.
    pub fn len(&self) -> (r: usize)
        ensures
            r == self@.len(),
    {
        self.text.as_str().unicode_len()
    }

    /// How many full (newline-terminated) lines the text spans.
    pub fn get_lines(&self) -> (r: usize)
        ensures
            r == count_newlines(self@),
    {
        let n = self.text.as_str().unicode_len();
        let mut count: usize = 0;
        let mut i: usize = 0;
        while i < n
            invariant
                i <= n,
                n == self@.len(),
                count == count_newlines(self@.take(i as int)),
                count <= i,
            decreases n - i,
        {
            proof {
                lemma_count_newlines_take_step(self@, i as int);
            }
            if self.text.as_str().get_char(i) == '\n' {
                count = count + 1;
            }
            i = i + 1;
        }
        proof {
            assert(self@.take(n as int) =~= self@);
        }
        count
    }

    /// Give the text up as a plain `String`.
    pub fn into_string(self) -> (r: String)
        ensures
            r@ == self@,
    {
        self.text
    }

    /// Empty the text in place, handing back what it held.
    pub fn take(&mut self) -> (r: EditRope)
        ensures
            r@ == old(self)@,
            final(self)@ == Seq::<char>::empty(),
    {
        let mut other = EditRope::new();
        core::mem::swap(self, &mut other);
        other
    }
}

} // verus!
