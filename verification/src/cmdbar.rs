//! State for a command/search bar: what the bar is prompting for, the text
//! typed into it, and the scrollback position while recalling history.
//! Rendering the bar is left to the widget layer around this crate.

use vstd::prelude::*;

use crate::base::CommandType;
use crate::text::EditRope;

verus! {

/// Where history recall currently stands.
#[derive(Clone, Copy, Debug, PartialEq, Eq)]
pub enum ScrollbackState {
    /// Nothing recalled yet; the typed text is still pending.
    Pending,
    /// Recall is walking the history at the given offset from its end.
    History(usize),
}

/// Persistent state of a command bar between prompts.
pub struct CommandBarState {
    scrollback: ScrollbackState,
    cmdtype: CommandType,
    text: EditRope,
}

impl CommandBarState {
    /// Where history recall currently stands.
    pub closed spec fn spec_scrollback(&self) -> ScrollbackState {
        self.scrollback
    }

    /// What the bar is prompting for.
    pub closed spec fn spec_type(&self) -> CommandType {
        self.cmdtype
    }

    /// The characters typed into the bar.
    pub closed spec fn spec_text(&self) -> Seq<char> {
        self.text@
    }

    /// Create state for a command bar: an empty command prompt with no
    /// recall under way.
    pub fn new() -> (r: Self)
        ensures
            r.spec_scrollback() == ScrollbackState::Pending,
            r.spec_type() == CommandType::Command,
            r.spec_text() == Seq::<char>::empty(),
    {
        CommandBarState {
            scrollback: ScrollbackState::Pending,
            cmdtype: CommandType::Command,
            text: EditRope::new(),
        }
    }

    /// Set the type of command that the bar is being used for.
    pub fn set_type(&mut self, ct: CommandType)
        ensures
            final(self).spec_type() == ct,
            final(self).spec_scrollback() == old(self).spec_scrollback(),
            final(self).spec_text() == old(self).spec_text(),
    {
        self.cmdtype = ct;
    }

    /// The type of command that the bar is being used for.
    pub fn get_type(&self) -> (r: CommandType)
        ensures
            r == self.spec_type(),
    {
        self.cmdtype
    }

    /// Replace the contents of the bar.
    pub fn set_text(&mut self, text: EditRope)
        ensures
            final(self).spec_text() == text@,
            final(self).spec_scrollback() == old(self).spec_scrollback(),
            final(self).spec_type() == old(self).spec_type(),
    {
        self.text = text;
    }

    /// The current contents of the bar, copied out.
    pub fn contents(&self) -> (r: EditRope)
        ensures
            r@ == self.spec_text(),
    {
        self.text.clone()
    }

    /// Reset the contents of the bar and any recall under way, and return
    /// the contents.
    pub fn reset(&mut self) -> (r: EditRope)
        ensures
            r@ == old(self).spec_text(),
            final(self).spec_text() == Seq::<char>::empty(),
            final(self).spec_scrollback() == ScrollbackState::Pending,
            final(self).spec_type() == old(self).spec_type(),
    {
        self.scrollback = ScrollbackState::Pending;
        self.text.take()
    }

    /// Reset the contents of the bar, and return the contents as a
    /// [`String`].
    pub fn reset_text(&mut self) -> (r: String)
        ensures
            r@ == old(self).spec_text(),
            final(self).spec_text() == Seq::<char>::empty(),
            final(self).spec_scrollback() == ScrollbackState::Pending,
            final(self).spec_type() == old(self).spec_type(),
    {
        self.reset().into_string()
    }
}

impl Default for CommandBarState {
    fn default() -> (r: Self)
        ensures
            r.spec_scrollback() == ScrollbackState::Pending,
            r.spec_type() == CommandType::Command,
            r.spec_text() == Seq::<char>::empty(),
    {
        CommandBarState::new()
    }
}

} // verus!
