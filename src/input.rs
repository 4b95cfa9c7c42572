//! The search box.
use vstd::prelude::*;
use crate::strings::{pop_char, push_char};

verus! {

/// The line the user types searches into.
#[derive(Debug)]
pub struct InputBox {
    pub text: String,
}

impl InputBox {
    /// An empty search box.
    pub fn new() -> (r: InputBox)
        ensures
            r.text@ == Seq::<char>::empty(),
    {
        InputBox { text: String::new() }
    }

    /// Appends a typed character.
    pub fn type_char(&mut self, c: char)
        ensures
            final(self).text@ == old(self).text@.push(c),
    {
        push_char(&mut self.text, c);
    }

    /// Erases the last character, if any.
    pub fn erase(&mut self)
        ensures
            old(self).text@.len() == 0 ==> final(self).text@ == old(self).text@,
            old(self).text@.len() > 0 ==> final(self).text@ == old(self).text@.drop_last(),
    {
        pop_char(&mut self.text);
    }
}

impl Default for InputBox {
    fn default() -> (r: InputBox)
        ensures
            r.text@ == Seq::<char>::empty(),
    {
        InputBox::new()
    }
}

} // verus!
