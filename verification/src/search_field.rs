//! The free-text query being typed in search mode: character append,
//! delete-last, and the fixed-width rendering of the prompt line.

use crate::text::{fit_spec, fit_string, pop_char, push_char};
use vstd::prelude::*;
use vstd::string::StringExecFns;

verus! {

/// The in-progress search query.
#[derive(Debug)]
pub struct SearchField {
    text: String,
}

impl View for SearchField {
    type V = Seq<char>;

    closed spec fn view(&self) -> Seq<char> {
        self.text@
    }
}

impl SearchField {
    /// An empty query.
    pub fn new() -> (r: Self)
        ensures
            r@ == Seq::<char>::empty(),
    {
        SearchField { text: String::new() }
    }

    /// The prompt line, `"Search: "` followed by the query, padded or
    /// truncated to exactly `width` characters.
    pub fn get_display(&self, width: usize) -> (r: String)
        ensures
            r@ == fit_spec("Search: "@ + self@, width as nat),
    {
        let mut line = String::from_str("Search: ");
        line.append(self.text.as_str());
        fit_string(line.as_str(), width)
    }

    /// Appends one typed character to the query.
    pub fn push_char(&mut self, c: char)
        ensures
            final(self)@ == old(self)@.push(c),
    {
        push_char(&mut self.text, c);
    }

    /// Removes the last character of the query; a no-op when the query
    /// is empty.
    pub fn delete_last(&mut self)
        ensures
            old(self)@.len() == 0 ==> final(self)@ == old(self)@,
            old(self)@.len() > 0 ==> final(self)@ == old(self)@.drop_last(),
    {
        let _ = pop_char(&mut self.text);
    }

    /// Discards the whole query.
    pub fn clear(&mut self)
        ensures
            final(self)@ == Seq::<char>::empty(),
    {
        self.text = String::new();
    }

    /// The query text as typed so far.
    pub fn get_text(&self) -> (r: String)
        ensures
            r@ == self@,
    {
        self.text.clone()
    }
}

} // verus!
