//! Bare runs of text.

use vstd::prelude::*;
use crate::shape::{clone_id, id_text, str_text};

verus! {

/// A run of text without geometry of its own. It takes no part in layout and draws
/// nothing.
#[derive(Debug, PartialEq, Default)]
pub struct Word {
    pub id: Option<String>,
    pub content: String,
}

/// What a word holds, as sequences of characters.
pub struct WordView {
    pub id: Option<Seq<char>>,
    pub content: Seq<char>,
}

impl View for Word {
    type V = WordView;

    open spec fn view(&self) -> WordView {
        WordView { id: id_text(self.id), content: self.content@ }
    }
}

impl Clone for Word {
    fn clone(&self) -> (copy: Word)
        ensures
            copy == *self,
    {
        Word { id: clone_id(&self.id), content: self.content.clone() }
    }
}

impl Word {
    /// A word without an id.
    pub fn new(content: String) -> (w: Word)
        ensures
            w@ == (WordView { id: None, content: content@ }),
    {
        Word { id: None, content }
    }

    pub fn id(&self) -> (r: Option<&str>)
        ensures
            str_text(r) == self@.id,
    {
        match &self.id {
            Some(s) => Some(s.as_str()),
            None => None,
        }
    }

    /// The text of the word.
    pub fn as_ref(&self) -> (r: &str)
        ensures
            r@ == self@.content,
    {
        self.content.as_str()
    }
}

} // verus!
