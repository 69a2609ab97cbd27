//! The few sentences the app says itself.
//!
//! What it says over a page -- the question before leaving a drawing, Copy
//! link in the right-click menu -- is in the page's language, not the
//! system's: the site sends it in a `words` message once a page, so a reader
//! who chose Korean on the site is asked in Korean on an English Windows.
//! English stays for before the first page has said anything.

use vstd::prelude::*;

verus! {

/// What the app says over a page, as the site words it. Any the site leaves
/// out are the English ones.
#[derive(Clone, Debug, PartialEq, Eq)]
pub struct Words {
    pub leave_title: String,
    pub leave_body: String,
    pub leave: String,
    pub stay: String,
    /// The right-click menu's item for a link.
    pub copy_link: String,
}

/// Whether `words` are the English ones.
pub open spec fn is_english(words: Words) -> bool {
    &&& words.leave_title@ == "Leave this page?"@
    &&& words.leave_body@ == "Anything you have not saved will be lost."@
    &&& words.leave@ == "Leave"@
    &&& words.stay@ == "Stay"@
    &&& words.copy_link@ == "Copy link"@
}

impl Default for Words {
    fn default() -> (words: Words)
        ensures
            is_english(words),
    {
        Words {
            leave_title: String::from_str("Leave this page?"),
            leave_body: String::from_str("Anything you have not saved will be lost."),
            leave: String::from_str("Leave"),
            stay: String::from_str("Stay"),
            copy_link: String::from_str("Copy link"),
        }
    }
}

impl Words {
    /// The same words, again.
    pub fn duplicate(&self) -> (words: Words)
        ensures
            words == *self,
    {
        Words {
            leave_title: self.leave_title.clone(),
            leave_body: self.leave_body.clone(),
            leave: self.leave.clone(),
            stay: self.stay.clone(),
            copy_link: self.copy_link.clone(),
        }
    }
}

/// Whether `words` are what to say once `heard` is what the pages have
/// said: the last words a page sent, or English before any.
pub open spec fn says(heard: Option<Words>, words: Words) -> bool {
    match heard {
        Some(said) => words == said,
        None => is_english(words),
    }
}

/// What has been heard once a page sends `sent`: that, whatever came before.
pub open spec fn after_hearing(before: Option<Words>, sent: Words) -> Option<Words> {
    Some(sent)
}

/// The last words a page sent, or none before the first.
pub struct Heard {
    last: Option<Words>,
}

impl Heard {
    pub closed spec fn last(&self) -> Option<Words> {
        self.last
    }

    /// Nothing heard yet.
    pub fn new() -> (heard: Heard)
        ensures
            heard.last() is None,
    {
        Heard { last: None }
    }

    /// Keeps the words a page sent, for every dialog and menu after.
    pub fn heard(&mut self, words: Words)
        ensures
            final(self).last() == after_hearing(old(self).last(), words),
    {
        self.last = Some(words);
    }

    /// The words to say now: the page's, or English before it has said any.
    pub fn words(&self) -> (words: Words)
        ensures
            says(self.last(), words),
    {
        match &self.last {
            Some(said) => said.duplicate(),
            None => Words::default(),
        }
    }
}

/// What the app says is what the page last said: once a page has sent its
/// words, those are the words, whatever was heard before.
pub proof fn the_last_words_heard_are_said(before: Option<Words>, sent: Words, said: Words)
    requires
        says(after_hearing(before, sent), said),
    ensures
        said == sent,
{
}

} // verus!
