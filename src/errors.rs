//! The messages that a failed validation reports.
use vstd::prelude::*;

verus! {

/// An ordered, non-empty list of human-readable validation messages.
#[derive(Clone, Debug)]
pub struct FieldErrors {
    messages: Vec<String>,
}

impl View for FieldErrors {
    type V = Seq<Seq<char>>;

    closed spec fn view(&self) -> Seq<Seq<char>> {
        self.messages@.map_values(|m: String| m@)
    }
}

impl FieldErrors {
    /// A collection holds at least one message.
    pub open spec fn wf(&self) -> bool {
        self@.len() > 0
    }

    /// A collection holding the one message `message`.
    pub fn with_message(message: String) -> (r: Self)
        ensures
            r@ == seq![message@],
            r.wf(),
    {
        let mut messages: Vec<String> = Vec::new();
        messages.push(message);
        let r = FieldErrors { messages };
        assert(r@ =~= seq![r.messages@[0]@]);
        r
    }

    /// Adds `message` after the messages already held.
    pub fn push(&mut self, message: String)
        ensures
            final(self)@ == old(self)@.push(message@),
    {
        let ghost before = self.messages@;
        self.messages.push(message);
        assert(self.messages@ == before.push(message));
        assert(self@ =~= old(self)@.push(message@));
    }

    /// The number of messages.
    pub fn len(&self) -> (r: usize)
        ensures
            r == self@.len(),
    {
        self.messages.len()
    }

    /// The message at position `i`.
    pub fn get(&self, i: usize) -> (r: &String)
        requires
            i < self@.len(),
        ensures
            r@ == self@[i as int],
    {
        &self.messages[i]
    }
}

} // verus!
