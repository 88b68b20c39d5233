use vstd::prelude::*;
use crate::message::{Message, Turn};

verus! {

/// The ordered record of a conversation: messages are only ever added at the
/// end, and read back as a whole.
pub struct Transcript {
    messages: Vec<Message>,
}

impl View for Transcript {
    type V = Seq<Turn>;

    closed spec fn view(&self) -> Seq<Turn> {
        self.messages@.map_values(|m: Message| m@)
    }
}

impl Transcript {
    pub fn new() -> (r: Transcript)
        ensures
            r@ == Seq::<Turn>::empty(),
    {
        let r = Transcript { messages: Vec::new() };
        assert(r@ =~= Seq::<Turn>::empty());
        r
    }

    pub fn len(&self) -> (r: usize)
        ensures
            r == self@.len(),
    {
        self.messages.len()
    }

    /// Adds a message after all the others.
    pub fn append(&mut self, message: Message)
        ensures
            final(self)@ == old(self)@.push(message@),
    {
        self.messages.push(message);
        assert(self@ =~= old(self)@.push(message@));
    }

    /// A copy of every message, in order, independent of later appends.
    pub fn snapshot(&self) -> (r: Vec<Message>)
        ensures
            r@.map_values(|m: Message| m@) == self@,
    {
        let mut out: Vec<Message> = Vec::new();
        let mut i: usize = 0;
        while i < self.messages.len()
            invariant
                i <= self.messages@.len(),
                out@.len() == i,
                forall|k: int| 0 <= k < i ==> #[trigger] out@[k]@ == self.messages@[k]@,
            decreases self.messages@.len() - i,
        {
            out.push(self.messages[i].duplicate());
            i = i + 1;
        }
        assert(out@.map_values(|m: Message| m@) =~= self@);
        out
    }
}

} // verus!
