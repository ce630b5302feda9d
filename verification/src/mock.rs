//! A stand-in for the storage engine's log, for tests of extensions.
//!
//! It keeps every message it is given, in the order given, so that a test
//! can compare what an extension logged with what it should have logged.

use vstd::prelude::*;

verus! {

/// The texts of `messages`, in order.
pub open spec fn texts(messages: Seq<&str>) -> Seq<Seq<char>> {
    messages.map_values(|m: &str| m@)
}

/// A log that remembers what was written to it.
pub struct MockDB {
    messages: Vec<String>,
}

impl View for MockDB {
    type V = Seq<Seq<char>>;

    /// The messages logged so far, oldest first.
    closed spec fn view(&self) -> Seq<Seq<char>> {
        self.messages@.map_values(|m: String| m@)
    }
}

impl MockDB {
    /// A log with no messages.
    pub fn new() -> (db: MockDB)
        ensures
            db@ == Seq::<Seq<char>>::empty(),
    {
        let db = MockDB { messages: Vec::new() };
        assert(db@ =~= Seq::<Seq<char>>::empty());
        db
    }

    /// Records `message` behind the messages logged before.
    pub fn debug_log(&mut self, message: &str)
        ensures
            final(self)@ == old(self)@.push(message@),
    {
        let ghost before = self.messages@;
        let owned = message.to_owned();
        self.messages.push(owned);
        assert(self@ =~= before.map_values(|m: String| m@).push(message@));
    }

    /// Whether the messages logged so far are exactly `messages`: as many,
    /// with the same texts, in the same order.
    pub fn assert_messages(&self, messages: &[&str]) -> (same: bool)
        ensures
            same == (self@ == texts(messages@)),
    {
        if messages.len() != self.messages.len() {
            assert(self@.len() != texts(messages@).len());
            return false;
        }
        let mut i: usize = 0;
        while i < messages.len()
            invariant
                i <= messages.len(),
                messages.len() == self.messages.len(),
                forall|j: int| 0 <= j < i ==> self@[j] == texts(messages@)[j],
            decreases messages.len() - i,
        {
            let expected = messages[i].to_owned();
            if !(expected == self.messages[i]) {
                assert(self@[i as int] != texts(messages@)[i as int]);
                return false;
            }
            i += 1;
        }
        assert(self@ =~= texts(messages@));
        true
    }

    /// Forgets every message logged so far.
    pub fn clear_messages(&mut self)
        ensures
            final(self)@ == Seq::<Seq<char>>::empty(),
    {
        self.messages.clear();
        assert(self@ =~= Seq::<Seq<char>>::empty());
    }
}

} // verus!
