//! The status line: a bounded history of messages, of which the latest shows.

use vstd::prelude::*;

verus! {

/// The number of messages that are kept.
pub const MAX_MESSAGES: usize = 100;

/// The last `max` items of `items`, or all of them where there are fewer.
pub open spec fn last_of<T>(items: Seq<T>, max: nat) -> Seq<T> {
    if items.len() > max {
        items.subrange(items.len() - max, items.len() as int)
    } else {
        items
    }
}

/// Adds `new` at the end of `messages`, then drops messages from the front
/// until at most `max` are left.
pub fn push_limited(messages: &mut Vec<String>, new: String, max: usize)
    ensures
        final(messages)@ == last_of(old(messages)@.push(new), max as nat),
{
    messages.push(new);
    let n = messages.len();
    if n > max {
        let kept = messages.split_off(n - max);
        *messages = kept;
    }
}

/// The messages shown to the user, oldest first; never more than
/// `MAX_MESSAGES`.
#[derive(Debug)]
pub struct Messages {
    messages: Vec<String>,
}

impl Messages {
    #[verifier::type_invariant]
    spec fn bounded(&self) -> bool {
        self.messages@.len() <= MAX_MESSAGES
    }

    /// The texts of the messages that are kept, oldest first.
    pub closed spec fn texts(&self) -> Seq<Seq<char>> {
        self.messages@.map_values(|message: String| message@)
    }

    /// No messages.
    pub fn new() -> (out: Self)
        ensures
            out.texts() == Seq::<Seq<char>>::empty(),
    {
        let messages: Vec<String> = Vec::new();
        let out = Messages { messages };
        assert(out.texts() =~= Seq::<Seq<char>>::empty());
        out
    }

    /// Adds a message as the latest; beyond `MAX_MESSAGES` the oldest goes.
    pub fn push(&mut self, v: String)
        ensures
            final(self).texts() == last_of(old(self).texts().push(v@), MAX_MESSAGES as nat),
            final(self).texts().len() <= MAX_MESSAGES,
    {
        let mut taken = Messages { messages: Vec::new() };
        core::mem::swap(self, &mut taken);
        let Messages { messages: mut items } = taken;
        let ghost before = items@;
        push_limited(&mut items, v, MAX_MESSAGES);
        *self = Messages { messages: items };
        proof {
            let view = |message: String| message@;
            assert(before.push(v).map_values(view) =~= before.map_values(view).push(v@));
            assert(last_of(before.push(v), MAX_MESSAGES as nat).map_values(view) =~= last_of(
                before.push(v).map_values(view),
                MAX_MESSAGES as nat,
            ));
        }
    }

    /// The latest message, or the empty text where there is none.
    pub fn last(&self) -> (text: String)
        ensures
            text@ == if self.texts().len() == 0 {
                Seq::<char>::empty()
            } else {
                self.texts().last()
            },
    {
        let n = self.messages.len();
        if n == 0 {
            String::new()
        } else {
            self.messages[n - 1].clone()
        }
    }

    /// How many messages are kept.
    pub fn len(&self) -> (n: usize)
        ensures
            n == self.texts().len(),
            n <= MAX_MESSAGES,
    {
        proof {
            use_type_invariant(self);
        }
        self.messages.len()
    }
}

} // verus!
