use vstd::prelude::*;

verus! {

/// The messages of a battle, in the order they were queued, and how many of them have been shown.
#[derive(Debug, Clone)]
pub struct MessageLog {
    pub messages: Vec<String>,
    pub shown_messages_cursor: usize,
}

impl MessageLog {
    /// The messages as character sequences.
    pub open spec fn spec_messages(self) -> Seq<Seq<char>> {
        self.messages@.map_values(|m: String| m@)
    }

    pub open spec fn wf(self) -> bool {
        self.shown_messages_cursor <= self.messages@.len()
    }

    pub fn new() -> (log: MessageLog)
        ensures
            log.messages@.len() == 0,
            log.shown_messages_cursor == 0,
            log.wf(),
    {
        MessageLog { messages: Vec::new(), shown_messages_cursor: 0 }
    }

    pub fn len(&self) -> (n: usize)
        ensures
            n == self.messages@.len(),
    {
        self.messages.len()
    }

    pub fn as_vec(&self) -> (messages: &Vec<String>)
        ensures
            messages@ == self.messages@,
    {
        &self.messages
    }

    /// Queues `message` after the others.
    pub fn push(&mut self, message: String)
        ensures
            final(self).messages@ == old(self).messages@.push(message),
            final(self).shown_messages_cursor == old(self).shown_messages_cursor,
    {
        self.messages.push(message);
    }

    /// Queues each of `messages`, in order, after the others.
    pub fn extend(&mut self, messages: &Vec<String>)
        ensures
            final(self).messages@ == old(self).messages@ + messages@,
            final(self).shown_messages_cursor == old(self).shown_messages_cursor,
    {
        let mut i: usize = 0;
        while i < messages.len()
            invariant
                i <= messages@.len(),
                self.messages@ == old(self).messages@ + messages@.take(i as int),
                self.shown_messages_cursor == old(self).shown_messages_cursor,
            decreases messages@.len() - i,
        {
            self.messages.push(messages[i].clone());
            assert(messages@.take(i + 1) == messages@.take(i as int).push(messages@[i as int]));
            i += 1;
        }
        assert(messages@.take(messages@.len() as int) == messages@);
    }

    /// The messages that have not been shown yet, in order; from now on they count as shown.
    pub fn take_new_messages(&mut self) -> (new_messages: Vec<String>)
        requires
            old(self).wf(),
        ensures
            new_messages@ == old(self).messages@.skip(old(self).shown_messages_cursor as int),
            final(self).messages@ == old(self).messages@,
            final(self).shown_messages_cursor == old(self).messages@.len(),
            final(self).wf(),
    {
        let mut new_messages: Vec<String> = Vec::new();
        let start = self.shown_messages_cursor;
        let mut i: usize = start;
        while i < self.messages.len()
            invariant
                start <= i <= self.messages@.len(),
                start == old(self).shown_messages_cursor,
                self.messages@ == old(self).messages@,
                self.shown_messages_cursor == start,
                new_messages@ == self.messages@.subrange(start as int, i as int),
            decreases self.messages@.len() - i,
        {
            new_messages.push(self.messages[i].clone());
            assert(self.messages@.subrange(start as int, i + 1) == self.messages@.subrange(
                start as int,
                i as int,
            ).push(self.messages@[i as int]));
            i += 1;
        }
        self.shown_messages_cursor = self.messages.len();
        new_messages
    }
}

/// Once the new messages have been taken, there are none left to take until another is queued.
pub proof fn law_new_messages_are_taken_once(log: MessageLog)
    requires
        log.shown_messages_cursor == log.messages@.len(),
    ensures
        log.messages@.skip(log.shown_messages_cursor as int).len() == 0,
{
}

} // verus!
