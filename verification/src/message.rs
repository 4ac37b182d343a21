//! A queue of timed status messages.
//!
//! Messages are shown one at a time; each stays on screen for its own
//! duration, measured in simulated time handed in tick by tick. When the
//! front message has been shown long enough it is dropped and the timer
//! restarts for the next one.

use std::collections::VecDeque;

use vstd::prelude::*;

use crate::duration::{Duration, TICKS_PER_SECOND};

verus! {

/// How long a routine notification stays on screen.
pub fn standard_message_duration() -> (d: Duration)
    ensures
        d@ == 5 * TICKS_PER_SECOND,
{
    Duration::from_seconds(5)
}

/// One status message and how long it is to be shown.
pub struct Message {
    text: String,
    duration: Duration,
}

impl Message {
    /// The text to show.
    pub closed spec fn spec_text(self) -> Seq<char> {
        self.text@
    }

    /// How long the message is to be shown, in ticks.
    pub closed spec fn spec_duration(self) -> int {
        self.duration@
    }

    /// A message shown for `duration`. A message shown for no time at all
    /// would never be seen; requesting one is a contract violation.
    pub fn new(text: String, duration: Duration) -> (m: Message)
        requires
            duration@ != 0,
        ensures
            m.spec_text() == text@,
            m.spec_duration() == duration@,
    {
        Message { text, duration }
    }

    /// The text of the message.
    pub fn text(&self) -> (t: &str)
        ensures
            t@ == self.spec_text(),
    {
        self.text.as_str()
    }
}

/// The pending messages, oldest first, and how long the front one has been
/// shown already.
pub struct Messages {
    entries: VecDeque<Message>,
    current_duration: Duration,
}

impl Messages {
    /// The queued messages, oldest first.
    pub closed spec fn pending(self) -> Seq<Message> {
        self.entries@
    }

    /// How long the front message has been shown, in ticks.
    pub closed spec fn shown_for(self) -> int {
        self.current_duration@
    }

    /// How long the front message has been shown, in ticks.
    pub fn shown_for_ticks(&self) -> (t: u128)
        ensures
            t == self.shown_for(),
    {
        self.current_duration.ticks()
    }

    /// An empty queue.
    pub fn new() -> (m: Messages)
        ensures
            m.pending() =~= Seq::empty(),
            m.shown_for() == 0,
    {
        Messages { entries: VecDeque::new(), current_duration: Duration::instant() }
    }

    /// Appends a message to the back of the queue.
    pub fn queue(&mut self, message: Message)
        ensures
            final(self).pending() =~= old(self).pending().push(message),
            final(self).shown_for() == old(self).shown_for(),
    {
        self.entries.push_back(message);
    }

    /// Advances the front message's timer by `delta`; once the front message
    /// has been shown for its own duration it is dropped and the timer
    /// restarts at zero. An empty queue is left untouched.
    pub fn simulate(&mut self, delta: Duration)
        requires
            old(self).pending().len() > 0 ==> old(self).shown_for() + delta@ <= u128::MAX,
        ensures
            old(self).pending().len() == 0 ==> *final(self) == *old(self),
            (old(self).pending().len() > 0 && old(self).pending()[0].spec_duration() <= old(self).shown_for() + delta@)
                ==> (final(self).pending() =~= old(self).pending().drop_first() && final(self).shown_for() == 0),
            (old(self).pending().len() > 0 && old(self).pending()[0].spec_duration() > old(self).shown_for() + delta@)
                ==> (final(self).pending() =~= old(self).pending() && final(self).shown_for() == old(self).shown_for() + delta@),
    {
        if self.entries.len() > 0 {
            self.current_duration = self.current_duration.add(delta);
            let front: &Message = &self.entries[0];
            if front.duration.le(&self.current_duration) {
                let _ = self.entries.pop_front();
                self.current_duration = Duration::instant();
            }
        }
    }

    /// The message currently shown: the front of the queue, if any.
    pub fn get_current(&self) -> (m: Option<&Message>)
        ensures
            match m {
                Some(msg) => self.pending().len() > 0 && *msg == self.pending()[0],
                None => self.pending().len() == 0,
            },
    {
        if self.entries.len() > 0 {
            Some(&self.entries[0])
        } else {
            None
        }
    }
}

} // verus!
