//! The links between the stages: each carries messages from one stage to the
//! next, first in, first out, and holds as many as are sent.

use crate::machine_components::{verdict, Size};
use std::collections::VecDeque;
use vstd::prelude::*;

verus! {

/// What a link carries: the client's number and, for a stage that checks its
/// stock, the size of the cup.
pub type ChannelData = (usize, Option<Size>);

/// What a stage finds when it looks into its inbound link.
#[derive(Clone, Copy, Debug, PartialEq, Eq)]
pub enum Delivery {
    /// The oldest message in flight, now taken off the link.
    Message(ChannelData),
    /// Nothing in flight, but the producer may still send.
    Pending,
    /// Nothing in flight and the producer is gone: nothing will ever come.
    Closed,
}

/// One link, with both of its ends.
pub struct Link {
    queue: VecDeque<ChannelData>,
    open: bool,
    attended: bool,
}

impl Link {
    /// The messages sent and not yet received, oldest first.
    pub closed spec fn in_flight(&self) -> Seq<ChannelData> {
        self.queue@
    }

    /// Whether the producer still holds its end.
    pub closed spec fn is_open(&self) -> bool {
        self.open
    }

    /// Whether the consumer still holds its end.
    pub closed spec fn is_attended(&self) -> bool {
        self.attended
    }

    /// Whether a send is taken: both ends must still be held.
    pub open spec fn takes(&self) -> bool {
        self.is_open() && self.is_attended()
    }

    /// The cause of a send that cannot be delivered.
    pub open spec fn undeliverable() -> Seq<char> {
        "sending on a closed channel"@
    }

    /// The outcome of a send, by whether the link takes it.
    pub open spec fn outcome(taken: bool) -> Result<(), Seq<char>> {
        if taken {
            Ok(())
        } else {
            Err(Self::undeliverable())
        }
    }

    /// Whether `after` is this link after a send of `msg`: the message is
    /// behind those in flight if the link took it, and nothing else differs.
    pub open spec fn sent(&self, msg: ChannelData, after: &Link) -> bool {
        &&& after.is_open() == self.is_open()
        &&& after.is_attended() == self.is_attended()
        &&& after.in_flight() == if self.takes() {
            self.in_flight().push(msg)
        } else {
            self.in_flight()
        }
    }

    /// A link with nothing in flight and both ends held.
    pub fn new() -> (link: Self)
        ensures
            link.in_flight() == Seq::<ChannelData>::empty(),
            link.is_open(),
            link.is_attended(),
    {
        Link { queue: VecDeque::new(), open: true, attended: true }
    }

    /// Puts `msg` behind the messages in flight. Where either end has been
    /// let go the message is not taken and the failure says so.
    pub fn send(&mut self, msg: ChannelData) -> (r: Result<(), String>)
        ensures
            old(self).sent(msg, final(self)),
            verdict(r) == Self::outcome(old(self).takes()),
    {
        if self.open && self.attended {
            self.queue.push_back(msg);
            Ok(())
        } else {
            Err(String::from_str("sending on a closed channel"))
        }
    }

    /// Takes the oldest message off the link, if there is one, and says
    /// otherwise whether one may still come.
    pub fn poll(&mut self) -> (found: Delivery)
        ensures
            final(self).is_open() == old(self).is_open(),
            final(self).is_attended() == old(self).is_attended(),
            old(self).in_flight().len() > 0 ==> found == Delivery::Message(old(self).in_flight()[0])
                && final(self).in_flight() == old(self).in_flight().drop_first(),
            old(self).in_flight().len() == 0 ==> final(self).in_flight() == old(self).in_flight()
                && found == if old(self).is_open() {
                Delivery::Pending
            } else {
                Delivery::Closed
            },
    {
        match self.queue.pop_front() {
            Some(msg) => Delivery::Message(msg),
            None => if self.open {
                Delivery::Pending
            } else {
                Delivery::Closed
            },
        }
    }

    /// Lets go of the producer's end. What is in flight stays.
    pub fn close(&mut self)
        ensures
            !final(self).is_open(),
            final(self).is_attended() == old(self).is_attended(),
            final(self).in_flight() == old(self).in_flight(),
    {
        self.open = false;
    }

    /// Lets go of the consumer's end. What is in flight is lost.
    pub fn hang_up(&mut self)
        ensures
            !final(self).is_attended(),
            final(self).is_open() == old(self).is_open(),
            final(self).in_flight() == Seq::<ChannelData>::empty(),
    {
        self.attended = false;
        self.queue.clear();
    }

    /// The number of messages in flight.
    pub fn len(&self) -> (n: usize)
        ensures
            n == self.in_flight().len(),
    {
        self.queue.len()
    }

    /// Whether the producer still holds its end.
    pub fn open(&self) -> (open: bool)
        ensures
            open == self.is_open(),
    {
        self.open
    }

    /// Whether the consumer still holds its end.
    pub fn attended(&self) -> (attended: bool)
        ensures
            attended == self.is_attended(),
    {
        self.attended
    }
}

} // verus!
