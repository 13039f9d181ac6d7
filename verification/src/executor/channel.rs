use vstd::prelude::*;
use crate::executor::command::{Message, MessageModel};

verus! {

/// How many messages a channel holds at most.
pub const CHANNEL_CAPACITY: usize = 100;

/// What a channel holds after a message is offered to it: the message
/// joins the end while there is room, and is dropped when there is none.
pub open spec fn queue_send(queue: Seq<MessageModel>, message: MessageModel) -> Seq<MessageModel> {
    if queue.len() < CHANNEL_CAPACITY {
        queue.push(message)
    } else {
        queue
    }
}

/// The command channel between the controller and one session: a bounded
/// queue that hands messages out in the order they were taken in.
#[derive(Debug)]
pub struct CommandChannel {
    queue: Vec<Message>,
}

impl View for CommandChannel {
    type V = Seq<MessageModel>;

    closed spec fn view(&self) -> Seq<MessageModel> {
        self.queue.deep_view()
    }
}

impl CommandChannel {
    /// An empty channel.
    pub fn new() -> (r: Self)
        ensures
            r@ == Seq::<MessageModel>::empty(),
    {
        let r = CommandChannel { queue: Vec::new() };
        assert(r.queue.deep_view() =~= Seq::<MessageModel>::empty());
        r
    }

    /// How many messages wait in the channel.
    pub fn len(&self) -> (r: usize)
        ensures
            r == self@.len(),
    {
        self.queue.len()
    }

    /// Offers a message without waiting. It joins the end of the queue
    /// while there is room; a full channel drops it. Tells whether the
    /// message was taken in.
    pub fn try_send(&mut self, message: Message) -> (r: bool)
        ensures
            final(self)@ == queue_send(old(self)@, message@),
            r == (old(self)@.len() < CHANNEL_CAPACITY),
    {
        if self.queue.len() < CHANNEL_CAPACITY {
            self.queue.push(message);
            assert(self.queue.deep_view() =~= old(self).queue.deep_view().push(message@));
            true
        } else {
            false
        }
    }

    /// Takes the oldest message out without waiting; `None` where none
    /// waits.
    pub fn try_recv(&mut self) -> (r: Option<Message>)
        ensures
            old(self)@.len() == 0 ==> r is None && final(self)@ == old(self)@,
            old(self)@.len() > 0 ==> (r matches Some(message) && message@ == old(self)@[0]
                && final(self)@ == old(self)@.drop_first()),
    {
        if self.queue.len() > 0 {
            let message = self.queue.remove(0);
            assert(self.queue.deep_view() =~= old(self).queue.deep_view().drop_first());
            Some(message)
        } else {
            None
        }
    }
}

} // verus!
