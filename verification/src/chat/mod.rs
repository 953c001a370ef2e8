//! The message history of one chat.

use vstd::prelude::*;

use crate::chat::messages::{Message, MessageView};
use crate::time::Timestamp;

pub mod messages;

verus! {

/// The messages of one chat, kept in the order of their time of receipt.
#[derive(Debug, PartialEq, Eq)]
pub struct Chat {
    messages: Vec<Message>,
}

/// What messages hold, one by one.
pub open spec fn message_views(entries: Seq<Message>) -> Seq<MessageView> {
    entries.map_values(|m: Message| m@)
}

/// No message is earlier than one before it.
pub open spec fn sorted_by_time(messages: Seq<MessageView>) -> bool {
    forall|i: int, j: int|
        0 <= i <= j < messages.len() ==> (#[trigger] messages[i]).time_received.at_or_before(
            &(#[trigger] messages[j]).time_received,
        )
}

/// Where a message received at `time` goes: behind the last message that was
/// not received later.
pub open spec fn insertion_point(messages: Seq<MessageView>, time: Timestamp) -> int
    decreases messages.len(),
{
    if messages.len() == 0 {
        0
    } else if messages.last().time_received.at_or_before(&time) {
        messages.len() as int
    } else {
        insertion_point(messages.drop_last(), time)
    }
}

/// The history after a message was added: the message stands at its
/// insertion point, the others keep their order.
pub open spec fn insert_by_time(messages: Seq<MessageView>, message: MessageView) -> Seq<
    MessageView,
> {
    messages.insert(insertion_point(messages, message.time_received), message)
}

/// The insertion point lies within the history; everything behind it was
/// received later, and in an ordered history nothing before it was.
pub proof fn lemma_insertion_point(messages: Seq<MessageView>, time: Timestamp)
    ensures
        0 <= insertion_point(messages, time) <= messages.len(),
        forall|j: int|
            insertion_point(messages, time) <= j < messages.len() ==> !(
            #[trigger] messages[j]).time_received.at_or_before(&time),
        sorted_by_time(messages) ==> forall|i: int|
            0 <= i < insertion_point(messages, time) ==> (
            #[trigger] messages[i]).time_received.at_or_before(&time),
    decreases messages.len(),
{
    if messages.len() == 0 {
    } else if messages.last().time_received.at_or_before(&time) {
        if sorted_by_time(messages) {
            assert forall|i: int| 0 <= i < messages.len() implies (
            #[trigger] messages[i]).time_received.at_or_before(&time) by {
                assert(messages[i].time_received.at_or_before(&messages.last().time_received));
            }
        }
    } else {
        let rest = messages.drop_last();
        lemma_insertion_point(rest, time);
        assert forall|j: int| insertion_point(messages, time) <= j < messages.len() implies !(
        #[trigger] messages[j]).time_received.at_or_before(&time) by {
            if j < rest.len() {
                assert(rest[j] == messages[j]);
            }
        }
        if sorted_by_time(messages) {
            assert forall|i: int, j: int| 0 <= i <= j < rest.len() implies (
            #[trigger] rest[i]).time_received.at_or_before(&(#[trigger] rest[j]).time_received) by {
                assert(rest[i] == messages[i] && rest[j] == messages[j]);
            }
            assert forall|i: int| 0 <= i < insertion_point(messages, time) implies (
            #[trigger] messages[i]).time_received.at_or_before(&time) by {
                assert(rest[i] == messages[i]);
            }
        }
    }
}

/// Adding a message to an ordered history gives an ordered history that is
/// one message longer.
pub proof fn lemma_insert_keeps_order(messages: Seq<MessageView>, message: MessageView)
    requires
        sorted_by_time(messages),
    ensures
        sorted_by_time(insert_by_time(messages, message)),
        insert_by_time(messages, message).len() == messages.len() + 1,
        insert_by_time(messages, message).contains(message),
{
    let k = insertion_point(messages, message.time_received);
    let after = insert_by_time(messages, message);
    lemma_insertion_point(messages, message.time_received);
    messages.insert_ensures(k, message);
    assert(after[k] == message);
    assert forall|i: int, j: int| 0 <= i <= j < after.len() implies (
    #[trigger] after[i]).time_received.at_or_before(&(#[trigger] after[j]).time_received) by {
        if i < k {
            assert(after[i] == messages[i]);
            if j < k {
                assert(after[j] == messages[j]);
            } else if j > k {
                assert(after[j] == messages[j - 1]);
            }
        } else if i == k {
            if j > k {
                assert(after[j] == messages[j - 1]);
            }
        } else {
            assert(after[i] == messages[i - 1]);
            assert(after[j] == messages[j - 1]);
        }
    }
}

/// Adding a message changes the history, as a collection, by that message
/// alone: every message is held as often as before, the new one once more.
pub proof fn lemma_insert_adds_one(messages: Seq<MessageView>, message: MessageView)
    ensures
        insert_by_time(messages, message).to_multiset() == messages.to_multiset().insert(message),
{
    let k = insertion_point(messages, message.time_received);
    let after = insert_by_time(messages, message);
    lemma_insertion_point(messages, message.time_received);
    messages.insert_ensures(k, message);
    assert(after[k] == message);
    assert(after.remove(k) =~= messages);
    vstd::seq_lib::to_multiset_remove(after, k);
    after.to_multiset_ensures();
    assert(after.contains(message));
    assert(after.to_multiset() =~= messages.to_multiset().insert(message));
}

/// The messages ordered by time of receipt, those received at one time in
/// the order given: what results when they are added, one after the other,
/// to an empty history.
pub open spec fn sort_by_time(messages: Seq<MessageView>) -> Seq<MessageView>
    decreases messages.len(),
{
    if messages.len() == 0 {
        messages
    } else {
        insert_by_time(sort_by_time(messages.drop_last()), messages.last())
    }
}

/// Sorting gives an ordered history of the same messages, and leaves an
/// ordered history as it is. So adding a message to an ordered history is
/// putting it at the end and sorting.
pub proof fn lemma_sort_by_time(messages: Seq<MessageView>)
    ensures
        sorted_by_time(sort_by_time(messages)),
        sort_by_time(messages).len() == messages.len(),
        sort_by_time(messages).to_multiset() == messages.to_multiset(),
        sorted_by_time(messages) ==> sort_by_time(messages) == messages,
        sorted_by_time(messages) ==> forall|message: MessageView|
            sort_by_time(#[trigger] messages.push(message)) == insert_by_time(messages, message),
    decreases messages.len(),
{
    if messages.len() == 0 {
    } else {
        let rest = messages.drop_last();
        let last = messages.last();
        lemma_sort_by_time(rest);
        lemma_insert_keeps_order(sort_by_time(rest), last);
        lemma_insert_adds_one(sort_by_time(rest), last);
        assert(rest.push(last) =~= messages);
        vstd::seq_lib::to_multiset_build(rest, last);
        if sorted_by_time(messages) {
            assert forall|i: int, j: int| 0 <= i <= j < rest.len() implies (
            #[trigger] rest[i]).time_received.at_or_before(&(#[trigger] rest[j]).time_received) by {
                assert(rest[i] == messages[i] && rest[j] == messages[j]);
            }
            if rest.len() > 0 {
                assert(rest.last() == messages[rest.len() - 1]);
                assert(messages[rest.len() - 1].time_received.at_or_before(
                    &messages[rest.len() as int].time_received,
                ));
            }
            assert(insertion_point(rest, last.time_received) == rest.len());
            assert(rest.insert(rest.len() as int, last) =~= messages);
        }
    }
    if sorted_by_time(messages) {
        assert(sort_by_time(messages) == messages);
        assert forall|message: MessageView|
            sort_by_time(#[trigger] messages.push(message)) == insert_by_time(
                messages,
                message,
            ) by {
            let longer = messages.push(message);
            assert(longer.drop_last() =~= messages);
            assert(longer.last() == message);
            assert(sort_by_time(longer) == insert_by_time(
                sort_by_time(longer.drop_last()),
                longer.last(),
            ));
        }
    }
}

impl View for Chat {
    type V = Seq<MessageView>;

    closed spec fn view(&self) -> Seq<MessageView> {
        message_views(self.messages@)
    }
}

impl Clone for Chat {
    fn clone(&self) -> (copy: Chat)
        ensures
            copy@ == self@,
    {
        proof {
            use_type_invariant(self);
        }
        let mut messages: Vec<Message> = Vec::new();
        let mut i: usize = 0;
        while i < self.messages.len()
            invariant
                i <= self.messages@.len(),
                messages@.len() == i,
                forall|j: int| 0 <= j < i ==> messages@[j]@ == self.messages@[j]@,
            decreases self.messages@.len() - i,
        {
            messages.push(self.messages[i].clone());
            i += 1;
        }
        assert(message_views(messages@) =~= self@);
        Chat { messages }
    }
}

impl Chat {
    /// Holds of every chat that exists at run time: the history is ordered.
    #[verifier::type_invariant]
    pub closed spec fn well_formed(&self) -> bool {
        sorted_by_time(self@)
    }

    /// An empty history.
    pub fn new() -> (chat: Chat)
        ensures
            chat@ == Seq::<MessageView>::empty(),
            chat.well_formed(),
    {
        let chat = Chat { messages: Vec::new() };
        assert(chat@ =~= Seq::<MessageView>::empty());
        chat
    }

    /// The chat of the given messages, ordered by time of receipt; messages
    /// received at one time keep the order given.
    pub fn from_messages(messages: Vec<Message>) -> (chat: Chat)
        ensures
            chat@ == sort_by_time(message_views(messages@)),
            chat.well_formed(),
    {
        let ghost given = message_views(messages@);
        let mut chat = Chat::new();
        let mut i: usize = 0;
        assert(given.subrange(0, 0) =~= Seq::<MessageView>::empty());
        while i < messages.len()
            invariant
                i <= messages@.len(),
                given == message_views(messages@),
                chat@ == sort_by_time(given.subrange(0, i as int)),
                chat.well_formed(),
            decreases messages@.len() - i,
        {
            let ghost head = given.subrange(0, i + 1);
            assert(head.drop_last() =~= given.subrange(0, i as int));
            assert(head.last() == messages@[i as int]@);
            chat.add_message(messages[i].clone());
            i += 1;
        }
        assert(given.subrange(0, i as int) =~= given);
        chat
    }

    /// When the latest message was received.
    pub fn latest_timestamp(&self) -> (latest: Option<Timestamp>)
        ensures
            self@.len() == 0 ==> latest is None,
            self@.len() > 0 ==> latest == Some(self@.last().time_received),
    {
        if self.messages.len() == 0 {
            None
        } else {
            Some(self.messages[self.messages.len() - 1].meta().time_received)
        }
    }

    /// The messages, earliest first.
    pub fn messages(&self) -> (messages: &[Message])
        ensures
            message_views(messages@) == self@,
            sorted_by_time(self@),
    {
        proof {
            use_type_invariant(self);
        }
        self.messages.as_slice()
    }

    /// Adds a message and keeps the history ordered by time of receipt: the
    /// message goes behind those received at the same time or earlier.
    pub fn add_message(&mut self, msg: Message)
        ensures
            final(self)@ == insert_by_time(old(self)@, msg@),
            final(self)@.len() == old(self)@.len() + 1,
            final(self).well_formed(),
    {
        proof {
            use_type_invariant(&*self);
        }
        let time = msg.meta().time_received;
        let ghost before = self@;
        let mut k: usize = self.messages.len();
        assert(before.subrange(0, k as int) =~= before);
        while k > 0 && !self.messages[k - 1].meta().time_received.is_at_or_before(&time)
            invariant
                k <= self.messages@.len(),
                self@ == before,
                before.len() == self.messages@.len(),
                insertion_point(before, time) == insertion_point(before.subrange(0, k as int), time),
            decreases k,
        {
            assert(before.subrange(0, k as int).last() == self.messages@[k - 1]@);
            assert(before.subrange(0, k as int).drop_last() =~= before.subrange(0, k - 1));
            k -= 1;
        }
        proof {
            if k > 0 {
                assert(before.subrange(0, k as int).last() == self.messages@[k - 1]@);
            }
            lemma_insert_keeps_order(before, msg@);
        }
        let mut messages: Vec<Message> = Vec::new();
        assert(message_views(messages@) =~= Seq::<MessageView>::empty());
        core::mem::swap(&mut self.messages, &mut messages);
        messages.insert(k, msg);
        assert(message_views(messages@) =~= insert_by_time(before, msg@));
        self.messages = messages;
    }
}

impl Default for Chat {
    fn default() -> (chat: Chat)
        ensures
            chat@ == Seq::<MessageView>::empty(),
    {
        Chat::new()
    }
}

} // verus!
