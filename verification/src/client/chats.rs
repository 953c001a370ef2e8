//! The chat histories, one for each contact.

use vstd::prelude::*;

use crate::chat::messages::{Message, MessageView};
use crate::chat::{insert_by_time, Chat};
use crate::identity::id::ContactId;

verus! {

/// The chats of the local user, in the order in which they were opened. No
/// two chats are with the same contact.
#[derive(Debug, PartialEq, Eq)]
pub struct Chats {
    inner: Vec<(ContactId, Chat)>,
}

/// A contact and the history of the chat with it.
pub type ChatEntry = (ContactId, Seq<MessageView>);

/// What chats hold, one by one.
pub open spec fn chat_views(entries: Seq<(ContactId, Chat)>) -> Seq<ChatEntry> {
    entries.map_values(|e: (ContactId, Chat)| (e.0, e.1@))
}

/// No two chats are with the same contact.
pub open spec fn distinct_chats(entries: Seq<ChatEntry>) -> bool {
    forall|i: int, j: int|
        0 <= i < entries.len() && 0 <= j < entries.len() && i != j ==> (#[trigger] entries[i]).0 != (
        #[trigger] entries[j]).0
}

/// Whether there is a chat with the contact.
pub open spec fn has_chat(entries: Seq<ChatEntry>, id: ContactId) -> bool {
    exists|i: int| 0 <= i < entries.len() && (#[trigger] entries[i]).0 == id
}

/// The place of the chat with a contact, where there is one.
pub open spec fn chat_position(entries: Seq<ChatEntry>, id: ContactId) -> int {
    choose|i: int| 0 <= i < entries.len() && (#[trigger] entries[i]).0 == id
}

/// The chats after the chat with a contact was opened: a chat that exists
/// stays as it is, one that does not is added, empty, at the end.
pub open spec fn opened(entries: Seq<ChatEntry>, id: ContactId) -> Seq<ChatEntry> {
    if has_chat(entries, id) {
        entries
    } else {
        entries.push((id, Seq::<MessageView>::empty()))
    }
}

/// The chats after a message was added to the chat with a contact, which is
/// opened first if need be.
pub open spec fn with_message(entries: Seq<ChatEntry>, id: ContactId, message: MessageView) -> Seq<
    ChatEntry,
> {
    let open = opened(entries, id);
    let i = chat_position(open, id);
    open.update(i, (id, insert_by_time(open[i].1, message)))
}

/// The chats after the chat with a contact was set: it takes the place of
/// the chat with that contact, or goes to the end if there is none.
pub open spec fn with_chat(entries: Seq<ChatEntry>, id: ContactId, chat: Seq<MessageView>) -> Seq<
    ChatEntry,
> {
    if has_chat(entries, id) {
        entries.update(chat_position(entries, id), (id, chat))
    } else {
        entries.push((id, chat))
    }
}

/// Setting a chat keeps the chats distinct.
pub proof fn lemma_with_chat(entries: Seq<ChatEntry>, id: ContactId, chat: Seq<MessageView>)
    requires
        distinct_chats(entries),
    ensures
        distinct_chats(with_chat(entries, id, chat)),
        has_chat(with_chat(entries, id, chat), id),
{
    let after = with_chat(entries, id, chat);
    if has_chat(entries, id) {
        let i = chat_position(entries, id);
        assert(after[i].0 == id);
        assert forall|a: int, b: int|
            0 <= a < after.len() && 0 <= b < after.len() && a != b implies (
        #[trigger] after[a]).0 != (#[trigger] after[b]).0 by {
            assert(after[a].0 == entries[a].0);
            assert(after[b].0 == entries[b].0);
        }
    } else {
        assert(after[entries.len() as int].0 == id);
        assert forall|a: int, b: int|
            0 <= a < after.len() && 0 <= b < after.len() && a != b implies (
        #[trigger] after[a]).0 != (#[trigger] after[b]).0 by {
            if a < entries.len() {
                assert(after[a] == entries[a]);
            }
            if b < entries.len() {
                assert(after[b] == entries[b]);
            }
        }
    }
}

/// Where no two chats are with one contact, a chat is at its contact's place.
pub proof fn lemma_chat_position(entries: Seq<ChatEntry>, i: int)
    requires
        distinct_chats(entries),
        0 <= i < entries.len(),
    ensures
        has_chat(entries, entries[i].0),
        chat_position(entries, entries[i].0) == i,
{
    let id = entries[i].0;
    let p = chat_position(entries, id);
    assert(0 <= p < entries.len() && entries[p].0 == id);
}

/// Opening a chat and adding a message keep the chats distinct, and leave
/// every other chat as it was.
pub proof fn lemma_chats(entries: Seq<ChatEntry>, id: ContactId, message: MessageView)
    requires
        distinct_chats(entries),
    ensures
        distinct_chats(opened(entries, id)),
        has_chat(opened(entries, id), id),
        distinct_chats(with_message(entries, id, message)),
        has_chat(with_message(entries, id, message), id),
        with_message(entries, id, message).len() == opened(entries, id).len(),
        forall|i: int|
            0 <= i < entries.len() && entries[i].0 != id ==> (#[trigger] with_message(
                entries,
                id,
                message,
            )[i]) == entries[i],
{
    let open = opened(entries, id);
    if has_chat(entries, id) {
    } else {
        assert(open[entries.len() as int].0 == id);
        assert forall|a: int, b: int|
            0 <= a < open.len() && 0 <= b < open.len() && a != b implies (#[trigger] open[a]).0 != (
        #[trigger] open[b]).0 by {
            if a < entries.len() {
                assert(open[a] == entries[a]);
            }
            if b < entries.len() {
                assert(open[b] == entries[b]);
            }
        }
    }
    let i = chat_position(open, id);
    let after = with_message(entries, id, message);
    assert(after[i].0 == id);
    assert forall|a: int, b: int|
        0 <= a < after.len() && 0 <= b < after.len() && a != b implies (#[trigger] after[a]).0 != (
    #[trigger] after[b]).0 by {
        assert(after[a].0 == open[a].0);
        assert(after[b].0 == open[b].0);
    }
    assert forall|k: int| 0 <= k < entries.len() && entries[k].0 != id implies (
    #[trigger] after[k]) == entries[k] by {
        assert(open[k] == entries[k]);
    }
}

impl View for Chats {
    type V = Seq<ChatEntry>;

    closed spec fn view(&self) -> Seq<ChatEntry> {
        chat_views(self.inner@)
    }
}

impl Clone for Chats {
    fn clone(&self) -> (copy: Chats)
        ensures
            copy@ == self@,
    {
        proof {
            use_type_invariant(self);
        }
        let mut inner: Vec<(ContactId, Chat)> = Vec::new();
        let mut i: usize = 0;
        while i < self.inner.len()
            invariant
                i <= self.inner@.len(),
                inner@.len() == i,
                forall|j: int|
                    0 <= j < i ==> inner@[j].0 == self.inner@[j].0 && inner@[j].1@
                        == self.inner@[j].1@,
            decreases self.inner@.len() - i,
        {
            inner.push((self.inner[i].0, self.inner[i].1.clone()));
            i += 1;
        }
        assert(chat_views(inner@) =~= self@);
        Chats { inner }
    }
}

impl Default for Chats {
    fn default() -> (chats: Chats)
        ensures
            chats@ == Seq::<ChatEntry>::empty(),
    {
        Chats::new()
    }
}

impl Chats {
    /// Holds of all chats that exist at run time: no two are with the same
    /// contact.
    #[verifier::type_invariant]
    pub closed spec fn well_formed(&self) -> bool {
        distinct_chats(self@)
    }

    /// No chat at all.
    pub fn new() -> (chats: Chats)
        ensures
            chats@ == Seq::<ChatEntry>::empty(),
    {
        let chats = Chats { inner: Vec::new() };
        assert(chats@ =~= Seq::<ChatEntry>::empty());
        chats
    }

    /// Number of chats.
    pub fn len(&self) -> (n: usize)
        ensures
            n == self@.len(),
    {
        self.inner.len()
    }

    /// The chats with their contacts, in the order in which they were opened.
    pub fn entries(&self) -> (entries: &[(ContactId, Chat)])
        ensures
            chat_views(entries@) == self@,
            distinct_chats(self@),
    {
        proof {
            use_type_invariant(self);
        }
        self.inner.as_slice()
    }

    /// The place of the chat with a contact.
    fn position(&self, id: &ContactId) -> (res: Option<usize>)
        ensures
            match res {
                Some(i) => i < self@.len() && has_chat(self@, *id) && chat_position(self@, *id) == i
                    && self@[i as int].0 == *id,
                None => !has_chat(self@, *id),
            },
            distinct_chats(self@),
    {
        proof {
            use_type_invariant(self);
        }
        let mut i: usize = 0;
        while i < self.inner.len()
            invariant
                i <= self.inner@.len(),
                self@.len() == self.inner@.len(),
                distinct_chats(self@),
                forall|j: int| 0 <= j < i ==> (#[trigger] self@[j]).0 != *id,
            decreases self.inner@.len() - i,
        {
            assert(self@[i as int].0 == self.inner@[i as int].0);
            if self.inner[i].0 == *id {
                proof {
                    lemma_chat_position(self@, i as int);
                }
                return Some(i);
            }
            i += 1;
        }
        None
    }

    /// The chat with a contact.
    pub fn get(&self, id: &ContactId) -> (res: Option<&Chat>)
        ensures
            match res {
                Some(chat) => has_chat(self@, *id) && chat@ == self@[chat_position(self@, *id)].1,
                None => !has_chat(self@, *id),
            },
    {
        match self.position(id) {
            Some(i) => {
                assert(self@[i as int].1 == self.inner@[i as int].1@);
                Some(&self.inner[i].1)
            },
            None => None,
        }
    }

    /// Sets the chat with a contact. It takes the place of the chat with that
    /// contact, which is handed back, or goes to the end if there is none.
    pub fn insert(&mut self, id: ContactId, chat: Chat) -> (res: Option<Chat>)
        ensures
            final(self)@ == with_chat(old(self)@, id, chat@),
            match res {
                Some(replaced) => has_chat(old(self)@, id) && replaced@ == old(
                    self,
                )@[chat_position(old(self)@, id)].1,
                None => !has_chat(old(self)@, id),
            },
    {
        let found = self.position(&id);
        let ghost before = self@;
        proof {
            lemma_with_chat(before, id, chat@);
        }
        let mut inner: Vec<(ContactId, Chat)> = Vec::new();
        assert(chat_views(inner@) =~= Seq::<ChatEntry>::empty());
        core::mem::swap(&mut self.inner, &mut inner);
        let replaced = match found {
            Some(i) => {
                let replaced = inner[i].1.clone();
                inner.set(i, (id, chat));
                Some(replaced)
            },
            None => {
                inner.push((id, chat));
                None
            },
        };
        assert(chat_views(inner@) =~= with_chat(before, id, chat@));
        self.inner = inner;
        replaced
    }

    /// Opens the chat with a contact: a chat that exists stays as it is, one
    /// that does not is added, empty.
    pub fn create_or_update(&mut self, id: ContactId)
        ensures
            final(self)@ == opened(old(self)@, id),
            has_chat(final(self)@, id),
    {
        let found = self.position(&id);
        let ghost before = self@;
        proof {
            lemma_chats(before, id, arbitrary());
        }
        if found.is_none() {
            let mut inner: Vec<(ContactId, Chat)> = Vec::new();
            assert(chat_views(inner@) =~= Seq::<ChatEntry>::empty());
            core::mem::swap(&mut self.inner, &mut inner);
            inner.push((id, Chat::new()));
            assert(chat_views(inner@) =~= opened(before, id));
            self.inner = inner;
        }
    }

    /// Adds a message to the chat with a contact, which is opened first if
    /// need be. Every other chat stays as it was.
    pub fn add_message(&mut self, id: ContactId, msg: Message)
        ensures
            final(self)@ == with_message(old(self)@, id, msg@),
            has_chat(final(self)@, id),
    {
        let ghost before = self@;
        proof {
            use_type_invariant(&*self);
        }
        self.create_or_update(id);
        let found = self.position(&id);
        proof {
            lemma_chats(before, id, msg@);
        }
        match found {
            Some(i) => {
                let mut inner: Vec<(ContactId, Chat)> = Vec::new();
                assert(chat_views(inner@) =~= Seq::<ChatEntry>::empty());
                core::mem::swap(&mut self.inner, &mut inner);
                let mut chat = inner[i].1.clone();
                chat.add_message(msg);
                inner.set(i, (id, chat));
                assert(chat_views(inner@) =~= with_message(before, id, msg@));
                self.inner = inner;
            },
            None => {},
        }
    }
}

} // verus!
