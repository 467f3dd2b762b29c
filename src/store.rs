//! The message store: every live message of the room, keyed by its id.
//! Only a message's author may edit or delete it.

use crate::ids::{draw_u64, fresh_key};
use std::collections::HashMap;
use vstd::prelude::*;

verus! {

broadcast use vstd::std_specs::hash::group_hash_axioms;

/// One live chat message.
pub struct Message {
    pub id: u64,
    pub author: String,
    pub content: String,
}

impl Clone for Message {
    fn clone(&self) -> (r: Self)
        ensures
            r == *self,
    {
        Message { id: self.id, author: self.author.clone(), content: self.content.clone() }
    }
}

/// Why an edit was refused.
#[derive(Clone, Copy, Debug, PartialEq, Eq, Structural)]
pub enum EditError {
    NotFound,
    NotAuthor,
}

/// Why a delete was refused.
#[derive(Clone, Copy, Debug, PartialEq, Eq, Structural)]
pub enum DeleteError {
    NotFound,
    NotAuthor,
}

/// What a message looks like to the contracts: author and content.
pub struct MessageView {
    pub author: Seq<char>,
    pub content: Seq<char>,
}

pub open spec fn message_view(m: Message) -> MessageView {
    MessageView { author: m.author@, content: m.content@ }
}

/// Whether `id` names a live message whose author is `requester`.
pub open spec fn may_change(live: Map<u64, MessageView>, id: u64, requester: Seq<char>) -> bool {
    live.contains_key(id) && live[id].author == requester
}

/// The room's live messages.
pub struct MessageStore {
    messages: HashMap<u64, Message>,
}

impl View for MessageStore {
    type V = Map<u64, MessageView>;

    closed spec fn view(&self) -> Map<u64, MessageView> {
        Map::new(|k: u64| self.messages@.contains_key(k), |k: u64| message_view(self.messages@[k]))
    }
}

impl MessageStore {
    /// Each entry is stored under its own id.
    pub closed spec fn wf(&self) -> bool {
        forall|k: u64| #[trigger] self.messages@.contains_key(k) ==> self.messages@[k].id == k
    }

    /// An empty store.
    pub fn new() -> (r: Self)
        ensures
            r.wf(),
            r@ == Map::<u64, MessageView>::empty(),
    {
        let r = MessageStore { messages: HashMap::new() };
        assert(r@ =~= Map::<u64, MessageView>::empty());
        r
    }

    /// The number of live messages.
    pub fn len(&self) -> (r: usize)
        ensures
            r == self@.len(),
    {
        assert(self@.dom() =~= self.messages@.dom());
        self.messages.len()
    }

    /// Looks up a live message.
    pub fn get(&self, id: u64) -> (r: Option<Message>)
        requires
            self.wf(),
        ensures
            r is Some <==> self@.contains_key(id),
            r matches Some(m) ==> m.id == id && message_view(m) == self@[id],
    {
        match self.messages.get(&id) {
            Some(m) => Some(m.clone()),
            None => None,
        }
    }

    /// Adds a message under an id that is not live: `draw` where it is free,
    /// some other free id otherwise.
    pub fn post_with_draw(&mut self, author: String, content: String, draw: u64) -> (r: Message)
        requires
            old(self).wf(),
        ensures
            final(self).wf(),
            !old(self)@.contains_key(r.id),
            !old(self)@.contains_key(draw) ==> r.id == draw,
            r.author@ == author@,
            r.content@ == content@,
            final(self)@ == old(self)@.insert(r.id, message_view(r)),
    {
        let id = fresh_key(&self.messages, draw);
        let m = Message { id, author, content };
        let r = m.clone();
        self.messages.insert(id, m);
        assert(self@ =~= old(self)@.insert(r.id, message_view(r)));
        r
    }

    /// Adds a message by `author` under a fresh random id and returns it.
    pub fn post(&mut self, author: String, content: String) -> (r: Message)
        requires
            old(self).wf(),
        ensures
            final(self).wf(),
            !old(self)@.contains_key(r.id),
            r.author@ == author@,
            r.content@ == content@,
            final(self)@ == old(self)@.insert(r.id, message_view(r)),
    {
        let draw = draw_u64();
        self.post_with_draw(author, content, draw)
    }

    /// Replaces the content of message `id` when `requester` wrote it.
    pub fn edit(&mut self, id: u64, requester: &String, content: String) -> (r: Result<(), EditError>)
        requires
            old(self).wf(),
        ensures
            final(self).wf(),
            r is Ok <==> may_change(old(self)@, id, requester@),
            r == Err::<(), EditError>(EditError::NotFound) <==> !old(self)@.contains_key(id),
            r is Ok ==> final(self)@ == old(self)@.insert(
                id,
                MessageView { author: requester@, content: content@ },
            ),
            r is Err ==> final(self)@ == old(self)@,
    {
        match self.messages.get(&id) {
            None => Err(EditError::NotFound),
            Some(m) => {
                if m.author == *requester {
                    let updated = Message { id, author: m.author.clone(), content };
                    self.messages.insert(id, updated);
                    assert(self@ =~= old(self)@.insert(
                        id,
                        MessageView { author: requester@, content: content@ },
                    ));
                    Ok(())
                } else {
                    Err(EditError::NotAuthor)
                }
            },
        }
    }

    /// Removes message `id` when `requester` wrote it.
    pub fn delete(&mut self, id: u64, requester: &String) -> (r: Result<(), DeleteError>)
        requires
            old(self).wf(),
        ensures
            final(self).wf(),
            r is Ok <==> may_change(old(self)@, id, requester@),
            r == Err::<(), DeleteError>(DeleteError::NotFound) <==> !old(self)@.contains_key(id),
            r is Ok ==> final(self)@ == old(self)@.remove(id),
            r is Err ==> final(self)@ == old(self)@,
    {
        let owned = match self.messages.get(&id) {
            None => { return Err(DeleteError::NotFound); },
            Some(m) => m.author == *requester,
        };
        if owned {
            self.messages.remove(&id);
            assert(self@ =~= old(self)@.remove(id));
            Ok(())
        } else {
            Err(DeleteError::NotAuthor)
        }
    }
}

/// After a successful delete of `id`, the id is no longer live: any later
/// edit or delete of it, by anyone, finds nothing, and nobody may change it.
pub proof fn lemma_deleted_is_gone(live: Map<u64, MessageView>, id: u64, requester: Seq<char>)
    requires
        may_change(live, id, requester),
    ensures
        !live.remove(id).contains_key(id),
        forall|anyone: Seq<char>| !may_change(live.remove(id), id, anyone),
{
}

} // verus!
