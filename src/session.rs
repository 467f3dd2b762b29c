//! One connection's coordinator: applies a client's actions to the store,
//! says which event each one publishes, and tracks the connection's
//! lifecycle from registration to teardown.

use crate::registry::SessionRegistry;
use crate::store::{may_change, MessageStore, MessageView};
use crate::wire::Action;
use vstd::prelude::*;

verus! {

/// What is published to every subscriber after a successful action.
pub enum Event {
    Message { id: u64, username: String, content: String },
    Edit { id: u64, content: String },
    Delete { id: u64 },
}

/// Applies `action`, sent by `username`, to the store. A post always
/// succeeds; an edit or delete succeeds only on a live message that
/// `username` wrote. Returns the event to publish, or `None` when the
/// action was refused, in which case the store is unchanged.
pub fn apply_action(store: &mut MessageStore, username: &String, action: Action) -> (r: Option<
    Event,
>)
    requires
        old(store).wf(),
    ensures
        final(store).wf(),
        match action {
            Action::Post { content } => r matches Some(Event::Message { id, username: u, content: c })
                && u@ == username@ && c@ == content@ && !old(store)@.contains_key(id)
                && final(store)@ == old(store)@.insert(
                id,
                MessageView { author: username@, content: content@ },
            ),
            Action::Edit { id, content } => if may_change(old(store)@, id, username@) {
                &&& r == Some(Event::Edit { id, content })
                &&& final(store)@ == old(store)@.insert(
                    id,
                    MessageView { author: username@, content: content@ },
                )
            } else {
                r is None && final(store)@ == old(store)@
            },
            Action::Delete { id } => if may_change(old(store)@, id, username@) {
                r == Some(Event::Delete { id }) && final(store)@ == old(store)@.remove(id)
            } else {
                r is None && final(store)@ == old(store)@
            },
        },
{
    match action {
        Action::Post { content } => {
            let m = store.post(username.clone(), content);
            Some(Event::Message { id: m.id, username: m.author, content: m.content })
        },
        Action::Edit { id, content } => {
            let published = content.clone();
            match store.edit(id, username, content) {
                Ok(()) => Some(Event::Edit { id, content: published }),
                Err(_) => None,
            }
        },
        Action::Delete { id } => match store.delete(id, username) {
            Ok(()) => Some(Event::Delete { id }),
            Err(_) => None,
        },
    }
}

/// Where a connection stands.
#[derive(Clone, Copy, Debug, PartialEq, Eq, Structural)]
pub enum ConnState {
    Active,
    Closed,
}

/// A registered connection: its session id, its display name, and whether
/// it has been torn down.
pub struct Connection {
    session_id: u64,
    display_name: String,
    state: ConnState,
}

impl Connection {
    pub closed spec fn spec_session_id(&self) -> u64 {
        self.session_id
    }

    pub closed spec fn spec_display_name(&self) -> Seq<char> {
        self.display_name@
    }

    pub closed spec fn spec_state(&self) -> ConnState {
        self.state
    }

    /// Registers a new session under a fresh id and returns the active
    /// connection.
    pub fn connect<O>(registry: &mut SessionRegistry<O>, outbound: O, display_name: String) -> (r:
        Connection)
        ensures
            r.spec_state() == ConnState::Active,
            r.spec_display_name() == display_name@,
            !old(registry)@.contains_key(r.spec_session_id()),
            final(registry)@ == old(registry)@.insert(r.spec_session_id(), display_name@),
    {
        let id = registry.new_session_id();
        let name = display_name.clone();
        let registered = registry.register(id, outbound, display_name);
        assert(registered is Ok);
        Connection { session_id: id, display_name: name, state: ConnState::Active }
    }

    /// The session id.
    pub fn session_id(&self) -> (r: u64)
        ensures
            r == self.spec_session_id(),
    {
        self.session_id
    }

    /// The display name this connection posts under.
    pub fn display_name(&self) -> (r: &String)
        ensures
            r@ == self.spec_display_name(),
    {
        &self.display_name
    }

    /// Whether the connection is still active.
    pub fn is_active(&self) -> (r: bool)
        ensures
            r == (self.spec_state() == ConnState::Active),
    {
        self.state == ConnState::Active
    }

    /// Applies one action from this connection's client; see `apply_action`.
    pub fn receive(&self, store: &mut MessageStore, action: Action) -> (r: Option<Event>)
        requires
            old(store).wf(),
        ensures
            final(store).wf(),
            match action {
                Action::Post { content } => r matches Some(
                    Event::Message { id, username: u, content: c },
                ) && u@ == self.spec_display_name() && c@ == content@ && !old(
                    store,
                )@.contains_key(id) && final(store)@ == old(store)@.insert(
                    id,
                    MessageView { author: self.spec_display_name(), content: content@ },
                ),
                Action::Edit { id, content } => if may_change(
                    old(store)@,
                    id,
                    self.spec_display_name(),
                ) {
                    &&& r == Some(Event::Edit { id, content })
                    &&& final(store)@ == old(store)@.insert(
                        id,
                        MessageView { author: self.spec_display_name(), content: content@ },
                    )
                } else {
                    r is None && final(store)@ == old(store)@
                },
                Action::Delete { id } => if may_change(
                    old(store)@,
                    id,
                    self.spec_display_name(),
                ) {
                    r == Some(Event::Delete { id }) && final(store)@ == old(store)@.remove(id)
                } else {
                    r is None && final(store)@ == old(store)@
                },
            },
    {
        apply_action(store, &self.display_name, action)
    }

    /// Tears the connection down: the first call unregisters the session and
    /// returns `true`; later calls change nothing and return `false`.
    pub fn close<O>(&mut self, registry: &mut SessionRegistry<O>) -> (r: bool)
        ensures
            r == (old(self).spec_state() == ConnState::Active),
            final(self).spec_state() == ConnState::Closed,
            final(self).spec_session_id() == old(self).spec_session_id(),
            final(self).spec_display_name() == old(self).spec_display_name(),
            r ==> final(registry)@ == old(registry)@.remove(old(self).spec_session_id()),
            !r ==> final(registry)@ == old(registry)@,
    {
        if self.state == ConnState::Active {
            registry.unregister(self.session_id);
            self.state = ConnState::Closed;
            true
        } else {
            false
        }
    }
}

} // verus!
