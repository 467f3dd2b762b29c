//! The session registry: every connected client, its outbound delivery
//! handle and its display name, keyed by session id.

use crate::ids::{draw_u64, fresh_key};
use std::collections::HashMap;
use vstd::prelude::*;

verus! {

broadcast use vstd::std_specs::hash::group_hash_axioms;

/// One live connection: where its events go, and who it is.
pub struct Session<O> {
    pub outbound: O,
    pub display_name: String,
}

/// Why a registration was refused.
#[derive(Clone, Copy, Debug, PartialEq, Eq, Structural)]
pub enum RegistryError {
    DuplicateSession,
}

/// The live sessions, keyed by session id; `O` is the outbound handle.
pub struct SessionRegistry<O> {
    sessions: HashMap<u64, Session<O>>,
}

impl<O> View for SessionRegistry<O> {
    type V = Map<u64, Seq<char>>;

    /// Each live session id, with its display name.
    closed spec fn view(&self) -> Map<u64, Seq<char>> {
        Map::new(
            |k: u64| self.sessions@.contains_key(k),
            |k: u64| self.sessions@[k].display_name@,
        )
    }
}

impl<O> SessionRegistry<O> {
    /// An empty registry.
    pub fn new() -> (r: Self)
        ensures
            r@ == Map::<u64, Seq<char>>::empty(),
    {
        let r = SessionRegistry { sessions: HashMap::new() };
        assert(r@ =~= Map::<u64, Seq<char>>::empty());
        r
    }

    /// The number of live sessions.
    pub fn len(&self) -> (r: usize)
        ensures
            r == self@.len(),
    {
        assert(self@.dom() =~= self.sessions@.dom());
        self.sessions.len()
    }

    /// Whether `id` is a live session.
    pub fn contains(&self, id: u64) -> (r: bool)
        ensures
            r == self@.contains_key(id),
    {
        self.sessions.contains_key(&id)
    }

    /// A session id that is not live, `draw` where it is free.
    pub fn session_id_from_draw(&self, draw: u64) -> (r: u64)
        ensures
            !self@.contains_key(r),
            !self@.contains_key(draw) ==> r == draw,
    {
        fresh_key(&self.sessions, draw)
    }

    /// A random session id that is not live.
    pub fn new_session_id(&self) -> (r: u64)
        ensures
            !self@.contains_key(r),
    {
        let draw = draw_u64();
        self.session_id_from_draw(draw)
    }

    /// Adds a session; an id that is already live is refused and changes
    /// nothing.
    pub fn register(&mut self, id: u64, outbound: O, display_name: String) -> (r: Result<
        (),
        RegistryError,
    >)
        ensures
            r is Ok <==> !old(self)@.contains_key(id),
            r is Ok ==> final(self)@ == old(self)@.insert(id, display_name@),
            r is Err ==> final(self)@ == old(self)@,
    {
        if self.sessions.contains_key(&id) {
            Err(RegistryError::DuplicateSession)
        } else {
            let ghost name = display_name@;
            self.sessions.insert(id, Session { outbound, display_name });
            assert(self@ =~= old(self)@.insert(id, name));
            Ok(())
        }
    }

    /// The display name of a live session.
    pub fn lookup_display_name(&self, id: u64) -> (r: Option<String>)
        ensures
            r is Some <==> self@.contains_key(id),
            r matches Some(n) ==> n@ == self@[id],
    {
        match self.sessions.get(&id) {
            Some(s) => Some(s.display_name.clone()),
            None => None,
        }
    }

    /// The outbound handle of a live session.
    pub fn outbound(&self, id: u64) -> (r: Option<&O>)
        ensures
            r is Some <==> self@.contains_key(id),
    {
        match self.sessions.get(&id) {
            Some(s) => Some(&s.outbound),
            None => None,
        }
    }

    /// Removes a session; an id that is not live is left alone.
    pub fn unregister(&mut self, id: u64)
        ensures
            final(self)@ == old(self)@.remove(id),
    {
        self.sessions.remove(&id);
        assert(self@ =~= old(self)@.remove(id));
    }
}

/// Unregistering is idempotent: a second removal of the same id changes
/// nothing, and removing an id leaves every other session as it was.
pub proof fn lemma_unregister_idempotent(live: Map<u64, Seq<char>>, id: u64)
    ensures
        live.remove(id).remove(id) == live.remove(id),
        !live.contains_key(id) ==> live.remove(id) == live,
        forall|other: u64|
            other != id && live.contains_key(other) ==> #[trigger] live.remove(id).contains_key(
                other,
            ) && live.remove(id)[other] == live[other],
{
    assert(live.remove(id).remove(id) =~= live.remove(id));
    if !live.contains_key(id) {
        assert(live.remove(id) =~= live);
    }
}

} // verus!
