use std::collections::HashMap;
use vstd::prelude::*;

verus! {

broadcast use vstd::std_specs::hash::group_hash_axioms;

/// The identity of a connected client.
pub type ClientId = u16;

/// Each connected client's outbound sender, at most one per client.
pub struct ClientRegistry<S> {
    senders: HashMap<ClientId, S>,
}

impl<S> View for ClientRegistry<S> {
    type V = Map<ClientId, S>;

    closed spec fn view(&self) -> Map<ClientId, S> {
        self.senders@
    }
}

/// What taking the channel of `id` out of the registry `m` gives: the
/// channel, if `id` has one, and the registry left behind.
pub open spec fn spec_checkout<S>(m: Map<ClientId, S>, id: ClientId) -> (Option<S>, Map<ClientId, S>) {
    if m.contains_key(id) {
        (Some(m[id]), m.remove(id))
    } else {
        (None, m)
    }
}

impl<S> ClientRegistry<S> {
    /// A registry with no client.
    pub fn new() -> (r: Self)
        ensures
            r@ == Map::<ClientId, S>::empty(),
    {
        ClientRegistry { senders: HashMap::new() }
    }

    /// Records `sender` as the channel of `id`, replacing any earlier one.
    pub fn register(&mut self, id: ClientId, sender: S)
        ensures
            final(self)@ == old(self)@.insert(id, sender),
    {
        self.senders.insert(id, sender);
    }

    /// Forgets the channel of `id`, if there is one.
    pub fn unregister(&mut self, id: ClientId)
        ensures
            final(self)@ == old(self)@.remove(id),
    {
        if self.senders.contains_key(&id) {
            self.senders.remove(&id);
        }
    }

    /// Whether `id` has a channel.
    pub fn is_registered(&self, id: ClientId) -> (r: bool)
        ensures
            r == self@.contains_key(id),
    {
        self.senders.contains_key(&id)
    }

    /// The channel of `id`, if there is one.
    pub fn sender(&self, id: ClientId) -> (r: Option<&S>)
        ensures
            r matches Some(s) ==> self@.contains_key(id) && *s == self@[id],
            r is None ==> !self@.contains_key(id),
    {
        self.senders.get(&id)
    }

    /// How many clients have a channel.
    pub fn len(&self) -> (r: usize)
        ensures
            r == self@.len(),
    {
        self.senders.len()
    }

    /// Takes the channel of `id` out of the registry, so that a message can be
    /// sent on it; the caller puts it back with `register`. A client without
    /// a channel gives `None`, and the message meant for it is dropped.
    pub fn checkout(&mut self, id: ClientId) -> (r: Option<S>)
        ensures
            (r, final(self)@) == spec_checkout(old(self)@, id),
    {
        let r = self.senders.remove(&id);
        proof {
            if r is None {
                assert(self@ =~= old(self)@);
            }
        }
        r
    }
}

/// A message sent right after a client registers goes to the channel it
/// registered with; once the client is unregistered, there is no channel to
/// send it on, and the registry stays as it was.
pub proof fn lemma_register_then_send<S>(m: Map<ClientId, S>, id: ClientId, sender: S)
    ensures
        spec_checkout(m.insert(id, sender), id).0 == Some(sender),
        spec_checkout(m.insert(id, sender).remove(id), id) == (
            None::<S>,
            m.insert(id, sender).remove(id),
        ),
{
}

/// Taking a client's channel out and putting it back leaves the registry as
/// it was.
pub proof fn lemma_checkout_then_register<S>(m: Map<ClientId, S>, id: ClientId)
    requires
        m.contains_key(id),
    ensures
        spec_checkout(m, id).1.insert(id, spec_checkout(m, id).0->Some_0) == m,
{
    assert(m.remove(id).insert(id, m[id]) =~= m);
}

/// Unregistering is idempotent.
pub proof fn lemma_unregister_idempotent<S>(m: Map<ClientId, S>, id: ClientId)
    ensures
        m.remove(id).remove(id) == m.remove(id),
{
    assert(m.remove(id).remove(id) =~= m.remove(id));
}

} // verus!
