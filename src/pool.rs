//! Bookkeeping of one lazily connected backend client.
//!
//! The owner keeps a `GrpcClient` behind a mutual-exclusion guard and, for
//! each acquisition, asks `needs_dial`, dials only when told to, and hands
//! the outcome to `record_dial`; `client` is then what the caller receives.
use vstd::prelude::*;

verus! {

/// The address of a backend listening on `port` of the local IPv6 host.
pub open spec fn endpoint_spec(port: Seq<char>) -> Seq<char> {
    "http://[::]:"@ + port
}

/// Builds a backend address; an unknown port leaves the port empty, so that
/// every dial to it fails.
pub fn grpc_endpoint(port: Option<&str>) -> (r: String)
    ensures
        r@ == endpoint_spec(
            match port {
                Some(p) => p@,
                None => Seq::<char>::empty(),
            },
        ),
{
    let base = "http://[::]:".to_owned();
    match port {
        Some(p) => base.concat(p),
        None => base,
    }
}

/// A backend address and the client connected to it, if any.
pub struct GrpcClient<C> {
    address: String,
    slot: Option<C>,
}

/// The client that an acquisition returns, given the slot before it and
/// what a dial would give.
pub open spec fn acquired<C>(slot: Option<C>, dialed: Option<C>) -> Option<C> {
    if slot is Some {
        slot
    } else {
        dialed
    }
}

/// A backend that accepts its first connection, as `c`, and refuses every
/// later one.
pub open spec fn accept_once<C>(c: C, dials_before: nat) -> Option<C> {
    if dials_before == 0 {
        Some(c)
    } else {
        None
    }
}

/// The slot and the number of dials after `n` acquisitions, one after the
/// other under the guard, starting from an empty slot, against `accept_once`.
pub open spec fn serial_acquisitions<C>(c: C, n: nat) -> (Option<C>, nat)
    decreases n,
{
    if n == 0 {
        (None, 0)
    } else {
        let (slot, dials) = serial_acquisitions(c, (n - 1) as nat);
        if slot is Some {
            (slot, dials)
        } else {
            (acquired(slot, accept_once(c, dials)), dials + 1)
        }
    }
}

/// However many callers acquire an unconnected client one after the other,
/// against a backend that accepts exactly one connection, exactly one dial
/// happens and every caller receives that same client.
pub proof fn lemma_single_dial<C>(c: C, n: nat)
    requires
        n >= 1,
    ensures
        serial_acquisitions(c, n) == (Some(c), 1nat),
        forall|k: nat| 1 <= k <= n ==> #[trigger] serial_acquisitions(c, k).0 == Some(c),
    decreases n,
{
    reveal_with_fuel(serial_acquisitions, 2);
    if n > 1 {
        lemma_single_dial(c, (n - 1) as nat);
    }
    assert forall|k: nat| 1 <= k <= n implies #[trigger] serial_acquisitions(c, k).0 == Some(c) by {
        if k < n {
            lemma_single_dial(c, k);
        }
    }
}

impl<C> GrpcClient<C> {
    pub closed spec fn address_spec(&self) -> Seq<char> {
        self.address@
    }

    pub closed spec fn slot_spec(&self) -> Option<C> {
        self.slot
    }

    /// An unconnected slot for the backend at `address`.
    pub fn new(address: String) -> (r: Self)
        ensures
            r.address_spec() == address@,
            r.slot_spec() is None,
    {
        GrpcClient { address, slot: None }
    }

    pub fn address(&self) -> (r: &str)
        ensures
            r@ == self.address_spec(),
    {
        self.address.as_str()
    }

    /// A dial is made only when no client is held.
    pub fn needs_dial(&self) -> (r: bool)
        ensures
            r == self.slot_spec() is None,
    {
        self.slot.is_none()
    }

    /// Stores what a dial gave; a failed dial leaves the slot empty, so the
    /// next acquisition dials again.
    pub fn record_dial(&mut self, dialed: Option<C>)
        requires
            old(self).slot_spec() is None,
        ensures
            final(self).slot_spec() == acquired(old(self).slot_spec(), dialed),
            final(self).address_spec() == old(self).address_spec(),
    {
        self.slot = dialed;
    }

    /// The client held, if any.
    pub fn client(&self) -> (r: &Option<C>)
        ensures
            *r == self.slot_spec(),
    {
        &self.slot
    }

    /// Forgets the client, so that the next acquisition dials again.
    pub fn invalidate(&mut self)
        ensures
            final(self).slot_spec() is None,
            final(self).address_spec() == old(self).address_spec(),
    {
        self.slot = None;
    }
}

} // verus!
