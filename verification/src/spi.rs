//! The SPI bus actor: it holds the bus and leases it to one user at a time.
//!
//! A user asks with a `LeaseRequest` and is answered with a `Lease` that
//! carries the bus itself; it gives the bus back with a `LeaseRelinquish`.
//! While the bus is leased out, a request is not answered (the caller waits
//! and asks again once the bus is back).
use vstd::prelude::*;

verus! {

/// The actors that lease out an SPI bus of type `SPI`.
pub trait SpiBus<SPI> {
}

/// The bus, handed to the user that asked for it.
pub struct Lease<SPI> {
    pub spi: SPI,
}

/// A request for the bus.
pub struct LeaseRequest;

/// The bus, given back.
pub struct LeaseRelinquish<SPI>(pub Lease<SPI>);

/// The SPI bus actor; `A` is the type of its own address.
pub struct Spi<SPI, A> {
    address: Option<A>,
    spi: Option<SPI>,
}

impl<SPI, A> SpiBus<SPI> for Spi<SPI, A> {
}

impl<SPI, A> Spi<SPI, A> {
    /// The bus, while the actor holds it; `None` while it is leased out.
    pub closed spec fn available(&self) -> Option<SPI> {
        self.spi
    }

    /// The actor's own address, once it was started.
    pub closed spec fn address(&self) -> Option<A> {
        self.address
    }

    /// Whether the bus is leased out.
    pub open spec fn leased(&self) -> bool {
        self.available() is None
    }

    /// What a request is answered with.
    pub closed spec fn grant(self) -> Option<Lease<SPI>> {
        match self.spi {
            Some(spi) => Some(Lease { spi }),
            None => None,
        }
    }

    /// The actor after a request.
    pub closed spec fn after_request(self) -> Self {
        Spi { address: self.address, spi: None }
    }

    /// The actor after `lease` was given back.
    pub closed spec fn after_relinquish(self, lease: Lease<SPI>) -> Self {
        Spi { address: self.address, spi: Some(lease.spi) }
    }

    /// An actor that holds `spi` and was not started yet.
    pub fn new(spi: SPI) -> (s: Self)
        ensures
            s.available() == Some(spi),
            s.address() is None,
    {
        Spi { address: None, spi: Some(spi) }
    }

    /// Records the actor's own address, in place of any earlier one.
    pub fn start(&mut self, address: A)
        ensures
            final(self).address() == Some(address),
            final(self).available() == old(self).available(),
    {
        self.address = Some(address);
    }

    /// Whether the bus is leased out.
    pub fn is_leased(&self) -> (b: bool)
        ensures
            b == self.leased(),
    {
        self.spi.is_none()
    }

    /// Answers a request: the bus, if the actor holds it, which then is
    /// leased out; `None` while the bus is leased out already.
    pub fn on_request(&mut self, message: LeaseRequest) -> (lease: Option<Lease<SPI>>)
        ensures
            lease == old(self).grant(),
            *final(self) == old(self).after_request(),
            lease is Some <==> !old(self).leased(),
            lease matches Some(l) ==> old(self).available() == Some(l.spi),
            final(self).leased(),
            final(self).address() == old(self).address(),
    {
        match self.spi.take() {
            Some(spi) => Some(Lease { spi }),
            None => None,
        }
    }

    /// Takes the bus back from the user that leased it.
    pub fn on_relinquish(&mut self, message: LeaseRelinquish<SPI>)
        requires
            old(self).leased(),
        ensures
            *final(self) == old(self).after_relinquish(message.0),
            final(self).available() == Some(message.0.spi),
            final(self).address() == old(self).address(),
    {
        self.spi = Some(message.0.spi);
    }

    /// A bus given back is the one that the next request is answered with,
    /// and that request leaves the actor as it was before the bus came back.
    pub proof fn lemma_relinquish_then_request(s: Self, lease: Lease<SPI>)
        requires
            s.leased(),
        ensures
            s.after_relinquish(lease).grant() == Some(lease),
            s.after_relinquish(lease).after_request() == s,
    {
    }

    /// Leasing the bus and giving it back leaves the actor as it was.
    pub proof fn lemma_request_then_relinquish(s: Self)
        requires
            !s.leased(),
        ensures
            s.grant() is Some,
            s.after_request().after_relinquish(s.grant()->0) == s,
    {
    }

    /// At most one user holds the bus: while it is leased out, no request
    /// is answered with it.
    pub proof fn lemma_one_lease_at_a_time(s: Self)
        ensures
            s.after_request().leased(),
            s.after_request().grant() is None,
    {
    }
}

} // verus!
