//! The handle an RPC server keeps for querying the auction engine.
use std::marker::PhantomData;
use std::sync::Arc;
use vstd::prelude::*;

verus! {

/// Serves auction queries through a shared client.
pub struct AuctionRpc<C, M> {
    client: Arc<C>,
    _marker: PhantomData<M>,
}

impl<C, M> AuctionRpc<C, M> {
    pub closed spec fn client_spec(&self) -> Arc<C> {
        self.client
    }

    /// A handle that queries through `client`.
    pub fn new(client: Arc<C>) -> (r: Self)
        ensures
            r.client_spec() == client,
    {
        AuctionRpc { client, _marker: PhantomData }
    }

    /// The shared client.
    pub fn client(&self) -> (r: &Arc<C>)
        ensures
            *r == self.client_spec(),
    {
        &self.client
    }
}

} // verus!
