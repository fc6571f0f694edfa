use vstd::prelude::*;
use vstd::string::StringExecFns;

use crate::error::EdenServerError;
use crate::pool::{pool_wf, spec_acquire, spec_complete, DispatchPool, PoolModel};

verus! {

/// Whether `url::Url::parse` accepts this string as an absolute URL. A
/// fixed grammar decides it, so it depends on the string alone.
pub uninterp spec fn url_ok(s: Seq<char>) -> bool;

/// Relies on url::Url::parse: a string is a valid endpoint exactly when it
/// parses, and which strings parse depends on the URL grammar alone. The
/// parse error's message comes back for the caller's diagnostics; nothing
/// is claimed of its text.
#[verifier::external_body]
fn parse_endpoint(s: &str) -> (r: Result<(), String>)
    ensures
        r is Ok <==> url_ok(s@),
{
    match url::Url::parse(s) {
        Ok(_) => Ok(()),
        Err(e) => Err(e.to_string()),
    }
}

/// Mathematical model of the client: the validated endpoint, the bearer
/// token it authenticates with, and the dispatch pool's slot state.
#[verifier::ext_equal]
pub struct ClientModel {
    pub endpoint: Seq<char>,
    pub jwt: Seq<char>,
    pub pool: PoolModel,
}

/// The delivery client: one validated endpoint and bearer token, shared
/// read-only by every worker of the bounded dispatch pool, plus the pool's
/// slot accounting. The network call itself happens outside the core, with
/// the header value and slot decisions this type provides.
pub struct Client {
    endpoint: String,
    jwt: String,
    pool: DispatchPool,
}

impl View for Client {
    type V = ClientModel;

    closed spec fn view(&self) -> ClientModel {
        ClientModel { endpoint: self.endpoint@, jwt: self.jwt@, pool: self.pool@ }
    }
}

impl Client {
    /// The client invariant: a well-formed pool behind a valid endpoint.
    pub open spec fn wf(&self) -> bool {
        &&& url_ok(self@.endpoint)
        &&& pool_wf(self@.pool)
    }

    /// Builds the client for one endpoint: succeeds exactly when the
    /// endpoint is a valid URL and the pool size is at least one, with no
    /// send in flight yet. Anything else is a fatal configuration error.
    pub fn new(endpoint: &str, pool_size: usize, token: String) -> (r: Result<Client, String>)
        ensures
            r is Ok <==> (url_ok(endpoint@) && pool_size >= 1),
            r is Ok ==> r->Ok_0.wf(),
            r is Ok ==> r->Ok_0@ == (ClientModel {
                endpoint: endpoint@,
                jwt: token@,
                pool: PoolModel { capacity: pool_size as int, in_flight: 0 },
            }),
    {
        if let Err(description) = parse_endpoint(endpoint) {
            return Err(description);
        }
        match DispatchPool::new(pool_size) {
            Ok(pool) => Ok(Client { endpoint: endpoint.to_owned(), jwt: token, pool }),
            Err(e) => Err(e.description),
        }
    }

    /// The endpoint all batches are delivered to.
    pub fn endpoint(&self) -> (r: &String)
        ensures
            r@ == self@.endpoint,
    {
        &self.endpoint
    }

    /// The value of the `Authorization` header of every delivery: the word
    /// `Bearer`, a space, and the token.
    pub fn auth_header_value(&self) -> (r: String)
        ensures
            r@ == "Bearer "@ + self@.jwt,
    {
        let header: String = "Bearer ".to_owned();
        header.concat(self.jwt.as_str())
    }

    /// Takes a worker slot for one batch submission, exactly as
    /// `spec_acquire` says: it succeeds when and only when fewer sends are
    /// in flight than the pool's capacity. A refused submission is not
    /// dropped: the caller must wait for a slot and try again.
    pub fn try_acquire_slot(&mut self) -> (acquired: bool)
        requires
            old(self).wf(),
        ensures
            final(self).wf(),
            final(self)@ == (ClientModel {
                pool: spec_acquire(old(self)@.pool).0,
                ..old(self)@
            }),
            acquired == spec_acquire(old(self)@.pool).1,
    {
        self.pool.try_acquire()
    }

    /// Returns the slot of a finished send, exactly as `spec_complete`
    /// says: the slot comes back whether the send succeeded or failed.
    pub fn complete_send(&mut self, success: bool)
        requires
            old(self).wf(),
            old(self)@.pool.in_flight >= 1,
        ensures
            final(self).wf(),
            final(self)@ == (ClientModel {
                pool: spec_complete(old(self)@.pool, success),
                ..old(self)@
            }),
    {
        self.pool.complete(success)
    }

    /// How many sends are in flight.
    pub fn sends_in_flight(&self) -> (n: usize)
        ensures
            n == self@.pool.in_flight,
    {
        self.pool.in_flight()
    }

    /// The pool's fixed worker capacity.
    pub fn pool_capacity(&self) -> (n: usize)
        ensures
            n == self@.pool.capacity,
    {
        self.pool.capacity()
    }
}

} // verus!
