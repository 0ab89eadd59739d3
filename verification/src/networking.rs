//! The upload path: a DNS cache with a fixed TTL, a batch of up to ten
//! filtered samples, and the upload cycle that resolves the server,
//! builds the two fixed HTTP requests and discards the batch.
//!
//! The network I/O itself — the DNS query, the TCP connect and the
//! reads and writes — is performed by the owning task; the library
//! decides from the cache state and the query outcome what to do, and
//! hands the task the exact request bytes to send. Addresses are
//! IPv4, carried as one 32-bit value; times are milliseconds.

use vstd::prelude::*;
use vstd::string::StringExecFns;

use crate::comms::{queue_contents, UploadQueue};
use crate::soil_estimator::FilteredMessurement;

verus! {

/// How many filtered samples a batch holds before it is ready to
/// transmit.
pub const BATCH_CAPACITY: usize = 10;

/// The accumulated upload batch, an ordered sequence of up to ten
/// filtered samples carried as `(moisture, temperature)` fixed-point
/// pairs.
///
/// It wraps a `heapless::Vec`, a fixed-capacity vector whose type is an
/// alias over a storage-trait parameter that cannot be declared to the
/// verifier, so the vector is held opaquely and its contents are named
/// by an uninterpreted spec function, with each operation the logic
/// needs behind a trusted wrapper.
#[verifier::external_body]
pub struct MessurementBatch {
    inner: heapless::Vec<(u64, u64), 10>,
}

/// The batched samples, oldest first.
pub uninterp spec fn batch_contents(b: MessurementBatch) -> Seq<(u64, u64)>;

impl MessurementBatch {
    /// Relies on `heapless::Vec::new`: a fresh vector is empty.
    #[verifier::external_body]
    pub(crate) fn new() -> (b: Self)
        ensures
            batch_contents(b) == Seq::<(u64, u64)>::empty(),
    {
        MessurementBatch { inner: heapless::Vec::new() }
    }

    /// Relies on `heapless::Vec::push`: appends at the back while fewer
    /// than ten items are stored, and fails without changing the vector
    /// once it is full.
    #[verifier::external_body]
    pub(crate) fn push(&mut self, item: (u64, u64)) -> (accepted: bool)
        ensures
            batch_contents(*old(self)).len() < BATCH_CAPACITY ==> accepted && batch_contents(
                *final(self),
            ) == batch_contents(*old(self)).push(item),
            batch_contents(*old(self)).len() >= BATCH_CAPACITY ==> !accepted && batch_contents(
                *final(self),
            ) == batch_contents(*old(self)),
    {
        self.inner.push(item).is_ok()
    }

    /// Relies on `heapless::Vec::clear`: removes every item.
    #[verifier::external_body]
    pub(crate) fn clear(&mut self)
        ensures
            batch_contents(*final(self)) == Seq::<(u64, u64)>::empty(),
    {
        self.inner.clear();
    }

    /// Relies on `heapless::Vec::len`: the number of stored items.
    #[verifier::external_body]
    pub(crate) fn len(&self) -> (n: usize)
        ensures
            n == batch_contents(*self).len(),
    {
        self.inner.len()
    }
}

/// What the upload path draws from: the receive side of the bounded
/// queue the estimator feeds. Owned by the uploader's task, which
/// drains it into an [`UploadData`] batch.
pub struct UploadDataSource {
    pub messurements: UploadQueue,
}

/// The upload buffer: accumulates filtered samples until ten are
/// gathered, at which point the batch is ready to transmit.
pub struct UploadData {
    pub messurements: MessurementBatch,
}

impl UploadData {
    /// The batched samples, oldest first.
    pub open spec fn batch(self) -> Seq<(u64, u64)> {
        batch_contents(self.messurements)
    }

    /// An empty buffer.
    pub fn new() -> (r: Self)
        ensures
            r.batch() == Seq::<(u64, u64)>::empty(),
    {
        UploadData { messurements: MessurementBatch::new() }
    }

    /// Adds one filtered sample to the batch; a full batch rejects it
    /// unchanged.
    pub fn push_messurement(&mut self, m: FilteredMessurement) -> (accepted: bool)
        ensures
            old(self).batch().len() < BATCH_CAPACITY ==> accepted && final(self).batch() == old(
                self,
            ).batch().push(m.spec_as_pair()),
            old(self).batch().len() >= BATCH_CAPACITY ==> !accepted && final(self).batch() == old(
                self,
            ).batch(),
    {
        self.messurements.push(m.as_pair())
    }

    /// Draws samples from the estimator's queue into the batch, oldest
    /// first, until the batch holds ten or the queue runs dry, and
    /// reports whether the batch is ready to transmit. On the target
    /// this receive blocks until the cap is reached; here the caller
    /// races it against its five-minute trigger and so calls it again
    /// as more samples arrive.
    pub fn ready_to_tx(&mut self, sources: &mut UploadDataSource) -> (ready: bool)
        ensures
            ready == (final(self).batch().len() >= BATCH_CAPACITY),
            exists|k: int|
                {
                    &&& 0 <= k <= queue_contents(old(sources).messurements).len()
                    &&& final(self).batch() == old(self).batch() + queue_contents(
                        old(sources).messurements,
                    ).take(k)
                    &&& queue_contents(final(sources).messurements) == queue_contents(
                        old(sources).messurements,
                    ).skip(k)
                    &&& (ready || k == queue_contents(old(sources).messurements).len())
                },
    {
        let ghost q0 = queue_contents(sources.messurements);
        let ghost b0 = self.batch();
        let ghost mut moved: int = 0;
        proof {
            assert(b0 + q0.take(0) =~= b0);
            assert(q0.skip(0) =~= q0);
        }
        loop
            invariant
                q0 == queue_contents(old(sources).messurements),
                b0 == old(self).batch(),
                0 <= moved <= q0.len(),
                self.batch() == b0 + q0.take(moved),
                queue_contents(sources.messurements) == q0.skip(moved),
            decreases q0.len() - moved,
        {
            if self.messurements.len() >= BATCH_CAPACITY {
                proof {
                    assert(self.batch() == old(self).batch() + queue_contents(
                        old(sources).messurements,
                    ).take(moved));
                    assert(queue_contents(sources.messurements) == queue_contents(
                        old(sources).messurements,
                    ).skip(moved));
                }
                return true;
            }
            match sources.messurements.try_receive() {
                Some(pair) => {
                    self.messurements.push(pair);
                    proof {
                        assert(q0.skip(moved).len() > 0);
                        assert(q0.skip(moved)[0] == q0[moved]);
                        assert((b0 + q0.take(moved)).push(q0[moved]) =~= b0 + q0.take(moved + 1));
                        assert(q0.skip(moved).drop_first() =~= q0.skip(moved + 1));
                        moved = moved + 1;
                    }
                },
                None => {
                    proof {
                        assert(q0.skip(moved).len() == 0);
                        assert(moved == q0.len());
                        assert(self.batch() == old(self).batch() + queue_contents(
                            old(sources).messurements,
                        ).take(moved));
                        assert(queue_contents(sources.messurements) == queue_contents(
                            old(sources).messurements,
                        ).skip(moved));
                    }
                    let is_ready = self.messurements.len() >= BATCH_CAPACITY;
                    return is_ready;
                },
            }
        }
    }

    /// The number of batched samples.
    pub fn batch_len(&self) -> (n: usize)
        ensures
            n == self.batch().len(),
    {
        self.messurements.len()
    }
}

/// The DNS cache: at most one resolved address with its expiry
/// timestamp. An entry is usable only while `now` is strictly before
/// the expiry; once expired it is never served again.
pub struct DNSAddress {
    pub url: String,
    pub ttl: u64,
    pub address: Option<(u32, u64)>,
    pub port: u16,
}

impl DNSAddress {
    /// The cached address at time `now`: the stored one while it is
    /// unexpired, and nothing otherwise.
    pub open spec fn spec_cached(self, now: u64) -> Option<u32> {
        match self.address {
            Some((ip, expires_at)) => if now < expires_at {
                Some(ip)
            } else {
                None
            },
            None => None,
        }
    }

    /// What a resolution attempt at time `now` yields, given the
    /// outcome of the DNS query the caller issued (`None` when none was
    /// issued or it failed): the cached address if unexpired, else the
    /// first address of a non-empty result, else nothing.
    pub open spec fn spec_resolved(self, now: u64, query_result: Option<Vec<u32>>) -> Option<u32> {
        if self.spec_cached(now) is Some {
            self.spec_cached(now)
        } else {
            match query_result {
                Some(addrs) => if addrs@.len() > 0 {
                    Some(addrs@[0])
                } else {
                    None
                },
                None => None,
            }
        }
    }

    /// A cache for the given hostname, TTL (milliseconds) and port,
    /// holding no address yet.
    pub fn new(url: String, ttl: u64, port: u16) -> (r: Self)
        ensures
            r.url == url,
            r.ttl == ttl,
            r.port == port,
            r.address is None,
    {
        DNSAddress { url, ttl, address: None, port }
    }

    /// The cached address if it is still valid at time `now`; an
    /// expired or absent entry yields nothing and must be re-resolved
    /// before use.
    pub fn get_adress(&self, now: u64) -> (r: Option<u32>)
        ensures
            r == self.spec_cached(now),
    {
        match &self.address {
            Some(entry) => if now < entry.1 {
                Some(entry.0)
            } else {
                None
            },
            None => None,
        }
    }

    /// Whether a resolution at time `now` must issue a DNS query: the
    /// owning task queries exactly when no unexpired entry is cached.
    pub fn needs_querry(&self, now: u64) -> (r: bool)
        ensures
            r == (self.spec_cached(now) is None),
    {
        self.get_adress(now).is_none()
    }

    /// One resolution attempt at time `now`. A cached, unexpired
    /// address is returned as is, and the cache is untouched. Otherwise
    /// the outcome of the query the caller issued decides: the first
    /// address of a non-empty result is cached with expiry `now + ttl`
    /// and returned; a failed or empty result changes nothing and
    /// yields nothing, and the caller retries after its fixed delay.
    pub fn get_or_querry(&mut self, now: u64, query_result: Option<Vec<u32>>) -> (r: Option<u32>)
        requires
            now + old(self).ttl <= u64::MAX,
        ensures
            r == old(self).spec_resolved(now, query_result),
            old(self).spec_cached(now) is Some ==> *final(self) == *old(self),
            old(self).spec_cached(now) is None ==> {
                &&& final(self).url == old(self).url
                &&& final(self).ttl == old(self).ttl
                &&& final(self).port == old(self).port
                &&& (r matches Some(ip) ==> final(self).address == Some(
                    (ip, (now + old(self).ttl) as u64),
                ))
                &&& (r is None ==> *final(self) == *old(self))
            },
    {
        match self.get_adress(now) {
            Some(ip) => Some(ip),
            None => {
                match query_result {
                    Some(addrs) => if addrs.len() > 0 {
                        let ip = addrs[0];
                        self.address = Some((ip, now + self.ttl));
                        Some(ip)
                    } else {
                        None
                    },
                    None => None,
                }
            },
        }
    }

    /// [`Self::get_or_querry`] together with the configured port: the
    /// endpoint an upload cycle connects to.
    pub fn querry_endpoint(&mut self, now: u64, query_result: Option<Vec<u32>>) -> (r: Option<
        (u32, u16),
    >)
        requires
            now + old(self).ttl <= u64::MAX,
        ensures
            r matches Some(ep) ==> old(self).spec_resolved(now, query_result) == Some(ep.0)
                && ep.1 == old(self).port,
            r is None ==> old(self).spec_resolved(now, query_result) is None,
            old(self).spec_cached(now) is Some ==> *final(self) == *old(self),
            old(self).spec_cached(now) is None ==> {
                &&& final(self).url == old(self).url
                &&& final(self).ttl == old(self).ttl
                &&& final(self).port == old(self).port
                &&& (r matches Some(ep) ==> final(self).address == Some(
                    (ep.0, (now + old(self).ttl) as u64),
                ))
                &&& (r is None ==> *final(self) == *old(self))
            },
    {
        let port = self.port;
        match self.get_or_querry(now, query_result) {
            Some(ip) => Some((ip, port)),
            None => None,
        }
    }
}

/// An unexpired cache entry is served identically to every caller until
/// its expiry — so no new query is issued within the TTL window — and
/// is never served at or past the expiry, which forces exactly one new
/// query on the next resolution.
pub proof fn lemma_dns_cache_ttl(d: DNSAddress, ip: u32, expires_at: u64, t: u64)
    requires
        d.address == Some((ip, expires_at)),
    ensures
        t < expires_at ==> d.spec_cached(t) == Some(ip),
        t < expires_at ==> forall|q: Option<Vec<u32>>| d.spec_resolved(t, q) == Some(ip),
        t >= expires_at ==> d.spec_cached(t) is None,
{
}

/// The nonce pair of the authentication handshake.
pub struct Authentication {
    pub local_nonce: u64,
    pub server_noce: u64,
}

/// The characters of the authentication/handshake request sent first on
/// each upload connection.
pub open spec fn auth_request_spec(host: Seq<char>) -> Seq<char> {
    "GET /auth HTTP/1.0\r\nHost: "@ + host
        + "\r\nAuthorization: HANDSHAKE\r\nConnection: keep-alive\r\nUser-Agent: Dewy\r\n\r\n"@
}

/// The characters of the plain GET request sent after the handshake.
pub open spec fn get_request_spec(host: Seq<char>) -> Seq<char> {
    "GET / HTTP/1.0\r\nHost: "@ + host + "\r\n\r\n"@
}

/// Builds the handshake request for the given host.
pub fn build_auth_request(host: &str) -> (r: String)
    ensures
        r@ == auth_request_spec(host@),
{
    let mut s: String = "GET /auth HTTP/1.0\r\nHost: ".to_owned();
    s.append(host);
    s.append("\r\nAuthorization: HANDSHAKE\r\nConnection: keep-alive\r\nUser-Agent: Dewy\r\n\r\n");
    assert(s@ =~= auth_request_spec(host@));
    s
}

/// Builds the plain GET request for the given host.
pub fn build_get_request(host: &str) -> (r: String)
    ensures
        r@ == get_request_spec(host@),
{
    let mut s: String = "GET / HTTP/1.0\r\nHost: ".to_owned();
    s.append(host);
    s.append("\r\n\r\n");
    assert(s@ =~= get_request_spec(host@));
    s
}

/// Everything the owning task needs to run the I/O of one upload
/// cycle: the endpoint to connect to with the fixed 10-second timeout,
/// and the two requests to write in order on that socket.
pub struct UploadPlan {
    pub endpoint_ip: u32,
    pub endpoint_port: u16,
    pub auth_request: String,
    pub get_request: String,
}

/// The network uploader: holds the handshake state. The socket buffers
/// and the entropy source live with the task that performs the I/O.
pub struct WebClient {
    pub auth: Option<Authentication>,
}

impl WebClient {
    /// A fresh client with no completed handshake.
    pub fn new() -> (r: Self)
        ensures
            r.auth is None,
    {
        WebClient { auth: None }
    }

    /// One upload cycle's decisions. Resolves the server through the
    /// cache (`query_result` is the outcome of the DNS query the task
    /// issued, if one was needed), and either yields the connection
    /// plan or aborts the cycle when no address could be had. The batch
    /// is discarded unconditionally, whatever the outcome: a cycle
    /// never leaves entries behind for the next one.
    pub fn update_server(
        &mut self,
        dns: &mut DNSAddress,
        upload_data: &mut UploadData,
        now: u64,
        query_result: Option<Vec<u32>>,
    ) -> (plan: Option<UploadPlan>)
        requires
            now + old(dns).ttl <= u64::MAX,
        ensures
            final(upload_data).batch() == Seq::<(u64, u64)>::empty(),
            plan matches Some(p) ==> {
                &&& old(dns).spec_resolved(now, query_result) == Some(p.endpoint_ip)
                &&& p.endpoint_port == old(dns).port
                &&& p.auth_request@ == auth_request_spec(old(dns).url@)
                &&& p.get_request@ == get_request_spec(old(dns).url@)
            },
            plan is None ==> old(dns).spec_resolved(now, query_result) is None,
            final(dns).url == old(dns).url,
            final(dns).ttl == old(dns).ttl,
            final(dns).port == old(dns).port,
            *final(self) == *old(self),
    {
        let endpoint = dns.querry_endpoint(now, query_result);
        upload_data.messurements.clear();
        match endpoint {
            Some(ep) => {
                let auth_request = build_auth_request(dns.url.as_str());
                let get_request = build_get_request(dns.url.as_str());
                Some(
                    UploadPlan {
                        endpoint_ip: ep.0,
                        endpoint_port: ep.1,
                        auth_request,
                        get_request,
                    },
                )
            },
            None => None,
        }
    }
}

} // verus!
