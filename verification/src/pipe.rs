//! The byte-oriented channel to the guest graphics endpoints.
//!
//! The shared transport device multiplexes the guest's well-known endpoints:
//! opening it and writing an endpoint's name as the first bytes binds the new
//! stream to that endpoint. This module models the device — its presence,
//! which endpoints currently accept a connection, and whether writes go
//! through — together with every observable effect on it: the connect
//! attempts the guest sees and the bytes written on each channel. The
//! process-facing side that opens the real device node lives outside the
//! library and drives these operations with the bytes they produce.

use vstd::prelude::*;

use crate::endpoint::Endpoint;
use crate::endpoint::spec_preference_order;
use crate::error::RendererError;

verus! {

/// The shared transport device and the guest side behind it.
pub struct PipeDevice {
    /// Whether the device node is present on the host.
    pub present: bool,
    /// Whether the ES 3 endpoint currently accepts a connection.
    pub accepts_es3: bool,
    /// Whether the ES 2 endpoint currently accepts a connection.
    pub accepts_es2: bool,
    /// Whether the ES 1 endpoint currently accepts a connection.
    pub accepts_es1: bool,
    /// Whether writes on an open channel currently go through.
    pub healthy: bool,
    /// Every endpoint a connect attempt reached, in order.
    pub connect_log: Vec<Endpoint>,
}

impl PipeDevice {
    /// Whether the named endpoint currently accepts a connection.
    pub open spec fn spec_accepts(self, endpoint: Endpoint) -> bool {
        match endpoint {
            Endpoint::Es3 => self.accepts_es3,
            Endpoint::Es2 => self.accepts_es2,
            Endpoint::Es1 => self.accepts_es1,
        }
    }

    /// A device with no connect attempt recorded yet.
    pub fn new(
        present: bool,
        accepts_es3: bool,
        accepts_es2: bool,
        accepts_es1: bool,
        healthy: bool,
    ) -> (r: PipeDevice)
        ensures
            r.present == present,
            r.accepts_es3 == accepts_es3,
            r.accepts_es2 == accepts_es2,
            r.accepts_es1 == accepts_es1,
            r.healthy == healthy,
            r.connect_log@ == Seq::<Endpoint>::empty(),
    {
        PipeDevice {
            present,
            accepts_es3,
            accepts_es2,
            accepts_es1,
            healthy,
            connect_log: Vec::new(),
        }
    }
}

/// Whether the transport device is present, queried before a session start
/// so callers can fall back to the legacy renderer without paying for a
/// failed open.
pub fn is_pipe_available(device: &PipeDevice) -> (r: bool)
    ensures
        r == device.present,
{
    device.present
}

/// An open duplex byte stream bound to exactly one endpoint after a
/// successful connect-and-handshake.
pub struct PipeConnection {
    /// The endpoint this channel is bound to.
    pub endpoint: Endpoint,
    /// Every byte written on this channel, handshake first, in order.
    pub sent: Vec<u8>,
    /// Bytes the guest has made available for reading and not yet consumed.
    pub inbound: Vec<u8>,
}

impl PipeConnection {
    /// Opens the device and performs the handshake write of the endpoint
    /// name. Failure at the open (device absent) or at the handshake (the
    /// endpoint refuses, or the write fails) is `NotAvailable`, and the
    /// device only records the attempt when the open itself succeeded.
    pub fn new(device: &mut PipeDevice, endpoint: Endpoint) -> (r: Result<
        PipeConnection,
        RendererError,
    >)
        ensures
            final(device).present == old(device).present,
            final(device).accepts_es3 == old(device).accepts_es3,
            final(device).accepts_es2 == old(device).accepts_es2,
            final(device).accepts_es1 == old(device).accepts_es1,
            final(device).healthy == old(device).healthy,
            final(device).connect_log@ == if old(device).present {
                old(device).connect_log@ + seq![endpoint]
            } else {
                old(device).connect_log@
            },
            match r {
                Ok(conn) => {
                    &&& old(device).present
                    &&& old(device).spec_accepts(endpoint)
                    &&& old(device).healthy
                    &&& conn.endpoint == endpoint
                    &&& conn.sent@ == endpoint.spec_name_bytes()
                    &&& conn.inbound@ == Seq::<u8>::empty()
                },
                Err(e) => {
                    &&& e == RendererError::NotAvailable
                    &&& !(old(device).present && old(device).spec_accepts(endpoint)
                        && old(device).healthy)
                },
            },
    {
        if !device.present {
            return Err(RendererError::NotAvailable);
        }
        device.connect_log.push(endpoint);
        if !device.healthy {
            return Err(RendererError::NotAvailable);
        }
        let accepted = match endpoint {
            Endpoint::Es3 => device.accepts_es3,
            Endpoint::Es2 => device.accepts_es2,
            Endpoint::Es1 => device.accepts_es1,
        };
        if !accepted {
            return Err(RendererError::NotAvailable);
        }
        Ok(PipeConnection { endpoint, sent: endpoint.name_bytes(), inbound: Vec::new() })
    }

    /// Writes every byte or fails atomically: on an unhealthy transport
    /// nothing of `data` reaches the channel and the caller sees `IoError`.
    pub fn write_all(&mut self, device: &PipeDevice, data: &[u8]) -> (r: Result<
        (),
        RendererError,
    >)
        ensures
            final(self).endpoint == old(self).endpoint,
            final(self).inbound == old(self).inbound,
            match r {
                Ok(()) => device.healthy && final(self).sent@ == old(self).sent@ + data@,
                Err(e) => {
                    &&& e == RendererError::IoError
                    &&& !device.healthy
                    &&& final(self).sent == old(self).sent
                },
            },
    {
        if !device.healthy {
            return Err(RendererError::IoError);
        }
        let mut i: usize = 0;
        while i < data.len()
            invariant
                0 <= i <= data@.len(),
                self.endpoint == old(self).endpoint,
                self.inbound == old(self).inbound,
                self.sent@ == old(self).sent@ + data@.subrange(0, i as int),
            decreases data@.len() - i,
        {
            self.sent.push(data[i]);
            proof {
                assert(self.sent@ =~= old(self).sent@ + data@.subrange(0, i + 1));
            }
            i = i + 1;
        }
        proof {
            assert(self.sent@ =~= old(self).sent@ + data@);
        }
        Ok(())
    }

    /// Writes like `write_all` and reports how many bytes went out; the
    /// channel transfers everything or nothing.
    pub fn write(&mut self, device: &PipeDevice, data: &[u8]) -> (r: Result<
        usize,
        RendererError,
    >)
        ensures
            final(self).endpoint == old(self).endpoint,
            final(self).inbound == old(self).inbound,
            match r {
                Ok(n) => {
                    &&& device.healthy
                    &&& n == data@.len()
                    &&& final(self).sent@ == old(self).sent@ + data@
                },
                Err(e) => {
                    &&& e == RendererError::IoError
                    &&& !device.healthy
                    &&& final(self).sent == old(self).sent
                },
            },
    {
        self.write_all(device, data)?;
        Ok(data.len())
    }

    /// Reads at most `limit` bytes: whatever the guest has made available,
    /// up to the limit, in order. A result shorter than `limit` means the
    /// guest had no more to give.
    pub fn read(&mut self, limit: usize) -> (r: Vec<u8>)
        ensures
            final(self).endpoint == old(self).endpoint,
            final(self).sent == old(self).sent,
            r@.len() == vstd::math::min(limit as int, old(self).inbound@.len() as int),
            r@ == old(self).inbound@.subrange(0, r@.len() as int),
            final(self).inbound@ == old(self).inbound@.subrange(
                r@.len() as int,
                old(self).inbound@.len() as int,
            ),
    {
        let n = if limit < self.inbound.len() {
            limit
        } else {
            self.inbound.len()
        };
        let mut out: Vec<u8> = Vec::new();
        let mut i: usize = 0;
        while i < n
            invariant
                0 <= i <= n <= self.inbound@.len(),
                self == old(self),
                out@ == self.inbound@.subrange(0, i as int),
            decreases n - i,
        {
            out.push(self.inbound[i]);
            proof {
                assert(out@ =~= self.inbound@.subrange(0, i + 1));
            }
            i = i + 1;
        }
        let mut rest: Vec<u8> = Vec::new();
        let mut j: usize = n;
        while j < self.inbound.len()
            invariant
                n <= j <= self.inbound@.len(),
                self == old(self),
                rest@ == self.inbound@.subrange(n as int, j as int),
            decreases self.inbound@.len() - j,
        {
            rest.push(self.inbound[j]);
            proof {
                assert(rest@ =~= self.inbound@.subrange(n as int, j + 1));
            }
            j = j + 1;
        }
        self.inbound = rest;
        out
    }

    /// Reads exactly `count` bytes, or fails without consuming anything
    /// when the guest has fewer available.
    pub fn read_exact(&mut self, count: usize) -> (r: Result<Vec<u8>, RendererError>)
        ensures
            final(self).endpoint == old(self).endpoint,
            final(self).sent == old(self).sent,
            match r {
                Ok(bytes) => {
                    &&& old(self).inbound@.len() >= count
                    &&& bytes@ == old(self).inbound@.subrange(0, count as int)
                    &&& final(self).inbound@ == old(self).inbound@.subrange(
                        count as int,
                        old(self).inbound@.len() as int,
                    )
                },
                Err(e) => {
                    &&& e == RendererError::IoError
                    &&& old(self).inbound@.len() < count
                    &&& final(self).inbound == old(self).inbound
                },
            },
    {
        if self.inbound.len() < count {
            return Err(RendererError::IoError);
        }
        Ok(self.read(count))
    }

    /// Pushes buffered bytes toward the guest; on this channel writes reach
    /// the device directly, so a flush moves nothing, but it still fails on
    /// an unhealthy transport exactly as a write would.
    pub fn flush(&mut self, device: &PipeDevice) -> (r: Result<(), RendererError>)
        ensures
            *final(self) == *old(self),
            match r {
                Ok(()) => device.healthy,
                Err(e) => e == RendererError::IoError && !device.healthy,
            },
    {
        if !device.healthy {
            return Err(RendererError::IoError);
        }
        Ok(())
    }
}

/// The endpoint negotiation selects given which endpoints accept: the first
/// accepting endpoint in preference order, on a present and healthy
/// transport; nothing otherwise.
pub open spec fn spec_negotiated(device: PipeDevice) -> Option<Endpoint> {
    if !(device.present && device.healthy) {
        None
    } else if device.accepts_es3 {
        Some(Endpoint::Es3)
    } else if device.accepts_es2 {
        Some(Endpoint::Es2)
    } else if device.accepts_es1 {
        Some(Endpoint::Es1)
    } else {
        None
    }
}

/// The connect attempts negotiation makes: the preference order up to and
/// including the first endpoint that accepts, and nothing at all when the
/// device node is absent.
pub open spec fn spec_attempts(device: PipeDevice) -> Seq<Endpoint> {
    if !device.present {
        seq![]
    } else if device.healthy && device.accepts_es3 {
        seq![Endpoint::Es3]
    } else if device.healthy && device.accepts_es2 {
        seq![Endpoint::Es3, Endpoint::Es2]
    } else {
        seq![Endpoint::Es3, Endpoint::Es2, Endpoint::Es1]
    }
}

/// Connects with ordered fallback: ES 3, then ES 2, then ES 1, stopping at
/// the first endpoint that accepts; when every attempt fails the result is
/// `NoEndpoint`.
pub fn create_opengles_connection(device: &mut PipeDevice) -> (r: Result<
    PipeConnection,
    RendererError,
>)
    ensures
        final(device).present == old(device).present,
        final(device).accepts_es3 == old(device).accepts_es3,
        final(device).accepts_es2 == old(device).accepts_es2,
        final(device).accepts_es1 == old(device).accepts_es1,
        final(device).healthy == old(device).healthy,
        final(device).connect_log@ == old(device).connect_log@ + spec_attempts(*old(device)),
        match r {
            Ok(conn) => {
                &&& spec_negotiated(*old(device)) == Some(conn.endpoint)
                &&& conn.sent@ == conn.endpoint.spec_name_bytes()
                &&& conn.inbound@ == Seq::<u8>::empty()
            },
            Err(e) => {
                &&& e == RendererError::NoEndpoint
                &&& spec_negotiated(*old(device)) is None
            },
        },
{
    match PipeConnection::new(device, Endpoint::Es3) {
        Ok(conn) => {
            proof {
                assert(final(device).connect_log@ =~= old(device).connect_log@ + spec_attempts(
                    *old(device),
                ));
            }
            return Ok(conn);
        }
        Err(_) => {}
    }
    match PipeConnection::new(device, Endpoint::Es2) {
        Ok(conn) => {
            proof {
                assert(final(device).connect_log@ =~= old(device).connect_log@ + spec_attempts(
                    *old(device),
                ));
            }
            return Ok(conn);
        }
        Err(_) => {}
    }
    match PipeConnection::new(device, Endpoint::Es1) {
        Ok(conn) => {
            proof {
                assert(final(device).connect_log@ =~= old(device).connect_log@ + spec_attempts(
                    *old(device),
                ));
            }
            return Ok(conn);
        }
        Err(_) => {}
    }
    proof {
        assert(final(device).connect_log@ =~= old(device).connect_log@ + spec_attempts(
            *old(device),
        ));
    }
    Err(RendererError::NoEndpoint)
}

/// Negotiation never reaches past the first accepting endpoint, and always
/// walks a prefix of the preference order: with only the ES 2 endpoint
/// reachable it binds to ES 2 after attempting ES 3 and ES 2, and the ES 1
/// endpoint sees no attempt.
pub proof fn lemma_negotiation_stops_at_first_success(device: PipeDevice)
    ensures
        spec_attempts(device) == spec_preference_order().take(spec_attempts(device).len() as int),
        spec_negotiated(device) matches Some(endpoint) ==> {
            &&& device.spec_accepts(endpoint)
            &&& spec_attempts(device).last() == endpoint
            &&& forall|i: int|
                0 <= i < spec_attempts(device).len() - 1
                    ==> !device.spec_accepts(#[trigger] spec_attempts(device)[i])
        },
        device.present && device.healthy && !device.accepts_es3 && device.accepts_es2 ==> {
            &&& spec_negotiated(device) == Some(Endpoint::Es2)
            &&& !spec_attempts(device).contains(Endpoint::Es1)
        },
{
    assert(spec_attempts(device) =~= spec_preference_order().take(
        spec_attempts(device).len() as int,
    ));
    if device.present && device.healthy && !device.accepts_es3 && device.accepts_es2 {
        assert(spec_attempts(device) =~= seq![Endpoint::Es3, Endpoint::Es2]);
        assert(forall|i: int|
            0 <= i < spec_attempts(device).len() ==> #[trigger] spec_attempts(device)[i]
                != Endpoint::Es1);
    }
}

} // verus!
