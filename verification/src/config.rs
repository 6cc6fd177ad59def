//! Configuration defaults and their resolution: the UDP bind address, the
//! upstream resolver address, and the size of the worker pool. Addresses
//! are handled as raw bytes; the embedding application converts them to and
//! from its socket types.

use vstd::prelude::*;

verus! {

/// Worker-pool size used when none is configured.
pub const DEFAULT_WORKER_COUNT: usize = 4;

/// Per-datagram size cap on the UDP receive path. This caps the largest
/// supported DNS message; EDNS0-sized messages do not fit.
pub const MAX_DATAGRAM_LEN: usize = 1024;

/// The bind address used when none is configured: loopback on the default
/// port, `127.0.0.1:5353`.
pub open spec fn default_bind_spec() -> Seq<u8> {
    seq![49u8, 50u8, 55u8, 46u8, 48u8, 46u8, 48u8, 46u8, 49u8, 58u8, 53u8, 51u8, 53u8, 51u8]
}

/// The prefix put before a bare port to bind all interfaces: `0.0.0.0:`.
pub open spec fn wildcard_prefix_spec() -> Seq<u8> {
    seq![48u8, 46u8, 48u8, 46u8, 48u8, 46u8, 48u8, 58u8]
}

/// The upstream resolver used when none is configured: `8.8.8.8:53`.
pub open spec fn default_upstream_spec() -> Seq<u8> {
    seq![56u8, 46u8, 56u8, 46u8, 56u8, 46u8, 56u8, 58u8, 53u8, 51u8]
}

/// Whether a byte occurs in a vector.
pub fn contains_byte(v: &Vec<u8>, b: u8) -> (r: bool)
    ensures
        r == v@.contains(b),
{
    let mut i: usize = 0;
    while i < v.len()
        invariant
            i <= v@.len(),
            forall|j: int| 0 <= j < i ==> v@[j] != b,
        decreases v@.len() - i,
    {
        if v[i] == b {
            return true;
        }
        i = i + 1;
    }
    false
}

/// The address the relay binds its UDP socket to. A configured value with a
/// host part (it holds a colon) is used verbatim; a bare port is bound on
/// all interfaces; nothing configured binds loopback on the default port.
pub fn resolve_bind_address(port: Option<Vec<u8>>) -> (r: Vec<u8>)
    ensures
        match port {
            Some(p) => if p@.contains(58u8) {
                r@ == p@
            } else {
                r@ == wildcard_prefix_spec() + p@
            },
            None => r@ == default_bind_spec(),
        },
{
    match port {
        Some(p) => {
            if contains_byte(&p, 58) {
                p
            } else {
                let mut r: Vec<u8> = Vec::new();
                r.push(48);
                r.push(46);
                r.push(48);
                r.push(46);
                r.push(48);
                r.push(46);
                r.push(48);
                r.push(58);
                proof {
                    assert(r@ =~= wildcard_prefix_spec());
                }
                let mut i: usize = 0;
                while i < p.len()
                    invariant
                        i <= p@.len(),
                        r@ == wildcard_prefix_spec() + p@.subrange(0, i as int),
                    decreases p@.len() - i,
                {
                    r.push(p[i]);
                    proof {
                        assert(r@ =~= wildcard_prefix_spec() + p@.subrange(0, i as int + 1));
                    }
                    i = i + 1;
                }
                proof {
                    assert(p@.subrange(0, p@.len() as int) =~= p@);
                }
                r
            }
        },
        None => {
            let mut r: Vec<u8> = Vec::new();
            r.push(49);
            r.push(50);
            r.push(55);
            r.push(46);
            r.push(48);
            r.push(46);
            r.push(48);
            r.push(46);
            r.push(49);
            r.push(58);
            r.push(53);
            r.push(51);
            r.push(53);
            r.push(51);
            proof {
                assert(r@ =~= default_bind_spec());
            }
            r
        },
    }
}

/// The upstream resolver address: the configured value verbatim, or the
/// well-known default when none is configured.
pub fn resolve_upstream(upstream: Option<Vec<u8>>) -> (r: Vec<u8>)
    ensures
        match upstream {
            Some(u) => r@ == u@,
            None => r@ == default_upstream_spec(),
        },
{
    match upstream {
        Some(u) => u,
        None => {
            let mut r: Vec<u8> = Vec::new();
            r.push(56);
            r.push(46);
            r.push(56);
            r.push(46);
            r.push(56);
            r.push(46);
            r.push(56);
            r.push(58);
            r.push(53);
            r.push(51);
            proof {
                assert(r@ =~= default_upstream_spec());
            }
            r
        },
    }
}

/// The worker count the pool is built with: the configured count, or the
/// default when none is configured, either one capped at the hardware
/// parallelism.
pub open spec fn worker_count_spec(configured: Option<usize>, hardware: usize) -> usize {
    let wanted = match configured {
        Some(n) => n,
        None => DEFAULT_WORKER_COUNT,
    };
    if wanted <= hardware {
        wanted
    } else {
        hardware
    }
}

/// Relies on num_cpus::get: the number of logical CPUs available to the
/// process, which its documentation states is always at least one.
#[verifier::external_body]
fn cpu_count() -> (r: usize)
    ensures
        1 <= r,
{
    num_cpus::get()
}

/// How many forwarding workers to run for a configured parallelism and a
/// given hardware parallelism.
pub fn worker_count_for(configured: Option<usize>, hardware: usize) -> (r: usize)
    ensures
        r == worker_count_spec(configured, hardware),
{
    let wanted: usize = match configured {
        Some(n) => n,
        None => DEFAULT_WORKER_COUNT,
    };
    if wanted <= hardware {
        wanted
    } else {
        hardware
    }
}

/// How many forwarding workers to run, capped at this machine's hardware
/// parallelism.
pub fn worker_count(configured: Option<usize>) -> (r: usize)
    ensures
        exists|hw: usize| 1 <= hw && r == worker_count_spec(configured, hw),
{
    let hw = cpu_count();
    worker_count_for(configured, hw)
}

} // verus!
