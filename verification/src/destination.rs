//! The destination of the magic packets: how a host text is normalized before
//! it is looked up, which of the addresses found becomes the destination,
//! and how the sending socket is set up for it.

use vstd::prelude::*;

verus! {

/// An address that a lookup found for a host.
#[derive(Clone, Copy, Debug, PartialEq, Eq)]
#[allow(inconsistent_fields)]
pub enum HostAddress {
    /// An IPv4 address, its octets in network order.
    V4 { octets: [u8; 4] },
    /// An IPv6 address, its octets in network order, with the flow
    /// information and the scope identifier that travel with it.
    V6 { octets: [u8; 16], flowinfo: u32, scope_id: u32 },
}

/// Where the magic packets go: an address of either family and a UDP port.
#[derive(Clone, Copy, Debug, PartialEq, Eq)]
pub struct Destination {
    pub address: HostAddress,
    pub port: u16,
}

/// How the sending socket is set up for a destination.
#[derive(Clone, Copy, Debug, PartialEq, Eq)]
pub struct SocketSetup {
    /// The local address and port to bind to.
    pub bind: Destination,
    /// Whether the socket is allowed to send to broadcast addresses.
    pub broadcast: bool,
}

/// Why no destination came out of a lookup.
#[derive(Clone, Debug, PartialEq, Eq)]
pub enum ResolutionError {
    /// The lookup itself failed, for the reason it gave.
    LookupFailed { host: String, reason: String },
    /// The lookup succeeded and found no address.
    NoAddresses { host: String },
}

impl Destination {
    /// The UDP port.
    pub fn port(&self) -> (port: u16)
        ensures
            port == self.port,
    {
        self.port
    }

    /// Whether the address is an IPv4 address.
    pub fn is_ipv4(&self) -> (v4: bool)
        ensures
            v4 == (self.address is V4),
    {
        match self.address {
            HostAddress::V4 { .. } => true,
            HostAddress::V6 { .. } => false,
        }
    }

    /// Whether the address is an IPv6 address.
    pub fn is_ipv6(&self) -> (v6: bool)
        ensures
            v6 == (self.address is V6),
    {
        match self.address {
            HostAddress::V4 { .. } => false,
            HostAddress::V6 { .. } => true,
        }
    }
}

/// `host` without one opening bracket at its start, if it has one.
pub open spec fn without_opening_bracket(host: Seq<char>) -> Seq<char> {
    if host.len() > 0 && host.first() == '[' {
        host.drop_first()
    } else {
        host
    }
}

/// `host` without one closing bracket at its end, if it has one.
pub open spec fn without_closing_bracket(host: Seq<char>) -> Seq<char> {
    if host.len() > 0 && host.last() == ']' {
        host.drop_last()
    } else {
        host
    }
}

/// The text that is looked up for `host`: the bracket notation of an IPv6
/// literal is taken off, first the opening bracket, then the closing one.
pub open spec fn clean_host_spec(host: Seq<char>) -> Seq<char> {
    without_closing_bracket(without_opening_bracket(host))
}

/// Whether `host` neither starts with `[` nor ends with `]`.
pub open spec fn is_bare(host: Seq<char>) -> bool {
    host.len() > 0 ==> host.first() != '[' && host.last() != ']'
}

/// Takes the bracket notation off a host text before it is looked up.
pub fn clean_host<'a>(host: &'a str) -> (cleaned: &'a str)
    ensures
        cleaned@ == clean_host_spec(host@),
{
    let len = host.unicode_len();
    let start: usize = if len > 0 && host.get_char(0) == '[' {
        1
    } else {
        0
    };
    let end: usize = if len > start && host.get_char(len - 1) == ']' {
        len - 1
    } else {
        len
    };
    host.substring_char(start, end)
}

/// Brackets round a bare host are transparent: the bracketed text and the
/// bare text are looked up as the same text, the bare one.
pub proof fn lemma_brackets_transparent(host: Seq<char>)
    requires
        is_bare(host),
    ensures
        clean_host_spec(host) == host,
        clean_host_spec(seq!['['] + host + seq![']']) == host,
        clean_host_spec(seq!['['] + host + seq![']']) == clean_host_spec(host),
{
}

/// Cleaning is idempotent on every host whose cleaned text is bare, and on
/// no other: a second pass changes nothing exactly when no bracket is left
/// at either end.
pub proof fn lemma_clean_host_idempotent(host: Seq<char>)
    ensures
        is_bare(clean_host_spec(host)) <==> clean_host_spec(clean_host_spec(host))
            == clean_host_spec(host),
{
}

/// The destination that the answer of a lookup stands for.
///
/// `host` and `port` are what the caller asked to reach. `found` is what
/// looking up the cleaned host gave: the addresses in the order in which
/// they were yielded, or the reason for which the lookup failed. The
/// destination is the first address with the port asked for.
pub fn resolve_destination(
    host: &str,
    port: u16,
    found: Result<Vec<HostAddress>, String>,
) -> (resolved: Result<Destination, ResolutionError>)
    ensures
        match found {
            Ok(addresses) => if addresses@.len() > 0 {
                resolved == Ok::<Destination, ResolutionError>(
                    Destination { address: addresses@[0], port },
                )
            } else {
                resolved matches Err(ResolutionError::NoAddresses { host: h }) && h@ == host@
            },
            Err(why) => resolved matches Err(ResolutionError::LookupFailed { host: h, reason })
                && h@ == host@ && reason == why,
        },
{
    match found {
        Ok(addresses) => {
            if addresses.len() > 0 {
                Ok(Destination { address: addresses[0], port })
            } else {
                Err(ResolutionError::NoAddresses { host: host.to_owned() })
            }
        },
        Err(reason) => Err(ResolutionError::LookupFailed { host: host.to_owned(), reason }),
    }
}

/// Whether `local` is the wildcard address of the family of `address`.
pub open spec fn is_wildcard_for(local: HostAddress, address: HostAddress) -> bool {
    match address {
        HostAddress::V4 { .. } => {
            &&& local matches HostAddress::V4 { octets }
            &&& forall|i: int| 0 <= i < 4 ==> octets@[i] == 0
        },
        HostAddress::V6 { .. } => {
            &&& local matches HostAddress::V6 { octets, flowinfo, scope_id }
            &&& flowinfo == 0
            &&& scope_id == 0
            &&& forall|i: int| 0 <= i < 16 ==> octets@[i] == 0
        },
    }
}

/// How to set up the socket from which packets go to `dest`: bound to the
/// wildcard address of the destination's family with the port left to the
/// system, and allowed to broadcast exactly when the destination is an IPv4
/// address.
pub fn socket_setup(dest: &Destination) -> (setup: SocketSetup)
    ensures
        is_wildcard_for(setup.bind.address, dest.address),
        setup.bind.port == 0,
        setup.broadcast == (dest.address is V4),
{
    match dest.address {
        HostAddress::V4 { .. } => SocketSetup {
            bind: Destination { address: HostAddress::V4 { octets: [0u8; 4] }, port: 0 },
            broadcast: true,
        },
        HostAddress::V6 { .. } => SocketSetup {
            bind: Destination {
                address: HostAddress::V6 { octets: [0u8; 16], flowinfo: 0, scope_id: 0 },
                port: 0,
            },
            broadcast: false,
        },
    }
}

} // verus!
