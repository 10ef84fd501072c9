//! NAT64-style synthesis of an IPv6 address from a prefix and an IPv4 address.

use crate::fault::ConfigError;
use vstd::prelude::*;

verus! {

/// Byte of the IPv6 address that embedded IPv4 data never occupies.
pub const RESERVED_INDEX: usize = 8;

/// The prefix lengths, in bits, under which an IPv4 address can be embedded.
pub open spec fn valid_prefix_length(len: u8) -> bool {
    len == 32 || len == 40 || len == 48 || len == 56 || len == 64 || len == 96
}

/// First byte after the part of the address that the prefix covers.
pub open spec fn embed_start(prefix_len: u8) -> int {
    prefix_len as int / 8
}

/// Byte of the IPv6 address that receives the `k`-th IPv4 octet: the octets
/// follow the prefix in order and step over the reserved byte.
pub open spec fn embed_position(prefix_len: u8, k: int) -> int {
    let start = embed_start(prefix_len);
    if start <= 8 && 8 <= start + k {
        start + k + 1
    } else {
        start + k
    }
}

/// Whether byte `i` of the IPv6 address receives one of the four IPv4 octets.
pub open spec fn is_embed_position(prefix_len: u8, i: int) -> bool {
    exists|k: int| 0 <= k < 4 && embed_position(prefix_len, k) == i
}

/// The IPv4 octet that byte `i` of the synthesized address holds, if any.
pub open spec fn embedded_octet(prefix_len: u8, i: int) -> Option<int> {
    let start = embed_start(prefix_len);
    let k = if start <= 8 && 8 < i {
        i - start - 1
    } else {
        i - start
    };
    if i != 8 && 0 <= k < 4 {
        Some(k)
    } else {
        None
    }
}

/// The synthesized address once the first `count` IPv4 octets are embedded.
pub open spec fn embedded_prefix(prefix: Seq<u8>, prefix_len: u8, ipv4: Seq<u8>, count: int) -> Seq<
    u8,
> {
    Seq::new(
        16,
        |i: int|
            match embedded_octet(prefix_len, i) {
                Some(k) => if k < count {
                    ipv4[k]
                } else {
                    prefix[i]
                },
                None => prefix[i],
            },
    )
}

/// The address that embeds `ipv4` under `prefix`.
pub open spec fn synthesized(prefix: Seq<u8>, prefix_len: u8, ipv4: Seq<u8>) -> Seq<u8> {
    embedded_prefix(prefix, prefix_len, ipv4, 4)
}

/// What makes `addr` the synthesis of `ipv4` under `prefix`: the four octets
/// stand at their positions, and every other byte is the prefix's.
pub open spec fn is_synthesis_of(addr: Seq<u8>, prefix: Seq<u8>, prefix_len: u8, ipv4: Seq<u8>) -> bool {
    &&& addr.len() == 16
    &&& forall|k: int| 0 <= k < 4 ==> addr[#[trigger] embed_position(prefix_len, k)] == ipv4[k]
    &&& forall|i: int|
        0 <= i < 16 && !is_embed_position(prefix_len, i) ==> #[trigger] addr[i] == prefix[i]
}

/// For a valid prefix length the four embed positions lie inside the address,
/// after the prefix, in increasing order, and none is the reserved byte.
pub proof fn lemma_embed_positions(prefix_len: u8, k: int)
    requires
        valid_prefix_length(prefix_len),
        0 <= k < 4,
    ensures
        embed_start(prefix_len) <= embed_position(prefix_len, k) < 16,
        embed_position(prefix_len, k) != 8,
        embedded_octet(prefix_len, embed_position(prefix_len, k)) == Some(k),
        is_embed_position(prefix_len, embed_position(prefix_len, k)),
{
}

/// Byte `i` holds an IPv4 octet exactly when it is an embed position.
pub proof fn lemma_embedded_octet_iff(prefix_len: u8, i: int)
    requires
        valid_prefix_length(prefix_len),
        0 <= i < 16,
    ensures
        embedded_octet(prefix_len, i) is Some <==> is_embed_position(prefix_len, i),
        embedded_octet(prefix_len, i) matches Some(k) ==> 0 <= k < 4 && embed_position(
            prefix_len,
            k,
        ) == i,
        i < embed_start(prefix_len) ==> !is_embed_position(prefix_len, i),
        !is_embed_position(prefix_len, 8),
{
    if let Some(k) = embedded_octet(prefix_len, i) {
        assert(embed_position(prefix_len, k) == i);
    }
    assert forall|k: int| 0 <= k < 4 implies embed_position(prefix_len, k) != 8 by {}
}

/// The closed form meets the defining property.
pub proof fn lemma_synthesized_is_synthesis(prefix: Seq<u8>, prefix_len: u8, ipv4: Seq<u8>)
    requires
        valid_prefix_length(prefix_len),
    ensures
        is_synthesis_of(synthesized(prefix, prefix_len, ipv4), prefix, prefix_len, ipv4),
{
    let addr = synthesized(prefix, prefix_len, ipv4);
    assert forall|k: int| 0 <= k < 4 implies addr[#[trigger] embed_position(prefix_len, k)]
        == ipv4[k] by {
        lemma_embed_positions(prefix_len, k);
    }
    assert forall|i: int| 0 <= i < 16 && !is_embed_position(prefix_len, i) implies #[trigger] addr[i]
        == prefix[i] by {
        lemma_embedded_octet_iff(prefix_len, i);
    }
}

/// Synthesis has one result: two addresses that both embed `ipv4` under
/// `prefix` are the same address, so repeating a synthesis on the same
/// inputs gives the same address.
pub proof fn lemma_synthesis_unique(
    a: Seq<u8>,
    b: Seq<u8>,
    prefix: Seq<u8>,
    prefix_len: u8,
    ipv4: Seq<u8>,
)
    requires
        valid_prefix_length(prefix_len),
        is_synthesis_of(a, prefix, prefix_len, ipv4),
        is_synthesis_of(b, prefix, prefix_len, ipv4),
    ensures
        a == b,
{
    assert forall|i: int| 0 <= i < 16 implies a[i] == b[i] by {
        if is_embed_position(prefix_len, i) {
            let k = choose|k: int| 0 <= k < 4 && embed_position(prefix_len, k) == i;
            assert(a[embed_position(prefix_len, k)] == ipv4[k]);
            assert(b[embed_position(prefix_len, k)] == ipv4[k]);
        }
    }
    assert(a =~= b);
}

/// Embeds the IPv4 address `ipv4` into `prefix`, whose first `prefix_len` bits
/// are kept: the four octets follow the prefix and step over the reserved byte.
pub fn synthesize_nat64(prefix: [u8; 16], prefix_len: u8, ipv4: [u8; 4]) -> (result: [u8; 16])
    requires
        valid_prefix_length(prefix_len),
    ensures
        result@ == synthesized(prefix@, prefix_len, ipv4@),
        is_synthesis_of(result@, prefix@, prefix_len, ipv4@),
        forall|i: int| 0 <= i < embed_start(prefix_len) ==> result@[i] == prefix@[i],
        result@[8] == prefix@[8],
{
    let mut ipv6_bytes = prefix;
    let mut ip6_index: usize = (prefix_len / 8) as usize;
    let mut k: usize = 0;
    while k < 4
        invariant
            valid_prefix_length(prefix_len),
            0 <= k <= 4,
            ip6_index == if k == 0 {
                embed_start(prefix_len)
            } else {
                embed_position(prefix_len, k - 1) + 1
            },
            ipv6_bytes@ =~= embedded_prefix(prefix@, prefix_len, ipv4@, k as int),
        ensures
            k == 4,
        decreases 4 - k,
    {
        if ip6_index == RESERVED_INDEX {
            ip6_index += 1;
        }
        proof {
            lemma_embed_positions(prefix_len, k as int);
        }
        if ip6_index >= 16 {
            break ;
        }
        ipv6_bytes[ip6_index] = ipv4[k];
        ip6_index += 1;
        k += 1;
    }
    proof {
        assert(ipv6_bytes@ =~= synthesized(prefix@, prefix_len, ipv4@));
        lemma_synthesized_is_synthesis(prefix@, prefix_len, ipv4@);
        assert forall|i: int| 0 <= i < embed_start(prefix_len) implies ipv6_bytes@[i]
            == prefix@[i] by {
            lemma_embedded_octet_iff(prefix_len, i);
        }
        lemma_embedded_octet_iff(prefix_len, 8);
    }
    ipv6_bytes
}

/// Whether `len` is one of the prefix lengths under which an IPv4 address can
/// be embedded.
pub fn is_valid_prefix_length(len: u8) -> (valid: bool)
    ensures
        valid == valid_prefix_length(len),
{
    len == 32 || len == 40 || len == 48 || len == 56 || len == 64 || len == 96
}

/// An IPv6 prefix under which IPv4 addresses are embedded. Its length is one
/// of 32, 40, 48, 56, 64 and 96 bits.
#[derive(Clone, Copy, Debug, PartialEq, Eq)]
pub struct AddressPrefix {
    address: [u8; 16],
    length: u8,
}

/// An IPv6 address with a port: where a session opens its transport.
#[derive(Clone, Copy, Debug, PartialEq, Eq)]
pub struct TranslatedEndpoint {
    pub address: [u8; 16],
    pub port: u16,
}

/// An endpoint as a mathematical value.
pub struct EndpointView {
    pub address: Seq<u8>,
    pub port: u16,
}

impl View for TranslatedEndpoint {
    type V = EndpointView;

    open spec fn view(&self) -> EndpointView {
        EndpointView { address: self.address@, port: self.port }
    }
}

impl AddressPrefix {
    #[verifier::type_invariant]
    spec fn well_formed(self) -> bool {
        valid_prefix_length(self.length)
    }

    /// The 16 bytes of the prefix.
    pub closed spec fn spec_address(self) -> Seq<u8> {
        self.address@
    }

    /// The length of the prefix in bits.
    pub closed spec fn spec_length(self) -> u8 {
        self.length
    }

    /// The endpoint that stands for `ipv4` and `port` under this prefix.
    pub open spec fn spec_translate(self, ipv4: Seq<u8>, port: u16) -> EndpointView {
        EndpointView { address: synthesized(self.spec_address(), self.spec_length(), ipv4), port }
    }

    /// Makes a prefix of `address` and `length`, or refuses a length under
    /// which no IPv4 address can be embedded.
    pub fn new(address: [u8; 16], length: u8) -> (made: Result<AddressPrefix, ConfigError>)
        ensures
            match made {
                Ok(prefix) => valid_prefix_length(length) && prefix.spec_address() == address@
                    && prefix.spec_length() == length,
                Err(error) => !valid_prefix_length(length) && error
                    == ConfigError::InvalidPrefixLength(length),
            },
    {
        if is_valid_prefix_length(length) {
            Ok(AddressPrefix { address, length })
        } else {
            Err(ConfigError::InvalidPrefixLength(length))
        }
    }

    /// The 16 bytes of the prefix.
    pub fn address(&self) -> (address: [u8; 16])
        ensures
            address@ == self.spec_address(),
    {
        self.address
    }

    /// The length of the prefix in bits.
    pub fn length(&self) -> (length: u8)
        ensures
            length == self.spec_length(),
            valid_prefix_length(length),
    {
        proof {
            use_type_invariant(self);
        }
        self.length
    }

    /// Embeds `ipv4` under this prefix.
    pub fn synthesize(&self, ipv4: [u8; 4]) -> (address: [u8; 16])
        ensures
            address@ == synthesized(self.spec_address(), self.spec_length(), ipv4@),
            is_synthesis_of(address@, self.spec_address(), self.spec_length(), ipv4@),
    {
        proof {
            use_type_invariant(self);
        }
        synthesize_nat64(self.address, self.length, ipv4)
    }

    /// The endpoint at which a host with the address `ipv4` is reached from
    /// inside the mesh, on `port`.
    pub fn translate(&self, ipv4: [u8; 4], port: u16) -> (endpoint: TranslatedEndpoint)
        ensures
            endpoint@ == self.spec_translate(ipv4@, port),
    {
        TranslatedEndpoint { address: self.synthesize(ipv4), port }
    }
}

} // verus!
