//! Allocation of source addresses inside an IPv6 egress prefix.
//!
//! An IPv6 address is modelled as a `u128` whose most significant bit is the
//! first bit of the address. A prefix of length `n` fixes the `n` most
//! significant bits; the remaining `128 - n` bits are the host part.

use rand::Rng;
use vstd::prelude::*;

verus! {

/// Number of bits in an IPv6 address.
pub const ADDRESS_BITS: u8 = 128;

/// The mask whose `prefix_len` most significant bits are set.
pub open spec fn network_mask(prefix_len: u8) -> u128 {
    if prefix_len == 0 {
        0u128
    } else if prefix_len >= 128 {
        0xffff_ffff_ffff_ffff_ffff_ffff_ffff_ffffu128
    } else {
        !(0xffff_ffff_ffff_ffff_ffff_ffff_ffff_ffffu128 >> prefix_len)
    }
}

/// The complement of [`network_mask`]: the `128 - prefix_len` least
/// significant bits are set.
pub open spec fn host_mask(prefix_len: u8) -> u128 {
    !network_mask(prefix_len)
}

/// The address that takes its network bits from `base` and its host bits
/// from `random`.
pub open spec fn combine(base: u128, prefix_len: u8, random: u128) -> u128 {
    (base & network_mask(prefix_len)) | (random & host_mask(prefix_len))
}

/// Width of the host part under a prefix of `prefix_len` bits.
pub open spec fn host_bits(prefix_len: u8) -> u8 {
    (128 - prefix_len) as u8
}

/// Bit `i` of `x`, counted from the least significant bit.
pub open spec fn bit(x: u128, i: u8) -> bool {
    (x >> i) & 1u128 == 1u128
}

/// Computes [`network_mask`].
pub fn network_mask_of(prefix_len: u8) -> (mask: u128)
    requires
        prefix_len <= 128,
    ensures
        mask == network_mask(prefix_len),
{
    if prefix_len == 0 {
        0u128
    } else if prefix_len == 128 {
        u128::MAX
    } else {
        let mask: u128 = !(u128::MAX >> prefix_len);
        mask
    }
}

/// Computes [`combine`]: the `prefix_len` most significant bits of the result
/// are those of `base`, the others those of `random`.
pub fn combine_address(base: u128, prefix_len: u8, random: u128) -> (addr: u128)
    requires
        prefix_len <= 128,
    ensures
        addr == combine(base, prefix_len, random),
{
    let net: u128 = network_mask_of(prefix_len);
    (base & net) | (random & !net)
}

/// `addr` lies in the network that `base` and `prefix_len` describe: the two
/// agree on their `prefix_len` most significant bits.
pub open spec fn in_prefix(addr: u128, base: u128, prefix_len: u8) -> bool {
    addr & network_mask(prefix_len) == base & network_mask(prefix_len)
}

/// An IPv6 network from which source addresses are drawn.
#[derive(Clone, Copy, Debug, PartialEq, Eq, Structural)]
pub struct EgressPrefix {
    /// Base address; its host bits are ignored.
    pub base: u128,
    /// Number of leading bits that every drawn address shares with `base`.
    pub prefix_len: u8,
}

impl EgressPrefix {
    /// A prefix is well formed when its length does not exceed the width of
    /// an address.
    pub open spec fn wf(&self) -> bool {
        self.prefix_len <= 128
    }

    /// Builds a prefix; a length above 128 is rejected.
    pub fn new(base: u128, prefix_len: u8) -> (prefix: Option<EgressPrefix>)
        ensures
            prefix.is_some() <==> prefix_len <= 128,
            prefix.is_some() ==> prefix.unwrap() == (EgressPrefix { base, prefix_len })
                && prefix.unwrap().wf(),
    {
        if prefix_len <= ADDRESS_BITS {
            Some(EgressPrefix { base, prefix_len })
        } else {
            None
        }
    }

    /// The network address: `base` with its host bits cleared.
    pub fn network(&self) -> (addr: u128)
        requires
            self.wf(),
        ensures
            addr == self.base & network_mask(self.prefix_len),
            addr == combine(self.base, self.prefix_len, 0),
    {
        proof {
            lemma_combine_zero(self.base, self.prefix_len);
        }
        combine_address(self.base, self.prefix_len, 0)
    }

    /// Tells whether `addr` lies in this network.
    pub fn contains(&self, addr: u128) -> (inside: bool)
        requires
            self.wf(),
        ensures
            inside == in_prefix(addr, self.base, self.prefix_len),
    {
        let net: u128 = network_mask_of(self.prefix_len);
        addr & net == self.base & net
    }
}

/// The local endpoint of one outbound connection attempt.
#[derive(Clone, Copy, Debug, PartialEq, Eq, Structural)]
pub struct SourceBinding {
    /// Local IPv6 address.
    pub address: u128,
    /// Local port.
    pub port: u16,
}

/// Draws 128 bits from `rand`'s thread-local generator
/// (`rand::thread_rng().gen::<u128>()`). Nothing is claimed of the value: it
/// differs from call to call. The generator seeds itself from the operating
/// system on a thread's first draw and panics if the system has no entropy
/// to give.
#[verifier::external_body]
fn random_u128() -> u128 {
    rand::thread_rng().gen::<u128>()
}

/// Draws 16 bits from `rand`'s thread-local generator
/// (`rand::thread_rng().gen::<u16>()`). Nothing is claimed of the value: it
/// differs from call to call. The generator seeds itself from the operating
/// system on a thread's first draw and panics if the system has no entropy
/// to give.
#[verifier::external_body]
fn random_u16() -> u16 {
    rand::thread_rng().gen::<u16>()
}

/// Draws a random address inside the network `ipv6/prefix_len`.
///
/// Whatever the generator returns, the result keeps the network bits of
/// `ipv6`; with a full-length prefix it is `ipv6` itself.
pub fn get_rand_ipv6(ipv6: u128, prefix_len: u8) -> (addr: u128)
    requires
        prefix_len <= 128,
    ensures
        in_prefix(addr, ipv6, prefix_len),
        exists|random: u128| addr == combine(ipv6, prefix_len, random),
        prefix_len == 128 ==> addr == ipv6,
{
    let random: u128 = random_u128();
    proof {
        lemma_combine_in_prefix(ipv6, prefix_len, random);
        lemma_combine_full_prefix(ipv6, random);
    }
    combine_address(ipv6, prefix_len, random)
}

/// Draws a random local endpoint inside the network `ipv6/prefix_len`: an
/// address as [`get_rand_ipv6`] gives it, and any port.
pub fn get_rand_ipv6_socket_addr(ipv6: u128, prefix_len: u8) -> (binding: SourceBinding)
    requires
        prefix_len <= 128,
    ensures
        in_prefix(binding.address, ipv6, prefix_len),
        exists|random: u128| binding.address == combine(ipv6, prefix_len, random),
        prefix_len == 128 ==> binding.address == ipv6,
{
    let address: u128 = get_rand_ipv6(ipv6, prefix_len);
    let port: u16 = random_u16();
    SourceBinding { address, port }
}

/// The network mask holds exactly the `prefix_len` most significant bits.
pub proof fn lemma_network_mask_bits(prefix_len: u8, i: u8)
    requires
        prefix_len <= 128,
        i < 128,
    ensures
        bit(network_mask(prefix_len), i) <==> i >= host_bits(prefix_len),
        bit(host_mask(prefix_len), i) <==> i < host_bits(prefix_len),
{
    assert(bit(network_mask(prefix_len), i) <==> i >= host_bits(prefix_len)) by (bit_vector)
        requires
            prefix_len <= 128,
            i < 128,
    ;
    assert(bit(host_mask(prefix_len), i) <==> i < host_bits(prefix_len)) by (bit_vector)
        requires
            prefix_len <= 128,
            i < 128,
    ;
}

/// Every combined address lies in the network of its base, whatever the
/// random bits are.
pub proof fn lemma_combine_in_prefix(base: u128, prefix_len: u8, random: u128)
    requires
        prefix_len <= 128,
    ensures
        in_prefix(combine(base, prefix_len, random), base, prefix_len),
{
    assert(in_prefix(combine(base, prefix_len, random), base, prefix_len)) by (bit_vector);
}

/// Bit by bit: the `prefix_len` most significant bits of a combined address
/// are those of the base, every other bit is that of the random value.
pub proof fn lemma_combine_bits(base: u128, prefix_len: u8, random: u128, i: u8)
    requires
        prefix_len <= 128,
        i < 128,
    ensures
        i >= host_bits(prefix_len) ==> bit(combine(base, prefix_len, random), i) == bit(base, i),
        i < host_bits(prefix_len) ==> bit(combine(base, prefix_len, random), i) == bit(random, i),
{
    assert(i >= host_bits(prefix_len) ==> bit(combine(base, prefix_len, random), i) == bit(
        base,
        i,
    )) by (bit_vector)
        requires
            prefix_len <= 128,
            i < 128,
    ;
    assert(i < host_bits(prefix_len) ==> bit(combine(base, prefix_len, random), i) == bit(
        random,
        i,
    )) by (bit_vector)
        requires
            prefix_len <= 128,
            i < 128,
    ;
}

/// An address of the network shares each of the `prefix_len` most
/// significant bits with the base.
pub proof fn lemma_in_prefix_bits(addr: u128, base: u128, prefix_len: u8, i: u8)
    requires
        prefix_len <= 128,
        in_prefix(addr, base, prefix_len),
        host_bits(prefix_len) <= i < 128,
    ensures
        bit(addr, i) == bit(base, i),
{
    assert(bit(addr, i) == bit(base, i)) by (bit_vector)
        requires
            prefix_len <= 128,
            in_prefix(addr, base, prefix_len),
            host_bits(prefix_len) <= i,
            i < 128,
    ;
}

/// Two random values give the same address exactly when they agree on the
/// host bits: every address of the network is reached by exactly one setting
/// of the host bits, so none is favoured.
pub proof fn lemma_combine_host_bits(base: u128, prefix_len: u8, r1: u128, r2: u128)
    ensures
        combine(base, prefix_len, r1) == combine(base, prefix_len, r2) <==> r1 & host_mask(
            prefix_len,
        ) == r2 & host_mask(prefix_len),
{
    assert(combine(base, prefix_len, r1) == combine(base, prefix_len, r2) <==> r1 & host_mask(
        prefix_len,
    ) == r2 & host_mask(prefix_len)) by (bit_vector);
}

/// The network of a full-length prefix holds the base alone; that of an
/// empty prefix holds every address.
pub proof fn lemma_in_prefix_extremes(addr: u128, base: u128)
    ensures
        in_prefix(addr, base, 128) <==> addr == base,
        in_prefix(addr, base, 0),
{
    assert(in_prefix(addr, base, 128) <==> addr == base) by (bit_vector);
    assert(in_prefix(addr, base, 0)) by (bit_vector);
}

/// With a full-length prefix the combined address is the base itself.
pub proof fn lemma_combine_full_prefix(base: u128, random: u128)
    ensures
        combine(base, 128, random) == base,
{
    assert(combine(base, 128, random) == base) by (bit_vector);
}

/// With an empty prefix the combined address is the random value itself.
pub proof fn lemma_combine_empty_prefix(base: u128, random: u128)
    ensures
        combine(base, 0, random) == random,
{
    assert(combine(base, 0, random) == random) by (bit_vector);
}

/// Combining with zero random bits clears the host part.
pub proof fn lemma_combine_zero(base: u128, prefix_len: u8)
    ensures
        combine(base, prefix_len, 0) == base & network_mask(prefix_len),
{
    assert(combine(base, prefix_len, 0) == base & network_mask(prefix_len)) by (bit_vector);
}

/// An address lies in a network exactly when combining the base with the
/// address's own bits gives the address back; so the addresses that can be
/// drawn are exactly those of the network.
pub proof fn lemma_in_prefix_iff_drawable(addr: u128, base: u128, prefix_len: u8)
    ensures
        in_prefix(addr, base, prefix_len) <==> combine(base, prefix_len, addr) == addr,
        in_prefix(addr, base, prefix_len) <==> exists|random: u128|
            addr == combine(base, prefix_len, random),
{
    assert(in_prefix(addr, base, prefix_len) <==> combine(base, prefix_len, addr) == addr)
        by (bit_vector);
    if exists|random: u128| addr == combine(base, prefix_len, random) {
        let random = choose|random: u128| addr == combine(base, prefix_len, random);
        assert(in_prefix(combine(base, prefix_len, random), base, prefix_len)) by (bit_vector);
    }
}

} // verus!
