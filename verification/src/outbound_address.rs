//! Which outbound destination addresses count as public Internet addresses.
//!
//! This is a syntactic address policy: it looks at the address bits only.
//! Host routing, VPNs, and destination NAT can still route a permitted
//! address to a non-public destination.
use vstd::arithmetic::div_mod::{
    lemma_div_denominator, lemma_fundamental_div_mod, lemma_fundamental_div_mod_converse,
};
use vstd::arithmetic::mul::lemma_mul_is_commutative;
use vstd::arithmetic::power2::{lemma_pow2_adds, lemma_pow2_pos, pow2};
use vstd::bits::{lemma_u128_shr_is_div, lemma_u32_shr_is_div};
use vstd::prelude::*;

verus! {

/// An IP address, held as the unsigned integer of its bits in network
/// order (the most significant bit is the first bit of the address).
#[derive(Clone, Copy, Debug, PartialEq, Eq, Structural)]
pub enum IpAddress {
    V4(u32),
    V6(u128),
}

/// The first `prefix` bits of a `width`-bit number `x`.
pub open spec fn leading_bits(x: nat, width: nat, prefix: nat) -> nat
    recommends
        prefix <= width,
{
    x / pow2((width - prefix) as nat)
}

/// `addr` lies in the network `network/prefix`: the two `width`-bit numbers
/// agree on their first `prefix` bits.
pub open spec fn in_network(addr: nat, network: nat, prefix: nat, width: nat) -> bool {
    leading_bits(addr, width, prefix) == leading_bits(network, width, prefix)
}

/// IPv4 networks that are not public Internet destinations, as
/// `(network, prefix length)`.
pub open spec fn ipv4_special_networks() -> Seq<(u32, u32)> {
    seq![
        (0x0000_0000u32, 8u32),
        (0x0a00_0000u32, 8u32),
        (0x6440_0000u32, 10u32),
        (0x7f00_0000u32, 8u32),
        (0xa9fe_0000u32, 16u32),
        (0xac10_0000u32, 12u32),
        (0xc000_0000u32, 24u32),
        (0xc000_0200u32, 24u32),
        (0xc058_6300u32, 24u32),
        (0xc0a8_0000u32, 16u32),
        (0xc612_0000u32, 15u32),
        (0xc633_6400u32, 24u32),
        (0xcb00_7100u32, 24u32),
        (0xe000_0000u32, 4u32),
        (0xf000_0000u32, 4u32),
    ]
}

/// IPv6 networks that are not public Internet destinations, as
/// `(network, prefix length)`.
pub open spec fn ipv6_special_networks() -> Seq<(u128, u32)> {
    seq![
        // unspecified, loopback, IPv4-compatible
        (0u128, 96u32),
        // IPv4-mapped
        (0x0000_0000_0000_0000_0000_ffff_0000_0000u128, 96u32),
        // NAT64
        (0x0064_ff9b_0000_0000_0000_0000_0000_0000u128, 96u32),
        // local-use NAT64
        (0x0064_ff9b_0001_0000_0000_0000_0000_0000u128, 48u32),
        // discard-only
        (0x0100_0000_0000_0000_0000_0000_0000_0000u128, 64u32),
        // special/transition
        (0x2001_0000_0000_0000_0000_0000_0000_0000u128, 23u32),
        // 6to4
        (0x2002_0000_0000_0000_0000_0000_0000_0000u128, 16u32),
        // documentation
        (0x2001_0db8_0000_0000_0000_0000_0000_0000u128, 32u32),
        // documentation
        (0x3fff_0000_0000_0000_0000_0000_0000_0000u128, 20u32),
        // former 6bone
        (0x3ffe_0000_0000_0000_0000_0000_0000_0000u128, 16u32),
        // unique local
        (0xfc00_0000_0000_0000_0000_0000_0000_0000u128, 7u32),
        // link local
        (0xfe80_0000_0000_0000_0000_0000_0000_0000u128, 10u32),
        // site local
        (0xfec0_0000_0000_0000_0000_0000_0000_0000u128, 10u32),
        // multicast
        (0xff00_0000_0000_0000_0000_0000_0000_0000u128, 8u32),
    ]
}

/// The IPv6 global unicast space, `2000::/3`.
pub open spec fn ipv6_global_unicast() -> (u128, u32) {
    (0x2000_0000_0000_0000_0000_0000_0000_0000u128, 3u32)
}

/// `addr` lies in one of the special IPv4 networks.
pub open spec fn ipv4_is_special(addr: u32) -> bool {
    exists|i: int|
        0 <= i < ipv4_special_networks().len() && #[trigger] in_network(
            addr as nat,
            ipv4_special_networks()[i].0 as nat,
            ipv4_special_networks()[i].1 as nat,
            32,
        )
}

/// `addr` lies in one of the special IPv6 networks.
pub open spec fn ipv6_is_special(addr: u128) -> bool {
    exists|i: int|
        0 <= i < ipv6_special_networks().len() && #[trigger] in_network(
            addr as nat,
            ipv6_special_networks()[i].0 as nat,
            ipv6_special_networks()[i].1 as nat,
            128,
        )
}

/// An IPv4 address is public when it lies in none of the special networks.
pub open spec fn ipv4_is_public(addr: u32) -> bool {
    !ipv4_is_special(addr)
}

/// An IPv6 address is public when it lies in `2000::/3` and in none of the
/// special networks.
pub open spec fn ipv6_is_public(addr: u128) -> bool {
    &&& in_network(addr as nat, ipv6_global_unicast().0 as nat, ipv6_global_unicast().1 as nat, 128)
    &&& !ipv6_is_special(addr)
}

/// Whether an address of either family is a public Internet address.
pub open spec fn ip_is_public(addr: IpAddress) -> bool {
    match addr {
        IpAddress::V4(a) => ipv4_is_public(a),
        IpAddress::V6(a) => ipv6_is_public(a),
    }
}

/// Returns whether `addr` is a public Internet address; the outbound policy
/// permits exactly these destinations.
pub fn is_public_internet_address(addr: IpAddress) -> (r: bool)
    ensures
        r == ip_is_public(addr),
{
    match addr {
        IpAddress::V4(a) => is_public_ipv4(a),
        IpAddress::V6(a) => is_public_ipv6(a),
    }
}

/// The special IPv4 networks as an executable table.
fn ipv4_special_table() -> (v: Vec<(u32, u32)>)
    ensures
        v@ == ipv4_special_networks(),
{
    let v = vec![
        (0x0000_0000u32, 8u32),
        (0x0a00_0000u32, 8u32),
        (0x6440_0000u32, 10u32),
        (0x7f00_0000u32, 8u32),
        (0xa9fe_0000u32, 16u32),
        (0xac10_0000u32, 12u32),
        (0xc000_0000u32, 24u32),
        (0xc000_0200u32, 24u32),
        (0xc058_6300u32, 24u32),
        (0xc0a8_0000u32, 16u32),
        (0xc612_0000u32, 15u32),
        (0xc633_6400u32, 24u32),
        (0xcb00_7100u32, 24u32),
        (0xe000_0000u32, 4u32),
        (0xf000_0000u32, 4u32),
    ];
    assert(v@ =~= ipv4_special_networks());
    v
}

/// The special IPv6 networks as an executable table.
fn ipv6_special_table() -> (v: Vec<(u128, u32)>)
    ensures
        v@ == ipv6_special_networks(),
{
    let v = vec![
        (0u128, 96u32),
        (0x0000_0000_0000_0000_0000_ffff_0000_0000u128, 96u32),
        (0x0064_ff9b_0000_0000_0000_0000_0000_0000u128, 96u32),
        (0x0064_ff9b_0001_0000_0000_0000_0000_0000u128, 48u32),
        (0x0100_0000_0000_0000_0000_0000_0000_0000u128, 64u32),
        (0x2001_0000_0000_0000_0000_0000_0000_0000u128, 23u32),
        (0x2002_0000_0000_0000_0000_0000_0000_0000u128, 16u32),
        (0x2001_0db8_0000_0000_0000_0000_0000_0000u128, 32u32),
        (0x3fff_0000_0000_0000_0000_0000_0000_0000u128, 20u32),
        (0x3ffe_0000_0000_0000_0000_0000_0000_0000u128, 16u32),
        (0xfc00_0000_0000_0000_0000_0000_0000_0000u128, 7u32),
        (0xfe80_0000_0000_0000_0000_0000_0000_0000u128, 10u32),
        (0xfec0_0000_0000_0000_0000_0000_0000_0000u128, 10u32),
        (0xff00_0000_0000_0000_0000_0000_0000_0000u128, 8u32),
    ];
    assert(v@ =~= ipv6_special_networks());
    v
}

/// Returns whether the IPv4 address `addr` lies in none of the special
/// networks.
pub fn is_public_ipv4(addr: u32) -> (r: bool)
    ensures
        r == ipv4_is_public(addr),
{
    let table = ipv4_special_table();
    let n = table.len();
    let mut i: usize = 0;
    while i < n
        invariant
            n == table@.len(),
            table@ == ipv4_special_networks(),
            0 <= i <= n,
            forall|j: int|
                0 <= j < i ==> !#[trigger] in_network(
                    addr as nat,
                    ipv4_special_networks()[j].0 as nat,
                    ipv4_special_networks()[j].1 as nat,
                    32,
                ),
        decreases n - i,
    {
        let (network, prefix) = table[i];
        if ipv4_in_prefix(addr, network, prefix) {
            return false;
        }
        i = i + 1;
    }
    true
}

/// Returns whether the IPv6 address `addr` lies in `2000::/3` and in none of
/// the special networks.
pub fn is_public_ipv6(addr: u128) -> (r: bool)
    ensures
        r == ipv6_is_public(addr),
{
    if !ipv6_in_prefix(addr, 0x2000_0000_0000_0000_0000_0000_0000_0000u128, 3) {
        return false;
    }
    let table = ipv6_special_table();
    let n = table.len();
    let mut i: usize = 0;
    while i < n
        invariant
            n == table@.len(),
            table@ == ipv6_special_networks(),
            0 <= i <= n,
            forall|j: int|
                0 <= j < i ==> !#[trigger] in_network(
                    addr as nat,
                    ipv6_special_networks()[j].0 as nat,
                    ipv6_special_networks()[j].1 as nat,
                    128,
                ),
        decreases n - i,
    {
        let (network, prefix) = table[i];
        if ipv6_in_prefix(addr, network, prefix) {
            return false;
        }
        i = i + 1;
    }
    true
}

/// Returns whether `addr` lies in the IPv4 network `network/prefix`.
pub fn ipv4_in_prefix(addr: u32, network: u32, prefix: u32) -> (r: bool)
    requires
        1 <= prefix <= 32,
    ensures
        r == in_network(addr as nat, network as nat, prefix as nat, 32),
{
    let shift: u32 = 32 - prefix;
    proof {
        lemma_u32_shr_is_div(addr, shift);
        lemma_u32_shr_is_div(network, shift);
    }
    addr >> shift == network >> shift
}

/// Returns whether `addr` lies in the IPv6 network `network/prefix`.
pub fn ipv6_in_prefix(addr: u128, network: u128, prefix: u32) -> (r: bool)
    requires
        1 <= prefix <= 128,
    ensures
        r == in_network(addr as nat, network as nat, prefix as nat, 128),
{
    let shift: u32 = 128 - prefix;
    let shift128: u128 = shift as u128;
    proof {
        lemma_u128_shr_is_div(addr, shift128);
        lemma_u128_shr_is_div(network, shift128);
    }
    addr >> shift == network >> shift
}

/// Membership in a network is membership in an interval of addresses: the
/// network `network/prefix` of `width`-bit addresses holds exactly the
/// `2^(width - prefix)` addresses that start at its first address.
pub proof fn law_network_is_interval(addr: nat, network: nat, prefix: nat, width: nat)
    requires
        prefix <= width,
    ensures
        ({
            let size = pow2((width - prefix) as nat);
            let start = leading_bits(network, width, prefix) * size;
            in_network(addr, network, prefix, width) <==> (start <= addr < start + size)
        }),
{
    let size = pow2((width - prefix) as nat);
    let k = leading_bits(network, width, prefix);
    lemma_pow2_pos((width - prefix) as nat);
    lemma_fundamental_div_mod(addr as int, size as int);
    lemma_mul_is_commutative(size as int, (addr / size) as int);
    lemma_mul_is_commutative(size as int, k as int);
    if k * size <= addr < k * size + size {
        lemma_fundamental_div_mod_converse(addr as int, size as int, k as int, addr - k * size);
    }
}

/// A network contains every address of the longer-prefix networks inside
/// it: agreeing on the first `prefix` bits implies agreeing on the first
/// `shorter` bits.
pub proof fn law_shorter_prefix_contains(addr: nat, network: nat, shorter: nat, prefix: nat, width: nat)
    requires
        shorter <= prefix <= width,
        in_network(addr, network, prefix, width),
    ensures
        in_network(addr, network, shorter, width),
{
    let lo = (width - prefix) as nat;
    let hi = (prefix - shorter) as nat;
    lemma_pow2_pos(lo);
    lemma_pow2_pos(hi);
    lemma_pow2_adds(lo, hi);
    assert((lo + hi) as nat == (width - shorter) as nat);
    lemma_div_denominator(addr as int, pow2(lo) as int, pow2(hi) as int);
    lemma_div_denominator(network as int, pow2(lo) as int, pow2(hi) as int);
}

/// Every address in the address interval of a special IPv4 network is
/// refused by the policy.
pub proof fn law_ipv4_special_interval_refused(addr: u32, i: int)
    requires
        0 <= i < ipv4_special_networks().len(),
        ({
            let (network, prefix) = ipv4_special_networks()[i];
            let size = pow2((32 - prefix) as nat);
            let start = leading_bits(network as nat, 32, prefix as nat) * size;
            start <= addr < start + size
        }),
    ensures
        !ip_is_public(IpAddress::V4(addr)),
{
    let (network, prefix) = ipv4_special_networks()[i];
    law_network_is_interval(addr as nat, network as nat, prefix as nat, 32);
    assert(in_network(addr as nat, network as nat, prefix as nat, 32));
}

/// Every address in the address interval of a special IPv6 network is
/// refused by the policy.
pub proof fn law_ipv6_special_interval_refused(addr: u128, i: int)
    requires
        0 <= i < ipv6_special_networks().len(),
        ({
            let (network, prefix) = ipv6_special_networks()[i];
            let size = pow2((128 - prefix) as nat);
            let start = leading_bits(network as nat, 128, prefix as nat) * size;
            start <= addr < start + size
        }),
    ensures
        !ip_is_public(IpAddress::V6(addr)),
{
    let (network, prefix) = ipv6_special_networks()[i];
    law_network_is_interval(addr as nat, network as nat, prefix as nat, 128);
    assert(in_network(addr as nat, network as nat, prefix as nat, 128));
}

/// Every IPv6 address outside the global unicast space `2000::/3` (that is,
/// below `0x2000...` or from `0x4000...` on) is refused by the policy.
pub proof fn law_ipv6_outside_global_unicast_refused(addr: u128)
    requires
        addr < 0x2000_0000_0000_0000_0000_0000_0000_0000u128
            || 0x4000_0000_0000_0000_0000_0000_0000_0000u128 <= addr,
    ensures
        !ip_is_public(IpAddress::V6(addr)),
{
    let network = 0x2000_0000_0000_0000_0000_0000_0000_0000u128;
    lemma_u128_shr_is_div(addr, 125);
    lemma_u128_shr_is_div(network, 125);
    assert(0x2000_0000_0000_0000_0000_0000_0000_0000u128 >> 125u128 == 1u128) by (bit_vector);
    assert(addr >> 125u128 != 1u128) by (bit_vector)
        requires
            addr < 0x2000_0000_0000_0000_0000_0000_0000_0000u128
                || 0x4000_0000_0000_0000_0000_0000_0000_0000u128 <= addr,
    ;
}

/// `in_network` for 32-bit addresses compares the addresses shifted right
/// past the host bits.
proof fn lemma_in_network_u32(a: u32, n: u32, p: u32)
    requires
        1 <= p <= 32,
    ensures
        in_network(a as nat, n as nat, p as nat, 32) <==> (a >> ((32 - p) as u32)) == (n >> ((32
            - p) as u32)),
{
    lemma_u32_shr_is_div(a, (32 - p) as u32);
    lemma_u32_shr_is_div(n, (32 - p) as u32);
}

/// `in_network` for 128-bit addresses compares the addresses shifted right
/// past the host bits.
proof fn lemma_in_network_u128(a: u128, n: u128, p: u32)
    requires
        1 <= p <= 128,
    ensures
        in_network(a as nat, n as nat, p as nat, 128) <==> (a >> ((128 - p) as u128)) == (n >> ((
        128 - p) as u128)),
{
    lemma_u128_shr_is_div(a, (128 - p) as u128);
    lemma_u128_shr_is_div(n, (128 - p) as u128);
}

/// The IPv4 policy, address by address: an IPv4 address is permitted exactly
/// when it lies in none of these fifteen address intervals (private,
/// loopback, link-local, shared, documentation, benchmarking, multicast and
/// reserved space).
pub proof fn law_ipv4_policy_intervals(a: u32)
    ensures
        ip_is_public(IpAddress::V4(a)) <==> !(
            // 0.0.0.0/8
            (0x0000_0000u32 <= a <= 0x00ff_ffffu32)
            ||
            // 10.0.0.0/8
            (0x0a00_0000u32 <= a <= 0x0aff_ffffu32)
            ||
            // 100.64.0.0/10
            (0x6440_0000u32 <= a <= 0x647f_ffffu32)
            ||
            // 127.0.0.0/8
            (0x7f00_0000u32 <= a <= 0x7fff_ffffu32)
            ||
            // 169.254.0.0/16
            (0xa9fe_0000u32 <= a <= 0xa9fe_ffffu32)
            ||
            // 172.16.0.0/12
            (0xac10_0000u32 <= a <= 0xac1f_ffffu32)
            ||
            // 192.0.0.0/24
            (0xc000_0000u32 <= a <= 0xc000_00ffu32)
            ||
            // 192.0.2.0/24
            (0xc000_0200u32 <= a <= 0xc000_02ffu32)
            ||
            // 192.88.99.0/24
            (0xc058_6300u32 <= a <= 0xc058_63ffu32)
            ||
            // 192.168.0.0/16
            (0xc0a8_0000u32 <= a <= 0xc0a8_ffffu32)
            ||
            // 198.18.0.0/15
            (0xc612_0000u32 <= a <= 0xc613_ffffu32)
            ||
            // 198.51.100.0/24
            (0xc633_6400u32 <= a <= 0xc633_64ffu32)
            ||
            // 203.0.113.0/24
            (0xcb00_7100u32 <= a <= 0xcb00_71ffu32)
            ||
            // 224.0.0.0/4
            (0xe000_0000u32 <= a <= 0xefff_ffffu32)
            ||
            // 240.0.0.0/4
            (0xf000_0000u32 <= a <= 0xffff_ffffu32)
        ),
{
    let t = ipv4_special_networks();
    lemma_in_network_u32(a, t[0].0, t[0].1);
    lemma_in_network_u32(a, t[1].0, t[1].1);
    lemma_in_network_u32(a, t[2].0, t[2].1);
    lemma_in_network_u32(a, t[3].0, t[3].1);
    lemma_in_network_u32(a, t[4].0, t[4].1);
    lemma_in_network_u32(a, t[5].0, t[5].1);
    lemma_in_network_u32(a, t[6].0, t[6].1);
    lemma_in_network_u32(a, t[7].0, t[7].1);
    lemma_in_network_u32(a, t[8].0, t[8].1);
    lemma_in_network_u32(a, t[9].0, t[9].1);
    lemma_in_network_u32(a, t[10].0, t[10].1);
    lemma_in_network_u32(a, t[11].0, t[11].1);
    lemma_in_network_u32(a, t[12].0, t[12].1);
    lemma_in_network_u32(a, t[13].0, t[13].1);
    lemma_in_network_u32(a, t[14].0, t[14].1);
    assert(
        ((a >> 24u32) == (0x0000_0000u32 >> 24u32)) == (0x0000_0000u32 <= a <= 0x00ff_ffffu32)
        &&
        ((a >> 24u32) == (0x0a00_0000u32 >> 24u32)) == (0x0a00_0000u32 <= a <= 0x0aff_ffffu32)
        &&
        ((a >> 22u32) == (0x6440_0000u32 >> 22u32)) == (0x6440_0000u32 <= a <= 0x647f_ffffu32)
        &&
        ((a >> 24u32) == (0x7f00_0000u32 >> 24u32)) == (0x7f00_0000u32 <= a <= 0x7fff_ffffu32)
        &&
        ((a >> 16u32) == (0xa9fe_0000u32 >> 16u32)) == (0xa9fe_0000u32 <= a <= 0xa9fe_ffffu32)
        &&
        ((a >> 20u32) == (0xac10_0000u32 >> 20u32)) == (0xac10_0000u32 <= a <= 0xac1f_ffffu32)
        &&
        ((a >> 8u32) == (0xc000_0000u32 >> 8u32)) == (0xc000_0000u32 <= a <= 0xc000_00ffu32)
        &&
        ((a >> 8u32) == (0xc000_0200u32 >> 8u32)) == (0xc000_0200u32 <= a <= 0xc000_02ffu32)
        &&
        ((a >> 8u32) == (0xc058_6300u32 >> 8u32)) == (0xc058_6300u32 <= a <= 0xc058_63ffu32)
        &&
        ((a >> 16u32) == (0xc0a8_0000u32 >> 16u32)) == (0xc0a8_0000u32 <= a <= 0xc0a8_ffffu32)
        &&
        ((a >> 17u32) == (0xc612_0000u32 >> 17u32)) == (0xc612_0000u32 <= a <= 0xc613_ffffu32)
        &&
        ((a >> 8u32) == (0xc633_6400u32 >> 8u32)) == (0xc633_6400u32 <= a <= 0xc633_64ffu32)
        &&
        ((a >> 8u32) == (0xcb00_7100u32 >> 8u32)) == (0xcb00_7100u32 <= a <= 0xcb00_71ffu32)
        &&
        ((a >> 28u32) == (0xe000_0000u32 >> 28u32)) == (0xe000_0000u32 <= a <= 0xefff_ffffu32)
        &&
        ((a >> 28u32) == (0xf000_0000u32 >> 28u32)) == (0xf000_0000u32 <= a <= 0xffff_ffffu32)
    ) by (bit_vector);
    if ipv4_is_special(a) {
        let i = choose|i: int|
            0 <= i < t.len() && #[trigger] in_network(a as nat, t[i].0 as nat, t[i].1 as nat, 32);
        assert(0 <= i < 15);
    }
}

/// The IPv6 policy, address by address: an IPv6 address is permitted exactly
/// when it lies in `2000::/3` (from `0x2000...` to `0x3fff...`) and in none
/// of these fourteen address intervals.
pub proof fn law_ipv6_policy_intervals(a: u128)
    ensures
        ip_is_public(IpAddress::V6(a)) <==> (0x2000_0000_0000_0000_0000_0000_0000_0000u128 <= a
            <= 0x3fff_ffff_ffff_ffff_ffff_ffff_ffff_ffffu128) && !(
            // ::/96
            (0x0000_0000_0000_0000_0000_0000_0000_0000u128 <= a <= 0x0000_0000_0000_0000_0000_0000_ffff_ffffu128)
            ||
            // ::ffff:0:0/96
            (0x0000_0000_0000_0000_0000_ffff_0000_0000u128 <= a <= 0x0000_0000_0000_0000_0000_ffff_ffff_ffffu128)
            ||
            // 64:ff9b::/96
            (0x0064_ff9b_0000_0000_0000_0000_0000_0000u128 <= a <= 0x0064_ff9b_0000_0000_0000_0000_ffff_ffffu128)
            ||
            // 64:ff9b:1::/48
            (0x0064_ff9b_0001_0000_0000_0000_0000_0000u128 <= a <= 0x0064_ff9b_0001_ffff_ffff_ffff_ffff_ffffu128)
            ||
            // 100::/64
            (0x0100_0000_0000_0000_0000_0000_0000_0000u128 <= a <= 0x0100_0000_0000_0000_ffff_ffff_ffff_ffffu128)
            ||
            // 2001::/23
            (0x2001_0000_0000_0000_0000_0000_0000_0000u128 <= a <= 0x2001_01ff_ffff_ffff_ffff_ffff_ffff_ffffu128)
            ||
            // 2002::/16
            (0x2002_0000_0000_0000_0000_0000_0000_0000u128 <= a <= 0x2002_ffff_ffff_ffff_ffff_ffff_ffff_ffffu128)
            ||
            // 2001:db8::/32
            (0x2001_0db8_0000_0000_0000_0000_0000_0000u128 <= a <= 0x2001_0db8_ffff_ffff_ffff_ffff_ffff_ffffu128)
            ||
            // 3fff::/20
            (0x3fff_0000_0000_0000_0000_0000_0000_0000u128 <= a <= 0x3fff_0fff_ffff_ffff_ffff_ffff_ffff_ffffu128)
            ||
            // 3ffe::/16
            (0x3ffe_0000_0000_0000_0000_0000_0000_0000u128 <= a <= 0x3ffe_ffff_ffff_ffff_ffff_ffff_ffff_ffffu128)
            ||
            // fc00::/7
            (0xfc00_0000_0000_0000_0000_0000_0000_0000u128 <= a <= 0xfdff_ffff_ffff_ffff_ffff_ffff_ffff_ffffu128)
            ||
            // fe80::/10
            (0xfe80_0000_0000_0000_0000_0000_0000_0000u128 <= a <= 0xfebf_ffff_ffff_ffff_ffff_ffff_ffff_ffffu128)
            ||
            // fec0::/10
            (0xfec0_0000_0000_0000_0000_0000_0000_0000u128 <= a <= 0xfeff_ffff_ffff_ffff_ffff_ffff_ffff_ffffu128)
            ||
            // ff00::/8
            (0xff00_0000_0000_0000_0000_0000_0000_0000u128 <= a <= 0xffff_ffff_ffff_ffff_ffff_ffff_ffff_ffffu128)
        ),
{
    let t = ipv6_special_networks();
    lemma_in_network_u128(a, 0x2000_0000_0000_0000_0000_0000_0000_0000u128, 3);
    lemma_in_network_u128(a, t[0].0, t[0].1);
    lemma_in_network_u128(a, t[1].0, t[1].1);
    lemma_in_network_u128(a, t[2].0, t[2].1);
    lemma_in_network_u128(a, t[3].0, t[3].1);
    lemma_in_network_u128(a, t[4].0, t[4].1);
    lemma_in_network_u128(a, t[5].0, t[5].1);
    lemma_in_network_u128(a, t[6].0, t[6].1);
    lemma_in_network_u128(a, t[7].0, t[7].1);
    lemma_in_network_u128(a, t[8].0, t[8].1);
    lemma_in_network_u128(a, t[9].0, t[9].1);
    lemma_in_network_u128(a, t[10].0, t[10].1);
    lemma_in_network_u128(a, t[11].0, t[11].1);
    lemma_in_network_u128(a, t[12].0, t[12].1);
    lemma_in_network_u128(a, t[13].0, t[13].1);
    assert(
        ((a >> 125u128) == (0x2000_0000_0000_0000_0000_0000_0000_0000u128 >> 125u128)) == (0x2000_0000_0000_0000_0000_0000_0000_0000u128 <= a <= 0x3fff_ffff_ffff_ffff_ffff_ffff_ffff_ffffu128)
        &&
        ((a >> 32u128) == (0x0000_0000_0000_0000_0000_0000_0000_0000u128 >> 32u128)) == (0x0000_0000_0000_0000_0000_0000_0000_0000u128 <= a <= 0x0000_0000_0000_0000_0000_0000_ffff_ffffu128)
        &&
        ((a >> 32u128) == (0x0000_0000_0000_0000_0000_ffff_0000_0000u128 >> 32u128)) == (0x0000_0000_0000_0000_0000_ffff_0000_0000u128 <= a <= 0x0000_0000_0000_0000_0000_ffff_ffff_ffffu128)
        &&
        ((a >> 32u128) == (0x0064_ff9b_0000_0000_0000_0000_0000_0000u128 >> 32u128)) == (0x0064_ff9b_0000_0000_0000_0000_0000_0000u128 <= a <= 0x0064_ff9b_0000_0000_0000_0000_ffff_ffffu128)
        &&
        ((a >> 80u128) == (0x0064_ff9b_0001_0000_0000_0000_0000_0000u128 >> 80u128)) == (0x0064_ff9b_0001_0000_0000_0000_0000_0000u128 <= a <= 0x0064_ff9b_0001_ffff_ffff_ffff_ffff_ffffu128)
        &&
        ((a >> 64u128) == (0x0100_0000_0000_0000_0000_0000_0000_0000u128 >> 64u128)) == (0x0100_0000_0000_0000_0000_0000_0000_0000u128 <= a <= 0x0100_0000_0000_0000_ffff_ffff_ffff_ffffu128)
        &&
        ((a >> 105u128) == (0x2001_0000_0000_0000_0000_0000_0000_0000u128 >> 105u128)) == (0x2001_0000_0000_0000_0000_0000_0000_0000u128 <= a <= 0x2001_01ff_ffff_ffff_ffff_ffff_ffff_ffffu128)
        &&
        ((a >> 112u128) == (0x2002_0000_0000_0000_0000_0000_0000_0000u128 >> 112u128)) == (0x2002_0000_0000_0000_0000_0000_0000_0000u128 <= a <= 0x2002_ffff_ffff_ffff_ffff_ffff_ffff_ffffu128)
        &&
        ((a >> 96u128) == (0x2001_0db8_0000_0000_0000_0000_0000_0000u128 >> 96u128)) == (0x2001_0db8_0000_0000_0000_0000_0000_0000u128 <= a <= 0x2001_0db8_ffff_ffff_ffff_ffff_ffff_ffffu128)
        &&
        ((a >> 108u128) == (0x3fff_0000_0000_0000_0000_0000_0000_0000u128 >> 108u128)) == (0x3fff_0000_0000_0000_0000_0000_0000_0000u128 <= a <= 0x3fff_0fff_ffff_ffff_ffff_ffff_ffff_ffffu128)
        &&
        ((a >> 112u128) == (0x3ffe_0000_0000_0000_0000_0000_0000_0000u128 >> 112u128)) == (0x3ffe_0000_0000_0000_0000_0000_0000_0000u128 <= a <= 0x3ffe_ffff_ffff_ffff_ffff_ffff_ffff_ffffu128)
        &&
        ((a >> 121u128) == (0xfc00_0000_0000_0000_0000_0000_0000_0000u128 >> 121u128)) == (0xfc00_0000_0000_0000_0000_0000_0000_0000u128 <= a <= 0xfdff_ffff_ffff_ffff_ffff_ffff_ffff_ffffu128)
        &&
        ((a >> 118u128) == (0xfe80_0000_0000_0000_0000_0000_0000_0000u128 >> 118u128)) == (0xfe80_0000_0000_0000_0000_0000_0000_0000u128 <= a <= 0xfebf_ffff_ffff_ffff_ffff_ffff_ffff_ffffu128)
        &&
        ((a >> 118u128) == (0xfec0_0000_0000_0000_0000_0000_0000_0000u128 >> 118u128)) == (0xfec0_0000_0000_0000_0000_0000_0000_0000u128 <= a <= 0xfeff_ffff_ffff_ffff_ffff_ffff_ffff_ffffu128)
        &&
        ((a >> 120u128) == (0xff00_0000_0000_0000_0000_0000_0000_0000u128 >> 120u128)) == (0xff00_0000_0000_0000_0000_0000_0000_0000u128 <= a <= 0xffff_ffff_ffff_ffff_ffff_ffff_ffff_ffffu128)
    ) by (bit_vector);
    if ipv6_is_special(a) {
        let i = choose|i: int|
            0 <= i < t.len() && #[trigger] in_network(a as nat, t[i].0 as nat, t[i].1 as nat, 128);
        assert(0 <= i < 14);
    }
}

} // verus!
