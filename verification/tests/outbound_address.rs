use fedimint_guard::outbound_address::{
    ipv4_in_prefix, ipv6_in_prefix, is_public_internet_address, is_public_ipv4, is_public_ipv6,
    IpAddress,
};

fn v4(a: u8, b: u8, c: u8, d: u8) -> IpAddress {
    IpAddress::V4(u32::from_be_bytes([a, b, c, d]))
}

fn v6(segments: [u16; 8]) -> IpAddress {
    let mut value: u128 = 0;
    for s in segments {
        value = (value << 16) | s as u128;
    }
    IpAddress::V6(value)
}

#[test]
fn denies_non_public_and_transition_addresses() {
    let denied = [
        v4(127, 0, 0, 1),
        v4(10, 0, 0, 1),
        v4(169, 254, 1, 1),
        v6([0, 0, 0, 0, 0, 0, 0, 1]),
        v6([0xfe80, 0, 0, 0, 0, 0, 0, 1]),
        v6([0xfc00, 0, 0, 0, 0, 0, 0, 1]),
        v6([0, 0, 0, 0, 0, 0xffff, 0xc000, 0x0201]),
        v6([0, 0, 0, 0, 0, 0, 0xc000, 0x0201]),
        v6([0x64, 0xff9b, 0, 0, 0, 0, 0xc000, 0x0201]),
        v6([0x64, 0xff9b, 1, 0, 0, 0, 0xc000, 0x0201]),
        v6([0x2002, 0xc000, 0x0201, 0, 0, 0, 0, 1]),
        v6([0x2001, 0, 0, 0, 0, 0, 0, 1]),
        v6([0x2001, 0xdb8, 0, 0, 0, 0, 0, 1]),
        v6([0x3fff, 0, 0, 0, 0, 0, 0, 1]),
        v6([0x100, 0, 0, 1, 0, 0, 0, 1]),
        v6([0x5f00, 0, 0, 0, 0, 0, 0, 1]),
    ];
    for address in denied {
        assert!(!is_public_internet_address(address), "{address:?}");
    }
}

#[test]
fn permits_public_addresses() {
    for address in [v4(1, 1, 1, 1), v6([0x2606, 0x4700, 0x4700, 0, 0, 0, 0, 0x1111])] {
        assert!(is_public_internet_address(address), "{address:?}");
    }
}

#[test]
fn ipv4_special_networks_are_refused_at_their_edges() {
    // First and last address of each special network, and the neighbours
    // just outside where those are public.
    assert!(!is_public_ipv4(0x0000_0000));
    assert!(!is_public_ipv4(0x00ff_ffff));
    assert!(is_public_ipv4(0x0100_0000));
    assert!(!is_public_ipv4(0x0a00_0000));
    assert!(!is_public_ipv4(0x0aff_ffff));
    assert!(is_public_ipv4(0x0b00_0000));
    assert!(is_public_ipv4(0x643f_ffff));
    assert!(!is_public_ipv4(0x6440_0000));
    assert!(!is_public_ipv4(0x647f_ffff));
    assert!(is_public_ipv4(0x6480_0000));
    assert!(!is_public_ipv4(0xac10_0000));
    assert!(!is_public_ipv4(0xac1f_ffff));
    assert!(is_public_ipv4(0xac20_0000));
    assert!(!is_public_ipv4(0xc612_0000));
    assert!(!is_public_ipv4(0xc613_ffff));
    assert!(is_public_ipv4(0xc614_0000));
    assert!(is_public_ipv4(0xdfff_ffff));
    assert!(!is_public_ipv4(0xe000_0000));
    assert!(!is_public_ipv4(0xffff_ffff));
    assert!(!is_public_ipv4(0xc0a8_0101));
    assert!(is_public_ipv4(0x0808_0808));
}

#[test]
fn ipv6_public_needs_global_unicast() {
    assert!(!is_public_ipv6(0x1fff_ffff_ffff_ffff_ffff_ffff_ffff_ffff));
    assert!(is_public_ipv6(0x2400_cb00_0000_0000_0000_0000_0000_0001));
    // 3fff::/20 ends at 3fff:fff:ffff:...; 3fff:1000:: is public.
    assert!(!is_public_ipv6(0x3fff_0fff_ffff_ffff_ffff_ffff_ffff_ffff));
    assert!(is_public_ipv6(0x3fff_1000_0000_0000_0000_0000_0000_0000));
    assert!(is_public_ipv6(0x3ffd_ffff_ffff_ffff_ffff_ffff_ffff_ffff));
    assert!(!is_public_ipv6(0x4000_0000_0000_0000_0000_0000_0000_0000));
    assert!(!is_public_ipv6(0xff02_0000_0000_0000_0000_0000_0000_0001));
    // 2001::/23 ends at 2001:1ff:ffff:...; 2001:200:: is public.
    assert!(!is_public_ipv6(0x2001_01ff_ffff_ffff_ffff_ffff_ffff_ffff));
    assert!(is_public_ipv6(0x2001_0200_0000_0000_0000_0000_0000_0000));
}

#[test]
fn prefix_checks_compare_leading_bits() {
    assert!(ipv4_in_prefix(0x0a01_0203, 0x0a00_0000, 8));
    assert!(!ipv4_in_prefix(0x0b01_0203, 0x0a00_0000, 8));
    assert!(ipv4_in_prefix(0x1234_5678, 0x1234_5678, 32));
    assert!(!ipv4_in_prefix(0x1234_5679, 0x1234_5678, 32));
    assert!(ipv4_in_prefix(0x8000_0000, 0xffff_ffff, 1));
    assert!(!ipv4_in_prefix(0x7fff_ffff, 0xffff_ffff, 1));
    assert!(ipv6_in_prefix(u128::MAX, 0x8000_0000_0000_0000_0000_0000_0000_0000, 1));
    assert!(ipv6_in_prefix(5, 5, 128));
    assert!(!ipv6_in_prefix(4, 5, 128));
    // A shorter prefix of a matching network matches too.
    assert!(ipv6_in_prefix(0x2001_0db8_1234_0000_0000_0000_0000_0001, 0x2001_0db8_0000_0000_0000_0000_0000_0000, 32));
    assert!(ipv6_in_prefix(0x2001_0db8_1234_0000_0000_0000_0000_0001, 0x2001_0db8_0000_0000_0000_0000_0000_0000, 16));
}
