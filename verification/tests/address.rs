use egress_proxy::address::{
    combine_address, get_rand_ipv6, get_rand_ipv6_socket_addr, network_mask_of, EgressPrefix,
    SourceBinding,
};

const BASE: u128 = 0x2001_0db8_1234_5678_9abc_def0_0fed_cba9;

fn top_bits(value: u128, count: u8) -> u128 {
    if count == 0 {
        0
    } else {
        value >> (128 - count as u32)
    }
}

#[test]
fn network_mask_has_leading_ones() {
    assert_eq!(network_mask_of(0), 0);
    assert_eq!(network_mask_of(1), 1u128 << 127);
    assert_eq!(network_mask_of(8), 0xff00_0000_0000_0000_0000_0000_0000_0000);
    assert_eq!(network_mask_of(64), 0xffff_ffff_ffff_ffff_0000_0000_0000_0000);
    assert_eq!(network_mask_of(127), u128::MAX - 1);
    assert_eq!(network_mask_of(128), u128::MAX);
}

#[test]
fn network_mask_counts_its_bits() {
    for len in 0..=128u8 {
        let mask = network_mask_of(len);
        assert_eq!(mask.count_ones(), len as u32);
        assert_eq!(mask.leading_ones(), len as u32);
    }
}

#[test]
fn combine_takes_network_from_base_and_host_from_random() {
    let random: u128 = 0xffff_ffff_ffff_ffff_ffff_ffff_ffff_ffff;
    assert_eq!(
        combine_address(0x2001_0db8_0000_0000_0000_0000_0000_0000, 32, random),
        0x2001_0db8_ffff_ffff_ffff_ffff_ffff_ffff
    );
    assert_eq!(
        combine_address(BASE, 64, 0x1111_2222_3333_4444_5555_6666_7777_8888),
        0x2001_0db8_1234_5678_5555_6666_7777_8888
    );
    assert_eq!(combine_address(BASE, 48, 0), 0x2001_0db8_1234_0000_0000_0000_0000_0000);
    assert_eq!(combine_address(0, 127, u128::MAX), 1);
    assert_eq!(combine_address(u128::MAX, 1, 0), 1u128 << 127);
}

#[test]
fn combine_ignores_host_bits_of_base() {
    let random: u128 = 0x0123_4567_89ab_cdef_0123_4567_89ab_cdef;
    let clean: u128 = 0x2001_0db8_0000_0000_0000_0000_0000_0000;
    let dirty: u128 = 0x2001_0db8_dead_beef_dead_beef_dead_beef;
    assert_eq!(combine_address(clean, 32, random), combine_address(dirty, 32, random));
}

#[test]
fn combine_with_full_prefix_is_base() {
    assert_eq!(combine_address(BASE, 128, 0), BASE);
    assert_eq!(combine_address(BASE, 128, u128::MAX), BASE);
    assert_eq!(combine_address(BASE, 128, 0x5555_5555_5555_5555_5555_5555_5555_5555), BASE);
}

#[test]
fn combine_with_empty_prefix_is_random() {
    assert_eq!(combine_address(BASE, 0, 0), 0);
    assert_eq!(combine_address(BASE, 0, u128::MAX), u128::MAX);
    assert_eq!(combine_address(BASE, 0, 42), 42);
}

#[test]
fn combine_is_deterministic() {
    let random: u128 = 0x0f0f_0f0f_0f0f_0f0f_0f0f_0f0f_0f0f_0f0f;
    for len in 0..=128u8 {
        assert_eq!(combine_address(BASE, len, random), combine_address(BASE, len, random));
    }
}

#[test]
fn random_address_keeps_network_bits() {
    for len in 0..=128u8 {
        for _ in 0..20 {
            let addr = get_rand_ipv6(BASE, len);
            assert_eq!(top_bits(addr, len), top_bits(BASE, len));
        }
    }
}

#[test]
fn random_address_with_full_prefix_is_base() {
    for _ in 0..100 {
        assert_eq!(get_rand_ipv6(BASE, 128), BASE);
    }
}

#[test]
fn random_address_with_empty_prefix_varies() {
    let first = get_rand_ipv6(BASE, 0);
    let mut varied = false;
    let mut high_bit_set = false;
    let mut high_bit_clear = false;
    for _ in 0..1000 {
        let addr = get_rand_ipv6(BASE, 0);
        if addr != first {
            varied = true;
        }
        if addr >> 127 == 1 {
            high_bit_set = true;
        } else {
            high_bit_clear = true;
        }
    }
    assert!(varied);
    assert!(high_bit_set);
    assert!(high_bit_clear);
}

#[test]
fn random_address_varies_in_host_part() {
    let mut seen: Vec<u128> = Vec::new();
    for _ in 0..200 {
        let addr = get_rand_ipv6(BASE, 64);
        assert_eq!(addr >> 64, BASE >> 64);
        if !seen.contains(&addr) {
            seen.push(addr);
        }
    }
    assert!(seen.len() > 190);
}

#[test]
fn random_socket_address_lies_in_prefix() {
    for len in [0u8, 1, 32, 48, 64, 96, 127, 128] {
        for _ in 0..20 {
            let binding: SourceBinding = get_rand_ipv6_socket_addr(BASE, len);
            assert_eq!(top_bits(binding.address, len), top_bits(BASE, len));
        }
    }
}

#[test]
fn random_socket_address_with_full_prefix_keeps_base() {
    for _ in 0..100 {
        assert_eq!(get_rand_ipv6_socket_addr(BASE, 128).address, BASE);
    }
}

#[test]
fn random_socket_addresses_are_distinct() {
    let mut seen: Vec<SourceBinding> = Vec::new();
    for _ in 0..500 {
        let binding = get_rand_ipv6_socket_addr(BASE, 48);
        assert!(!seen.contains(&binding));
        seen.push(binding);
    }
    let mut ports: Vec<u16> = Vec::new();
    for binding in seen.iter() {
        if !ports.contains(&binding.port) {
            ports.push(binding.port);
        }
    }
    assert!(ports.len() > 400);
}

#[test]
fn prefix_rejects_length_above_address_width() {
    assert_eq!(EgressPrefix::new(BASE, 129), None);
    assert_eq!(EgressPrefix::new(BASE, 255), None);
}

#[test]
fn prefix_accepts_every_valid_length() {
    for len in 0..=128u8 {
        assert_eq!(EgressPrefix::new(BASE, len), Some(EgressPrefix { base: BASE, prefix_len: len }));
    }
}

#[test]
fn prefix_network_clears_host_bits() {
    let prefix = EgressPrefix::new(BASE, 32).unwrap();
    assert_eq!(prefix.network(), 0x2001_0db8_0000_0000_0000_0000_0000_0000);
    assert_eq!(EgressPrefix::new(BASE, 0).unwrap().network(), 0);
    assert_eq!(EgressPrefix::new(BASE, 128).unwrap().network(), BASE);
}

#[test]
fn prefix_contains_exactly_its_network() {
    let prefix = EgressPrefix::new(BASE, 32).unwrap();
    assert!(prefix.contains(BASE));
    assert!(prefix.contains(0x2001_0db8_0000_0000_0000_0000_0000_0001));
    assert!(prefix.contains(0x2001_0db8_ffff_ffff_ffff_ffff_ffff_ffff));
    assert!(!prefix.contains(0x2001_0db9_0000_0000_0000_0000_0000_0000));
    assert!(!prefix.contains(0xa001_0db8_1234_5678_9abc_def0_0fed_cba9));
    let all = EgressPrefix::new(BASE, 0).unwrap();
    assert!(all.contains(0));
    assert!(all.contains(u128::MAX));
    let one = EgressPrefix::new(BASE, 128).unwrap();
    assert!(one.contains(BASE));
    assert!(!one.contains(BASE ^ 1));
}

#[test]
fn prefix_contains_what_it_draws() {
    for len in 0..=128u8 {
        let prefix = EgressPrefix::new(BASE, len).unwrap();
        for _ in 0..5 {
            assert!(prefix.contains(get_rand_ipv6(prefix.base, prefix.prefix_len)));
        }
    }
}
