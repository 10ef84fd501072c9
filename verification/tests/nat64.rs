use mqtt_thread::fault::ConfigError;
use mqtt_thread::nat64::{is_valid_prefix_length, synthesize_nat64, AddressPrefix, TranslatedEndpoint};

const PREFIX: [u8; 16] = [
    0xfd, 0xb4, 0x4e, 0x7f, 0x4e, 0x8d, 0x00, 0x02, 0xa0, 0xa1, 0xa2, 0xa3, 0xa4, 0xa5, 0xa6, 0xa7,
];

#[test]
fn embeds_after_a_96_bit_prefix() {
    let prefix = [0xfd, 0xb4, 0x4e, 0x7f, 0x4e, 0x8d, 0x00, 0x02, 0, 0, 0, 0, 0, 0, 0, 0];
    let got = synthesize_nat64(prefix, 96, [1, 1, 1, 1]);
    assert_eq!(
        got,
        [0xfd, 0xb4, 0x4e, 0x7f, 0x4e, 0x8d, 0x00, 0x02, 0, 0, 0, 0, 1, 1, 1, 1]
    );
}

#[test]
fn embeds_a_private_address_after_a_96_bit_prefix() {
    let prefix = [0xfd, 0x42, 0x46, 0x96, 0x0c, 0x9c, 0x00, 0x02, 0, 0, 0, 0, 0, 0, 0, 0];
    let got = synthesize_nat64(prefix, 96, [192, 168, 1, 228]);
    assert_eq!(
        got,
        [0xfd, 0x42, 0x46, 0x96, 0x0c, 0x9c, 0x00, 0x02, 0, 0, 0, 0, 0xc0, 0xa8, 0x01, 0xe4]
    );
}

#[test]
fn a_32_bit_prefix_fills_bytes_4_to_7() {
    let mut prefix = [0u8; 16];
    prefix[0] = 0xfd;
    prefix[8] = 0x5a;
    let got = synthesize_nat64(prefix, 32, [192, 168, 1, 228]);
    assert_eq!(got[..4], prefix[..4]);
    assert_eq!(got[4..8], [192, 168, 1, 228]);
    assert_eq!(got[8], 0x5a);
    assert_eq!(got[9..], prefix[9..]);
}

#[test]
fn a_40_bit_prefix_steps_over_byte_8() {
    let got = synthesize_nat64(PREFIX, 40, [192, 168, 1, 228]);
    assert_eq!(got[..5], PREFIX[..5]);
    assert_eq!(got[5..8], [192, 168, 1]);
    assert_eq!(got[8], PREFIX[8]);
    assert_eq!(got[9], 228);
    assert_eq!(got[10..], PREFIX[10..]);
}

#[test]
fn a_48_bit_prefix_steps_over_byte_8() {
    let got = synthesize_nat64(PREFIX, 48, [10, 20, 30, 40]);
    assert_eq!(
        got,
        [0xfd, 0xb4, 0x4e, 0x7f, 0x4e, 0x8d, 10, 20, 0xa0, 30, 40, 0xa3, 0xa4, 0xa5, 0xa6, 0xa7]
    );
}

#[test]
fn a_56_bit_prefix_steps_over_byte_8() {
    let got = synthesize_nat64(PREFIX, 56, [10, 20, 30, 40]);
    assert_eq!(
        got,
        [0xfd, 0xb4, 0x4e, 0x7f, 0x4e, 0x8d, 0x00, 10, 0xa0, 20, 30, 40, 0xa4, 0xa5, 0xa6, 0xa7]
    );
}

#[test]
fn a_64_bit_prefix_starts_behind_byte_8() {
    let got = synthesize_nat64(PREFIX, 64, [10, 20, 30, 40]);
    assert_eq!(
        got,
        [0xfd, 0xb4, 0x4e, 0x7f, 0x4e, 0x8d, 0x00, 0x02, 0xa0, 10, 20, 30, 40, 0xa5, 0xa6, 0xa7]
    );
}

#[test]
fn every_valid_length_keeps_the_prefix_and_the_reserved_byte() {
    let ipv4 = [201, 202, 203, 204];
    for len in [32u8, 40, 48, 56, 64, 96] {
        let got = synthesize_nat64(PREFIX, len, ipv4);
        let start = (len / 8) as usize;
        assert_eq!(got[..start], PREFIX[..start]);
        assert_eq!(got[8], PREFIX[8]);
        let mut cursor = start;
        for octet in ipv4 {
            if cursor == 8 {
                cursor += 1;
            }
            assert_eq!(got[cursor], octet);
            cursor += 1;
        }
        let changed = (0..16).filter(|&i| got[i] != PREFIX[i]).count();
        assert_eq!(changed, 4);
    }
}

#[test]
fn the_same_inputs_give_the_same_address() {
    let first = synthesize_nat64(PREFIX, 48, [8, 8, 4, 4]);
    let second = synthesize_nat64(PREFIX, 48, [8, 8, 4, 4]);
    assert_eq!(first, second);
    let prefix = AddressPrefix::new(PREFIX, 48).unwrap();
    assert_eq!(prefix.synthesize([8, 8, 4, 4]), first);
    assert_eq!(prefix.synthesize([8, 8, 4, 4]), first);
}

#[test]
fn valid_lengths_are_the_six() {
    for len in 0..=255u8 {
        let expected = matches!(len, 32 | 40 | 48 | 56 | 64 | 96);
        assert_eq!(is_valid_prefix_length(len), expected);
        assert_eq!(AddressPrefix::new(PREFIX, len).is_ok(), expected);
    }
}

#[test]
fn an_invalid_length_is_a_configuration_error() {
    assert_eq!(
        AddressPrefix::new(PREFIX, 65),
        Err(ConfigError::InvalidPrefixLength(65))
    );
    assert_eq!(
        AddressPrefix::new(PREFIX, 0),
        Err(ConfigError::InvalidPrefixLength(0))
    );
    assert_eq!(
        AddressPrefix::new(PREFIX, 128),
        Err(ConfigError::InvalidPrefixLength(128))
    );
}

#[test]
fn a_prefix_keeps_what_it_was_made_of() {
    let prefix = AddressPrefix::new(PREFIX, 96).unwrap();
    assert_eq!(prefix.address(), PREFIX);
    assert_eq!(prefix.length(), 96);
}

#[test]
fn translate_pairs_the_address_with_the_port() {
    let prefix = AddressPrefix::new(PREFIX, 96).unwrap();
    let endpoint = prefix.translate([1, 1, 1, 1], 1883);
    assert_eq!(
        endpoint,
        TranslatedEndpoint {
            address: [
                0xfd, 0xb4, 0x4e, 0x7f, 0x4e, 0x8d, 0x00, 0x02, 0xa0, 0xa1, 0xa2, 0xa3, 1, 1, 1, 1
            ],
            port: 1883,
        }
    );
}
