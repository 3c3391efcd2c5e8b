use yi::layout::RECORD_LEN;
use yi::{Address, YiToken};

fn sample() -> YiToken {
    YiToken {
        mint: Address { bytes: [0x11; 32] },
        bump: 0xFE,
        _padding: [0; 7],
        underlying_token_mint: Address { bytes: [0x22; 32] },
        underlying_tokens: Address { bytes: [0x33; 32] },
        stake_fee_millibps: 0x0102_0304,
        unstake_fee_millibps: 10_000_000,
    }
}

#[test]
fn record_is_stored_in_112_bytes() {
    assert_eq!(RECORD_LEN, 112);
    assert_eq!(sample().pack().len(), 112);
    assert_eq!(YiToken::default().pack(), vec![0u8; 112]);
}

#[test]
fn pack_lays_the_fields_out_in_order() {
    let bytes = sample().pack();
    assert_eq!(bytes[0..32], [0x11u8; 32]);
    assert_eq!(bytes[32], 0xFE);
    assert_eq!(bytes[33..40], [0u8; 7]);
    assert_eq!(bytes[40..72], [0x22u8; 32]);
    assert_eq!(bytes[72..104], [0x33u8; 32]);
    assert_eq!(bytes[104..108], [0x04u8, 0x03, 0x02, 0x01]);
    // 10_000_000 = 0x0098_9680
    assert_eq!(bytes[108..112], [0x80u8, 0x96, 0x98, 0x00]);
}

#[test]
fn unpack_reads_what_pack_wrote() {
    assert_eq!(YiToken::unpack(&sample().pack()), Some(sample()));
    assert_eq!(
        YiToken::unpack(&YiToken::default().pack()),
        Some(YiToken::default())
    );
}

#[test]
fn unpack_reads_each_field_from_its_place() {
    let mut bytes = [0u8; 112];
    for (i, byte) in bytes.iter_mut().enumerate() {
        *byte = i as u8;
    }
    let record = YiToken::unpack(&bytes).unwrap();
    assert_eq!(record.mint.bytes[..], bytes[0..32]);
    assert_eq!(record.bump, 32);
    assert_eq!(record._padding, [33, 34, 35, 36, 37, 38, 39]);
    assert_eq!(record.underlying_token_mint.bytes[..], bytes[40..72]);
    assert_eq!(record.underlying_tokens.bytes[..], bytes[72..104]);
    assert_eq!(record.stake_fee_millibps, 0x6B6A_6968);
    assert_eq!(record.unstake_fee_millibps, 0x6F6E_6D6C);
    assert_eq!(record.pack(), bytes.to_vec());
}

#[test]
fn unpack_refuses_any_other_length() {
    assert_eq!(YiToken::unpack(&[]), None);
    assert_eq!(YiToken::unpack(&[0u8; 111]), None);
    assert_eq!(YiToken::unpack(&[0u8; 113]), None);
    assert_eq!(YiToken::unpack(&[0u8; 120]), None);
    assert!(YiToken::unpack(&[0u8; 112]).is_some());
}

#[test]
fn address_is_read_from_an_offset() {
    let mut bytes = [0u8; 40];
    for (i, byte) in bytes.iter_mut().enumerate() {
        *byte = i as u8;
    }
    assert_eq!(Address::read(&bytes, 8).bytes[..], bytes[8..40]);
    assert_eq!(Address::read(&bytes, 0).bytes[..], bytes[0..32]);
}
