use borsh::{BorshDeserialize, BorshSerialize};
use spoke_lending::errors::SpokeError;
use spoke_lending::pubkey::Pubkey;
use spoke_lending::wormhole::{HubToSpokeMessage, SpokeToHubMessage};

fn key(b: u8) -> Pubkey {
    let mut bytes = [0u8; 32];
    for (i, x) in bytes.iter_mut().enumerate() {
        *x = b.wrapping_add(i as u8);
    }
    Pubkey::new_from_array(bytes)
}

/// Borsh encoding of a variant: its tag, then the fields as a tuple.
fn borsh_variant<T: BorshSerialize>(tag: u8, fields: &T) -> Vec<u8> {
    let mut out = vec![tag];
    out.extend(fields.try_to_vec().unwrap());
    out
}

fn hub_payload(msg: &HubToSpokeMessage) -> Vec<u8> {
    let mut buf = Vec::new();
    msg.serialize(&mut buf);
    buf
}

#[test]
fn test_spoke_message_roundtrip() {
    let msg = SpokeToHubMessage::DepositNotification {
        user: Pubkey::default(),
        asset_mint: Pubkey::default(),
        amount: 1_000_000,
        oracle_price: 50_000_000,
        timestamp: 12345,
    };
    let payload = msg.to_payload();
    assert!(!payload.is_empty());
}

#[test]
fn test_hub_message_roundtrip() {
    let msg = HubToSpokeMessage::BorrowApproval {
        user: Pubkey::default(),
        asset_mint: Pubkey::default(),
        approved_amount: 500_000,
    };
    let mut buf = Vec::new();
    msg.serialize(&mut buf);
    let decoded = HubToSpokeMessage::from_payload(&buf).unwrap();
    assert_eq!(decoded.message_type(), "BorrowApproval");
}

#[test]
fn spoke_payloads_match_borsh() {
    let (u, m) = (key(1), key(100));
    let cases: Vec<(SpokeToHubMessage, Vec<u8>)> = vec![
        (
            SpokeToHubMessage::DepositNotification {
                user: u,
                asset_mint: m,
                amount: 1_000_000,
                oracle_price: 50_000_000,
                timestamp: -12345,
            },
            borsh_variant(0, &(u.to_bytes(), m.to_bytes(), 1_000_000u64, 50_000_000u64, -12345i64)),
        ),
        (
            SpokeToHubMessage::WithdrawalRequest { user: u, asset_mint: m, amount: u64::MAX },
            borsh_variant(1, &(u.to_bytes(), m.to_bytes(), u64::MAX)),
        ),
        (
            SpokeToHubMessage::OraclePriceUpdate { asset_mint: m, price: 7, confidence: 9, timestamp: i64::MIN },
            borsh_variant(2, &(m.to_bytes(), 7u64, 9u64, i64::MIN)),
        ),
        (
            SpokeToHubMessage::Heartbeat { slot: 42, total_deposits: 1 << 40, num_users: 0xdead_beef },
            borsh_variant(3, &(42u64, 1u64 << 40, 0xdead_beefu32)),
        ),
    ];
    for (msg, expected) in cases {
        let payload = msg.to_payload();
        assert_eq!(payload, expected);
        let (decoded, used) = SpokeToHubMessage::decode_prefix(&payload).unwrap();
        assert_eq!(used, payload.len());
        assert_eq!(decoded.to_payload(), payload);
        assert_eq!(decoded.message_type(), msg.message_type());
    }
}

#[test]
fn hub_payloads_match_borsh() {
    let (u, m) = (key(7), key(200));
    let cases: Vec<(HubToSpokeMessage, Vec<u8>, &str)> = vec![
        (
            HubToSpokeMessage::BorrowApproval { user: u, asset_mint: m, approved_amount: 500_000 },
            borsh_variant(0, &(u.to_bytes(), m.to_bytes(), 500_000u64)),
            "BorrowApproval",
        ),
        (
            HubToSpokeMessage::LiquidationOrder {
                user: u,
                asset_mint: m,
                amount_to_liquidate: 123_456_789,
                liquidator_reward_bps: 750,
            },
            borsh_variant(1, &(u.to_bytes(), m.to_bytes(), 123_456_789u64, 750u16)),
            "LiquidationOrder",
        ),
        (
            HubToSpokeMessage::InterestRateUpdate { asset_mint: m, rate_bps: 425 },
            borsh_variant(2, &(m.to_bytes(), 425u64)),
            "InterestRateUpdate",
        ),
        (
            HubToSpokeMessage::WithdrawalApproval { user: u, asset_mint: m, approved_amount: 1 },
            borsh_variant(3, &(u.to_bytes(), m.to_bytes(), 1u64)),
            "WithdrawalApproval",
        ),
        (
            HubToSpokeMessage::CollateralParameterUpdate {
                asset_mint: m,
                collateral_factor_bps: 8000,
                liquidation_threshold_bps: 8500,
                liquidation_bonus_bps: 500,
            },
            borsh_variant(4, &(m.to_bytes(), 8000u16, 8500u16, 500u16)),
            "CollateralParameterUpdate",
        ),
    ];
    for (msg, expected, name) in cases {
        let payload = hub_payload(&msg);
        assert_eq!(payload, expected);
        let decoded = HubToSpokeMessage::from_payload(&payload).unwrap();
        assert_eq!(hub_payload(&decoded), payload);
        assert_eq!(decoded.message_type(), name);
    }
}

#[test]
fn hub_payload_fields_decode_with_borsh() {
    let payload = hub_payload(&HubToSpokeMessage::LiquidationOrder {
        user: key(3),
        asset_mint: key(4),
        amount_to_liquidate: 99,
        liquidator_reward_bps: 250,
    });
    assert_eq!(payload[0], 1);
    let fields = <([u8; 32], [u8; 32], u64, u16)>::try_from_slice(&payload[1..]).unwrap();
    assert_eq!(fields, (key(3).to_bytes(), key(4).to_bytes(), 99, 250));
}

#[test]
fn hub_payload_trailing_bytes_are_ignored() {
    let msg = HubToSpokeMessage::InterestRateUpdate { asset_mint: key(9), rate_bps: 300 };
    let mut payload = hub_payload(&msg);
    let len = payload.len();
    payload.extend_from_slice(&[0xff, 0x00, 0x13]);
    let decoded = HubToSpokeMessage::from_payload(&payload).unwrap();
    assert_eq!(hub_payload(&decoded), payload[..len].to_vec());
    let (_, used) = HubToSpokeMessage::decode_prefix(&payload).unwrap();
    assert_eq!(used, len);
}

#[test]
fn truncated_hub_payload_is_invalid() {
    let payload = hub_payload(&HubToSpokeMessage::BorrowApproval {
        user: key(1),
        asset_mint: key(2),
        approved_amount: 5,
    });
    for cut in 0..payload.len() {
        assert!(matches!(
            HubToSpokeMessage::from_payload(&payload[..cut]),
            Err(SpokeError::InvalidHubMessage)
        ));
    }
}

#[test]
fn unknown_hub_tag_is_invalid() {
    let mut payload = vec![5u8];
    payload.extend_from_slice(&[0u8; 100]);
    assert!(matches!(HubToSpokeMessage::from_payload(&payload), Err(SpokeError::InvalidHubMessage)));
    payload[0] = 0xff;
    assert!(matches!(HubToSpokeMessage::from_payload(&payload), Err(SpokeError::InvalidHubMessage)));
    assert!(matches!(HubToSpokeMessage::from_payload(&[]), Err(SpokeError::InvalidHubMessage)));
}

#[test]
fn unknown_spoke_tag_is_invalid() {
    let mut payload = vec![4u8];
    payload.extend_from_slice(&[0u8; 100]);
    assert!(SpokeToHubMessage::decode_prefix(&payload).is_none());
    let heartbeat = SpokeToHubMessage::Heartbeat { slot: 1, total_deposits: 2, num_users: 3 }.to_payload();
    assert_eq!(heartbeat.len(), 21);
    assert!(SpokeToHubMessage::decode_prefix(&heartbeat[..20]).is_none());
}

#[test]
fn serialize_appends_to_existing_bytes() {
    let msg = HubToSpokeMessage::WithdrawalApproval { user: key(1), asset_mint: key(2), approved_amount: 77 };
    let mut buf = vec![9u8, 9, 9];
    msg.serialize(&mut buf);
    assert_eq!(&buf[..3], &[9, 9, 9]);
    assert_eq!(buf[3..].to_vec(), hub_payload(&msg));
}
