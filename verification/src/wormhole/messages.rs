//! Messages exchanged with the hub, and their wire format: a one-byte
//! variant tag followed by the fields in order, addresses as their 32
//! bytes and integers little-endian.
use vstd::prelude::*;

use crate::errors::SpokeError;
use crate::pubkey::{lemma_key_view_injective, Pubkey};
use crate::wormhole::codec::{
    enc_i64, enc_u16, enc_u32, enc_u64, lemma_field_encodings, prefix_of, put_i64, put_key,
    put_u16, put_u32, put_u64, put_u8, read_i64, read_key, read_u16, read_u32, read_u64,
};

verus! {

/// Messages sent from this Solana spoke to the hub chain.
#[derive(Clone, Copy, Debug)]
pub enum SpokeToHubMessage {
    /// Notify hub of a new deposit on this spoke.
    DepositNotification { user: Pubkey, asset_mint: Pubkey, amount: u64, oracle_price: u64, timestamp: i64 },
    /// Request hub approval for a withdrawal.
    WithdrawalRequest { user: Pubkey, asset_mint: Pubkey, amount: u64 },
    /// Send updated oracle price to hub for risk calculations.
    OraclePriceUpdate { asset_mint: Pubkey, price: u64, confidence: u64, timestamp: i64 },
    /// Heartbeat to confirm spoke is operational.
    Heartbeat { slot: u64, total_deposits: u64, num_users: u32 },
}

/// Messages received from the hub chain to this Solana spoke.
#[derive(Clone, Copy, Debug)]
pub enum HubToSpokeMessage {
    /// Hub approves a borrow limit for a user.
    BorrowApproval { user: Pubkey, asset_mint: Pubkey, approved_amount: u64 },
    /// Hub orders liquidation of a user's position.
    LiquidationOrder { user: Pubkey, asset_mint: Pubkey, amount_to_liquidate: u64, liquidator_reward_bps: u16 },
    /// Hub updates interest rate for an asset.
    InterestRateUpdate { asset_mint: Pubkey, rate_bps: u64 },
    /// Hub approves a pending withdrawal.
    WithdrawalApproval { user: Pubkey, asset_mint: Pubkey, approved_amount: u64 },
    /// Hub updates collateral parameters for an asset.
    CollateralParameterUpdate {
        asset_mint: Pubkey,
        collateral_factor_bps: u16,
        liquidation_threshold_bps: u16,
        liquidation_bonus_bps: u16,
    },
}

// ---------------------------------------------------------------------------
// Spoke to hub
// ---------------------------------------------------------------------------

/// Encoded length of the spoke message with variant tag `tag`.
pub open spec fn spoke_message_len(tag: u8) -> nat {
    if tag == 0 {
        89
    } else if tag == 1 {
        73
    } else if tag == 2 {
        57
    } else if tag == 3 {
        21
    } else {
        0
    }
}

/// `data` starts with a known tag and holds all the fields of that variant.
pub open spec fn spoke_payload_decodable(data: Seq<u8>) -> bool {
    data.len() >= 1 && data[0] < 4 && data.len() >= spoke_message_len(data[0])
}

/// The message whose encoding starts `data`, if `data` starts with one.
pub open spec fn spec_decode_spoke(data: Seq<u8>) -> Option<SpokeToHubMessage> {
    if spoke_payload_decodable(data) {
        Some(choose|m: SpokeToHubMessage| prefix_of(m.spec_encode(), data))
    } else {
        None
    }
}

impl SpokeToHubMessage {
    pub open spec fn spec_tag(self) -> u8 {
        match self {
            SpokeToHubMessage::DepositNotification { .. } => 0,
            SpokeToHubMessage::WithdrawalRequest { .. } => 1,
            SpokeToHubMessage::OraclePriceUpdate { .. } => 2,
            SpokeToHubMessage::Heartbeat { .. } => 3,
        }
    }

    /// The bytes of the message on the wire.
    pub open spec fn spec_encode(self) -> Seq<u8> {
        match self {
            SpokeToHubMessage::DepositNotification { user, asset_mint, amount, oracle_price, timestamp } =>
                seq![0u8] + user@ + asset_mint@ + enc_u64(amount) + enc_u64(oracle_price) + enc_i64(timestamp),
            SpokeToHubMessage::WithdrawalRequest { user, asset_mint, amount } =>
                seq![1u8] + user@ + asset_mint@ + enc_u64(amount),
            SpokeToHubMessage::OraclePriceUpdate { asset_mint, price, confidence, timestamp } =>
                seq![2u8] + asset_mint@ + enc_u64(price) + enc_u64(confidence) + enc_i64(timestamp),
            SpokeToHubMessage::Heartbeat { slot, total_deposits, num_users } =>
                seq![3u8] + enc_u64(slot) + enc_u64(total_deposits) + enc_u32(num_users),
        }
    }

    pub open spec fn spec_message_type(self) -> Seq<char> {
        match self {
            SpokeToHubMessage::DepositNotification { .. } => "DepositNotification"@,
            SpokeToHubMessage::WithdrawalRequest { .. } => "WithdrawalRequest"@,
            SpokeToHubMessage::OraclePriceUpdate { .. } => "OraclePriceUpdate"@,
            SpokeToHubMessage::Heartbeat { .. } => "Heartbeat"@,
        }
    }

    /// Appends the encoding of the message to `buf`.
    pub fn serialize(&self, buf: &mut Vec<u8>)
        ensures
            final(buf)@ == old(buf)@ + self.spec_encode(),
    {
        let ghost start = buf@;
        match self {
            SpokeToHubMessage::DepositNotification { user, asset_mint, amount, oracle_price, timestamp } => {
                put_u8(buf, 0);
                put_key(buf, user);
                put_key(buf, asset_mint);
                put_u64(buf, *amount);
                put_u64(buf, *oracle_price);
                put_i64(buf, *timestamp);
            },
            SpokeToHubMessage::WithdrawalRequest { user, asset_mint, amount } => {
                put_u8(buf, 1);
                put_key(buf, user);
                put_key(buf, asset_mint);
                put_u64(buf, *amount);
            },
            SpokeToHubMessage::OraclePriceUpdate { asset_mint, price, confidence, timestamp } => {
                put_u8(buf, 2);
                put_key(buf, asset_mint);
                put_u64(buf, *price);
                put_u64(buf, *confidence);
                put_i64(buf, *timestamp);
            },
            SpokeToHubMessage::Heartbeat { slot, total_deposits, num_users } => {
                put_u8(buf, 3);
                put_u64(buf, *slot);
                put_u64(buf, *total_deposits);
                put_u32(buf, *num_users);
            },
        }
        assert(buf@ =~= start + self.spec_encode());
    }

    /// Serialize the message to bytes for Wormhole payload.
    pub fn to_payload(&self) -> (payload: Vec<u8>)
        ensures
            payload@ == self.spec_encode(),
    {
        let mut buf: Vec<u8> = Vec::new();
        self.serialize(&mut buf);
        assert(buf@ =~= self.spec_encode());
        buf
    }

    /// Reads the message that starts `data`, with the number of bytes it
    /// takes; bytes after it are left alone.
    pub fn decode_prefix(data: &[u8]) -> (res: Option<(SpokeToHubMessage, usize)>)
        ensures
            res is None <==> spec_decode_spoke(data@) is None,
            res matches Some((m, n)) ==> spec_decode_spoke(data@) == Some(m) && n == m.spec_encode().len(),
            res matches Some((m, n)) ==> prefix_of(m.spec_encode(), data@),
    {
        proof {
            lemma_field_encodings();
        }
        if data.len() < 1 {
            return None;
        }
        let tag = data[0];
        let m = if tag == 0 {
            if data.len() < 89 {
                return None;
            }
            SpokeToHubMessage::DepositNotification {
                user: read_key(data, 1),
                asset_mint: read_key(data, 33),
                amount: read_u64(data, 65),
                oracle_price: read_u64(data, 73),
                timestamp: read_i64(data, 81),
            }
        } else if tag == 1 {
            if data.len() < 73 {
                return None;
            }
            SpokeToHubMessage::WithdrawalRequest {
                user: read_key(data, 1),
                asset_mint: read_key(data, 33),
                amount: read_u64(data, 65),
            }
        } else if tag == 2 {
            if data.len() < 57 {
                return None;
            }
            SpokeToHubMessage::OraclePriceUpdate {
                asset_mint: read_key(data, 1),
                price: read_u64(data, 33),
                confidence: read_u64(data, 41),
                timestamp: read_i64(data, 49),
            }
        } else if tag == 3 {
            if data.len() < 21 {
                return None;
            }
            SpokeToHubMessage::Heartbeat {
                slot: read_u64(data, 1),
                total_deposits: read_u64(data, 9),
                num_users: read_u32(data, 17),
            }
        } else {
            return None;
        };
        let n: usize = if tag == 0 {
            89
        } else if tag == 1 {
            73
        } else if tag == 2 {
            57
        } else {
            21
        };
        proof {
            assert(m.spec_encode() =~= data@.subrange(0, n as int));
            lemma_spoke_decode_is(m, data@);
        }
        Some((m, n))
    }

    /// Get a human-readable message type string.
    pub fn message_type(&self) -> (name: &'static str)
        ensures
            name@ == self.spec_message_type(),
    {
        match self {
            SpokeToHubMessage::DepositNotification { .. } => "DepositNotification",
            SpokeToHubMessage::WithdrawalRequest { .. } => "WithdrawalRequest",
            SpokeToHubMessage::OraclePriceUpdate { .. } => "OraclePriceUpdate",
            SpokeToHubMessage::Heartbeat { .. } => "Heartbeat",
        }
    }
}

/// The encoding starts with the variant's tag and has the variant's length.
pub proof fn lemma_spoke_encode_shape(m: SpokeToHubMessage)
    ensures
        m.spec_encode().len() == spoke_message_len(m.spec_tag()),
        m.spec_encode()[0] == m.spec_tag(),
        m.spec_tag() < 4,
{
    lemma_field_encodings();
}

/// Different messages have different encodings.
pub proof fn lemma_spoke_encode_injective(m1: SpokeToHubMessage, m2: SpokeToHubMessage)
    requires
        m1.spec_encode() == m2.spec_encode(),
    ensures
        m1 == m2,
{
    lemma_field_encodings();
    lemma_spoke_encode_shape(m1);
    lemma_spoke_encode_shape(m2);
    let e = m1.spec_encode();
    match (m1, m2) {
        (
            SpokeToHubMessage::DepositNotification { user: u1, asset_mint: a1, amount: x1, oracle_price: p1, timestamp: t1 },
            SpokeToHubMessage::DepositNotification { user: u2, asset_mint: a2, amount: x2, oracle_price: p2, timestamp: t2 },
        ) => {
            assert(e.subrange(1, 33) =~= u1@ && e.subrange(1, 33) =~= u2@);
            assert(e.subrange(33, 65) =~= a1@ && e.subrange(33, 65) =~= a2@);
            assert(e.subrange(65, 73) =~= enc_u64(x1) && e.subrange(65, 73) =~= enc_u64(x2));
            assert(e.subrange(73, 81) =~= enc_u64(p1) && e.subrange(73, 81) =~= enc_u64(p2));
            assert(e.subrange(81, 89) =~= enc_i64(t1) && e.subrange(81, 89) =~= enc_i64(t2));
            lemma_key_view_injective(u1, u2);
            lemma_key_view_injective(a1, a2);
        },
        (
            SpokeToHubMessage::WithdrawalRequest { user: u1, asset_mint: a1, amount: x1 },
            SpokeToHubMessage::WithdrawalRequest { user: u2, asset_mint: a2, amount: x2 },
        ) => {
            assert(e.subrange(1, 33) =~= u1@ && e.subrange(1, 33) =~= u2@);
            assert(e.subrange(33, 65) =~= a1@ && e.subrange(33, 65) =~= a2@);
            assert(e.subrange(65, 73) =~= enc_u64(x1) && e.subrange(65, 73) =~= enc_u64(x2));
            lemma_key_view_injective(u1, u2);
            lemma_key_view_injective(a1, a2);
        },
        (
            SpokeToHubMessage::OraclePriceUpdate { asset_mint: a1, price: p1, confidence: c1, timestamp: t1 },
            SpokeToHubMessage::OraclePriceUpdate { asset_mint: a2, price: p2, confidence: c2, timestamp: t2 },
        ) => {
            assert(e.subrange(1, 33) =~= a1@ && e.subrange(1, 33) =~= a2@);
            assert(e.subrange(33, 41) =~= enc_u64(p1) && e.subrange(33, 41) =~= enc_u64(p2));
            assert(e.subrange(41, 49) =~= enc_u64(c1) && e.subrange(41, 49) =~= enc_u64(c2));
            assert(e.subrange(49, 57) =~= enc_i64(t1) && e.subrange(49, 57) =~= enc_i64(t2));
            lemma_key_view_injective(a1, a2);
        },
        (
            SpokeToHubMessage::Heartbeat { slot: s1, total_deposits: d1, num_users: n1 },
            SpokeToHubMessage::Heartbeat { slot: s2, total_deposits: d2, num_users: n2 },
        ) => {
            assert(e.subrange(1, 9) =~= enc_u64(s1) && e.subrange(1, 9) =~= enc_u64(s2));
            assert(e.subrange(9, 17) =~= enc_u64(d1) && e.subrange(9, 17) =~= enc_u64(d2));
            assert(e.subrange(17, 21) =~= enc_u32(n1) && e.subrange(17, 21) =~= enc_u32(n2));
        },
        _ => {
            assert(m1.spec_tag() == m2.spec_tag());
        },
    }
}

/// If `data` starts with the encoding of `m`, decoding `data` gives `m`.
pub proof fn lemma_spoke_decode_is(m: SpokeToHubMessage, data: Seq<u8>)
    requires
        prefix_of(m.spec_encode(), data),
    ensures
        spec_decode_spoke(data) == Some(m),
{
    lemma_spoke_encode_shape(m);
    assert(data[0] == m.spec_encode()[0]);
    assert(spoke_payload_decodable(data));
    let c = choose|c: SpokeToHubMessage| prefix_of(c.spec_encode(), data);
    assert(prefix_of(c.spec_encode(), data));
    lemma_spoke_encode_shape(c);
    assert(c.spec_encode()[0] == data[0]);
    assert(c.spec_encode() =~= m.spec_encode());
    lemma_spoke_encode_injective(c, m);
}

/// What a write gives back: decoding the encoding of a spoke message,
/// whatever follows it, gives the message.
pub proof fn lemma_spoke_message_roundtrip(m: SpokeToHubMessage, rest: Seq<u8>)
    ensures
        spec_decode_spoke(m.spec_encode() + rest) == Some(m),
{
    assert(prefix_of(m.spec_encode(), m.spec_encode() + rest)) by {
        assert((m.spec_encode() + rest).subrange(0, m.spec_encode().len() as int) =~= m.spec_encode());
    }
    lemma_spoke_decode_is(m, m.spec_encode() + rest);
}

// ---------------------------------------------------------------------------
// Hub to spoke
// ---------------------------------------------------------------------------

/// Encoded length of the hub message with variant tag `tag`.
pub open spec fn hub_message_len(tag: u8) -> nat {
    if tag == 0 {
        73
    } else if tag == 1 {
        75
    } else if tag == 2 {
        41
    } else if tag == 3 {
        73
    } else if tag == 4 {
        39
    } else {
        0
    }
}

/// `data` starts with a known tag and holds all the fields of that variant.
pub open spec fn hub_payload_decodable(data: Seq<u8>) -> bool {
    data.len() >= 1 && data[0] < 5 && data.len() >= hub_message_len(data[0])
}

/// The message whose encoding starts `data`, if `data` starts with one.
pub open spec fn spec_decode_hub(data: Seq<u8>) -> Option<HubToSpokeMessage> {
    if hub_payload_decodable(data) {
        Some(choose|m: HubToSpokeMessage| prefix_of(m.spec_encode(), data))
    } else {
        None
    }
}

impl HubToSpokeMessage {
    pub open spec fn spec_tag(self) -> u8 {
        match self {
            HubToSpokeMessage::BorrowApproval { .. } => 0,
            HubToSpokeMessage::LiquidationOrder { .. } => 1,
            HubToSpokeMessage::InterestRateUpdate { .. } => 2,
            HubToSpokeMessage::WithdrawalApproval { .. } => 3,
            HubToSpokeMessage::CollateralParameterUpdate { .. } => 4,
        }
    }

    /// The bytes of the message on the wire.
    pub open spec fn spec_encode(self) -> Seq<u8> {
        match self {
            HubToSpokeMessage::BorrowApproval { user, asset_mint, approved_amount } =>
                seq![0u8] + user@ + asset_mint@ + enc_u64(approved_amount),
            HubToSpokeMessage::LiquidationOrder { user, asset_mint, amount_to_liquidate, liquidator_reward_bps } =>
                seq![1u8] + user@ + asset_mint@ + enc_u64(amount_to_liquidate) + enc_u16(liquidator_reward_bps),
            HubToSpokeMessage::InterestRateUpdate { asset_mint, rate_bps } =>
                seq![2u8] + asset_mint@ + enc_u64(rate_bps),
            HubToSpokeMessage::WithdrawalApproval { user, asset_mint, approved_amount } =>
                seq![3u8] + user@ + asset_mint@ + enc_u64(approved_amount),
            HubToSpokeMessage::CollateralParameterUpdate {
                asset_mint,
                collateral_factor_bps,
                liquidation_threshold_bps,
                liquidation_bonus_bps,
            } => seq![4u8] + asset_mint@ + enc_u16(collateral_factor_bps) + enc_u16(liquidation_threshold_bps)
                + enc_u16(liquidation_bonus_bps),
        }
    }

    pub open spec fn spec_message_type(self) -> Seq<char> {
        match self {
            HubToSpokeMessage::BorrowApproval { .. } => "BorrowApproval"@,
            HubToSpokeMessage::LiquidationOrder { .. } => "LiquidationOrder"@,
            HubToSpokeMessage::InterestRateUpdate { .. } => "InterestRateUpdate"@,
            HubToSpokeMessage::WithdrawalApproval { .. } => "WithdrawalApproval"@,
            HubToSpokeMessage::CollateralParameterUpdate { .. } => "CollateralParameterUpdate"@,
        }
    }

    /// Appends the encoding of the message to `buf`.
    pub fn serialize(&self, buf: &mut Vec<u8>)
        ensures
            final(buf)@ == old(buf)@ + self.spec_encode(),
    {
        let ghost start = buf@;
        match self {
            HubToSpokeMessage::BorrowApproval { user, asset_mint, approved_amount } => {
                put_u8(buf, 0);
                put_key(buf, user);
                put_key(buf, asset_mint);
                put_u64(buf, *approved_amount);
            },
            HubToSpokeMessage::LiquidationOrder { user, asset_mint, amount_to_liquidate, liquidator_reward_bps } => {
                put_u8(buf, 1);
                put_key(buf, user);
                put_key(buf, asset_mint);
                put_u64(buf, *amount_to_liquidate);
                put_u16(buf, *liquidator_reward_bps);
            },
            HubToSpokeMessage::InterestRateUpdate { asset_mint, rate_bps } => {
                put_u8(buf, 2);
                put_key(buf, asset_mint);
                put_u64(buf, *rate_bps);
            },
            HubToSpokeMessage::WithdrawalApproval { user, asset_mint, approved_amount } => {
                put_u8(buf, 3);
                put_key(buf, user);
                put_key(buf, asset_mint);
                put_u64(buf, *approved_amount);
            },
            HubToSpokeMessage::CollateralParameterUpdate {
                asset_mint,
                collateral_factor_bps,
                liquidation_threshold_bps,
                liquidation_bonus_bps,
            } => {
                put_u8(buf, 4);
                put_key(buf, asset_mint);
                put_u16(buf, *collateral_factor_bps);
                put_u16(buf, *liquidation_threshold_bps);
                put_u16(buf, *liquidation_bonus_bps);
            },
        }
        assert(buf@ =~= start + self.spec_encode());
    }

    /// Reads the message that starts `data`, with the number of bytes it
    /// takes; bytes after it are left alone.
    pub fn decode_prefix(data: &[u8]) -> (res: Option<(HubToSpokeMessage, usize)>)
        ensures
            res is None <==> spec_decode_hub(data@) is None,
            res matches Some((m, n)) ==> spec_decode_hub(data@) == Some(m) && n == m.spec_encode().len(),
            res matches Some((m, n)) ==> prefix_of(m.spec_encode(), data@),
    {
        proof {
            lemma_field_encodings();
        }
        if data.len() < 1 {
            return None;
        }
        let tag = data[0];
        let m = if tag == 0 {
            if data.len() < 73 {
                return None;
            }
            HubToSpokeMessage::BorrowApproval {
                user: read_key(data, 1),
                asset_mint: read_key(data, 33),
                approved_amount: read_u64(data, 65),
            }
        } else if tag == 1 {
            if data.len() < 75 {
                return None;
            }
            HubToSpokeMessage::LiquidationOrder {
                user: read_key(data, 1),
                asset_mint: read_key(data, 33),
                amount_to_liquidate: read_u64(data, 65),
                liquidator_reward_bps: read_u16(data, 73),
            }
        } else if tag == 2 {
            if data.len() < 41 {
                return None;
            }
            HubToSpokeMessage::InterestRateUpdate { asset_mint: read_key(data, 1), rate_bps: read_u64(data, 33) }
        } else if tag == 3 {
            if data.len() < 73 {
                return None;
            }
            HubToSpokeMessage::WithdrawalApproval {
                user: read_key(data, 1),
                asset_mint: read_key(data, 33),
                approved_amount: read_u64(data, 65),
            }
        } else if tag == 4 {
            if data.len() < 39 {
                return None;
            }
            HubToSpokeMessage::CollateralParameterUpdate {
                asset_mint: read_key(data, 1),
                collateral_factor_bps: read_u16(data, 33),
                liquidation_threshold_bps: read_u16(data, 35),
                liquidation_bonus_bps: read_u16(data, 37),
            }
        } else {
            return None;
        };
        let n: usize = if tag == 0 {
            73
        } else if tag == 1 {
            75
        } else if tag == 2 {
            41
        } else if tag == 3 {
            73
        } else {
            39
        };
        proof {
            assert(m.spec_encode() =~= data@.subrange(0, n as int));
            lemma_hub_decode_is(m, data@);
        }
        Some((m, n))
    }

    /// Deserialize a message from Wormhole payload bytes.
    pub fn from_payload(data: &[u8]) -> (res: Result<HubToSpokeMessage, SpokeError>)
        ensures
            res == (match spec_decode_hub(data@) {
                Some(m) => Ok::<HubToSpokeMessage, SpokeError>(m),
                None => Err(SpokeError::InvalidHubMessage),
            }),
            res matches Ok(m) ==> prefix_of(m.spec_encode(), data@),
    {
        match HubToSpokeMessage::decode_prefix(data) {
            Some((m, _)) => Ok(m),
            None => Err(SpokeError::InvalidHubMessage),
        }
    }

    /// Get a human-readable message type string.
    pub fn message_type(&self) -> (name: &'static str)
        ensures
            name@ == self.spec_message_type(),
    {
        match self {
            HubToSpokeMessage::BorrowApproval { .. } => "BorrowApproval",
            HubToSpokeMessage::LiquidationOrder { .. } => "LiquidationOrder",
            HubToSpokeMessage::InterestRateUpdate { .. } => "InterestRateUpdate",
            HubToSpokeMessage::WithdrawalApproval { .. } => "WithdrawalApproval",
            HubToSpokeMessage::CollateralParameterUpdate { .. } => "CollateralParameterUpdate",
        }
    }
}

/// The encoding starts with the variant's tag and has the variant's length.
pub proof fn lemma_hub_encode_shape(m: HubToSpokeMessage)
    ensures
        m.spec_encode().len() == hub_message_len(m.spec_tag()),
        m.spec_encode()[0] == m.spec_tag(),
        m.spec_tag() < 5,
{
    lemma_field_encodings();
}

/// Different messages have different encodings.
pub proof fn lemma_hub_encode_injective(m1: HubToSpokeMessage, m2: HubToSpokeMessage)
    requires
        m1.spec_encode() == m2.spec_encode(),
    ensures
        m1 == m2,
{
    lemma_field_encodings();
    lemma_hub_encode_shape(m1);
    lemma_hub_encode_shape(m2);
    let e = m1.spec_encode();
    match (m1, m2) {
        (
            HubToSpokeMessage::BorrowApproval { user: u1, asset_mint: a1, approved_amount: x1 },
            HubToSpokeMessage::BorrowApproval { user: u2, asset_mint: a2, approved_amount: x2 },
        ) => {
            assert(e.subrange(1, 33) =~= u1@ && e.subrange(1, 33) =~= u2@);
            assert(e.subrange(33, 65) =~= a1@ && e.subrange(33, 65) =~= a2@);
            assert(e.subrange(65, 73) =~= enc_u64(x1) && e.subrange(65, 73) =~= enc_u64(x2));
            lemma_key_view_injective(u1, u2);
            lemma_key_view_injective(a1, a2);
        },
        (
            HubToSpokeMessage::LiquidationOrder { user: u1, asset_mint: a1, amount_to_liquidate: x1, liquidator_reward_bps: b1 },
            HubToSpokeMessage::LiquidationOrder { user: u2, asset_mint: a2, amount_to_liquidate: x2, liquidator_reward_bps: b2 },
        ) => {
            assert(e.subrange(1, 33) =~= u1@ && e.subrange(1, 33) =~= u2@);
            assert(e.subrange(33, 65) =~= a1@ && e.subrange(33, 65) =~= a2@);
            assert(e.subrange(65, 73) =~= enc_u64(x1) && e.subrange(65, 73) =~= enc_u64(x2));
            assert(e.subrange(73, 75) =~= enc_u16(b1) && e.subrange(73, 75) =~= enc_u16(b2));
            lemma_key_view_injective(u1, u2);
            lemma_key_view_injective(a1, a2);
        },
        (
            HubToSpokeMessage::InterestRateUpdate { asset_mint: a1, rate_bps: r1 },
            HubToSpokeMessage::InterestRateUpdate { asset_mint: a2, rate_bps: r2 },
        ) => {
            assert(e.subrange(1, 33) =~= a1@ && e.subrange(1, 33) =~= a2@);
            assert(e.subrange(33, 41) =~= enc_u64(r1) && e.subrange(33, 41) =~= enc_u64(r2));
            lemma_key_view_injective(a1, a2);
        },
        (
            HubToSpokeMessage::WithdrawalApproval { user: u1, asset_mint: a1, approved_amount: x1 },
            HubToSpokeMessage::WithdrawalApproval { user: u2, asset_mint: a2, approved_amount: x2 },
        ) => {
            assert(e.subrange(1, 33) =~= u1@ && e.subrange(1, 33) =~= u2@);
            assert(e.subrange(33, 65) =~= a1@ && e.subrange(33, 65) =~= a2@);
            assert(e.subrange(65, 73) =~= enc_u64(x1) && e.subrange(65, 73) =~= enc_u64(x2));
            lemma_key_view_injective(u1, u2);
            lemma_key_view_injective(a1, a2);
        },
        (
            HubToSpokeMessage::CollateralParameterUpdate {
                asset_mint: a1,
                collateral_factor_bps: c1,
                liquidation_threshold_bps: t1,
                liquidation_bonus_bps: b1,
            },
            HubToSpokeMessage::CollateralParameterUpdate {
                asset_mint: a2,
                collateral_factor_bps: c2,
                liquidation_threshold_bps: t2,
                liquidation_bonus_bps: b2,
            },
        ) => {
            assert(e.subrange(1, 33) =~= a1@ && e.subrange(1, 33) =~= a2@);
            assert(e.subrange(33, 35) =~= enc_u16(c1) && e.subrange(33, 35) =~= enc_u16(c2));
            assert(e.subrange(35, 37) =~= enc_u16(t1) && e.subrange(35, 37) =~= enc_u16(t2));
            assert(e.subrange(37, 39) =~= enc_u16(b1) && e.subrange(37, 39) =~= enc_u16(b2));
            lemma_key_view_injective(a1, a2);
        },
        _ => {
            assert(m1.spec_tag() == m2.spec_tag());
        },
    }
}

/// If `data` starts with the encoding of `m`, decoding `data` gives `m`.
pub proof fn lemma_hub_decode_is(m: HubToSpokeMessage, data: Seq<u8>)
    requires
        prefix_of(m.spec_encode(), data),
    ensures
        spec_decode_hub(data) == Some(m),
{
    lemma_hub_encode_shape(m);
    assert(data[0] == m.spec_encode()[0]);
    assert(hub_payload_decodable(data));
    let c = choose|c: HubToSpokeMessage| prefix_of(c.spec_encode(), data);
    assert(prefix_of(c.spec_encode(), data));
    lemma_hub_encode_shape(c);
    assert(c.spec_encode()[0] == data[0]);
    assert(c.spec_encode() =~= m.spec_encode());
    lemma_hub_encode_injective(c, m);
}

/// What a write gives back: decoding the encoding of a hub message,
/// whatever follows it, gives the message.
pub proof fn lemma_hub_message_roundtrip(m: HubToSpokeMessage, rest: Seq<u8>)
    ensures
        spec_decode_hub(m.spec_encode() + rest) == Some(m),
{
    assert(prefix_of(m.spec_encode(), m.spec_encode() + rest)) by {
        assert((m.spec_encode() + rest).subrange(0, m.spec_encode().len() as int) =~= m.spec_encode());
    }
    lemma_hub_decode_is(m, m.spec_encode() + rest);
}

} // verus!
