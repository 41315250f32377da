use crate::error::{Error, Result, WrapperErrorKind};
use crate::tss2_esys::TPM2_PCR_SELECT_MAX;
use vstd::arithmetic::power2::{lemma2_to64, lemma_pow2_strictly_increases, lemma_pow2_unfold, pow2};
use vstd::prelude::*;
use vstd::std_specs::convert::{FromSpecImpl, TryFromSpecImpl};

verus! {

/// The slot of one of the 32 PCRs: the bit that stands for the PCR in a
/// selection of PCRs. The slot of PCR `i` is bit `i` of a 32-bit word.
#[derive(Copy, Clone, Debug, PartialEq, Eq, PartialOrd, Ord, Hash, Structural)]
pub enum PcrSlot {
    /// The slot of PCR 0.
    Slot0,
    /// The slot of PCR 1.
    Slot1,
    /// The slot of PCR 2.
    Slot2,
    /// The slot of PCR 3.
    Slot3,
    /// The slot of PCR 4.
    Slot4,
    /// The slot of PCR 5.
    Slot5,
    /// The slot of PCR 6.
    Slot6,
    /// The slot of PCR 7.
    Slot7,
    /// The slot of PCR 8.
    Slot8,
    /// The slot of PCR 9.
    Slot9,
    /// The slot of PCR 10.
    Slot10,
    /// The slot of PCR 11.
    Slot11,
    /// The slot of PCR 12.
    Slot12,
    /// The slot of PCR 13.
    Slot13,
    /// The slot of PCR 14.
    Slot14,
    /// The slot of PCR 15.
    Slot15,
    /// The slot of PCR 16.
    Slot16,
    /// The slot of PCR 17.
    Slot17,
    /// The slot of PCR 18.
    Slot18,
    /// The slot of PCR 19.
    Slot19,
    /// The slot of PCR 20.
    Slot20,
    /// The slot of PCR 21.
    Slot21,
    /// The slot of PCR 22.
    Slot22,
    /// The slot of PCR 23.
    Slot23,
    /// The slot of PCR 24.
    Slot24,
    /// The slot of PCR 25.
    Slot25,
    /// The slot of PCR 26.
    Slot26,
    /// The slot of PCR 27.
    Slot27,
    /// The slot of PCR 28.
    Slot28,
    /// The slot of PCR 29.
    Slot29,
    /// The slot of PCR 30.
    Slot30,
    /// The slot of PCR 31.
    Slot31,
}

/// The number of bits that are set in `value`.
pub open spec fn count_ones(value: nat) -> nat
    decreases value,
{
    if value == 0 {
        0
    } else {
        value % 2 + count_ones(value / 2)
    }
}

/// Only in zero is no bit set.
pub proof fn lemma_count_ones_is_zero(value: nat)
    ensures
        count_ones(value) == 0 <==> value == 0,
    decreases value,
{
    if value != 0 {
        lemma_count_ones_is_zero(value / 2);
    }
}

/// In a power of two one bit is set.
pub proof fn lemma_count_ones_of_pow2(exponent: nat)
    ensures
        count_ones(pow2(exponent)) == 1,
    decreases exponent,
{
    if exponent == 0 {
        lemma2_to64();
        assert(count_ones(0) == 0);
    } else {
        lemma_pow2_unfold(exponent);
        lemma_count_ones_of_pow2((exponent - 1) as nat);
    }
}

/// A value in which one bit is set is a power of two: two to the number of
/// that bit.
pub proof fn lemma_single_bit_is_pow2(value: nat) -> (exponent: nat)
    requires
        count_ones(value) == 1,
    ensures
        value == pow2(exponent),
    decreases value,
{
    if value % 2 == 1 {
        lemma_count_ones_is_zero(value / 2);
        lemma2_to64();
        0
    } else {
        let below: nat = lemma_single_bit_is_pow2(value / 2);
        lemma_pow2_unfold(below + 1);
        below + 1
    }
}

/// The four bytes of `value`, the least significant first.
pub open spec fn le_bytes(value: u32) -> Seq<u8> {
    seq![
        (value % 256) as u8,
        (value / 256 % 256) as u8,
        (value / 65536 % 256) as u8,
        (value / 16777216 % 256) as u8,
    ]
}

/// The value whose four bytes, the least significant first, are `bytes`.
pub open spec fn from_le_bytes(bytes: Seq<u8>) -> u32
    recommends
        bytes.len() == 4,
{
    (bytes[0] + bytes[1] * 256 + bytes[2] * 65536 + bytes[3] * 16777216) as u32
}

/// Joining the four bytes of a value gives the value back.
pub proof fn lemma_le_bytes_round_trip(value: u32)
    ensures
        le_bytes(value).len() == 4,
        from_le_bytes(le_bytes(value)) == value,
{
    assert(value % 256 + (value / 256 % 256) * 256 + (value / 65536 % 256) * 65536 + (value
        / 16777216 % 256) * 16777216 == value) by (bit_vector);
}

/// Splitting the value that four bytes join to gives the four bytes back.
pub proof fn lemma_from_le_bytes_round_trip(bytes: Seq<u8>)
    requires
        bytes.len() == 4,
    ensures
        le_bytes(from_le_bytes(bytes)) == bytes,
{
    let b0: u8 = bytes[0];
    let b1: u8 = bytes[1];
    let b2: u8 = bytes[2];
    let b3: u8 = bytes[3];
    let joined: u32 = from_le_bytes(bytes);
    assert({
        &&& joined % 256 == b0
        &&& joined / 256 % 256 == b1
        &&& joined / 65536 % 256 == b2
        &&& joined / 16777216 % 256 == b3
    }) by (bit_vector)
        requires
            joined == b0 + b1 * 256 + b2 * 65536 + b3 * 16777216,
    ;
}

impl PcrSlot {
    /// The number of the PCR that the slot stands for.
    pub open spec fn index(self) -> nat {
        match self {
            PcrSlot::Slot0 => 0,
            PcrSlot::Slot1 => 1,
            PcrSlot::Slot2 => 2,
            PcrSlot::Slot3 => 3,
            PcrSlot::Slot4 => 4,
            PcrSlot::Slot5 => 5,
            PcrSlot::Slot6 => 6,
            PcrSlot::Slot7 => 7,
            PcrSlot::Slot8 => 8,
            PcrSlot::Slot9 => 9,
            PcrSlot::Slot10 => 10,
            PcrSlot::Slot11 => 11,
            PcrSlot::Slot12 => 12,
            PcrSlot::Slot13 => 13,
            PcrSlot::Slot14 => 14,
            PcrSlot::Slot15 => 15,
            PcrSlot::Slot16 => 16,
            PcrSlot::Slot17 => 17,
            PcrSlot::Slot18 => 18,
            PcrSlot::Slot19 => 19,
            PcrSlot::Slot20 => 20,
            PcrSlot::Slot21 => 21,
            PcrSlot::Slot22 => 22,
            PcrSlot::Slot23 => 23,
            PcrSlot::Slot24 => 24,
            PcrSlot::Slot25 => 25,
            PcrSlot::Slot26 => 26,
            PcrSlot::Slot27 => 27,
            PcrSlot::Slot28 => 28,
            PcrSlot::Slot29 => 29,
            PcrSlot::Slot30 => 30,
            PcrSlot::Slot31 => 31,
        }
    }

    /// The 32-bit word in which the bit of the slot is set and no other.
    pub open spec fn mask(self) -> u32 {
        match self {
            PcrSlot::Slot0 => 0x0000_0001,
            PcrSlot::Slot1 => 0x0000_0002,
            PcrSlot::Slot2 => 0x0000_0004,
            PcrSlot::Slot3 => 0x0000_0008,
            PcrSlot::Slot4 => 0x0000_0010,
            PcrSlot::Slot5 => 0x0000_0020,
            PcrSlot::Slot6 => 0x0000_0040,
            PcrSlot::Slot7 => 0x0000_0080,
            PcrSlot::Slot8 => 0x0000_0100,
            PcrSlot::Slot9 => 0x0000_0200,
            PcrSlot::Slot10 => 0x0000_0400,
            PcrSlot::Slot11 => 0x0000_0800,
            PcrSlot::Slot12 => 0x0000_1000,
            PcrSlot::Slot13 => 0x0000_2000,
            PcrSlot::Slot14 => 0x0000_4000,
            PcrSlot::Slot15 => 0x0000_8000,
            PcrSlot::Slot16 => 0x0001_0000,
            PcrSlot::Slot17 => 0x0002_0000,
            PcrSlot::Slot18 => 0x0004_0000,
            PcrSlot::Slot19 => 0x0008_0000,
            PcrSlot::Slot20 => 0x0010_0000,
            PcrSlot::Slot21 => 0x0020_0000,
            PcrSlot::Slot22 => 0x0040_0000,
            PcrSlot::Slot23 => 0x0080_0000,
            PcrSlot::Slot24 => 0x0100_0000,
            PcrSlot::Slot25 => 0x0200_0000,
            PcrSlot::Slot26 => 0x0400_0000,
            PcrSlot::Slot27 => 0x0800_0000,
            PcrSlot::Slot28 => 0x1000_0000,
            PcrSlot::Slot29 => 0x2000_0000,
            PcrSlot::Slot30 => 0x4000_0000,
            PcrSlot::Slot31 => 0x8000_0000,
        }
    }

    /// Whether exactly one bit of `value` is set.
    pub open spec fn is_single_bit(value: u32) -> bool {
        count_ones(value as nat) == 1
    }

    /// The slot with the mask `value`, where there is one.
    pub open spec fn with_mask(value: u32) -> Option<PcrSlot> {
        match value {
            0x0000_0001 => Some(PcrSlot::Slot0),
            0x0000_0002 => Some(PcrSlot::Slot1),
            0x0000_0004 => Some(PcrSlot::Slot2),
            0x0000_0008 => Some(PcrSlot::Slot3),
            0x0000_0010 => Some(PcrSlot::Slot4),
            0x0000_0020 => Some(PcrSlot::Slot5),
            0x0000_0040 => Some(PcrSlot::Slot6),
            0x0000_0080 => Some(PcrSlot::Slot7),
            0x0000_0100 => Some(PcrSlot::Slot8),
            0x0000_0200 => Some(PcrSlot::Slot9),
            0x0000_0400 => Some(PcrSlot::Slot10),
            0x0000_0800 => Some(PcrSlot::Slot11),
            0x0000_1000 => Some(PcrSlot::Slot12),
            0x0000_2000 => Some(PcrSlot::Slot13),
            0x0000_4000 => Some(PcrSlot::Slot14),
            0x0000_8000 => Some(PcrSlot::Slot15),
            0x0001_0000 => Some(PcrSlot::Slot16),
            0x0002_0000 => Some(PcrSlot::Slot17),
            0x0004_0000 => Some(PcrSlot::Slot18),
            0x0008_0000 => Some(PcrSlot::Slot19),
            0x0010_0000 => Some(PcrSlot::Slot20),
            0x0020_0000 => Some(PcrSlot::Slot21),
            0x0040_0000 => Some(PcrSlot::Slot22),
            0x0080_0000 => Some(PcrSlot::Slot23),
            0x0100_0000 => Some(PcrSlot::Slot24),
            0x0200_0000 => Some(PcrSlot::Slot25),
            0x0400_0000 => Some(PcrSlot::Slot26),
            0x0800_0000 => Some(PcrSlot::Slot27),
            0x1000_0000 => Some(PcrSlot::Slot28),
            0x2000_0000 => Some(PcrSlot::Slot29),
            0x4000_0000 => Some(PcrSlot::Slot30),
            0x8000_0000 => Some(PcrSlot::Slot31),
            _ => None,
        }
    }

    /// Whether `value` is the mask of a slot.
    pub open spec fn is_mask(value: u32) -> bool {
        Self::with_mask(value) is Some
    }

    /// What decoding `value` gives: the slot with that mask, and
    /// `InvalidParam` where no slot has it.
    pub open spec fn decode(value: u32) -> Result<PcrSlot> {
        match Self::with_mask(value) {
            Some(slot) => Ok(slot),
            None => Err(Error::WrapperError(WrapperErrorKind::InvalidParam)),
        }
    }

    /// The mask of a slot is the bit with the number of its PCR: 1 shifted
    /// to the left by that number, which is two to that number.
    pub proof fn lemma_mask_is_bit_of_index(slot: PcrSlot)
        ensures
            slot.index() < 32,
            slot.mask() == 1u32 << (slot.index() as u32),
            slot.mask() == pow2(slot.index()),
            Self::is_single_bit(slot.mask()),
    {
        Self::lemma_bits();
        lemma2_to64();
        lemma_count_ones_of_pow2(slot.index());
    }

    /// No two slots share a mask, nor a PCR.
    pub proof fn lemma_mask_is_injective(a: PcrSlot, b: PcrSlot)
        requires
            a.mask() == b.mask() || a.index() == b.index(),
        ensures
            a == b,
    {
    }

    /// Every one of the 32 PCRs has a slot.
    pub proof fn lemma_every_pcr_has_a_slot(index: nat)
        requires
            index < 32,
        ensures
            exists|slot: PcrSlot| #[trigger] slot.index() == index,
    {
        let slot = Self::slot_of(index as u32);
        assert(slot.index() == index);
    }

    /// `with_mask` is `mask` read backwards: it finds a slot for a value
    /// exactly where the value is the mask of that slot.
    pub proof fn lemma_with_mask_inverts_mask(slot: PcrSlot, value: u32)
        ensures
            Self::with_mask(value) == Some(slot) <==> slot.mask() == value,
    {
    }

    /// A value is a mask exactly where some slot has it.
    pub proof fn lemma_is_mask(value: u32)
        ensures
            Self::is_mask(value) <==> exists|slot: PcrSlot| #[trigger] slot.mask() == value,
    {
        if let Some(found) = Self::with_mask(value) {
            assert(found.mask() == value);
        }
    }

    /// The masks are the values in which exactly one bit is set: zero is
    /// none, and a value with two bits or more is none.
    pub proof fn lemma_masks_are_the_single_bits(value: u32)
        ensures
            Self::is_mask(value) <==> Self::is_single_bit(value),
    {
        if Self::is_single_bit(value) {
            let bit: nat = lemma_single_bit_is_pow2(value as nat);
            lemma2_to64();
            if bit > 32 {
                lemma_pow2_strictly_increases(32, bit);
            }
            assert(Self::slot_of(bit as u32).mask() == value);
        }
        if let Some(slot) = Self::with_mask(value) {
            Self::lemma_mask_is_bit_of_index(slot);
        }
    }

    /// Decoding succeeds exactly on the values in which one bit is set and
    /// no other: it refuses zero, and every value with two bits or more.
    pub proof fn lemma_decode_accepts_single_bits(value: u32)
        ensures
            Self::decode(value) is Ok <==> Self::is_single_bit(value),
            Self::decode(value) is Err ==> Self::decode(value) == Err::<PcrSlot, Error>(
                Error::WrapperError(WrapperErrorKind::InvalidParam),
            ),
    {
        Self::lemma_masks_are_the_single_bits(value);
    }

    /// Decoding undoes encoding.
    pub proof fn lemma_decode_inverts_mask(slot: PcrSlot)
        ensures
            Self::decode(slot.mask()) == Ok::<PcrSlot, Error>(slot),
    {
    }

    /// Encoding undoes decoding.
    pub proof fn lemma_mask_inverts_decode(value: u32)
        ensures
            Self::decode(value) matches Ok(slot) ==> slot.mask() == value,
    {
    }

    /// Decoding the bytes of a slot gives the slot back.
    pub proof fn lemma_decode_inverts_le_bytes(slot: PcrSlot)
        ensures
            Self::decode(from_le_bytes(le_bytes(slot.mask()))) == Ok::<PcrSlot, Error>(slot),
    {
    }

    /// The bytes of the slot that decoding bytes gives are those bytes.
    pub proof fn lemma_le_bytes_invert_decode(bytes: Seq<u8>)
        requires
            bytes.len() == 4,
        ensures
            Self::decode(from_le_bytes(bytes)) matches Ok(slot) ==> le_bytes(slot.mask())
                == bytes,
    {
    }

    proof fn lemma_bits()
        by (bit_vector)
        ensures
            1u32 << 0u32 == 0x0000_0001u32,
            1u32 << 1u32 == 0x0000_0002u32,
            1u32 << 2u32 == 0x0000_0004u32,
            1u32 << 3u32 == 0x0000_0008u32,
            1u32 << 4u32 == 0x0000_0010u32,
            1u32 << 5u32 == 0x0000_0020u32,
            1u32 << 6u32 == 0x0000_0040u32,
            1u32 << 7u32 == 0x0000_0080u32,
            1u32 << 8u32 == 0x0000_0100u32,
            1u32 << 9u32 == 0x0000_0200u32,
            1u32 << 10u32 == 0x0000_0400u32,
            1u32 << 11u32 == 0x0000_0800u32,
            1u32 << 12u32 == 0x0000_1000u32,
            1u32 << 13u32 == 0x0000_2000u32,
            1u32 << 14u32 == 0x0000_4000u32,
            1u32 << 15u32 == 0x0000_8000u32,
            1u32 << 16u32 == 0x0001_0000u32,
            1u32 << 17u32 == 0x0002_0000u32,
            1u32 << 18u32 == 0x0004_0000u32,
            1u32 << 19u32 == 0x0008_0000u32,
            1u32 << 20u32 == 0x0010_0000u32,
            1u32 << 21u32 == 0x0020_0000u32,
            1u32 << 22u32 == 0x0040_0000u32,
            1u32 << 23u32 == 0x0080_0000u32,
            1u32 << 24u32 == 0x0100_0000u32,
            1u32 << 25u32 == 0x0200_0000u32,
            1u32 << 26u32 == 0x0400_0000u32,
            1u32 << 27u32 == 0x0800_0000u32,
            1u32 << 28u32 == 0x1000_0000u32,
            1u32 << 29u32 == 0x2000_0000u32,
            1u32 << 30u32 == 0x4000_0000u32,
            1u32 << 31u32 == 0x8000_0000u32,
    {
    }

    spec fn slot_of(index: u32) -> PcrSlot {
        match index {
            0 => PcrSlot::Slot0,
            1 => PcrSlot::Slot1,
            2 => PcrSlot::Slot2,
            3 => PcrSlot::Slot3,
            4 => PcrSlot::Slot4,
            5 => PcrSlot::Slot5,
            6 => PcrSlot::Slot6,
            7 => PcrSlot::Slot7,
            8 => PcrSlot::Slot8,
            9 => PcrSlot::Slot9,
            10 => PcrSlot::Slot10,
            11 => PcrSlot::Slot11,
            12 => PcrSlot::Slot12,
            13 => PcrSlot::Slot13,
            14 => PcrSlot::Slot14,
            15 => PcrSlot::Slot15,
            16 => PcrSlot::Slot16,
            17 => PcrSlot::Slot17,
            18 => PcrSlot::Slot18,
            19 => PcrSlot::Slot19,
            20 => PcrSlot::Slot20,
            21 => PcrSlot::Slot21,
            22 => PcrSlot::Slot22,
            23 => PcrSlot::Slot23,
            24 => PcrSlot::Slot24,
            25 => PcrSlot::Slot25,
            26 => PcrSlot::Slot26,
            27 => PcrSlot::Slot27,
            28 => PcrSlot::Slot28,
            29 => PcrSlot::Slot29,
            30 => PcrSlot::Slot30,
            31 => PcrSlot::Slot31,
            _ => PcrSlot::Slot0,
        }
    }
}

impl FromSpecImpl<PcrSlot> for u32 {
    open spec fn obeys_from_spec() -> bool {
        true
    }

    open spec fn from_spec(slot: PcrSlot) -> u32 {
        slot.mask()
    }
}

impl From<PcrSlot> for u32 {
    /// Encodes a slot as its mask.
    fn from(slot: PcrSlot) -> (value: u32)
        ensures
            value == slot.mask(),
            PcrSlot::decode(value) == Ok::<PcrSlot, Error>(slot),
    {
        match slot {
            PcrSlot::Slot0 => 0x0000_0001,
            PcrSlot::Slot1 => 0x0000_0002,
            PcrSlot::Slot2 => 0x0000_0004,
            PcrSlot::Slot3 => 0x0000_0008,
            PcrSlot::Slot4 => 0x0000_0010,
            PcrSlot::Slot5 => 0x0000_0020,
            PcrSlot::Slot6 => 0x0000_0040,
            PcrSlot::Slot7 => 0x0000_0080,
            PcrSlot::Slot8 => 0x0000_0100,
            PcrSlot::Slot9 => 0x0000_0200,
            PcrSlot::Slot10 => 0x0000_0400,
            PcrSlot::Slot11 => 0x0000_0800,
            PcrSlot::Slot12 => 0x0000_1000,
            PcrSlot::Slot13 => 0x0000_2000,
            PcrSlot::Slot14 => 0x0000_4000,
            PcrSlot::Slot15 => 0x0000_8000,
            PcrSlot::Slot16 => 0x0001_0000,
            PcrSlot::Slot17 => 0x0002_0000,
            PcrSlot::Slot18 => 0x0004_0000,
            PcrSlot::Slot19 => 0x0008_0000,
            PcrSlot::Slot20 => 0x0010_0000,
            PcrSlot::Slot21 => 0x0020_0000,
            PcrSlot::Slot22 => 0x0040_0000,
            PcrSlot::Slot23 => 0x0080_0000,
            PcrSlot::Slot24 => 0x0100_0000,
            PcrSlot::Slot25 => 0x0200_0000,
            PcrSlot::Slot26 => 0x0400_0000,
            PcrSlot::Slot27 => 0x0800_0000,
            PcrSlot::Slot28 => 0x1000_0000,
            PcrSlot::Slot29 => 0x2000_0000,
            PcrSlot::Slot30 => 0x4000_0000,
            PcrSlot::Slot31 => 0x8000_0000,
        }
    }
}

impl TryFromSpecImpl<u32> for PcrSlot {
    open spec fn obeys_try_from_spec() -> bool {
        true
    }

    open spec fn try_from_spec(value: u32) -> Result<PcrSlot> {
        PcrSlot::decode(value)
    }
}

impl TryFrom<u32> for PcrSlot {
    type Error = Error;

    /// Decodes a mask: succeeds exactly on the values in which one bit is
    /// set and no other, with the slot of that bit.
    fn try_from(value: u32) -> (decoded: Result<PcrSlot>)
        ensures
            decoded == PcrSlot::decode(value),
            decoded is Ok <==> PcrSlot::is_single_bit(value),
            decoded matches Ok(slot) ==> slot.mask() == value,
            decoded matches Err(error) ==> error == Error::WrapperError(
                WrapperErrorKind::InvalidParam,
            ),
    {
        proof {
            PcrSlot::lemma_masks_are_the_single_bits(value);
        }
        match value {
            0x0000_0001 => Ok(PcrSlot::Slot0),
            0x0000_0002 => Ok(PcrSlot::Slot1),
            0x0000_0004 => Ok(PcrSlot::Slot2),
            0x0000_0008 => Ok(PcrSlot::Slot3),
            0x0000_0010 => Ok(PcrSlot::Slot4),
            0x0000_0020 => Ok(PcrSlot::Slot5),
            0x0000_0040 => Ok(PcrSlot::Slot6),
            0x0000_0080 => Ok(PcrSlot::Slot7),
            0x0000_0100 => Ok(PcrSlot::Slot8),
            0x0000_0200 => Ok(PcrSlot::Slot9),
            0x0000_0400 => Ok(PcrSlot::Slot10),
            0x0000_0800 => Ok(PcrSlot::Slot11),
            0x0000_1000 => Ok(PcrSlot::Slot12),
            0x0000_2000 => Ok(PcrSlot::Slot13),
            0x0000_4000 => Ok(PcrSlot::Slot14),
            0x0000_8000 => Ok(PcrSlot::Slot15),
            0x0001_0000 => Ok(PcrSlot::Slot16),
            0x0002_0000 => Ok(PcrSlot::Slot17),
            0x0004_0000 => Ok(PcrSlot::Slot18),
            0x0008_0000 => Ok(PcrSlot::Slot19),
            0x0010_0000 => Ok(PcrSlot::Slot20),
            0x0020_0000 => Ok(PcrSlot::Slot21),
            0x0040_0000 => Ok(PcrSlot::Slot22),
            0x0080_0000 => Ok(PcrSlot::Slot23),
            0x0100_0000 => Ok(PcrSlot::Slot24),
            0x0200_0000 => Ok(PcrSlot::Slot25),
            0x0400_0000 => Ok(PcrSlot::Slot26),
            0x0800_0000 => Ok(PcrSlot::Slot27),
            0x1000_0000 => Ok(PcrSlot::Slot28),
            0x2000_0000 => Ok(PcrSlot::Slot29),
            0x4000_0000 => Ok(PcrSlot::Slot30),
            0x8000_0000 => Ok(PcrSlot::Slot31),
            _ => Err(Error::local_error(WrapperErrorKind::InvalidParam)),
        }
    }
}

impl FromSpecImpl<PcrSlot> for [u8; TPM2_PCR_SELECT_MAX] {
    open spec fn obeys_from_spec() -> bool {
        true
    }

    open spec fn from_spec(slot: PcrSlot) -> [u8; TPM2_PCR_SELECT_MAX] {
        let value: u32 = slot.mask();
        [
            (value % 256) as u8,
            (value / 256 % 256) as u8,
            (value / 65536 % 256) as u8,
            (value / 16777216 % 256) as u8,
        ]
    }
}

impl From<PcrSlot> for [u8; TPM2_PCR_SELECT_MAX] {
    /// Encodes a slot as the bytes of its mask, the least significant first.
    fn from(slot: PcrSlot) -> (bytes: [u8; TPM2_PCR_SELECT_MAX])
        ensures
            bytes@ == le_bytes(slot.mask()),
            PcrSlot::decode(from_le_bytes(bytes@)) == Ok::<PcrSlot, Error>(slot),
    {
        let value: u32 = u32::from(slot);
        let bytes = [
            (value & 0xff) as u8,
            ((value >> 8) & 0xff) as u8,
            ((value >> 16) & 0xff) as u8,
            ((value >> 24) & 0xff) as u8,
        ];
        proof {
            assert(value & 0xff == value % 256) by (bit_vector);
            assert((value >> 8) & 0xff == value / 256 % 256) by (bit_vector);
            assert((value >> 16) & 0xff == value / 65536 % 256) by (bit_vector);
            assert((value >> 24) & 0xff == value / 16777216 % 256) by (bit_vector);
        }
        bytes
    }
}

impl TryFromSpecImpl<[u8; TPM2_PCR_SELECT_MAX]> for PcrSlot {
    open spec fn obeys_try_from_spec() -> bool {
        true
    }

    open spec fn try_from_spec(bytes: [u8; TPM2_PCR_SELECT_MAX]) -> Result<PcrSlot> {
        PcrSlot::decode(from_le_bytes(bytes@))
    }
}

impl TryFrom<[u8; TPM2_PCR_SELECT_MAX]> for PcrSlot {
    type Error = Error;

    /// Decodes the bytes of a mask, the least significant first: succeeds
    /// exactly where one bit of the four bytes is set and no other, with the
    /// slot of that bit.
    fn try_from(bytes: [u8; TPM2_PCR_SELECT_MAX]) -> (decoded: Result<PcrSlot>)
        ensures
            decoded == PcrSlot::decode(from_le_bytes(bytes@)),
            decoded is Ok <==> PcrSlot::is_single_bit(from_le_bytes(bytes@)),
            decoded matches Ok(slot) ==> le_bytes(slot.mask()) == bytes@,
            decoded matches Err(error) ==> error == Error::WrapperError(
                WrapperErrorKind::InvalidParam,
            ),
    {
        let b0: u32 = bytes[0] as u32;
        let b1: u32 = bytes[1] as u32;
        let b2: u32 = bytes[2] as u32;
        let b3: u32 = bytes[3] as u32;
        let value: u32 = b0 | (b1 << 8) | (b2 << 16) | (b3 << 24);
        proof {
            assert(b0 | (b1 << 8) | (b2 << 16) | (b3 << 24) == b0 + b1 * 256 + b2 * 65536 + b3
                * 16777216) by (bit_vector)
                requires
                    b0 < 256,
                    b1 < 256,
                    b2 < 256,
                    b3 < 256,
            ;
        }
        PcrSlot::try_from(value)
    }
}

} // verus!
