use tss_esapi::structures::pcr::slot::PcrSlot;
use tss_esapi::tss2_esys::TPM2_PCR_SELECT_MAX;
use tss_esapi::{Error, WrapperErrorKind};

const NO_SLOT: Error = Error::WrapperError(WrapperErrorKind::InvalidParam);

const SLOTS: [PcrSlot; 32] = [
    PcrSlot::Slot0,
    PcrSlot::Slot1,
    PcrSlot::Slot2,
    PcrSlot::Slot3,
    PcrSlot::Slot4,
    PcrSlot::Slot5,
    PcrSlot::Slot6,
    PcrSlot::Slot7,
    PcrSlot::Slot8,
    PcrSlot::Slot9,
    PcrSlot::Slot10,
    PcrSlot::Slot11,
    PcrSlot::Slot12,
    PcrSlot::Slot13,
    PcrSlot::Slot14,
    PcrSlot::Slot15,
    PcrSlot::Slot16,
    PcrSlot::Slot17,
    PcrSlot::Slot18,
    PcrSlot::Slot19,
    PcrSlot::Slot20,
    PcrSlot::Slot21,
    PcrSlot::Slot22,
    PcrSlot::Slot23,
    PcrSlot::Slot24,
    PcrSlot::Slot25,
    PcrSlot::Slot26,
    PcrSlot::Slot27,
    PcrSlot::Slot28,
    PcrSlot::Slot29,
    PcrSlot::Slot30,
    PcrSlot::Slot31,
];

#[test]
fn pcr_select_max_is_four_bytes() {
    assert_eq!(TPM2_PCR_SELECT_MAX, 4);
}

#[test]
fn pcr_slot_of_index_is_that_bit() {
    for (index, slot) in SLOTS.iter().enumerate() {
        assert_eq!(u32::from(*slot), 1u32 << index);
        assert_eq!(PcrSlot::try_from(1u32 << index), Ok(*slot));
    }
}

#[test]
fn pcr_slots_span_all_the_bits_without_overlap() {
    let mut all = 0u32;
    for slot in SLOTS {
        let mask = u32::from(slot);
        assert_eq!(mask.count_ones(), 1);
        assert_eq!(all & mask, 0);
        all |= mask;
    }
    assert_eq!(all, u32::MAX);
}

#[test]
fn pcr_slot_round_trips_through_its_mask() {
    for slot in SLOTS {
        assert_eq!(PcrSlot::try_from(u32::from(slot)), Ok(slot));
    }
}

#[test]
fn pcr_slot_round_trips_through_its_bytes() {
    for slot in SLOTS {
        let bytes = <[u8; TPM2_PCR_SELECT_MAX]>::from(slot);
        assert_eq!(PcrSlot::try_from(bytes), Ok(slot));
    }
}

#[test]
fn pcr_slot_bytes_are_little_endian() {
    for slot in SLOTS {
        let bytes: [u8; 4] = slot.into();
        assert_eq!(bytes, u32::from(slot).to_le_bytes());
        assert_eq!(u32::from_le_bytes(bytes), u32::from(slot));
    }
    assert_eq!(<[u8; 4]>::from(PcrSlot::Slot0), [0x01, 0x00, 0x00, 0x00]);
    assert_eq!(<[u8; 4]>::from(PcrSlot::Slot9), [0x00, 0x02, 0x00, 0x00]);
    assert_eq!(<[u8; 4]>::from(PcrSlot::Slot23), [0x00, 0x00, 0x80, 0x00]);
    assert_eq!(<[u8; 4]>::from(PcrSlot::Slot31), [0x00, 0x00, 0x00, 0x80]);
}

#[test]
fn pcr_slot_decodes_bytes_as_little_endian() {
    assert_eq!(PcrSlot::try_from([0x00, 0x00, 0x01, 0x00]), Ok(PcrSlot::Slot16));
    assert_eq!(PcrSlot::try_from([0x00, 0x00, 0x00, 0x01]), Ok(PcrSlot::Slot24));
    for byte in 0..4usize {
        for bit in 0..8usize {
            let mut bytes = [0u8; 4];
            bytes[byte] = 1 << bit;
            assert_eq!(PcrSlot::try_from(bytes), Ok(SLOTS[8 * byte + bit]));
            assert_eq!(
                PcrSlot::try_from(bytes),
                PcrSlot::try_from(u32::from_le_bytes(bytes))
            );
        }
    }
}

#[test]
fn pcr_slot_four_is_slot_two() {
    let slot = PcrSlot::try_from(0x0000_0004u32).expect("one bit is set");
    assert_eq!(slot, PcrSlot::Slot2);
    assert_eq!(slot, SLOTS[2]);
    let bytes = <[u8; TPM2_PCR_SELECT_MAX]>::from(slot);
    assert_eq!(bytes, [0x04, 0x00, 0x00, 0x00]);
    assert_eq!(PcrSlot::try_from(bytes), Ok(PcrSlot::Slot2));
}

#[test]
fn pcr_slot_refuses_zero_and_three() {
    assert_eq!(PcrSlot::try_from(0x0000_0000u32), Err(NO_SLOT));
    assert_eq!(PcrSlot::try_from(0x0000_0003u32), Err(NO_SLOT));
}

#[test]
fn pcr_slot_refuses_every_pair_of_bits() {
    for first in 0..32 {
        for second in (first + 1)..32 {
            let value = 1u32 << first | 1u32 << second;
            assert_eq!(PcrSlot::try_from(value), Err(NO_SLOT));
            assert_eq!(PcrSlot::try_from(value.to_le_bytes()), Err(NO_SLOT));
        }
    }
}

#[test]
fn pcr_slot_refuses_values_with_many_bits() {
    for value in [u32::MAX, 0x8000_0001, 0x0000_FFFF, 0x7FFF_FFFF, 0x0101_0101, 7] {
        assert_eq!(PcrSlot::try_from(value), Err(NO_SLOT));
    }
    assert_eq!(PcrSlot::try_from([0u8; 4]), Err(NO_SLOT));
    assert_eq!(PcrSlot::try_from([0xFFu8; 4]), Err(NO_SLOT));
}

#[test]
fn pcr_slot_accepts_a_value_exactly_when_one_bit_is_set() {
    for low in 0..=u16::MAX {
        for shift in [0u32, 8, 16] {
            let value = u32::from(low) << shift;
            assert_eq!(PcrSlot::try_from(value).is_ok(), value.count_ones() == 1);
        }
    }
}

#[test]
fn pcr_slots_are_ordered_by_index() {
    for pair in SLOTS.windows(2) {
        assert!(pair[0] < pair[1]);
        assert!(u32::from(pair[0]) < u32::from(pair[1]));
    }
    let mut sorted = SLOTS;
    sorted.reverse();
    sorted.sort();
    assert_eq!(sorted, SLOTS);
}

#[test]
fn pcr_slot_converts_with_into() {
    let mask: u32 = PcrSlot::Slot5.into();
    assert_eq!(mask, 0x20);
    let decoded: Result<PcrSlot, Error> = 0x20u32.try_into();
    assert_eq!(decoded, Ok(PcrSlot::Slot5));
}
