use khan::{PositionStatus, StatusFlag};

const FLAGS: [StatusFlag; 5] = [
    StatusFlag::Halfmove,
    StatusFlag::NoWhiteKingsideCastle,
    StatusFlag::NoWhiteQueensideCastle,
    StatusFlag::NoBlackKingsideCastle,
    StatusFlag::NoBlackQueensideCastle,
];

#[test]
fn the_flags_have_their_bits() {
    assert_eq!(StatusFlag::Halfmove.bit(), 0b00001);
    assert_eq!(StatusFlag::NoWhiteKingsideCastle.bit(), 0b00010);
    assert_eq!(StatusFlag::NoWhiteQueensideCastle.bit(), 0b00100);
    assert_eq!(StatusFlag::NoBlackKingsideCastle.bit(), 0b01000);
    assert_eq!(StatusFlag::NoBlackQueensideCastle.bit(), 0b10000);
}

#[test]
fn the_empty_status_has_no_flag() {
    let status = PositionStatus::empty();
    assert_eq!(status.bits(), 0);
    for flag in FLAGS {
        assert!(!status.contains(flag));
    }
    assert_eq!(PositionStatus::default(), status);
}

#[test]
fn toggle_flips_one_flag() {
    let mut status = PositionStatus::empty();
    status.toggle(StatusFlag::Halfmove);
    assert_eq!(status.bits(), 0b00001);
    assert!(status.contains(StatusFlag::Halfmove));
    status.toggle(StatusFlag::NoBlackKingsideCastle);
    assert_eq!(status.bits(), 0b01001);
    status.toggle(StatusFlag::Halfmove);
    assert_eq!(status.bits(), 0b01000);
    assert!(!status.contains(StatusFlag::Halfmove));
    assert!(status.contains(StatusFlag::NoBlackKingsideCastle));
}

#[test]
fn toggle_twice_restores_every_status() {
    for bits in 0u8..32 {
        for flag in FLAGS {
            let mut status = PositionStatus::from_bits(bits).expect("valid bits");
            status.toggle(flag);
            assert_eq!(status.bits(), bits ^ flag.bit());
            status.toggle(flag);
            assert_eq!(status.bits(), bits);
        }
    }
}

#[test]
fn insert_sets_a_flag_and_keeps_the_others() {
    for bits in 0u8..32 {
        for flag in FLAGS {
            let before = PositionStatus::from_bits(bits).expect("valid bits");
            let mut status = before;
            status.insert(flag);
            assert_eq!(status.bits(), bits | flag.bit());
            for other in FLAGS {
                if other == flag {
                    assert!(status.contains(other));
                } else {
                    assert_eq!(status.contains(other), before.contains(other));
                }
            }
        }
    }
}

#[test]
fn from_bits_refuses_bits_without_a_meaning() {
    assert_eq!(PositionStatus::from_bits(0).map(|s| s.bits()), Some(0));
    assert_eq!(PositionStatus::from_bits(0b11111).map(|s| s.bits()), Some(0b11111));
    assert_eq!(PositionStatus::from_bits(0b10101).map(|s| s.bits()), Some(0b10101));
    assert_eq!(PositionStatus::from_bits(0b100000), None);
    assert_eq!(PositionStatus::from_bits(0b100001), None);
    assert_eq!(PositionStatus::from_bits(0xff), None);
    for bits in 0u8..=255 {
        assert_eq!(PositionStatus::from_bits(bits).is_some(), bits < 32);
    }
}
