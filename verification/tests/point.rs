use dolos::point::ChainPoint;

fn every_pair() -> Vec<(ChainPoint, ChainPoint)> {
    let points = [
        ChainPoint::Origin,
        ChainPoint::Slot(0),
        ChainPoint::Slot(7),
        ChainPoint::Specific(0, [1u8; 32]),
        ChainPoint::Specific(7, [1u8; 32]),
        ChainPoint::Specific(7, [2u8; 32]),
    ];

    points
        .iter()
        .flat_map(|l| points.iter().map(|r| (*l, *r)))
        .collect()
}

#[test]
fn equality_answers_the_same_whichever_side_holds_the_hash() {
    for (left, right) in every_pair() {
        assert_eq!(
            left == right,
            right == left,
            "{:?} against {:?} answers differently each way round",
            left,
            right
        );
    }
}

#[test]
fn the_order_calls_a_pair_equal_exactly_when_equality_does() {
    for (left, right) in every_pair() {
        assert_eq!(
            left.cmp(&right) == std::cmp::Ordering::Equal,
            left == right,
            "{:?} against {:?}",
            left,
            right
        );
    }
}

#[test]
fn a_slot_without_a_hash_may_be_the_block_at_that_slot() {
    let slot = ChainPoint::Slot(7);
    let block = ChainPoint::Specific(7, [1u8; 32]);
    let elsewhere = ChainPoint::Specific(8, [1u8; 32]);

    assert!(slot.may_be_same_block(&block));
    assert!(block.may_be_same_block(&slot));
    assert!(!slot.may_be_same_block(&elsewhere));
    assert!(!ChainPoint::Origin.may_be_same_block(&slot));
    assert!(block.may_be_same_block(&block));
}

#[test]
fn test_from_str_origin() {
    assert_eq!("Origin".parse::<ChainPoint>().unwrap(), ChainPoint::Origin);
}

#[test]
fn test_from_str_slot_only() {
    assert_eq!(
        "12345".parse::<ChainPoint>().unwrap(),
        ChainPoint::Slot(12345)
    );
}

#[test]
fn test_from_str_slot_hash() {
    let hash_bytes = [1u8; 32];
    let hash_hex = hex::encode(hash_bytes);
    let input = format!("12345({})", hash_hex);

    let result: ChainPoint = input.parse().unwrap();
    match result {
        ChainPoint::Specific(slot, hash) => {
            assert_eq!(slot, 12345);
            assert_eq!(hash.as_slice(), &hash_bytes);
        }
        _ => panic!("Expected Specific variant"),
    }
}

#[test]
fn test_from_str_invalid() {
    assert!("invalid".parse::<ChainPoint>().is_err());
    assert!("12345(invalid)".parse::<ChainPoint>().is_err());
    assert!("12345(short)".parse::<ChainPoint>().is_err());
}

#[test]
fn a_point_is_written_as_its_slot_and_hash() {
    let mut hash = [0u8; 32];
    hash[0] = 0xab;
    hash[31] = 0x01;
    let text = ChainPoint::Specific(42, hash).to_string();

    assert_eq!(
        text,
        "42(ab00000000000000000000000000000000000000000000000000000000000001)"
    );
    assert_eq!(ChainPoint::Origin.to_string(), "Origin");
    assert_eq!(ChainPoint::Slot(9).to_string(), "9");
}

#[test]
fn a_point_read_back_from_its_text_is_the_same_point() {
    for (point, _) in every_pair() {
        let text = point.to_string();
        assert_eq!(ChainPoint::from_str(&text), Ok(point), "{}", text);
    }
}

#[test]
fn surrounding_whitespace_is_ignored_and_upper_case_hex_is_read() {
    let input = format!("  7({})\n", "AB".repeat(32));
    assert_eq!(
        ChainPoint::from_str(&input),
        Ok(ChainPoint::Specific(7, [0xab; 32]))
    );
    assert_eq!(ChainPoint::from_str(" Origin "), Ok(ChainPoint::Origin));
}

#[test]
fn a_slot_past_the_largest_number_is_refused() {
    assert!(ChainPoint::from_str("18446744073709551616").is_err());
    assert_eq!(
        ChainPoint::from_str("18446744073709551615"),
        Ok(ChainPoint::Slot(u64::MAX))
    );
}

#[test]
fn the_bytes_of_a_point_are_its_slot_then_its_hash() {
    let point = ChainPoint::Specific(0x0102, [7u8; 32]);
    let bytes = point.into_bytes();

    assert_eq!(&bytes[..8], &[0, 0, 0, 0, 0, 0, 1, 2]);
    assert_eq!(&bytes[8..], &[7u8; 32]);
    assert_eq!(ChainPoint::from_bytes(bytes), point);
}

#[test]
fn origin_is_all_zero_bytes_and_reads_back_as_origin() {
    let bytes = ChainPoint::Origin.into_bytes();

    assert_eq!(bytes, [0u8; 40]);
    assert_eq!(ChainPoint::from_bytes(bytes), ChainPoint::Origin);
}

#[test]
fn the_byte_order_of_points_is_their_order() {
    let a = ChainPoint::Specific(5, [9u8; 32]);
    let b = ChainPoint::Specific(6, [0u8; 32]);
    let c = ChainPoint::Specific(6, [1u8; 32]);

    assert_eq!(a.cmp(&b), std::cmp::Ordering::Less);
    assert!(a.into_bytes() < b.into_bytes());
    assert_eq!(b.cmp(&c), std::cmp::Ordering::Less);
    assert!(b.into_bytes() < c.into_bytes());
}

#[test]
fn getters_report_the_slot_and_hash() {
    let p = ChainPoint::Specific(3, [4u8; 32]);

    assert_eq!(p.slot(), 3);
    assert_eq!(p.hash(), Some([4u8; 32]));
    assert!(p.is_fully_defined());
    assert_eq!(ChainPoint::Slot(3).hash(), None);
    assert!(!ChainPoint::Slot(3).is_fully_defined());
    assert_eq!(ChainPoint::Origin.slot(), 0);
    assert!(!ChainPoint::Specific(3, [0u8; 32]).is_fully_defined());
}

#[test]
fn points_compare_by_slot_then_hash() {
    assert!(ChainPoint::Slot(1) < ChainPoint::Slot(2));
    assert!(ChainPoint::Slot(2) < ChainPoint::Specific(2, [0u8; 32]));
    assert!(ChainPoint::Specific(2, [0u8; 32]) < ChainPoint::Specific(2, [1u8; 32]));
    assert_eq!(
        ChainPoint::Origin.partial_cmp(&ChainPoint::Slot(0)),
        Some(ChainPoint::Origin.cmp(&ChainPoint::Slot(0)))
    );
}

#[test]
fn a_refusal_says_what_was_wrong() {
    let overflowing = format!("18446744073709551616({})", "00".repeat(32));

    assert_eq!(
        ChainPoint::from_str(&overflowing),
        Err("invalid slot".to_string())
    );
    assert_eq!(
        ChainPoint::from_str("12345(short)"),
        Err("invalid format".to_string())
    );
    assert_eq!(ChainPoint::from_str(""), Err("invalid format".to_string()));
}

#[test]
fn bytes_never_put_a_later_point_first() {
    for (l, r) in every_pair() {
        if l.cmp(&r) != std::cmp::Ordering::Greater {
            assert!(l.into_bytes() <= r.into_bytes(), "{:?} {:?}", l, r);
        }
    }
    assert_eq!(ChainPoint::Origin.into_bytes(), ChainPoint::Slot(0).into_bytes());
}

#[test]
fn a_point_text_padded_with_whitespace_reads_back() {
    for (point, _) in every_pair() {
        let text = format!(" \t{}\n ", point.to_string());
        assert_eq!(ChainPoint::from_str(&text), Ok(point), "{:?}", text);
    }
}

#[test]
fn a_slot_with_a_plus_sign_or_unicode_spaces_is_read() {
    assert_eq!(ChainPoint::from_str("+5"), Ok(ChainPoint::Slot(5)));
    assert_eq!(
        ChainPoint::from_str("\u{3000}42\u{2009}"),
        Ok(ChainPoint::Slot(42))
    );
    assert!(ChainPoint::from_str("+").is_err());
    assert!(ChainPoint::from_str("").is_err());
    assert!(ChainPoint::from_str("4 2").is_err());
    assert_eq!(ChainPoint::Slot(1234567890).to_string(), "1234567890");
    assert_eq!(ChainPoint::Slot(0).to_string(), "0");
}
