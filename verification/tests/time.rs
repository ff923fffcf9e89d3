use bloom_bot::time::{choice_from_offset, offset_from_choice, MinusOffsetChoice, PlusOffsetChoice};

#[test]
fn test_choice_from_offset() {
    assert!(matches!(
        choice_from_offset(-420),
        (Some(MinusOffsetChoice::UTCMinus7), None)
    ));
    assert!(matches!(
        choice_from_offset(345),
        (None, Some(PlusOffsetChoice::UTCPlus5_45))
    ));
    assert!(matches!(choice_from_offset(0), (None, None)));
    assert!(matches!(choice_from_offset(777), (None, None)));
}

#[test]
fn test_offset_from_choice() {
    assert_eq!(
        offset_from_choice(Some(MinusOffsetChoice::UTCMinus7), None, 0).unwrap_or(0),
        -420
    );
    assert_eq!(
        offset_from_choice(None, Some(PlusOffsetChoice::UTCPlus5_45), 0).unwrap_or(0),
        345
    );
    assert_eq!(offset_from_choice(None, None, 0).unwrap_or(111), 0);
    assert_eq!(offset_from_choice(None, None, 777).unwrap_or(0), 777);
    let Err(err) = offset_from_choice(
        Some(MinusOffsetChoice::UTCMinus7),
        Some(PlusOffsetChoice::UTCPlus5_45),
        0,
    ) else {
        panic!("Expected Err, got Ok");
    };
    assert_eq!(err, "Cannot have both minus and plus offsets");
}

#[test]
fn every_choice_round_trips_through_its_offset() {
    for offset in -720i16..=840 {
        match choice_from_offset(offset) {
            (Some(m), None) => assert_eq!(offset_from_choice(Some(m), None, 0), Ok(offset)),
            (None, Some(p)) => assert_eq!(offset_from_choice(None, Some(p), 0), Ok(offset)),
            (None, None) => {}
            (Some(_), Some(_)) => panic!("both lists chose {offset}"),
        }
    }
}

#[test]
fn half_and_three_quarter_hours() {
    assert!(matches!(choice_from_offset(-570), (Some(MinusOffsetChoice::UTCMinus9_30), None)));
    assert!(matches!(choice_from_offset(825), (None, Some(PlusOffsetChoice::UTCPlus13_45))));
    assert!(matches!(choice_from_offset(-30), (None, None)));
}
