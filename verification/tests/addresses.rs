use quadigit_phat::{Digit, Error};

#[test]
fn test_addresses() {
    let rows = (0..8).collect::<Vec<usize>>();
    let digit = [Digit::DIGIT_0, Digit::DIGIT_1, Digit::DIGIT_2, Digit::DIGIT_3]
        .iter()
        .flat_map(|d| d.to_addr())
        .collect::<Vec<usize>>();

    assert_eq!(rows, digit);
}

#[test]
fn checked_position_conversion() {
    assert_eq!(Digit::checked_from(0), Ok(Digit::DIGIT_0));
    assert_eq!(Digit::checked_from(3), Ok(Digit::DIGIT_3));
    assert_eq!(
        Digit::checked_from(4),
        Err(Error::InvalidPosition { position: 4 })
    );
    assert_eq!(
        Digit::checked_from(usize::MAX),
        Err(Error::InvalidPosition {
            position: usize::MAX
        })
    );
}

#[test]
fn default_digit_is_leftmost() {
    assert_eq!(Digit::default(), Digit::DIGIT_0);
}
