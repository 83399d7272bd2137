use quadigit_phat::fonts::mask::{DIGIT_ONE, DIGIT_THREE, DIGIT_TWO, DIGIT_ZERO, PERIOD};
use quadigit_phat::period_iter;

#[test]
fn dot_interpreter_unescaped() {
    assert_eq!(
        vec![DIGIT_ZERO, DIGIT_ONE | PERIOD, DIGIT_TWO, DIGIT_THREE],
        period_iter("01.23".as_bytes())
    );
}

#[test]
fn dot_interpreter_escaped() {
    assert_eq!(
        vec![DIGIT_ZERO, DIGIT_ONE, PERIOD, DIGIT_TWO],
        period_iter("01..2".as_bytes())
    );
}

#[test]
fn dot_interpreter_escaped_unescaped() {
    assert_eq!(
        vec![DIGIT_ZERO, DIGIT_ONE | PERIOD, PERIOD, DIGIT_TWO],
        period_iter("01...2".as_bytes())
    );
}

#[test]
fn dot_interpreter_escaped_escaped() {
    assert_eq!(
        vec![DIGIT_ZERO, DIGIT_ONE, PERIOD, PERIOD],
        period_iter("01....".as_bytes())
    );
}

#[test]
fn dot_interpreter_three_dots() {
    assert_eq!(vec![PERIOD, PERIOD], period_iter("...".as_bytes()));
}

#[test]
fn dot_interpreter_four_dots() {
    assert_eq!(vec![PERIOD, PERIOD], period_iter("....".as_bytes()));
}

#[test]
fn dot_interpreter_period_followed() {
    assert_eq!(vec![PERIOD, DIGIT_ONE], period_iter(".1".as_bytes()));
}

#[test]
fn interpreter_yields_folded_stream() {
    let glyphs = quadigit_phat::ascii_iter("01.23".as_bytes());
    let mut it = quadigit_phat::PeriodInterpreter::new(glyphs, PERIOD);
    assert_eq!(it.next(), Some(DIGIT_ZERO));
    assert_eq!(it.next(), Some(DIGIT_ONE | PERIOD));
    assert_eq!(it.next(), Some(DIGIT_TWO));
    assert_eq!(it.next(), Some(DIGIT_THREE));
    assert_eq!(it.next(), None);
}

#[test]
fn interpreter_drains_into_vec() {
    let glyphs = quadigit_phat::ascii_iter("01..2".as_bytes());
    let it = quadigit_phat::PeriodInterpreter::new(glyphs, PERIOD);
    assert_eq!(it.into_vec(), vec![DIGIT_ZERO, DIGIT_ONE, PERIOD, DIGIT_TWO]);
}
