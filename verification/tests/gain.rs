use pulse_stream::cork_state::CorkState;
use pulse_stream::gain::NO_GAIN;

#[test]
fn no_gain_is_minus_one() {
    assert_eq!(NO_GAIN, (-1.0f32).to_bits());
}

#[test]
fn cork_states() {
    assert!(CorkState::cork().is_cork());
    assert!(!CorkState::cork().is_notify());
    assert!(!CorkState::uncork().is_cork());
    assert!(!CorkState::uncork().is_notify());
    assert!(CorkState::notify().is_notify());
    assert!(!CorkState::notify().is_cork());
    let both = CorkState::cork().with(CorkState::notify());
    assert!(both.is_cork() && both.is_notify());
    let resume = CorkState::uncork().with(CorkState::notify());
    assert!(!resume.is_cork() && resume.is_notify());
    assert_eq!(CorkState::uncork().with(CorkState::uncork()), CorkState::uncork());
}
