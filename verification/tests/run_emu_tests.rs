use xenogb::cpu::instructions::decode;
use xenogb::run_emu::{should_stop, StopCondition, StopConditionError};

#[test]
fn parses_ldbb_in_any_case() {
    assert_eq!(StopCondition::parse("LDBB"), Ok(StopCondition::LDBB));
    assert_eq!(StopCondition::parse("ldbb"), Ok(StopCondition::LDBB));
    assert_eq!(StopCondition::parse("LdBb"), Ok(StopCondition::LDBB));
}

#[test]
fn parses_timer_seconds() {
    assert_eq!(StopCondition::parse("TIMER(5)"), Ok(StopCondition::TIMER(5)));
    assert_eq!(StopCondition::parse("TIMER(+12)"), Ok(StopCondition::TIMER(12)));
    assert_eq!(StopCondition::parse("TIMER(4294967295)"), Ok(StopCondition::TIMER(u32::MAX)));
    assert_eq!(StopCondition::parse("TIMER(7))"), Ok(StopCondition::TIMER(7)));
}

#[test]
fn timer_prefix_is_removed_case_sensitively() {
    // The word is recognised in any case, but only `TIMER(` is stripped.
    assert_eq!(StopCondition::parse("timer(5)"), Err(StopConditionError::InvalidTimer));
    assert_eq!(StopCondition::parse("TIMER"), Err(StopConditionError::InvalidTimer));
}

#[test]
fn rejects_bad_timer_values() {
    assert_eq!(StopCondition::parse("TIMER()"), Err(StopConditionError::InvalidTimer));
    assert_eq!(StopCondition::parse("TIMER(-1)"), Err(StopConditionError::InvalidTimer));
    assert_eq!(StopCondition::parse("TIMER(4294967296)"), Err(StopConditionError::InvalidTimer));
    assert_eq!(StopCondition::parse("TIMER(1x)"), Err(StopConditionError::InvalidTimer));
    assert_eq!(StopCondition::parse("TIMER(+)"), Err(StopConditionError::InvalidTimer));
}

#[test]
fn rejects_other_words() {
    assert_eq!(StopCondition::parse("HALT"), Err(StopConditionError::Invalid));
    assert_eq!(StopCondition::parse(""), Err(StopConditionError::Invalid));
    assert_eq!(StopCondition::parse("LDB"), Err(StopConditionError::Invalid));
}

#[test]
fn error_messages() {
    assert_eq!(StopConditionError::InvalidTimer.message(), "Invalid TIMER value");
    assert_eq!(StopConditionError::Invalid.message(), "Invalid stop condition");
    let r: Result<StopCondition, String> = "TIMER(x)".parse();
    assert_eq!(r, Err("Invalid TIMER value".to_string()));
    let r: Result<StopCondition, String> = "ldbb".parse();
    assert_eq!(r, Ok(StopCondition::LDBB));
}

#[test]
fn stops_at_ld_b_b() {
    let ld_b_b = decode(0x40).expect("LD B, B");
    let ld_b_c = decode(0x41).expect("LD B, C");
    assert!(should_stop(Some(StopCondition::LDBB), &ld_b_b, 0));
    assert!(!should_stop(Some(StopCondition::LDBB), &ld_b_c, 0));
    assert!(!should_stop(None, &ld_b_b, 0));
}

#[test]
fn stops_after_the_timer() {
    let nop = decode(0x00).expect("NOP");
    let sc = Some(StopCondition::TIMER(2));
    assert!(!should_stop(sc, &nop, 2_000_000_000));
    assert!(should_stop(sc, &nop, 2_000_000_001));
}
