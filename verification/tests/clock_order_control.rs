use bm1397_ll::{ClockOrderControl, ClockSelect};

#[test]
fn clkordctrl_raw_round_trip() {
    for raw in [0u32, 1, 0x1234_5678, 0xffff_ffff] {
        assert_eq!(ClockOrderControl::from_raw(raw).to_raw(), raw);
    }
}

#[test]
fn clkordctrl_default_is_reset() {
    assert_eq!(ClockOrderControl::RESET, 0x0000_0000);
    assert_eq!(ClockOrderControl::default().to_raw(), ClockOrderControl::RESET);
}

#[test]
fn default_slots_decode_to_default() {
    let reg = ClockOrderControl::default();
    for clock in 0..8u8 {
        assert_eq!(reg.clock_select(clock), Ok(ClockSelect::Default));
    }
}

#[test]
fn last_slot_is_valid_and_slot_eight_errors() {
    let reg = ClockOrderControl::default();
    assert_eq!(reg.clock_select(7), Ok(ClockSelect::Default));
    assert_eq!(reg.clock_select(8), Err(8));
    assert_eq!(reg.clock_select(0xff), Err(0xff));
}

#[test]
fn out_of_range_setter_is_a_no_op() {
    let reg = ClockOrderControl::from_raw(0x1234_5678);
    let same = reg.set_clock_select(8, ClockSelect::Default);
    assert_eq!(same.to_raw(), 0x1234_5678);
}

#[test]
fn setter_touches_only_its_own_window() {
    let reg = ClockOrderControl::from_raw(0xffff_ffff);
    let cleared0 = reg.set_clock_select(0, ClockSelect::Default);
    assert_eq!(cleared0.to_raw(), 0xffff_fff0);
    let cleared1 = reg.set_clock_select(1, ClockSelect::Default);
    assert_eq!(cleared1.to_raw(), 0xffff_ff0f);
    let cleared7 = reg.set_clock_select(7, ClockSelect::Default);
    assert_eq!(cleared7.to_raw(), 0x0fff_ffff);
}

#[test]
fn set_then_get_returns_the_value() {
    let reg = ClockOrderControl::from_raw(0x5555_5555);
    for clock in 0..8u8 {
        let set = reg.set_clock_select(clock, ClockSelect::Default);
        assert_eq!(set.clock_select(clock), Ok(ClockSelect::Default));
    }
}

#[test]
fn unrecognized_slot_code_comes_back_in_err() {
    let reg = ClockOrderControl::from_raw(0x0000_0005);
    assert_eq!(reg.clock_select(0), Err(0b0101));
    assert_eq!(reg.clock_select(1), Ok(ClockSelect::Default));
}
