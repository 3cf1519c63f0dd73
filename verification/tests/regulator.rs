use growbox::{GrowboxAPI, HeaterAPI, HeatingDecision, PinLevel, SensorError, DHT11API};

fn regulator_with(setpoint: i16, band: u16) -> GrowboxAPI {
    GrowboxAPI::new(
        HeaterAPI::new(PinLevel::High, PinLevel::Low),
        DHT11API::new(PinLevel::Low),
        setpoint,
        band,
    )
}

#[test]
fn band_edges_are_setpoint_minus_and_plus_band() {
    let api = regulator_with(280, 5);
    assert_eq!(api.get_min_temp(), 275);
    assert_eq!(api.get_max_temp(), 285);
    let api = regulator_with(230, 5);
    assert_eq!(api.get_min_temp(), 225);
    assert_eq!(api.get_max_temp(), 235);
}

#[test]
fn band_edges_do_not_overflow_at_the_extremes() {
    let api = regulator_with(i16::MAX, u16::MAX);
    assert_eq!(api.get_max_temp(), 98_302);
    assert_eq!(api.get_min_temp(), -32_768);
    let api = regulator_with(i16::MIN, u16::MAX);
    assert_eq!(api.get_max_temp(), 32_767);
    assert_eq!(api.get_min_temp(), -98_303);
}

#[test]
fn widest_band_never_switches_on_a_sample() {
    let api = regulator_with(0, u16::MAX);
    assert_eq!(api.decide(Some(i16::MIN)), HeatingDecision::HoldCurrent);
    assert_eq!(api.decide(Some(i16::MAX)), HeatingDecision::HoldCurrent);
    assert_eq!(api.decide(None), HeatingDecision::TurnOff);
}

#[test]
fn extreme_setpoints_compare_without_wrapping() {
    let api = regulator_with(i16::MAX, 1);
    assert_eq!(api.decide(Some(i16::MAX)), HeatingDecision::HoldCurrent);
    assert_eq!(api.decide(Some(i16::MAX - 1)), HeatingDecision::HoldCurrent);
    assert_eq!(api.decide(Some(i16::MAX - 2)), HeatingDecision::TurnOn);
    let api = regulator_with(i16::MIN, 1);
    assert_eq!(api.decide(Some(i16::MIN)), HeatingDecision::HoldCurrent);
    assert_eq!(api.decide(Some(i16::MIN + 1)), HeatingDecision::HoldCurrent);
    assert_eq!(api.decide(Some(i16::MIN + 2)), HeatingDecision::TurnOff);
}

#[test]
fn zero_band_holds_only_at_the_setpoint() {
    let api = regulator_with(280, 0);
    assert_eq!(api.decide(Some(279)), HeatingDecision::TurnOn);
    assert_eq!(api.decide(Some(280)), HeatingDecision::HoldCurrent);
    assert_eq!(api.decide(Some(281)), HeatingDecision::TurnOff);
}

#[test]
fn negative_setpoint_bands_around_it() {
    let api = regulator_with(-50, 10);
    assert_eq!(api.get_min_temp(), -60);
    assert_eq!(api.get_max_temp(), -40);
    assert_eq!(api.decide(Some(-61)), HeatingDecision::TurnOn);
    assert_eq!(api.decide(Some(-60)), HeatingDecision::HoldCurrent);
    assert_eq!(api.decide(Some(-40)), HeatingDecision::HoldCurrent);
    assert_eq!(api.decide(Some(-39)), HeatingDecision::TurnOff);
}

#[test]
fn decide_partitions_every_sample_around_the_band() {
    let api = regulator_with(280, 5);
    for sample in 200..=360 {
        let expected = if sample < 275 {
            HeatingDecision::TurnOn
        } else if sample > 285 {
            HeatingDecision::TurnOff
        } else {
            HeatingDecision::HoldCurrent
        };
        assert_eq!(api.decide(Some(sample)), expected);
    }
}

#[test]
fn decide_without_sample_turns_off() {
    assert_eq!(regulator_with(280, 5).decide(None), HeatingDecision::TurnOff);
    assert_eq!(regulator_with(-300, 0).decide(None), HeatingDecision::TurnOff);
}

#[test]
fn is_heat_on_answers_as_a_switch_position() {
    let mut api = regulator_with(280, 5);
    assert_eq!(api.is_heat_on(Ok(270)), Some(true));
    assert_eq!(api.is_heat_on(Ok(290)), Some(false));
    assert_eq!(api.is_heat_on(Ok(280)), None);
    assert_eq!(api.is_heat_on(Ok(275)), None);
    assert_eq!(api.is_heat_on(Ok(285)), None);
    assert_eq!(api.is_heat_on(Err(SensorError::CrcMismatch)), Some(false));
}

#[test]
fn is_heat_on_changes_only_the_fault_indicator() {
    let mut api = GrowboxAPI::new(
        HeaterAPI::new(PinLevel::Low, PinLevel::Low),
        DHT11API::new(PinLevel::Low),
        280,
        5,
    );
    assert_eq!(api.is_heat_on(Err(SensorError::Timeout)), Some(false));
    assert!(api.temp_sensor_api().fault_shown());
    assert_eq!(api.heater_api().level(), PinLevel::Low);
    assert_eq!(api.is_heat_on(Ok(290)), Some(false));
    assert!(!api.temp_sensor_api().fault_shown());
    assert_eq!(api.heater_api().level(), PinLevel::Low);
    assert_eq!(api.get_setpoint(), 280);
    assert_eq!(api.get_band(), 5);
}

#[test]
fn get_temp_hands_on_the_temperature_or_nothing() {
    let mut api = regulator_with(280, 5);
    assert_eq!(api.get_temp(Ok(-12)), Some(-12));
    assert!(!api.temp_sensor_api().fault_shown());
    assert_eq!(api.get_temp(Err(SensorError::Gpio)), None);
    assert!(api.temp_sensor_api().fault_shown());
    assert_eq!(api.get_temp(Ok(301)), Some(301));
    assert!(!api.temp_sensor_api().fault_shown());
}

#[test]
fn new_keeps_what_it_was_given() {
    let api = GrowboxAPI::new(
        HeaterAPI::new(PinLevel::Low, PinLevel::High),
        DHT11API::new(PinLevel::High),
        -15,
        40,
    );
    assert_eq!(api.get_setpoint(), -15);
    assert_eq!(api.get_band(), 40);
    assert_eq!(api.heater_api().level(), PinLevel::Low);
    assert_eq!(api.heater_api().on_level(), PinLevel::High);
    assert_eq!(api.temp_sensor_api().error_pin(), PinLevel::High);
}

#[test]
fn set_setpoint_takes_effect_on_the_next_cycle() {
    let mut api = regulator_with(280, 5);
    assert_eq!(api.update_heater(Ok(280)).decision, HeatingDecision::HoldCurrent);
    api.set_setpoint(300);
    assert_eq!(api.get_setpoint(), 300);
    assert_eq!(api.get_band(), 5);
    assert_eq!(api.heater_api().level(), PinLevel::High);
    assert_eq!(api.get_min_temp(), 295);
    assert_eq!(api.get_max_temp(), 305);
    assert_eq!(api.update_heater(Ok(280)).decision, HeatingDecision::TurnOn);
    api.set_setpoint(250);
    assert_eq!(api.update_heater(Ok(280)).decision, HeatingDecision::TurnOff);
}

#[test]
fn set_band_takes_effect_on_the_next_cycle() {
    let mut api = regulator_with(280, 5);
    assert_eq!(api.update_heater(Ok(270)).decision, HeatingDecision::TurnOn);
    api.set_band(10);
    assert_eq!(api.get_band(), 10);
    assert_eq!(api.get_setpoint(), 280);
    assert!(api.heater_api().is_energized());
    assert_eq!(api.update_heater(Ok(290)).decision, HeatingDecision::HoldCurrent);
    assert_eq!(api.update_heater(Ok(291)).decision, HeatingDecision::TurnOff);
    api.set_band(0);
    assert_eq!(api.update_heater(Ok(279)).decision, HeatingDecision::TurnOn);
}

#[test]
fn direct_commands_reach_the_outputs() {
    let mut api = regulator_with(280, 5);
    api.heat_on();
    assert_eq!(api.heater_api().level(), PinLevel::Low);
    api.heat_off();
    assert_eq!(api.heater_api().level(), PinLevel::High);
    api.error_led_on();
    assert_eq!(api.temp_sensor_api().error_pin(), PinLevel::High);
    api.error_led_off();
    assert_eq!(api.temp_sensor_api().error_pin(), PinLevel::Low);
    assert_eq!(api.get_setpoint(), 280);
    assert_eq!(api.get_band(), 5);
}

#[test]
fn active_high_wiring_writes_the_opposite_levels() {
    let mut api = GrowboxAPI::new(
        HeaterAPI::new(PinLevel::Low, PinLevel::High),
        DHT11API::new(PinLevel::Low),
        280,
        5,
    );
    let outcome = api.update_heater(Ok(270));
    assert_eq!(outcome.decision, HeatingDecision::TurnOn);
    assert_eq!(outcome.heater, Some(PinLevel::High));
    let outcome = api.update_heater(Ok(290));
    assert_eq!(outcome.decision, HeatingDecision::TurnOff);
    assert_eq!(outcome.heater, Some(PinLevel::Low));
    let outcome = api.update_heater(Err(SensorError::Timeout));
    assert_eq!(outcome.heater, Some(PinLevel::Low));
    assert!(!api.heater_api().is_energized());
}

#[test]
fn decision_and_switch_position_convert_both_ways() {
    assert_eq!(HeatingDecision::TurnOn.as_switch(), Some(true));
    assert_eq!(HeatingDecision::TurnOff.as_switch(), Some(false));
    assert_eq!(HeatingDecision::HoldCurrent.as_switch(), None);
    assert_eq!(HeatingDecision::from_switch(Some(true)), HeatingDecision::TurnOn);
    assert_eq!(HeatingDecision::from_switch(Some(false)), HeatingDecision::TurnOff);
    assert_eq!(HeatingDecision::from_switch(None), HeatingDecision::HoldCurrent);
}
