use smartscreen::backlight::{
    brightness_ramp, current_percentage, device_level, parse_level, BacklightError, BRIGHTNESS_STEPS,
};
use smartscreen::night_light::{
    first_crtc, gamma_channel, gamma_tables, night_light_ramp, ColorTemperature, NightLightError,
};
use smartscreen::ramp::{value_at, Ramp};

fn drain(ramp: &mut Ramp) -> Vec<u32> {
    let mut out = Vec::new();
    while let Some(v) = ramp.next_value() {
        out.push(v);
    }
    out
}

#[test]
fn ramp_twenty_to_eighty_in_four_steps() {
    let mut ramp = Ramp::new(20, 80, 4);
    assert_eq!(drain(&mut ramp), vec![20, 35, 50, 65, 80]);
    assert_eq!(ramp.applied(), 5);
    assert!(ramp.is_done());
    assert_eq!(ramp.next_value(), None);
}

#[test]
fn ramp_rounds_to_nearest() {
    // 0 to 10 in 4 steps: 2.5, 5, 7.5 round to 3, 5, 8.
    assert_eq!(drain(&mut Ramp::new(0, 10, 4)), vec![0, 3, 5, 8, 10]);
    // Downwards: 10 to 0 in 4 steps: 7.5, 5, 2.5 round to 8, 5, 3.
    assert_eq!(drain(&mut Ramp::new(10, 0, 4)), vec![10, 8, 5, 3, 0]);
    assert_eq!(value_at(0, 100, 3, 1), 33);
    assert_eq!(value_at(0, 100, 3, 2), 67);
}

#[test]
fn ramp_stops_after_failed_step() {
    let mut ramp = Ramp::new(20, 80, 4);
    let mut calls: Vec<u32> = Vec::new();
    let mut result: Result<(), &str> = Ok(());
    while let Some(v) = ramp.next_value() {
        calls.push(v);
        if calls.len() == 2 {
            ramp.abort();
            result = Err("device write failed");
            break;
        }
    }
    assert_eq!(result, Err("device write failed"));
    assert_eq!(calls, vec![20, 35]);
    assert_eq!(ramp.applied(), 2);
    assert!(ramp.is_done());
    assert_eq!(ramp.next_value(), None);
    assert_eq!(ramp.applied(), 2);
}

#[test]
fn immediate_ramp_is_one_value() {
    let mut ramp = Ramp::immediate(42);
    assert_eq!(drain(&mut ramp), vec![42]);
}

#[test]
fn device_level_rounds_percentage() {
    assert_eq!(device_level(255, 50), 128);
    assert_eq!(device_level(255, 100), 255);
    assert_eq!(device_level(255, 0), 0);
    assert_eq!(device_level(1000, 33), 330);
    assert_eq!(device_level(7, 10), 1);
}

#[test]
fn current_percentage_of_device() {
    assert_eq!(current_percentage(128, 255), 50);
    assert_eq!(current_percentage(255, 255), 100);
    assert_eq!(current_percentage(400, 255), 100);
    assert_eq!(current_percentage(0, 255), 0);
}

#[test]
fn brightness_ramp_plans() {
    assert_eq!(brightness_ramp(0, 10, 50, true).err(), Some(BacklightError::InvalidDeviceData));
    assert_eq!(brightness_ramp(0, 10, 50, false).err(), Some(BacklightError::InvalidDeviceData));
    let mut immediate = brightness_ramp(200, 20, 60, false).unwrap();
    assert_eq!(drain(&mut immediate), vec![60]);
    let mut gradual = brightness_ramp(200, 50, 60, true).unwrap();
    let values = drain(&mut gradual);
    assert_eq!(values.len(), BRIGHTNESS_STEPS as usize + 1);
    assert_eq!(values[0], 25);
    assert_eq!(values[10], 43);
    assert_eq!(values[20], 60);
}

#[test]
fn immediate_set_twice_is_idempotent() {
    let max = 937;
    let mut first = brightness_ramp(max, 100, 45, false).unwrap();
    let once = device_level(max, drain(&mut first).pop().unwrap()) as u32;
    let mut second = brightness_ramp(max, once, 45, false).unwrap();
    let twice = device_level(max, drain(&mut second).pop().unwrap()) as u32;
    assert_eq!(once, 422);
    assert_eq!(once, twice);
}

#[test]
fn night_light_ramp_plans() {
    assert_eq!(night_light_ramp(101, false).err(), Some(NightLightError::InvalidIntensity));
    assert_eq!(night_light_ramp(101, true).err(), Some(NightLightError::InvalidIntensity));
    assert_eq!(drain(&mut night_light_ramp(70, false).unwrap()), vec![70]);
    let values = drain(&mut night_light_ramp(70, true).unwrap());
    assert_eq!(values.len(), 21);
    assert_eq!(values[0], 0);
    assert_eq!(values[1], 4);
    assert_eq!(values[20], 70);
}

#[test]
fn target_factors_of_presets() {
    assert_eq!(ColorTemperature::K2000.target_factors(), (100, 40, 0));
    assert_eq!(ColorTemperature::K4000.target_factors(), (100, 80, 50));
    assert_eq!(ColorTemperature::K6500.target_factors(), (100, 100, 100));
}

#[test]
fn gamma_tables_scale_identity() {
    let neutral = gamma_channel(3, 0, 40);
    assert_eq!(neutral, vec![0, 32768, 65535]);
    let (r, g, b) = gamma_tables(ColorTemperature::K2000, 100, 3);
    assert_eq!(r, vec![0, 32768, 65535]);
    assert_eq!(g, vec![0, 13107, 26214]);
    assert_eq!(b, vec![0, 0, 0]);
    let (_, half_green, _) = gamma_tables(ColorTemperature::K2000, 50, 2);
    assert_eq!(half_green, vec![0, 45875]);
    assert_eq!(gamma_channel(1, 50, 0), vec![0]);
    assert!(gamma_channel(0, 50, 0).is_empty());
}

#[test]
fn first_crtc_or_error() {
    assert_eq!(first_crtc(&vec![]), Err(NightLightError::NoCrtcFound));
    assert_eq!(first_crtc(&vec![63, 64]), Ok(63));
}

#[test]
fn device_attribute_levels() {
    assert_eq!(parse_level("937\n"), 937);
    assert_eq!(parse_level("  42  "), 42);
    assert_eq!(parse_level("abc"), 0);
    assert_eq!(parse_level(""), 0);
    assert_eq!(parse_level("-5"), 0);
    assert_eq!(parse_level("+7"), 7);
    assert_eq!(parse_level("0042"), 42);
    assert_eq!(parse_level("4294967295"), 4294967295);
    assert_eq!(parse_level("4294967296"), 0);
    assert_eq!(parse_level("1 2"), 0);
}
