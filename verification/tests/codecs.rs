use proximity_display::error::Error;
use proximity_display::registers::{
    compose, AmbientLightMeasurementFrequency, LEDCurrent, ProductInfo,
    ProximityMeasurementFrequency, SensorCommand,
};

#[test]
fn compose_pairs() {
    assert_eq!(compose(0x01, 0x02), 0x0102);
    assert_eq!(compose(0x00, 0x00), 0x0000);
    assert_eq!(compose(0xff, 0xff), 0xffff);
    assert_eq!(compose(0x12, 0x34), 0x1234);
    assert_eq!(compose(0x00, 0xab), 0x00ab);
    assert_eq!(compose(0xab, 0x00), 0xab00);
}

#[test]
fn sensor_command_flags_round_trip() {
    let c = SensorCommand::new()
        .with_self_timed_enabled(true)
        .with_proximity_enabled(true)
        .with_ambient_light_enabled(true);
    assert_eq!(c.into_bits(), 0b0000_0111);

    let d = SensorCommand::from_bits(c.into_bits());
    assert!(d.self_timed_enabled());
    assert!(d.proximity_enabled());
    assert!(d.ambient_light_enabled());
    assert!(!d.proximity_on_demand());
    assert!(!d.ambient_light_on_demand());
    assert!(!d.proximity_data_ready());
    assert!(!d.ambient_light_data_ready());
    assert!(!d.config_lock());
}

#[test]
fn sensor_command_every_bit() {
    let c = SensorCommand::from_bits(0b1010_0101);
    assert!(c.self_timed_enabled());
    assert!(!c.proximity_enabled());
    assert!(c.ambient_light_enabled());
    assert!(!c.proximity_on_demand());
    assert!(!c.ambient_light_on_demand());
    assert!(c.proximity_data_ready());
    assert!(!c.ambient_light_data_ready());
    assert!(c.config_lock());
    assert_eq!(c.into_bits(), 0b1010_0101);

    let cleared = c.with_config_lock(false).with_self_timed_enabled(false);
    assert_eq!(cleared.into_bits(), 0b0010_0100);
}

#[test]
fn sensor_command_bit_patterns_survive() {
    for b in 0..=255u8 {
        assert_eq!(SensorCommand::from_bits(b).into_bits(), b);
    }
}

#[test]
fn product_info_nibbles() {
    let p = ProductInfo::from_bits(0x21);
    assert_eq!(p.product(), 2);
    assert_eq!(p.revision(), 1);
    assert_eq!(p.into_bits(), 0x21);

    let q = ProductInfo::new().with_product(0xa).with_revision(0x5);
    assert_eq!(q.into_bits(), 0xa5);
    assert_eq!(q.product(), 0xa);
    assert_eq!(q.revision(), 5);
}

#[test]
fn product_info_verify_accepts_only_the_documented_identity() {
    assert!(ProductInfo::from_bits(0x21).verify().is_ok());

    for b in 0..=255u8 {
        let p = ProductInfo::from_bits(b);
        let verified = p.verify();
        if b == 0x21 {
            assert!(verified.is_ok());
        } else {
            match verified {
                Err(Error::InvalidProduct { product, revision }) => {
                    assert_eq!(product, p.product());
                    assert_eq!(revision, p.revision());
                }
                other => panic!("expected InvalidProduct, got {other:?}"),
            }
        }
    }
}

#[test]
fn product_info_verify_carries_observed_values() {
    let p = ProductInfo::new().with_product(3).with_revision(1);
    match p.verify() {
        Err(Error::InvalidProduct { product, revision }) => {
            assert_eq!(product, 3);
            assert_eq!(revision, 1);
        }
        other => panic!("expected InvalidProduct, got {other:?}"),
    }
}

#[test]
fn led_current_encode_from_milliamps() {
    assert_eq!(LEDCurrent::new().with_current_ma(0).current(), 0);
    assert_eq!(LEDCurrent::new().with_current_ma(55).current(), 5);
    assert_eq!(LEDCurrent::new().with_current_ma(205).current(), 20);
    assert_eq!(LEDCurrent::new().with_current_ma(200).current(), 20);
    assert_eq!(LEDCurrent::new().with_current_ma(65535).current(), 20);
    assert_eq!(LEDCurrent::new().with_current_ma(9).current(), 0);
}

#[test]
fn led_current_to_milliamps() {
    assert_eq!(LEDCurrent::new().with_current_ma(205).to_milliamps(), 200);
    assert_eq!(LEDCurrent::new().with_current_ma(123).to_milliamps(), 120);
    assert_eq!(LEDCurrent::new().with_current_ma(0).to_milliamps(), 0);
}

#[test]
fn led_current_verify() {
    assert!(LEDCurrent::new().with_current_ma(200).verify().is_ok());
    // Fields decode independently: a fuse program id does not disturb the
    // current code.
    let c = LEDCurrent::from_bits(0b1101_0100);
    assert_eq!(c.fuse_prog_id(), 0b11);
    assert_eq!(c.current(), 0b01_0100);
    assert!(c.verify().is_ok());

    let too_high = LEDCurrent::from_bits(21);
    match too_high.verify() {
        Err(Error::InvalidLEDCurrent(code)) => assert_eq!(code, 21),
        other => panic!("expected InvalidLEDCurrent, got {other:?}"),
    }
}

#[test]
fn led_current_bit_patterns_survive() {
    for b in 0..=255u8 {
        assert_eq!(LEDCurrent::from_bits(b).into_bits(), b);
        assert_eq!(ProductInfo::from_bits(b).into_bits(), b);
    }
}

#[test]
fn measurement_frequency_encodings() {
    assert_eq!(ProximityMeasurementFrequency::M1_95.value(), 0);
    assert_eq!(ProximityMeasurementFrequency::M3_90625.value(), 1);
    assert_eq!(ProximityMeasurementFrequency::M7_8125.value(), 2);
    assert_eq!(ProximityMeasurementFrequency::M16_625.value(), 3);
    assert_eq!(ProximityMeasurementFrequency::M31_25.value(), 4);
    assert_eq!(ProximityMeasurementFrequency::M62_5.value(), 5);
    assert_eq!(ProximityMeasurementFrequency::M125.value(), 6);
    assert_eq!(ProximityMeasurementFrequency::M250.value(), 7);

    assert_eq!(AmbientLightMeasurementFrequency::M1.value(), 0);
    assert_eq!(AmbientLightMeasurementFrequency::M2.value(), 1);
    assert_eq!(AmbientLightMeasurementFrequency::M3.value(), 2);
    assert_eq!(AmbientLightMeasurementFrequency::M4.value(), 3);
    assert_eq!(AmbientLightMeasurementFrequency::M5.value(), 4);
    assert_eq!(AmbientLightMeasurementFrequency::M6.value(), 5);
    assert_eq!(AmbientLightMeasurementFrequency::M8.value(), 6);
    assert_eq!(AmbientLightMeasurementFrequency::M10.value(), 7);
}
