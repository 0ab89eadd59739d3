use dewy::seesaw::{
    required_capability_present, u16_from_be, u32_from_be, I2CInterfaces, Messurement, SeesawReg,
    SeesawStatus, SeesawTouch, SensorEvent, SoilSensor, SoilSensorState,
};

#[test]
fn register_addresses() {
    assert_eq!(SeesawReg::Status(SeesawStatus::HwId).get_register(), [0x00, 0x01]);
    assert_eq!(SeesawReg::Status(SeesawStatus::Version).get_register(), [0x00, 0x02]);
    assert_eq!(SeesawReg::Status(SeesawStatus::Options).get_register(), [0x00, 0x03]);
    assert_eq!(SeesawReg::Status(SeesawStatus::Temp).get_register(), [0x00, 0x04]);
    assert_eq!(SeesawReg::Status(SeesawStatus::Reset).get_register(), [0x00, 0x7F]);
    assert_eq!(SeesawReg::Touch(SeesawTouch::ChannelOffset).get_register(), [0x0F, 0x10]);
    assert_eq!(SeesawReg::Adc.get_register(), [0x09, 0x00]);
}

#[test]
fn capability_bit_is_touch_module_byte() {
    // The touch module byte is 0x0F, so bit 15 of the options word decides.
    assert!(required_capability_present(1u32 << 0x0F));
    assert!(required_capability_present(0xFFFF_FFFF));
    assert!(!required_capability_present(0));
    assert!(!required_capability_present(!(1u32 << 0x0F)));
    assert!(SeesawReg::Status(SeesawStatus::HwId).in_options(0x1));
    assert!(!SeesawReg::Status(SeesawStatus::HwId).in_options(0x2));
}

#[test]
fn big_endian_parsing() {
    assert_eq!(u16_from_be([0x12, 0x34]), 0x1234);
    assert_eq!(u16_from_be([0x00, 0x00]), 0);
    assert_eq!(u16_from_be([0xFF, 0xFF]), 0xFFFF);
    assert_eq!(u32_from_be([0x01, 0x02, 0x03, 0x04]), 0x0102_0304);
    assert_eq!(u32_from_be([0xFF, 0x00, 0x00, 0x01]), 0xFF00_0001);
}

#[test]
fn init_to_measuring_when_capability_present() {
    let mut s = SoilSensor::new(0x36);
    assert_eq!(s.address, 0x36);
    assert_eq!(s.state, SoilSensorState::Init);
    let out = s.run(SensorEvent::InitDone { options_ok: true });
    assert!(out.is_none());
    assert_eq!(s.state, SoilSensorState::Messuring);
}

#[test]
fn init_to_error_when_capability_missing() {
    let mut s = SoilSensor::new(0x36);
    let out = s.run(SensorEvent::InitDone { options_ok: false });
    assert!(out.is_none());
    assert_eq!(s.state, SoilSensorState::Error);
}

#[test]
fn measuring_produces_sample_and_stays() {
    let mut s = SoilSensor::new(0x36);
    s.run(SensorEvent::InitDone { options_ok: true });
    let m = Messurement { temp: 0x0019_0000, moisture: 321 };
    let out = s.run(SensorEvent::MessurementDone(m));
    assert_eq!(out, Some(m));
    assert_eq!(s.state, SoilSensorState::Messuring);
}

#[test]
fn bus_fault_routes_to_error_and_reset_recovers() {
    let mut s = SoilSensor::new(0x36);
    s.run(SensorEvent::InitDone { options_ok: true });
    assert!(s.run(SensorEvent::BusFault).is_none());
    assert_eq!(s.state, SoilSensorState::Error);
    // A failed reset stays in Error.
    assert!(s.run(SensorEvent::BusFault).is_none());
    assert_eq!(s.state, SoilSensorState::Error);
    // A successful reset returns to Init.
    assert!(s.run(SensorEvent::ResetDone).is_none());
    assert_eq!(s.state, SoilSensorState::Init);
}

#[test]
fn mismatched_event_leaves_state_alone() {
    let mut s = SoilSensor::new(0x36);
    assert!(s.run(SensorEvent::ResetDone).is_none());
    assert_eq!(s.state, SoilSensorState::Init);
    let m = Messurement { temp: 1, moisture: 2 };
    assert!(s.run(SensorEvent::MessurementDone(m)).is_none());
    assert_eq!(s.state, SoilSensorState::Init);
}

#[test]
fn interface_holds_bus_handle() {
    let iface = I2CInterfaces::new(42u8);
    assert_eq!(iface.i2c, 42);
}
