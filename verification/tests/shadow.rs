use apds9960::{Apds9960, Error, GestureDataThreshold, I2cBus};
use embedded_hal::i2c::{ErrorKind, I2c};
use embedded_hal_mock::eh1::i2c::{Mock as I2cMock, Transaction as I2cTrans};

const DEV_ADDR: u8 = 0x39;

/// The mocked bus, seen through the driver's bus trait.
struct Bus(I2cMock);

impl I2cBus for Bus {
    type Error = ErrorKind;

    fn write(&mut self, address: u8, bytes: &[u8]) -> Result<(), ErrorKind> {
        self.0.write(address, bytes)
    }

    fn write_read(&mut self, address: u8, bytes: &[u8], buffer: &mut [u8]) -> Result<(), ErrorKind> {
        self.0.write_read(address, bytes, buffer)
    }
}

fn new(transactions: &[I2cTrans]) -> Apds9960<Bus> {
    Apds9960::new(Bus(I2cMock::new(transactions)))
}

fn destroy(sensor: Apds9960<Bus>) {
    sensor.destroy().0.done();
}

fn write(frame: &[u8]) -> I2cTrans {
    I2cTrans::write(DEV_ADDR, frame.to_vec())
}

fn read(register: u8, answer: &[u8]) -> I2cTrans {
    I2cTrans::write_read(DEV_ADDR, vec![register], answer.to_vec())
}

#[test]
fn power_on_then_proximity_accumulates_in_enable() {
    let trans = [write(&[0x80, 0x01]), write(&[0x80, 0x05])];
    let mut sensor = new(&trans);
    sensor.enable().unwrap();
    sensor.enable_proximity().unwrap();
    destroy(sensor);
}

#[test]
fn setting_then_clearing_a_flag_restores_enable() {
    let trans = [
        write(&[0x80, 0x01]),
        write(&[0x80, 0x05]),
        write(&[0x80, 0x01]),
        write(&[0x80, 0x09]),
    ];
    let mut sensor = new(&trans);
    sensor.enable().unwrap();
    sensor.enable_proximity().unwrap();
    sensor.disable_proximity().unwrap();
    sensor.enable_wait().unwrap();
    destroy(sensor);
}

#[test]
fn setting_then_clearing_restores_every_shadowed_register() {
    let trans = [
        write(&[0x80, 0x40]),
        write(&[0x80, 0x00]),
        write(&[0x8D, 0x42]),
        write(&[0x8D, 0x40]),
        write(&[0x90, 0x81]),
        write(&[0x90, 0x01]),
        write(&[0x90, 0x41]),
        write(&[0x90, 0x01]),
        write(&[0xAB, 0x01]),
        write(&[0xAB, 0x00]),
        write(&[0xAB, 0x02]),
        write(&[0xAB, 0x00]),
    ];
    let mut sensor = new(&trans);
    sensor.enable_gesture().unwrap();
    sensor.disable_gesture().unwrap();
    sensor.enable_wait_long().unwrap();
    sensor.disable_wait_long().unwrap();
    sensor.enable_proximity_saturation_interrupts().unwrap();
    sensor.disable_proximity_saturation_interrupts().unwrap();
    sensor.enable_light_saturation_interrupts().unwrap();
    sensor.disable_light_saturation_interrupts().unwrap();
    sensor.enable_gesture_mode().unwrap();
    sensor.disable_gesture_mode().unwrap();
    sensor.enable_gesture_interrupts().unwrap();
    sensor.disable_gesture_interrupts().unwrap();
    destroy(sensor);
}

#[test]
fn clearing_a_flag_that_was_set_before_does_not_restore_it() {
    let trans = [
        write(&[0x80, 0x01]),
        write(&[0x80, 0x01]),
        write(&[0x80, 0x00]),
    ];
    let mut sensor = new(&trans);
    sensor.enable().unwrap();
    sensor.enable().unwrap();
    sensor.disable().unwrap();
    destroy(sensor);
}

#[test]
fn flags_of_one_register_do_not_disturb_each_other() {
    let trans = [
        write(&[0x80, 0x02]),
        write(&[0x80, 0x12]),
        write(&[0x80, 0x32]),
        write(&[0x80, 0x30]),
        write(&[0x80, 0x70]),
        write(&[0x80, 0x60]),
        write(&[0xAB, 0x01]),
        write(&[0xAB, 0x03]),
        write(&[0xAB, 0x02]),
    ];
    let mut sensor = new(&trans);
    sensor.enable_light().unwrap();
    sensor.enable_light_interrupts().unwrap();
    sensor.enable_proximity_interrupts().unwrap();
    sensor.disable_light().unwrap();
    sensor.enable_gesture().unwrap();
    sensor.disable_light_interrupts().unwrap();
    sensor.enable_gesture_mode().unwrap();
    sensor.enable_gesture_interrupts().unwrap();
    sensor.disable_gesture_mode().unwrap();
    destroy(sensor);
}

#[test]
fn reserved_bits_survive_every_toggle() {
    let trans = [
        write(&[0x90, 0x81]),
        write(&[0x90, 0xC1]),
        write(&[0x90, 0x41]),
        write(&[0x90, 0x01]),
        write(&[0x8D, 0x42]),
        write(&[0x8D, 0x42]),
        write(&[0x8D, 0x40]),
        write(&[0x8D, 0x40]),
    ];
    let mut sensor = new(&trans);
    sensor.enable_proximity_saturation_interrupts().unwrap();
    sensor.enable_light_saturation_interrupts().unwrap();
    sensor.disable_proximity_saturation_interrupts().unwrap();
    sensor.disable_light_saturation_interrupts().unwrap();
    sensor.enable_wait_long().unwrap();
    sensor.enable_wait_long().unwrap();
    sensor.disable_wait_long().unwrap();
    sensor.disable_wait_long().unwrap();
    destroy(sensor);
}

#[test]
fn disable_clears_every_flag_of_enable() {
    let trans = [
        write(&[0x80, 0x01]),
        write(&[0x80, 0x03]),
        write(&[0x80, 0x43]),
        write(&[0x80, 0x00]),
        write(&[0x80, 0x08]),
    ];
    let mut sensor = new(&trans);
    sensor.enable().unwrap();
    sensor.enable_light().unwrap();
    sensor.enable_gesture().unwrap();
    sensor.disable().unwrap();
    sensor.enable_wait().unwrap();
    destroy(sensor);
}

#[test]
fn gesture_threshold_replaces_both_of_its_bits() {
    let trans = [
        write(&[0xA2, 0xC0]),
        write(&[0xA2, 0x40]),
        write(&[0xA2, 0x80]),
        write(&[0xA2, 0x00]),
        write(&[0xA2, 0x80]),
    ];
    let mut sensor = new(&trans);
    sensor
        .set_gesture_data_level_threshold(GestureDataThreshold::Th16)
        .unwrap();
    sensor
        .set_gesture_data_level_threshold(GestureDataThreshold::Th4)
        .unwrap();
    sensor
        .set_gesture_data_level_threshold(GestureDataThreshold::Th8)
        .unwrap();
    sensor
        .set_gesture_data_level_threshold(GestureDataThreshold::Th1)
        .unwrap();
    sensor
        .set_gesture_data_level_threshold(GestureDataThreshold::Th8)
        .unwrap();
    destroy(sensor);
}

#[test]
fn failed_write_leaves_the_shadow_as_it_was() {
    let trans = [
        write(&[0x80, 0x01]).with_error(ErrorKind::Other),
        write(&[0x80, 0x04]),
        write(&[0x80, 0x05]),
    ];
    let mut sensor = new(&trans);
    assert!(matches!(sensor.enable(), Err(Error::I2C(ErrorKind::Other))));
    sensor.enable_proximity().unwrap();
    sensor.enable().unwrap();
    destroy(sensor);
}

#[test]
fn failed_write_leaves_every_shadow_as_it_was() {
    let trans = [
        write(&[0x8D, 0x42]).with_error(ErrorKind::Bus),
        write(&[0x8D, 0x42]),
        write(&[0x90, 0x41]).with_error(ErrorKind::Bus),
        write(&[0x90, 0x81]),
        write(&[0xAB, 0x02]).with_error(ErrorKind::Bus),
        write(&[0xAB, 0x01]),
        write(&[0xA2, 0xC0]).with_error(ErrorKind::Bus),
        write(&[0xA2, 0x40]),
        write(&[0xA2, 0x80]).with_error(ErrorKind::Bus),
        write(&[0xA2, 0x40]),
    ];
    let mut sensor = new(&trans);
    assert!(matches!(sensor.enable_wait_long(), Err(Error::I2C(ErrorKind::Bus))));
    sensor.enable_wait_long().unwrap();
    assert!(matches!(
        sensor.enable_light_saturation_interrupts(),
        Err(Error::I2C(ErrorKind::Bus))
    ));
    sensor.enable_proximity_saturation_interrupts().unwrap();
    assert!(matches!(sensor.enable_gesture_interrupts(), Err(Error::I2C(ErrorKind::Bus))));
    sensor.enable_gesture_mode().unwrap();
    assert!(matches!(
        sensor.set_gesture_data_level_threshold(GestureDataThreshold::Th16),
        Err(Error::I2C(ErrorKind::Bus))
    ));
    sensor
        .set_gesture_data_level_threshold(GestureDataThreshold::Th4)
        .unwrap();
    assert!(matches!(
        sensor.set_gesture_data_level_threshold(GestureDataThreshold::Th8),
        Err(Error::I2C(ErrorKind::Bus))
    ));
    sensor
        .set_gesture_data_level_threshold(GestureDataThreshold::Th4)
        .unwrap();
    destroy(sensor);
}

#[test]
fn bus_error_comes_back_unchanged() {
    let trans = [
        write(&[0x83, 0x10]).with_error(ErrorKind::ArbitrationLoss),
        write(&[0xE4]).with_error(ErrorKind::Overrun),
        write(&[0x84, 0x34, 0x12]).with_error(ErrorKind::Bus),
        write(&[0x9D, 0x01, 0xFF]).with_error(ErrorKind::Other),
        read(0x92, &[0]).with_error(ErrorKind::Bus),
    ];
    let mut sensor = new(&trans);
    assert!(matches!(
        sensor.set_wait_time(0x10),
        Err(Error::I2C(ErrorKind::ArbitrationLoss))
    ));
    assert!(matches!(sensor.force_interrupt(), Err(Error::I2C(ErrorKind::Overrun))));
    assert!(matches!(
        sensor.set_light_low_threshold(0x1234),
        Err(Error::I2C(ErrorKind::Bus))
    ));
    assert!(matches!(
        sensor.set_proximity_offsets(1, -1),
        Err(Error::I2C(ErrorKind::Other))
    ));
    assert!(matches!(sensor.read_device_id(), Err(Error::I2C(ErrorKind::Bus))));
    destroy(sensor);
}

#[test]
fn sixteen_bit_thresholds_go_low_byte_first() {
    let trans = [
        write(&[0x84, 0x00, 0x00]),
        write(&[0x84, 0xFF, 0xFF]),
        write(&[0x84, 0xFF, 0x00]),
        write(&[0x84, 0x00, 0xFF]),
        write(&[0x86, 0x34, 0x12]),
        write(&[0x86, 0x01, 0x80]),
    ];
    let mut sensor = new(&trans);
    sensor.set_light_low_threshold(0x0000).unwrap();
    sensor.set_light_low_threshold(0xFFFF).unwrap();
    sensor.set_light_low_threshold(0x00FF).unwrap();
    sensor.set_light_low_threshold(0xFF00).unwrap();
    sensor.set_light_high_threshold(0x1234).unwrap();
    sensor.set_light_high_threshold(0x8001).unwrap();
    destroy(sensor);
}

#[test]
fn signed_offsets_go_as_twos_complement() {
    let trans = [
        write(&[0x9D, 0xC8]),
        write(&[0x9E, 0x80]),
        write(&[0xA4, 0xFF]),
        write(&[0xA5, 0x7F]),
        write(&[0xA6, 0x00]),
        write(&[0xA7, 0x9B]),
        write(&[0x9D, 0x80, 0x7F]),
        write(&[0xA4, 0xFF, 0x00, 0x01, 0x81]),
    ];
    let mut sensor = new(&trans);
    sensor.set_proximity_up_right_offset(-56).unwrap();
    sensor.set_proximity_down_left_offset(-128).unwrap();
    sensor.set_gesture_up_offset(-1).unwrap();
    sensor.set_gesture_down_offset(127).unwrap();
    sensor.set_gesture_left_offset(0).unwrap();
    sensor.set_gesture_right_offset(-101).unwrap();
    sensor.set_proximity_offsets(-128, 127).unwrap();
    sensor.set_gesture_offsets(-1, 0, 1, -127).unwrap();
    destroy(sensor);
}

#[test]
fn writes_to_plain_registers_leave_the_shadows_alone() {
    let trans = [
        write(&[0x80, 0x01]),
        write(&[0x83, 0xAB]),
        write(&[0x81, 0xCD]),
        write(&[0x89, 0x01]),
        write(&[0x8B, 0x02]),
        write(&[0xA0, 0x03]),
        write(&[0xA1, 0x04]),
        write(&[0xE4]),
        write(&[0xE5]),
        write(&[0xE6]),
        write(&[0xE7]),
        write(&[0x80, 0x03]),
    ];
    let mut sensor = new(&trans);
    sensor.enable().unwrap();
    sensor.set_wait_time(0xAB).unwrap();
    sensor.set_light_integration_time(0xCD).unwrap();
    sensor.set_proximity_low_threshold(0x01).unwrap();
    sensor.set_proximity_high_threshold(0x02).unwrap();
    sensor.set_gesture_proximity_entry_threshold(0x03).unwrap();
    sensor.set_gesture_proximity_exit_threshold(0x04).unwrap();
    sensor.force_interrupt().unwrap();
    sensor.clear_proximity_interrupt().unwrap();
    sensor.clear_light_interrupt().unwrap();
    sensor.clear_interrupts().unwrap();
    sensor.enable_light().unwrap();
    destroy(sensor);
}

#[test]
fn a_new_handle_on_the_same_bus_starts_from_the_reset_values() {
    let trans = [write(&[0x80, 0x01]), write(&[0x80, 0x04])];
    let mut sensor = new(&trans);
    sensor.enable().unwrap();
    let bus = sensor.destroy();
    let mut sensor = Apds9960::new(bus);
    sensor.enable_proximity().unwrap();
    destroy(sensor);
}
