use apds9960::{Apds9960, Error, I2cBus, LightData};
use embedded_hal::i2c::{ErrorKind, I2c};
use embedded_hal_mock::eh1::i2c::{Mock as I2cMock, Transaction as I2cTrans};

const DEV_ADDR: u8 = 0x39;

/// The mocked bus, seen through the driver's bus trait.
struct Bus(I2cMock);

impl I2cBus for Bus {
    type Error = ErrorKind;

    fn write(&mut self, address: u8, bytes: &[u8]) -> Result<(), ErrorKind> {
        self.0.write(address, bytes)
    }

    fn write_read(&mut self, address: u8, bytes: &[u8], buffer: &mut [u8]) -> Result<(), ErrorKind> {
        self.0.write_read(address, bytes, buffer)
    }
}

fn new(transactions: &[I2cTrans]) -> Apds9960<Bus> {
    Apds9960::new(Bus(I2cMock::new(transactions)))
}

fn destroy(sensor: Apds9960<Bus>) {
    sensor.destroy().0.done();
}

fn write(frame: &[u8]) -> I2cTrans {
    I2cTrans::write(DEV_ADDR, frame.to_vec())
}

fn read(register: u8, answer: &[u8]) -> I2cTrans {
    I2cTrans::write_read(DEV_ADDR, vec![register], answer.to_vec())
}

#[test]
fn blocking_proximity_read_polls_until_valid() {
    let trans = [
        read(0x93, &[0x00]),
        read(0x93, &[0x01]),
        read(0x93, &[0xFD]),
        read(0x93, &[0x02]),
        read(0x9C, &[0x5A]),
    ];
    let mut sensor = new(&trans);
    let mut polls = 0;
    let value = loop {
        polls += 1;
        if let Some(value) = sensor.read_proximity().unwrap() {
            break value;
        }
    };
    assert_eq!(polls, 4);
    assert_eq!(value, 0x5A);
    destroy(sensor);
}

#[test]
fn blocking_light_read_polls_until_valid() {
    let trans = [
        read(0x93, &[0x00]),
        read(0x93, &[0x02]),
        read(0x93, &[0x01]),
        read(0x94, &[0x34, 0x12, 0x56, 0x34, 0x78, 0x56, 0x9A, 0x78]),
    ];
    let mut sensor = new(&trans);
    let mut polls = 0;
    let data = loop {
        polls += 1;
        if let Some(data) = sensor.read_light().unwrap() {
            break data;
        }
    };
    assert_eq!(polls, 3);
    assert_eq!(
        data,
        LightData {
            clear: 0x1234,
            red: 0x3456,
            green: 0x5678,
            blue: 0x789A
        }
    );
    destroy(sensor);
}

#[test]
fn blocking_gesture_read_polls_until_valid() {
    let trans = [
        read(0xAF, &[0x00]),
        read(0xAF, &[0x02]),
        read(0xAF, &[0x01]),
        read(0xAE, &[2]),
        read(0xFC, &[1, 2, 3, 4, 5, 6, 7, 8]),
    ];
    let mut sensor = new(&trans);
    let mut data = [0; 8];
    let mut polls = 0;
    loop {
        polls += 1;
        if sensor.read_gesture_data(&mut data).unwrap().is_some() {
            break;
        }
    }
    assert_eq!(polls, 3);
    assert_eq!(data, [1, 2, 3, 4, 5, 6, 7, 8]);
    destroy(sensor);
}

#[test]
fn a_poll_that_is_valid_at_once_reads_status_and_data_once() {
    let trans = [read(0x93, &[0x02]), read(0x9C, &[7])];
    let mut sensor = new(&trans);
    assert_eq!(sensor.read_proximity().unwrap(), Some(7));
    destroy(sensor);
}

#[test]
fn not_ready_reads_no_data_on_any_channel() {
    let trans = [
        read(0x93, &[0x00]),
        read(0x93, &[0x02]),
        read(0x93, &[0xFE]),
        read(0x93, &[0x00]),
        read(0x93, &[0x00]),
        read(0x93, &[0x01]),
        read(0xAF, &[0x02]),
    ];
    let mut sensor = new(&trans);
    assert_eq!(sensor.read_light().unwrap(), None);
    assert_eq!(sensor.read_light_clear().unwrap(), None);
    assert_eq!(sensor.read_light_red().unwrap(), None);
    assert_eq!(sensor.read_light_green().unwrap(), None);
    assert_eq!(sensor.read_light_blue().unwrap(), None);
    assert_eq!(sensor.read_proximity().unwrap(), None);
    let mut data = [9; 4];
    assert_eq!(sensor.read_gesture_data(&mut data).unwrap(), None);
    assert_eq!(data, [9; 4]);
    destroy(sensor);
}

#[test]
fn validity_is_one_bit_of_the_status() {
    let trans = [
        read(0x93, &[0x01]),
        read(0x93, &[0x02]),
        read(0x93, &[0xFD]),
        read(0x93, &[0xFE]),
        read(0x93, &[0xFF]),
        read(0x93, &[0xFF]),
        read(0xAF, &[0xFE]),
        read(0xAF, &[0xFD]),
        read(0xAF, &[0x03]),
        read(0xAF, &[0x03]),
    ];
    let mut sensor = new(&trans);
    assert_eq!(sensor.is_proximity_data_valid().unwrap(), false);
    assert_eq!(sensor.is_light_data_valid().unwrap(), false);
    assert_eq!(sensor.is_proximity_data_valid().unwrap(), false);
    assert_eq!(sensor.is_light_data_valid().unwrap(), false);
    assert_eq!(sensor.is_proximity_data_valid().unwrap(), true);
    assert_eq!(sensor.is_light_data_valid().unwrap(), true);
    assert_eq!(sensor.is_gesture_data_valid().unwrap(), false);
    assert_eq!(sensor.has_gesture_data_overflown().unwrap(), false);
    assert_eq!(sensor.is_gesture_data_valid().unwrap(), true);
    assert_eq!(sensor.has_gesture_data_overflown().unwrap(), true);
    destroy(sensor);
}

#[test]
fn failed_status_read_ends_the_poll() {
    let trans = [
        read(0x93, &[0]).with_error(ErrorKind::Bus),
        read(0x93, &[0]).with_error(ErrorKind::Other),
        read(0x93, &[0]).with_error(ErrorKind::Overrun),
        read(0xAF, &[0]).with_error(ErrorKind::ArbitrationLoss),
    ];
    let mut sensor = new(&trans);
    assert!(matches!(sensor.read_proximity(), Err(Error::I2C(ErrorKind::Bus))));
    assert!(matches!(sensor.read_light(), Err(Error::I2C(ErrorKind::Other))));
    assert!(matches!(sensor.read_light_red(), Err(Error::I2C(ErrorKind::Overrun))));
    let mut data = [9; 4];
    assert!(matches!(
        sensor.read_gesture_data(&mut data),
        Err(Error::I2C(ErrorKind::ArbitrationLoss))
    ));
    assert_eq!(data, [9; 4]);
    destroy(sensor);
}

#[test]
fn failed_data_read_is_reported() {
    let trans = [
        read(0x93, &[0x02]),
        read(0x9C, &[0]).with_error(ErrorKind::Bus),
        read(0x93, &[0x01]),
        read(0x94, &[0; 8]).with_error(ErrorKind::Other),
        read(0x93, &[0x01]),
        read(0x9A, &[0; 2]).with_error(ErrorKind::Overrun),
        read(0xAF, &[0x01]),
        read(0xAE, &[0]).with_error(ErrorKind::Bus),
        read(0xAF, &[0x01]),
        read(0xAE, &[1]),
        read(0xFC, &[0; 4]).with_error(ErrorKind::Other),
    ];
    let mut sensor = new(&trans);
    assert!(matches!(sensor.read_proximity(), Err(Error::I2C(ErrorKind::Bus))));
    assert!(matches!(sensor.read_light(), Err(Error::I2C(ErrorKind::Other))));
    assert!(matches!(sensor.read_light_blue(), Err(Error::I2C(ErrorKind::Overrun))));
    let mut data = [9; 4];
    assert!(matches!(
        sensor.read_gesture_data(&mut data),
        Err(Error::I2C(ErrorKind::Bus))
    ));
    assert_eq!(data, [9; 4]);
    assert!(matches!(
        sensor.read_gesture_data(&mut data),
        Err(Error::I2C(ErrorKind::Other))
    ));
    destroy(sensor);
}

#[test]
fn sixteen_bytes_of_four_datasets_come_in_one_read() {
    let trans = [
        read(0xAF, &[0x01]),
        read(0xAE, &[4]),
        read(0xFC, &[1, 2, 3, 4, 5, 6, 7, 8, 9, 10, 11, 12, 13, 14, 15, 16]),
    ];
    let mut sensor = new(&trans);
    let mut data = [0; 16];
    assert_eq!(sensor.read_gesture_data(&mut data).unwrap(), Some(()));
    assert_eq!(data, [1, 2, 3, 4, 5, 6, 7, 8, 9, 10, 11, 12, 13, 14, 15, 16]);
    destroy(sensor);
}

#[test]
fn buffer_larger_than_the_fifo_keeps_its_tail() {
    let trans = [
        read(0xAF, &[0x01]),
        read(0xAE, &[1]),
        read(0xFC, &[1, 2, 3, 4]),
    ];
    let mut sensor = new(&trans);
    let mut data = [9; 7];
    sensor.read_gesture_data(&mut data).unwrap();
    assert_eq!(data, [1, 2, 3, 4, 9, 9, 9]);
    destroy(sensor);
}

#[test]
fn empty_fifo_is_read_with_no_bytes() {
    let trans = [read(0xAF, &[0x01]), read(0xAE, &[0]), read(0xFC, &[])];
    let mut sensor = new(&trans);
    let mut data = [9; 4];
    assert_eq!(sensor.read_gesture_data(&mut data).unwrap(), Some(()));
    assert_eq!(data, [9; 4]);
    destroy(sensor);
}

#[test]
fn empty_buffer_is_read_with_no_bytes() {
    let trans = [read(0xAF, &[0x01]), read(0xAE, &[3]), read(0xFC, &[])];
    let mut sensor = new(&trans);
    let mut data = [0u8; 0];
    assert_eq!(sensor.read_gesture_data(&mut data).unwrap(), Some(()));
    destroy(sensor);
}

#[test]
fn full_fifo_level_fits_a_large_buffer() {
    let answer = [7u8; 1020];
    let trans = [read(0xAF, &[0x01]), read(0xAE, &[255]), read(0xFC, &answer)];
    let mut sensor = new(&trans);
    let mut data = [0u8; 1024];
    sensor.read_gesture_data(&mut data).unwrap();
    assert_eq!(data[..1020], answer[..]);
    assert_eq!(data[1020..], [0u8; 4]);
    destroy(sensor);
}

#[test]
fn light_channels_are_low_byte_first() {
    let trans = [
        read(0x93, &[0x01]),
        read(0x94, &[0xFF, 0x00]),
        read(0x93, &[0x01]),
        read(0x96, &[0x00, 0xFF]),
        read(0x93, &[0x01]),
        read(0x98, &[0x01, 0x80]),
        read(0x93, &[0x01]),
        read(0x9A, &[0xFF, 0xFF]),
        read(0x93, &[0x03]),
        read(0x94, &[0x00, 0x00, 0xFF, 0xFF, 0x01, 0x00, 0x00, 0x01]),
    ];
    let mut sensor = new(&trans);
    assert_eq!(sensor.read_light_clear().unwrap(), Some(0x00FF));
    assert_eq!(sensor.read_light_red().unwrap(), Some(0xFF00));
    assert_eq!(sensor.read_light_green().unwrap(), Some(0x8001));
    assert_eq!(sensor.read_light_blue().unwrap(), Some(0xFFFF));
    assert_eq!(
        sensor.read_light().unwrap(),
        Some(LightData {
            clear: 0x0000,
            red: 0xFFFF,
            green: 0x0001,
            blue: 0x0100
        })
    );
    destroy(sensor);
}

#[test]
fn reads_leave_the_shadows_alone() {
    let trans = [
        write(&[0x80, 0x01]),
        read(0x92, &[0xAB]),
        read(0x93, &[0x02]),
        read(0x9C, &[0x80]),
        read(0xAE, &[0x80]),
        write(&[0x80, 0x05]),
    ];
    let mut sensor = new(&trans);
    sensor.enable().unwrap();
    assert_eq!(sensor.read_device_id().unwrap(), 0xAB);
    assert_eq!(sensor.read_proximity().unwrap(), Some(0x80));
    assert_eq!(sensor.read_gesture_data_level().unwrap(), 0x80);
    sensor.enable_proximity().unwrap();
    destroy(sensor);
}
