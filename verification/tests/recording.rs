use apds9960::{Apds9960, Error, I2cBus, LightData};

/// A bus master that keeps what is written to it and answers every read
/// with the bytes 0x0F, 0x1F, 0x2F, .., or fails every transaction.
#[derive(Debug, Default)]
struct Memory {
    written: Vec<(u8, Vec<u8>)>,
    broken: bool,
}

impl I2cBus for Memory {
    type Error = &'static str;

    fn write(&mut self, address: u8, bytes: &[u8]) -> Result<(), Self::Error> {
        self.written.push((address, bytes.to_vec()));
        if self.broken {
            Err("write failed")
        } else {
            Ok(())
        }
    }

    fn write_read(
        &mut self,
        address: u8,
        bytes: &[u8],
        buffer: &mut [u8],
    ) -> Result<(), Self::Error> {
        self.written.push((address, bytes.to_vec()));
        if self.broken {
            return Err("read failed");
        }
        for (index, byte) in buffer.iter_mut().enumerate() {
            *byte = 0x0F | (index as u8) << 4;
        }
        Ok(())
    }
}

#[test]
fn default_handle_starts_from_the_reset_values() {
    let mut sensor: Apds9960<Memory> = Apds9960::default();
    sensor.enable_wait_long().unwrap();
    sensor.enable_light_saturation_interrupts().unwrap();
    sensor.enable().unwrap();
    let bus = sensor.destroy();
    assert_eq!(
        bus.written,
        vec![
            (0x39, vec![0x8D, 0x42]),
            (0x39, vec![0x90, 0x41]),
            (0x39, vec![0x80, 0x01]),
        ]
    );
}

#[test]
fn new_sends_nothing_and_destroy_gives_the_bus_back() {
    let bus = Memory {
        written: vec![(0x01, vec![0x02])],
        broken: true,
    };
    let sensor = Apds9960::new(bus);
    let bus = sensor.destroy();
    assert_eq!(bus.written, vec![(0x01, vec![0x02])]);
    assert!(bus.broken);
}

#[test]
fn every_transaction_goes_to_the_device_address() {
    let mut sensor = Apds9960::new(Memory::default());
    sensor.enable().unwrap();
    sensor.set_wait_time(1).unwrap();
    sensor.set_light_high_threshold(0xBEEF).unwrap();
    sensor.force_interrupt().unwrap();
    sensor.set_gesture_offsets(1, 2, 3, 4).unwrap();
    assert_eq!(sensor.read_device_id().unwrap(), 0x0F);
    assert_eq!(
        sensor.read_light().unwrap(),
        Some(LightData {
            clear: 0x1F0F,
            red: 0x3F2F,
            green: 0x5F4F,
            blue: 0x7F6F
        })
    );
    assert_eq!(sensor.read_proximity().unwrap(), Some(0x0F));
    let mut data = [0; 8];
    assert_eq!(sensor.read_gesture_data(&mut data).unwrap(), Some(()));
    assert_eq!(data, [0x0F, 0x1F, 0x2F, 0x3F, 0x4F, 0x5F, 0x6F, 0x7F]);
    let bus = sensor.destroy();
    assert_eq!(bus.written.len(), 13);
    assert!(bus.written.iter().all(|(address, _)| *address == 0x39));
}

#[test]
fn reads_select_the_register_with_one_byte() {
    let mut sensor = Apds9960::new(Memory::default());
    assert_eq!(sensor.read_device_id().unwrap(), 0x0F);
    assert_eq!(sensor.read_gesture_data_level().unwrap(), 0x0F);
    assert_eq!(sensor.is_gesture_data_valid().unwrap(), true);
    assert_eq!(sensor.has_gesture_data_overflown().unwrap(), true);
    assert_eq!(sensor.is_light_data_valid().unwrap(), true);
    assert_eq!(sensor.is_proximity_data_valid().unwrap(), true);
    let bus = sensor.destroy();
    assert_eq!(
        bus.written,
        vec![
            (0x39, vec![0x92]),
            (0x39, vec![0xAE]),
            (0x39, vec![0xAF]),
            (0x39, vec![0xAF]),
            (0x39, vec![0x93]),
            (0x39, vec![0x93]),
        ]
    );
}

#[test]
fn a_broken_bus_fails_every_operation_and_moves_no_shadow() {
    let mut sensor = Apds9960::new(Memory {
        written: Vec::new(),
        broken: true,
    });
    assert!(matches!(sensor.enable(), Err(Error::I2C("write failed"))));
    assert!(matches!(sensor.enable_gesture(), Err(Error::I2C("write failed"))));
    assert!(matches!(sensor.enable_wait_long(), Err(Error::I2C("write failed"))));
    assert!(matches!(
        sensor.enable_proximity_saturation_interrupts(),
        Err(Error::I2C("write failed"))
    ));
    assert!(matches!(sensor.enable_gesture_mode(), Err(Error::I2C("write failed"))));
    assert!(matches!(sensor.read_proximity(), Err(Error::I2C("read failed"))));
    assert!(matches!(sensor.read_light(), Err(Error::I2C("read failed"))));
    let mut data = [7; 4];
    assert!(matches!(
        sensor.read_gesture_data(&mut data),
        Err(Error::I2C("read failed"))
    ));
    assert_eq!(data, [7; 4]);
    let mut bus = sensor.destroy();
    assert_eq!(
        bus.written,
        vec![
            (0x39, vec![0x80, 0x01]),
            (0x39, vec![0x80, 0x40]),
            (0x39, vec![0x8D, 0x42]),
            (0x39, vec![0x90, 0x81]),
            (0x39, vec![0xAB, 0x01]),
            (0x39, vec![0x93]),
            (0x39, vec![0x93]),
            (0x39, vec![0xAF]),
        ]
    );
    bus.written.clear();
    bus.broken = false;
    let mut sensor = Apds9960::new(bus);
    sensor.enable().unwrap();
    assert_eq!(sensor.destroy().written, vec![(0x39, vec![0x80, 0x01])]);
}
