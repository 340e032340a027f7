use lsm6dsox::sample::ONE;
use lsm6dsox::{Lsm6dsox, Sample, Transport};

#[derive(Debug, Clone, PartialEq)]
enum Call {
    Write { address: u8, bytes: Vec<u8> },
    WriteRead { address: u8, bytes: Vec<u8>, buffer_on_entry: Vec<u8> },
}

#[derive(Debug, Clone, Copy, PartialEq)]
enum BusError {
    Nack,
    ArbitrationLost,
    Timeout,
}

/// A bus that records what it is asked and answers as scripted.
struct MockBus {
    calls: Vec<Call>,
    incoming: Vec<u8>,
    failure: Option<BusError>,
}

impl MockBus {
    fn answering(incoming: &[u8]) -> MockBus {
        MockBus { calls: Vec::new(), incoming: incoming.to_vec(), failure: None }
    }

    fn failing(failure: BusError) -> MockBus {
        MockBus { calls: Vec::new(), incoming: vec![0xEE; 6], failure: Some(failure) }
    }
}

impl Transport for MockBus {
    type Error = BusError;

    fn write(&mut self, address: u8, bytes: &[u8]) -> Result<(), BusError> {
        self.calls.push(Call::Write { address, bytes: bytes.to_vec() });
        match self.failure {
            Some(failure) => Err(failure),
            None => Ok(()),
        }
    }

    fn write_read(&mut self, address: u8, bytes: &[u8], buffer: &mut [u8]) -> Result<(), BusError> {
        self.calls.push(Call::WriteRead {
            address,
            bytes: bytes.to_vec(),
            buffer_on_entry: buffer.to_vec(),
        });
        for (slot, byte) in buffer.iter_mut().zip(self.incoming.iter()) {
            *slot = *byte;
        }
        match self.failure {
            Some(failure) => Err(failure),
            None => Ok(()),
        }
    }
}

fn in_units(sample: Sample) -> [f32; 3] {
    [
        sample.x as f32 / ONE as f32,
        sample.y as f32 / ONE as f32,
        sample.z as f32 / ONE as f32,
    ]
}

#[test]
fn new_does_not_touch_the_bus() {
    let mut bus = MockBus::answering(&[]);
    {
        let device = Lsm6dsox::new(&mut bus);
        assert!(device.is_ok());
    }
    assert!(bus.calls.is_empty());
}

#[test]
fn new_succeeds_on_a_bus_that_would_fail() {
    let mut bus = MockBus::failing(BusError::Timeout);
    assert!(Lsm6dsox::new(&mut bus).is_ok());
    assert!(bus.calls.is_empty());
}

#[test]
fn the_driver_can_own_its_bus() {
    let bus = MockBus::answering(&[0x6C]);
    let mut device = Lsm6dsox::new(bus).unwrap();
    assert_eq!(device.read_id(), Ok(0x6C));
    assert_eq!(device.configure_accel(), Ok(()));
}

#[test]
fn read_id_returns_the_byte_read() {
    let mut bus = MockBus::answering(&[0x6C]);
    let id = Lsm6dsox::new(&mut bus).unwrap().read_id();
    assert_eq!(id, Ok(0x6C));
}

#[test]
fn read_id_does_not_judge_the_byte() {
    for byte in [0x00u8, 0x6C, 0xFF] {
        let mut bus = MockBus::answering(&[byte]);
        assert_eq!(Lsm6dsox::new(&mut bus).unwrap().read_id(), Ok(byte));
    }
}

#[test]
fn read_id_is_one_exchange_of_one_byte() {
    let mut bus = MockBus::answering(&[0x6C, 0x99]);
    let id = Lsm6dsox::new(&mut bus).unwrap().read_id();
    assert_eq!(id, Ok(0x6C));
    assert_eq!(
        bus.calls,
        vec![Call::WriteRead { address: 0x6A, bytes: vec![0x0F], buffer_on_entry: vec![0] }]
    );
}

#[test]
fn read_id_returns_the_bus_error_and_stops() {
    for failure in [BusError::Nack, BusError::ArbitrationLost, BusError::Timeout] {
        let mut bus = MockBus::failing(failure);
        let id = Lsm6dsox::new(&mut bus).unwrap().read_id();
        assert_eq!(id, Err(failure));
        assert_eq!(bus.calls.len(), 1);
    }
}

#[test]
fn configure_accel_is_one_write_of_two_bytes() {
    let mut bus = MockBus::answering(&[]);
    let done = Lsm6dsox::new(&mut bus).unwrap().configure_accel();
    assert_eq!(done, Ok(()));
    assert_eq!(bus.calls, vec![Call::Write { address: 0x6A, bytes: vec![0x10, 0x48] }]);
}

#[test]
fn configure_gyro_is_one_write_of_two_bytes() {
    let mut bus = MockBus::answering(&[]);
    let done = Lsm6dsox::new(&mut bus).unwrap().configure_gyro();
    assert_eq!(done, Ok(()));
    assert_eq!(bus.calls, vec![Call::Write { address: 0x6A, bytes: vec![0x11, 0x4C] }]);
}

#[test]
fn configure_returns_the_bus_error_and_does_not_retry() {
    let mut bus = MockBus::failing(BusError::Nack);
    assert_eq!(Lsm6dsox::new(&mut bus).unwrap().configure_accel(), Err(BusError::Nack));
    assert_eq!(bus.calls.len(), 1);
    let mut bus = MockBus::failing(BusError::ArbitrationLost);
    assert_eq!(
        Lsm6dsox::new(&mut bus).unwrap().configure_gyro(),
        Err(BusError::ArbitrationLost)
    );
    assert_eq!(bus.calls.len(), 1);
}

#[test]
fn read_accel_of_two_g_on_x() {
    let mut bus = MockBus::answering(&[0x00, 0x40, 0x00, 0x00, 0x00, 0x00]);
    let reading = Lsm6dsox::new(&mut bus).unwrap().read_accel().unwrap();
    assert_eq!(reading, Sample { x: 2 * ONE, y: 0, z: 0 });
    let g = in_units(reading);
    assert!((g[0] - 2.0).abs() < 1e-6);
    assert!(g[1].abs() < 1e-6);
    assert!(g[2].abs() < 1e-6);
}

#[test]
fn read_accel_is_one_burst_of_six_bytes_from_the_first_output() {
    let mut bus = MockBus::answering(&[1, 2, 3, 4, 5, 6]);
    let reading = Lsm6dsox::new(&mut bus).unwrap().read_accel();
    assert_eq!(reading, Ok(Sample { x: 0x0201 * 4, y: 0x0403 * 4, z: 0x0605 * 4 }));
    assert_eq!(
        bus.calls,
        vec![Call::WriteRead { address: 0x6A, bytes: vec![0x28], buffer_on_entry: vec![0; 6] }]
    );
}

#[test]
fn read_gyro_is_one_burst_of_six_bytes_from_the_first_output() {
    let mut bus = MockBus::answering(&[1, 2, 3, 4, 5, 6]);
    let reading = Lsm6dsox::new(&mut bus).unwrap().read_gyro();
    assert_eq!(reading, Ok(Sample { x: 0x0201 * 2000, y: 0x0403 * 2000, z: 0x0605 * 2000 }));
    assert_eq!(
        bus.calls,
        vec![Call::WriteRead { address: 0x6A, bytes: vec![0x22], buffer_on_entry: vec![0; 6] }]
    );
}

#[test]
fn read_gyro_scales_to_2000_dps() {
    let mut bus = MockBus::answering(&[0x00, 0x80, 0xFF, 0x7F, 0x00, 0x40]);
    let reading = Lsm6dsox::new(&mut bus).unwrap().read_gyro().unwrap();
    assert_eq!(reading, Sample { x: -2000 * ONE, y: 32767 * 2000, z: 1000 * ONE });
    let dps = in_units(reading);
    assert_eq!(dps[0], -2000.0);
    assert!((dps[1] - 1999.939).abs() < 1e-3);
    assert_eq!(dps[2], 1000.0);
}

#[test]
fn read_accel_negative_axes() {
    let mut bus = MockBus::answering(&[0xFF, 0xFF, 0x00, 0xC0, 0x00, 0x80]);
    let reading = Lsm6dsox::new(&mut bus).unwrap().read_accel().unwrap();
    assert_eq!(reading, Sample { x: -4, y: -2 * ONE, z: -4 * ONE });
    assert_eq!(in_units(reading)[2], -4.0);
}

#[test]
fn reads_return_the_bus_error_and_stop() {
    let mut bus = MockBus::failing(BusError::Timeout);
    assert_eq!(Lsm6dsox::new(&mut bus).unwrap().read_accel(), Err(BusError::Timeout));
    assert_eq!(bus.calls.len(), 1);
    let mut bus = MockBus::failing(BusError::Nack);
    assert_eq!(Lsm6dsox::new(&mut bus).unwrap().read_gyro(), Err(BusError::Nack));
    assert_eq!(bus.calls.len(), 1);
}

#[test]
fn reads_are_allowed_before_configuration() {
    let mut bus = MockBus::answering(&[0x00, 0x20, 0x00, 0x00, 0x00, 0x00]);
    {
        let mut device = Lsm6dsox::new(&mut bus).unwrap();
        assert_eq!(device.read_accel(), Ok(Sample { x: ONE, y: 0, z: 0 }));
        assert_eq!(device.read_gyro(), Ok(Sample { x: 500 * ONE, y: 0, z: 0 }));
    }
    assert_eq!(bus.calls.len(), 2);
}

#[test]
fn a_session_is_one_transaction_per_call_in_order() {
    let mut bus = MockBus::answering(&[0x6C, 0, 0, 0, 0, 0]);
    {
        let mut device = Lsm6dsox::new(&mut bus).unwrap();
        assert_eq!(device.read_id(), Ok(0x6C));
        assert_eq!(device.configure_accel(), Ok(()));
        assert_eq!(device.configure_gyro(), Ok(()));
        assert!(device.read_accel().is_ok());
        assert!(device.read_gyro().is_ok());
    }
    let sent: Vec<(u8, Vec<u8>)> = bus
        .calls
        .iter()
        .map(|call| match call {
            Call::Write { address, bytes } => (*address, bytes.clone()),
            Call::WriteRead { address, bytes, .. } => (*address, bytes.clone()),
        })
        .collect();
    assert_eq!(
        sent,
        vec![
            (0x6A, vec![0x0F]),
            (0x6A, vec![0x10, 0x48]),
            (0x6A, vec![0x11, 0x4C]),
            (0x6A, vec![0x28]),
            (0x6A, vec![0x22]),
        ]
    );
}

#[test]
fn the_driver_keeps_nothing_between_calls() {
    let mut bus = MockBus::answering(&[0x00, 0x40, 0x00, 0x00, 0x00, 0x00]);
    {
        let mut device = Lsm6dsox::new(&mut bus).unwrap();
        let first = device.read_accel();
        let second = device.read_accel();
        assert_eq!(first, second);
    }
    bus.failure = Some(BusError::Nack);
    {
        let mut device = Lsm6dsox::new(&mut bus).unwrap();
        assert_eq!(device.read_accel(), Err(BusError::Nack));
    }
    bus.failure = None;
    let mut device = Lsm6dsox::new(&mut bus).unwrap();
    assert_eq!(device.read_accel(), Ok(Sample { x: 2 * ONE, y: 0, z: 0 }));
}
