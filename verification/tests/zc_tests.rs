use std::sync::mpsc;
use std::sync::mpsc::{Receiver, Sender};

use rbd_dimmer::error::{RbdDimmerError, RbdDimmerErrorKind};
use rbd_dimmer::zc::{
    DevicesDimmerManager, DevicesDimmerManagerNotification, DimmerDevice, OutputPin, PinLevel,
    ZeroCrossingPin,
};

#[derive(Debug, Clone, PartialEq, Copy)]
enum PinState {
    Low,
    High,
    Unknow,
}

struct FakePin {
    pin_state: PinState,
}

impl FakePin {
    pub fn new() -> Self {
        Self { pin_state: PinState::Unknow }
    }
}

impl OutputPin for FakePin {
    fn level(&self) -> Option<PinLevel> {
        match self.pin_state {
            PinState::Low => Some(PinLevel::Low),
            PinState::High => Some(PinLevel::High),
            PinState::Unknow => None,
        }
    }

    fn set_high(&mut self) -> Result<(), RbdDimmerError> {
        self.pin_state = PinState::High;
        Ok(())
    }

    fn set_low(&mut self) -> Result<(), RbdDimmerError> {
        self.pin_state = PinState::Low;
        Ok(())
    }
}

struct FakeFailPin;

impl FakeFailPin {
    pub fn new() -> Self {
        FakeFailPin {}
    }
}

impl OutputPin for FakeFailPin {
    fn level(&self) -> Option<PinLevel> {
        None
    }

    fn set_high(&mut self) -> Result<(), RbdDimmerError> {
        Err(RbdDimmerError::from(RbdDimmerErrorKind::SetHigh))
    }

    fn set_low(&mut self) -> Result<(), RbdDimmerError> {
        Err(RbdDimmerError::from(RbdDimmerErrorKind::SetLow))
    }
}

#[test]
fn test_dimmer_device_pin_up_then_low() {
    let fake_pin = FakePin::new();
    let mut dim_device = DimmerDevice::new(0, fake_pin);

    dim_device.set_power(20);

    // Pin go high
    match dim_device.tick(10) {
        Ok(()) => assert_eq!(dim_device.pin().pin_state, PinState::High),
        Err(_) => panic!(),
    }

    // Pin go low
    match dim_device.tick(30) {
        Ok(()) => assert_eq!(dim_device.pin().pin_state, PinState::Low),
        Err(_) => panic!(),
    }
}

#[test]
fn test_dimmer_device_fail() {
    let fake_pin = FakeFailPin::new();
    let mut dim_device = DimmerDevice::new(0, fake_pin);

    dim_device.set_power(20);

    // Pin go high
    match dim_device.tick(10) {
        Ok(()) => panic!(),
        Err(e) => assert_eq!(e.kind, RbdDimmerErrorKind::SetHigh),
    }

    // Pin go low
    match dim_device.tick(30) {
        Ok(()) => panic!(),
        Err(e) => assert_eq!(e.kind, RbdDimmerErrorKind::SetLow),
    }
}

struct FakeZeroCrossPin {
    tx_zc: Sender<bool>,
    rx_zc: Receiver<bool>,
}

impl ZeroCrossingPin for FakeZeroCrossPin {
    fn wait_for_rising_edge(&mut self) -> Result<(), RbdDimmerError> {
        self.rx_zc.recv().unwrap();
        Ok(())
    }
}

impl FakeZeroCrossPin {
    pub fn new() -> Self {
        let (tx_zc, rx_zc): (Sender<bool>, Receiver<bool>) = mpsc::channel();
        Self { tx_zc, rx_zc }
    }
}

#[test]
fn test_devices_dimmer_manager_turn_device_up_then_down() {
    let fake_pin = FakePin::new();

    let dim_device = DimmerDevice::new(0, fake_pin);
    let zero_crossing_pin = FakeZeroCrossPin::new();
    let zc_sender = zero_crossing_pin.tx_zc.clone();
    let mut devices_dimmer_manager: DevicesDimmerManager<FakePin, FakeZeroCrossPin> =
        DevicesDimmerManager::new(zero_crossing_pin);

    // Add the device
    devices_dimmer_manager.add(dim_device);

    // Set power to 10 of device 0
    let tx_power = devices_dimmer_manager.sender();
    tx_power
        .send(DevicesDimmerManagerNotification { id: 0, power: 10 })
        .unwrap();

    // Send a ZC signal
    zc_sender.send(true).unwrap();

    let result = devices_dimmer_manager.wait_zero_crossing();

    assert!(result.is_ok());

    assert_eq!(
        devices_dimmer_manager.devices()[0].pin().pin_state,
        PinState::High
    );

    for _ in 1..11 {
        zc_sender.send(true).unwrap();

        let result = devices_dimmer_manager.wait_zero_crossing();

        assert!(result.is_ok());
    }

    assert_eq!(
        devices_dimmer_manager.devices()[0].pin().pin_state,
        PinState::Low
    );
}

// Eleven zero-crossing cycles at power 10 on a single channel: the first
// cycle drives the channel high (the counter starts its walk at the low
// half-cycle numbers, which all conduct at power 10), and by the eleventh
// cycle the counter has passed the power percentage and the channel settles
// low until the counter wraps.
#[test]
fn test_eleven_cycles_settle_low() {
    let dim_device = DimmerDevice::new(7, FakePin::new());
    let zero_crossing_pin = FakeZeroCrossPin::new();
    let zc_sender = zero_crossing_pin.tx_zc.clone();
    let mut manager: DevicesDimmerManager<FakePin, FakeZeroCrossPin> =
        DevicesDimmerManager::new(zero_crossing_pin);

    manager.add(dim_device);
    manager
        .sender()
        .send(DevicesDimmerManagerNotification { id: 7, power: 10 })
        .unwrap();

    let mut states = Vec::new();
    for _ in 0..11 {
        zc_sender.send(true).unwrap();
        assert!(manager.wait_zero_crossing().is_ok());
        states.push(manager.devices()[0].pin().pin_state);
    }

    // Cycles run the counter from 2 to 12: half-cycles 2..=10 conduct,
    // 11 and 12 do not.
    for (cycle, state) in states.iter().enumerate() {
        if cycle < 9 {
            assert_eq!(*state, PinState::High);
        } else {
            assert_eq!(*state, PinState::Low);
        }
    }
}

// A power update for an id nobody carries is drained but changes no device.
#[test]
fn test_unknown_id_update_changes_nothing() {
    let mut device = DimmerDevice::new(3, FakePin::new());
    device.set_power(50);
    let zero_crossing_pin = FakeZeroCrossPin::new();
    let zc_sender = zero_crossing_pin.tx_zc.clone();
    let mut manager: DevicesDimmerManager<FakePin, FakeZeroCrossPin> =
        DevicesDimmerManager::new(zero_crossing_pin);

    manager.add(device);
    manager
        .sender()
        .send(DevicesDimmerManagerNotification { id: 4, power: 0 })
        .unwrap();

    // Counter goes to 2; power stayed 50, so half-cycle 2 conducts.
    zc_sender.send(true).unwrap();
    assert!(manager.wait_zero_crossing().is_ok());
    assert_eq!(manager.devices()[0].pin().pin_state, PinState::High);
}

// The half-cycle counter wraps past 100 back to 1, so a channel at power 10
// conducts again once a new hundred begins.
#[test]
fn test_counter_wraps_after_hundred_cycles() {
    let dim_device = DimmerDevice::new(0, FakePin::new());
    let zero_crossing_pin = FakeZeroCrossPin::new();
    let zc_sender = zero_crossing_pin.tx_zc.clone();
    let mut manager: DevicesDimmerManager<FakePin, FakeZeroCrossPin> =
        DevicesDimmerManager::new(zero_crossing_pin);

    manager.add(dim_device);
    manager
        .sender()
        .send(DevicesDimmerManagerNotification { id: 0, power: 10 })
        .unwrap();

    // 99 cycles: counter 2..=100; the last of them is held off.
    for _ in 0..99 {
        zc_sender.send(true).unwrap();
        assert!(manager.wait_zero_crossing().is_ok());
    }
    assert_eq!(manager.devices()[0].pin().pin_state, PinState::Low);

    // One more cycle: the counter wraps to 1, the channel conducts again.
    zc_sender.send(true).unwrap();
    assert!(manager.wait_zero_crossing().is_ok());
    assert_eq!(manager.devices()[0].pin().pin_state, PinState::High);
}
