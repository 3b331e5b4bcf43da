//! Zero-crossing burst control, and the pin capabilities both variants share.
//!
//! Unlike the phase-control engine at the crate root, which slices every
//! half-cycle into ticks, this variant switches channels only on the
//! zero-crossing event itself: a channel with power X% conducts for the first
//! X of every 100 half-cycles and is held off for the rest. Power changes are
//! queued through a mailbox and applied when the next zero crossing is
//! handled, so callers never share mutable state with the handler.

use vstd::prelude::*;
use crate::error::{RbdDimmerError, RbdDimmerErrorKind};
use std::sync::mpsc::{Receiver, Sender};

verus! {

/// The level an output pin is driven to.
#[derive(Debug, Clone, Copy, PartialEq, Eq, Structural)]
pub enum PinLevel {
    /// The trigger drive is released: the triac stops conducting at the next
    /// zero crossing.
    Low,
    /// The trigger drive is asserted: the triac conducts.
    High,
}

/// A trigger-output capability, supplied by the hardware layer.
///
/// `level` is the level the implementation knows the output to be driven to,
/// `None` while it is unknown (for example before the first write). A write
/// that returns `Ok` must leave the pin at the requested level; nothing is
/// promised about a failed write.
pub trait OutputPin {
    /// The level the output is currently driven to, if known.
    spec fn level(&self) -> Option<PinLevel>;

    /// Assert the output high.
    fn set_high(&mut self) -> (r: Result<(), RbdDimmerError>)
        ensures
            r is Ok ==> final(self).level() == Some(PinLevel::High),
    ;

    /// Release the output low.
    fn set_low(&mut self) -> (r: Result<(), RbdDimmerError>)
        ensures
            r is Ok ==> final(self).level() == Some(PinLevel::Low),
    ;
}

/// The zero-crossing input capability, supplied by the hardware layer.
///
/// Whether the edge reported is the rising or the falling one is the
/// implementation's wiring policy; the engine only relies on one report per
/// half-cycle boundary.
pub trait ZeroCrossingPin {
    /// Block the calling context until the mains signal crosses zero.
    fn wait_for_rising_edge(&mut self) -> (r: Result<(), RbdDimmerError>);
}

/// An in-memory output pin whose writes always succeed; a stand-in where no
/// hardware is attached.
pub struct SoftOutputPin {
    state: Option<PinLevel>,
}

impl SoftOutputPin {
    /// A pin whose level is not yet known.
    pub fn new() -> (p: Self)
        ensures
            p.level() is None,
    {
        SoftOutputPin { state: None }
    }

    /// The level last written, if any.
    pub fn current_level(&self) -> (l: Option<PinLevel>)
        ensures
            l == self.level(),
    {
        self.state
    }
}

impl OutputPin for SoftOutputPin {
    closed spec fn level(&self) -> Option<PinLevel> {
        self.state
    }

    fn set_high(&mut self) -> (r: Result<(), RbdDimmerError>)
        ensures
            r is Ok ==> final(self).level() == Some(PinLevel::High),
    {
        self.state = Some(PinLevel::High);
        Ok(())
    }

    fn set_low(&mut self) -> (r: Result<(), RbdDimmerError>)
        ensures
            r is Ok ==> final(self).level() == Some(PinLevel::Low),
    {
        self.state = Some(PinLevel::Low);
        Ok(())
    }
}

/// The level a burst-control channel drives during half-cycle `t` of a
/// hundred, given its power percentage: the first `power` half-cycles conduct,
/// the rest are held off.
pub open spec fn burst_level(power: int, t: int) -> PinLevel {
    if t > power {
        PinLevel::Low
    } else {
        PinLevel::High
    }
}

/// The burst-control model of a dimmer device: its identity, its power
/// percentage, and the level its pin is known to be driven to.
pub struct DeviceModel {
    pub id: u8,
    pub power: u8,
    pub level: Option<PinLevel>,
}

/// One burst-controlled dimmer: an identity, an owned trigger pin, and the
/// power percentage to deliver.
pub struct DimmerDevice<O: OutputPin> {
    id: u8,
    pin: O,
    power: u8,
}

impl<O: OutputPin> View for DimmerDevice<O> {
    type V = DeviceModel;

    closed spec fn view(&self) -> DeviceModel {
        DeviceModel { id: self.id, power: self.power, level: self.pin.level() }
    }
}

impl<O: OutputPin> DimmerDevice<O> {
    /// A new device with the given identity, owning its pin, at power 0.
    pub fn new(id: u8, pin: O) -> (d: Self)
        ensures
            d@ == (DeviceModel { id, power: 0, level: pin.level() }),
    {
        Self { id, pin, power: 0 }
    }

    /// Set the power of the device, as the percentage of half-cycles the
    /// output conducts.
    pub fn set_power(&mut self, p: u8)
        ensures
            final(self)@ == (DeviceModel { power: p, ..old(self)@ }),
    {
        self.power = p;
    }

    /// Drive the pin for half-cycle `t` of the current hundred: high while
    /// `t` has not passed the device's power percentage, low after. A failed
    /// pin write is returned as the pin reported it.
    pub fn tick(&mut self, t: u8) -> (r: Result<(), RbdDimmerError>)
        ensures
            final(self)@.id == old(self)@.id,
            final(self)@.power == old(self)@.power,
            r is Ok ==> final(self)@.level == Some(burst_level(old(self)@.power as int, t as int)),
    {
        // If power percent is over, shutdown pin
        if t > self.power {
            return self.pin.set_low();
        }

        self.pin.set_high()
    }

    /// The pin used to turn the device on and off.
    pub fn pin(&self) -> (p: &O)
        ensures
            p.level() == self@.level,
    {
        &self.pin
    }
}

/// A power change queued for the manager: which device, and its new power.
#[derive(Debug)]
pub struct DevicesDimmerManagerNotification {
    /// Id of the device.
    pub id: u8,
    /// New power value.
    pub power: u8,
}

/// `std::sync::mpsc::Sender`, declared so a sending handle can stand in
/// fields and signatures; its values are opaque here.
#[verifier::external_type_specification]
#[verifier::external_body]
#[verifier::reject_recursive_types(T)]
pub struct ExSender<T>(Sender<T>);

/// `std::sync::mpsc::Receiver`, declared so the receiving end can stand in
/// fields and signatures; its values are opaque here.
#[verifier::external_type_specification]
#[verifier::external_body]
#[verifier::reject_recursive_types(T)]
pub struct ExReceiver<T>(Receiver<T>);

/// Relies on `std::sync::mpsc::channel`: a fresh unbounded channel whose
/// receiving end yields what the sending handles queue.
#[verifier::external_body]
fn notification_channel() -> (Sender<DevicesDimmerManagerNotification>, Receiver<
    DevicesDimmerManagerNotification,
>) {
    std::sync::mpsc::channel()
}

/// Relies on `Clone for std::sync::mpsc::Sender`: a second sending handle to
/// the same channel.
#[verifier::external_body]
fn clone_sender(tx: &Sender<DevicesDimmerManagerNotification>) -> Sender<
    DevicesDimmerManagerNotification,
> {
    tx.clone()
}

/// Relies on `std::sync::mpsc::Receiver::try_recv`, which never blocks: it
/// pops one queued message, or reports the queue empty, or reports every
/// sending handle gone. The poll loop lives here rather than in verified code
/// because how many messages are queued is owned by the channel and its
/// concurrent senders, so no termination measure for it exists in this crate.
/// Returns the drained messages in arrival order, and whether the channel
/// reported disconnection; what the messages hold is decided by the senders,
/// so nothing is claimed about them.
#[verifier::external_body]
fn drain_notifications(rx: &Receiver<DevicesDimmerManagerNotification>) -> (Vec<
    DevicesDimmerManagerNotification,
>, bool) {
    let mut messages = Vec::new();
    loop {
        match rx.try_recv() {
            Ok(data) => messages.push(data),
            Err(std::sync::mpsc::TryRecvError::Empty) => return (messages, false),
            Err(std::sync::mpsc::TryRecvError::Disconnected) => return (messages, true),
        }
    }
}

/// True when some device in `ds` carries the id.
pub open spec fn has_device(ds: Seq<DeviceModel>, id: u8) -> bool {
    exists|i: int| 0 <= i < ds.len() && ds[i].id == id
}

/// The half-cycle counter after one zero-crossing cycle: it walks upward and
/// wraps back to 1 past 100, so each value stands for one half-cycle of the
/// current hundred.
pub open spec fn next_counter(counter: int) -> int {
    if counter + 1 > 100 {
        1
    } else {
        counter + 1
    }
}

/// The model of the burst-control manager: the models of its channels and
/// the half-cycle counter.
#[verifier::ext_equal]
pub struct ManagerModel {
    pub devices: Seq<DeviceModel>,
    pub counter: u8,
}

impl ManagerModel {
    /// The manager is well formed when the counter names a half-cycle of the
    /// current hundred.
    pub open spec fn wf(&self) -> bool {
        1 <= self.counter <= 100
    }
}

/// Burst-control manager: owns the channels, the zero-crossing input and the
/// receiving end of the power-update mailbox. All channel updates happen on
/// the caller's context inside [`Self::wait_zero_crossing`]; other threads
/// only queue messages through [`Self::sender`], so no state is shared.
pub struct DevicesDimmerManager<O: OutputPin, ZC: ZeroCrossingPin> {
    devices: Vec<DimmerDevice<O>>,
    zero_crossing_pin: ZC,
    tx_power_change: Sender<DevicesDimmerManagerNotification>,
    rx_power_change: Receiver<DevicesDimmerManagerNotification>,
    counter: u8,
}

impl<O: OutputPin, ZC: ZeroCrossingPin> View for DevicesDimmerManager<O, ZC> {
    type V = ManagerModel;

    closed spec fn view(&self) -> ManagerModel {
        ManagerModel {
            devices: self.devices@.map_values(|d: DimmerDevice<O>| d@),
            counter: self.counter,
        }
    }
}

impl<O: OutputPin, ZC: ZeroCrossingPin> DevicesDimmerManager<O, ZC> {
    /// A new manager with no devices, counting half-cycles from 1, with a
    /// fresh power-update mailbox.
    pub fn new(zero_crossing_pin: ZC) -> (m: Self)
        ensures
            m@.devices.len() == 0,
            m@.counter == 1,
            m@.wf(),
    {
        let (tx_power_change, rx_power_change): (
            Sender<DevicesDimmerManagerNotification>,
            Receiver<DevicesDimmerManagerNotification>,
        ) = notification_channel();

        Self { devices: Vec::new(), zero_crossing_pin, tx_power_change, rx_power_change, counter: 1 }
    }

    /// Handle one zero-crossing cycle: apply every queued power update, block
    /// until the zero-crossing pin reports the mains edge, advance the
    /// half-cycle counter (wrapping past 100 back to 1), and drive every
    /// channel for the new half-cycle — a single channel's pin fault never
    /// keeps the other channels from being driven.
    ///
    /// Fails with [`RbdDimmerErrorKind::ChannelCommunicationDisconnected`]
    /// without touching the counter when the mailbox has lost all its
    /// senders; when the edge wait itself fails, the counter has still
    /// advanced and the channels have still been driven, and the pin's own
    /// error is returned.
    pub fn wait_zero_crossing(&mut self) -> (r: Result<(), RbdDimmerError>)
        requires
            old(self)@.wf(),
        ensures
            final(self)@.wf(),
            final(self)@.devices.len() == old(self)@.devices.len(),
            forall|i: int| 0 <= i < old(self)@.devices.len()
                ==> (#[trigger] final(self)@.devices[i]).id == old(self)@.devices[i].id,
            final(self)@.counter == old(self)@.counter
                || final(self)@.counter == next_counter(old(self)@.counter as int),
            r is Ok ==> final(self)@.counter == next_counter(old(self)@.counter as int),
    {
        if self.read_power_update_message().is_err() {
            return Err(RbdDimmerError::from(
                RbdDimmerErrorKind::ChannelCommunicationDisconnected,
            ));
        }

        let result = self.zero_crossing_pin.wait_for_rising_edge();

        self.counter += 1;

        if self.counter > 100 {
            self.counter = 1;
        }

        let counter = self.counter;
        self.call_all_dimmer(counter);

        result
    }

    /// A sending handle for queueing power updates into the manager's
    /// mailbox from any thread.
    pub fn sender(&self) -> Sender<DevicesDimmerManagerNotification> {
        clone_sender(&self.tx_power_change)
    }

    /// Put one more device under management.
    pub fn add(&mut self, device: DimmerDevice<O>)
        ensures
            final(self)@.devices == old(self)@.devices.push(device@),
            final(self)@.counter == old(self)@.counter,
    {
        let ghost pre = self@.devices;
        self.devices.push(device);
        proof {
            assert(self@.devices =~= pre.push(device@));
        }
    }

    /// The devices under management.
    pub fn devices(&self) -> (ds: &Vec<DimmerDevice<O>>)
        ensures
            ds@.map_values(|d: DimmerDevice<O>| d@) == self@.devices,
    {
        &self.devices
    }

    /// Apply every power update queued in the mailbox, in arrival order.
    /// Fails with [`RbdDimmerErrorKind::ChannelCommunicationDisconnected`]
    /// when every sending handle is gone; updates drained before the
    /// disconnection was noticed have still been applied.
    fn read_power_update_message(&mut self) -> (r: Result<(), RbdDimmerError>)
        ensures
            final(self)@.counter == old(self)@.counter,
            final(self)@.devices.len() == old(self)@.devices.len(),
            forall|i: int| 0 <= i < old(self)@.devices.len()
                ==> (#[trigger] final(self)@.devices[i]).id == old(self)@.devices[i].id,
            r matches Err(e) ==> e.kind == RbdDimmerErrorKind::ChannelCommunicationDisconnected,
    {
        let (messages, disconnected) = drain_notifications(&self.rx_power_change);

        let n = messages.len();
        let mut i: usize = 0;
        while i < n
            invariant
                i <= n,
                n == messages@.len(),
                self@.counter == old(self)@.counter,
                self@.devices.len() == old(self)@.devices.len(),
                forall|k: int| 0 <= k < old(self)@.devices.len()
                    ==> (#[trigger] self@.devices[k]).id == old(self)@.devices[k].id,
            decreases n - i,
        {
            self.update_dimmer_power(&messages[i]);
            i += 1;
        }

        if disconnected {
            Err(RbdDimmerError::from(RbdDimmerErrorKind::ChannelCommunicationDisconnected))
        } else {
            Ok(())
        }
    }

    /// Apply one power update: the first device carrying the id gets the new
    /// power; an unknown id changes nothing.
    #[verifier::loop_isolation(false)]
    fn update_dimmer_power(&mut self, data: &DevicesDimmerManagerNotification)
        ensures
            final(self)@.counter == old(self)@.counter,
            final(self)@.devices.len() == old(self)@.devices.len(),
            !has_device(old(self)@.devices, data.id) ==> *final(self) == *old(self),
            has_device(old(self)@.devices, data.id) ==> exists|j: int| {
                &&& 0 <= j < old(self)@.devices.len()
                &&& old(self)@.devices[j].id == data.id
                &&& (forall|k: int| 0 <= k < j
                    ==> (#[trigger] old(self)@.devices[k]).id != data.id)
                &&& final(self)@.devices == old(self)@.devices.update(j, (DeviceModel {
                    power: data.power,
                    ..old(self)@.devices[j]
                }))
            },
    {
        let ghost pre = self@.devices;
        let n = self.devices.len();
        let mut i: usize = 0;
        while i < n
            invariant
                i <= n,
                n == self.devices@.len(),
                *self == *old(self),
                forall|k: int| 0 <= k < i ==> (#[trigger] pre[k]).id != data.id,
            decreases n - i,
        {
            if self.devices[i].id == data.id {
                let ghost snap = self@.devices;
                let d = &mut self.devices[i];
                d.set_power(data.power);
                proof {
                    let j = i as int;
                    assert(self@.devices[j] == (DeviceModel {
                        power: data.power,
                        ..pre[j]
                    }));
                    assert forall|k: int| 0 <= k < n && k != j implies
                        #[trigger] self@.devices[k] == pre[k] by {
                        assert(self@.devices[k] == snap[k]);
                    }
                    assert(self@.devices =~= pre.update(j, (DeviceModel {
                        power: data.power,
                        ..pre[j]
                    })));
                    assert(pre[j].id == data.id);
                    assert(forall|k: int| 0 <= k < j ==> (#[trigger] pre[k]).id != data.id);
                }
                return;
            }
            i += 1;
        }
    }

    /// Drive every channel for half-cycle `counter`, ignoring individual pin
    /// faults so that one failing channel never blocks the others.
    fn call_all_dimmer(&mut self, counter: u8)
        ensures
            final(self)@.counter == old(self)@.counter,
            final(self)@.devices.len() == old(self)@.devices.len(),
            forall|i: int| 0 <= i < old(self)@.devices.len() ==> {
                &&& (#[trigger] final(self)@.devices[i]).id == old(self)@.devices[i].id
                &&& final(self)@.devices[i].power == old(self)@.devices[i].power
            },
    {
        let ghost pre = self@;
        let n = self.devices.len();
        let mut i: usize = 0;
        while i < n
            invariant
                i <= n,
                n == self.devices@.len(),
                self@.counter == pre.counter,
                pre.devices.len() == n,
                forall|k: int| 0 <= k < n ==> {
                    &&& (#[trigger] self@.devices[k]).id == pre.devices[k].id
                    &&& self@.devices[k].power == pre.devices[k].power
                },
            decreases n - i,
        {
            let ghost snap = self@.devices;
            let d = &mut self.devices[i];
            let _ = d.tick(counter);
            proof {
                assert forall|k: int| 0 <= k < n implies {
                    &&& (#[trigger] self@.devices[k]).id == pre.devices[k].id
                    &&& self@.devices[k].power == pre.devices[k].power
                } by {
                    assert(snap[k].id == pre.devices[k].id
                        && snap[k].power == pre.devices[k].power);
                    if k != i as int {
                        assert(self@.devices[k] == snap[k]);
                    } else {
                        assert(self@.devices[k].id == snap[k].id);
                        assert(self@.devices[k].power == snap[k].power);
                    }
                }
            }
            i += 1;
        }
    }
}

} // verus!
