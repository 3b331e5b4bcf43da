//! Phase-control engine for AC power dimming.
//!
//! Given a mains zero-crossing reference and a set of triac-driven output
//! channels, the engine turns a per-channel 0–100 power percentage into a
//! timed assert/release pattern on each channel's trigger pin within every
//! AC half-cycle. A triac can be turned on at will but only turns off at the
//! next zero crossing, so to deliver X% power a channel is held off during the
//! first (100−X)% of a half-cycle and asserted for the rest; the stored
//! per-channel `threshold` is therefore `100 − power`.
//!
//! The crate is pure decision logic over abstract pin and timer capabilities:
//! the hardware layer supplies an output pin ([`zc::OutputPin`]) and an
//! edge-triggered input pin ([`zc::ZeroCrossingPin`]), runs the periodic
//! callback at the interval this crate computes, and mediates concurrent
//! access to the manager. The [`zc`] submodule offers an alternative
//! burst-control variant that switches whole half-cycles on the zero-crossing
//! event instead of slicing each half-cycle into ticks.

pub mod error;
pub mod zc;

use vstd::prelude::*;
use crate::error::{RbdDimmerError, RbdDimmerErrorKind};
use crate::zc::{OutputPin, PinLevel, ZeroCrossingPin};

verus! {

/// The mains frequency the engine is driven by.
#[derive(Debug, Clone, PartialEq, Eq, Structural)]
pub enum Frequency {
    /// 50 Hz mains (100 half-cycles per second).
    F50HZ,
    /// 60 Hz mains (120 half-cycles per second).
    F60HZ,
}

/// Duration in microseconds of one hundredth of a 50 Hz half-cycle.
pub const HZ_50_DURATION: u8 = 100;
/// Duration in microseconds of one hundredth of a 60 Hz half-cycle.
pub const HZ_60_DURATION: u8 = 83;

impl Frequency {
    /// The duration in microseconds of one percent of a half-cycle at this
    /// frequency.
    pub fn base_duration_micros(&self) -> (d: u8)
        ensures
            d == spec_base_duration_micros(*self),
    {
        match self {
            Frequency::F50HZ => HZ_50_DURATION,
            Frequency::F60HZ => HZ_60_DURATION,
        }
    }

    /// A human-readable name of the frequency.
    pub fn label(&self) -> (s: &'static str)
        ensures
            *self == Frequency::F50HZ ==> s@ == "50Hz"@,
            *self == Frequency::F60HZ ==> s@ == "60Hz"@,
    {
        match self {
            Frequency::F50HZ => "50Hz",
            Frequency::F60HZ => "60Hz",
        }
    }
}

/// The duration in microseconds of one percent of a half-cycle at the given
/// frequency.
pub open spec fn spec_base_duration_micros(f: Frequency) -> u8 {
    match f {
        Frequency::F50HZ => HZ_50_DURATION,
        Frequency::F60HZ => HZ_60_DURATION,
    }
}

/// The period in microseconds at which the tick scheduler must be invoked:
/// one base duration per tick step, so that `100 / step_size` invocations
/// cover one half-cycle.
pub open spec fn spec_timer_period_micros(f: Frequency, step_size: u8) -> int {
    spec_base_duration_micros(f) * step_size
}

/// The level a phase-control channel drives at tick `t`, given its threshold
/// `100 − power`: held off while `t` is below the threshold, asserted from
/// the threshold on. The output is asserted only during the final part of the
/// half-cycle because a triac, once conducting, turns off only at the next
/// zero crossing.
pub open spec fn phase_level(threshold: int, t: int) -> PinLevel {
    if t >= threshold {
        PinLevel::High
    } else {
        PinLevel::Low
    }
}

/// The phase-control model of a dimmer device: its identity, the tick
/// threshold it asserts its output from, and the level its pin is known to be
/// driven to.
pub struct DeviceModel {
    pub id: u8,
    pub threshold: u8,
    pub level: Option<PinLevel>,
}

impl DeviceModel {
    /// The power percentage the device delivers.
    pub open spec fn power(&self) -> int {
        100 - self.threshold
    }

    /// A device is well formed when its threshold stands for a power
    /// percentage, i.e. lies in `0 ..= 100`.
    pub open spec fn wf(&self) -> bool {
        self.threshold <= 100
    }
}

/// One phase-controlled dimmer: an identity, an owned trigger pin, and the
/// tick threshold derived from the power percentage to deliver.
pub struct DimmerDevice<O: OutputPin> {
    id: u8,
    pin: O,
    invert_power: u8,
}

impl<O: OutputPin> View for DimmerDevice<O> {
    type V = DeviceModel;

    closed spec fn view(&self) -> DeviceModel {
        DeviceModel { id: self.id, threshold: self.invert_power, level: self.pin.level() }
    }
}

impl<O: OutputPin> DimmerDevice<O> {
    /// A new device with the given identity, owning its pin, at power 0
    /// (threshold 100: never asserted within a half-cycle).
    pub fn new(id: u8, pin: O) -> (d: Self)
        ensures
            d@ == (DeviceModel { id, threshold: 100, level: pin.level() }),
            d@.wf(),
    {
        DimmerDevice { id, pin, invert_power: 100 }
    }

    /// Set the power of the device, as the percentage of each half-cycle the
    /// output conducts. The stored threshold is `100 − p`: the triac can be
    /// turned on at will but turns off only at the next zero crossing, so the
    /// output must be held off during the first `100 − p` ticks and asserted
    /// for the rest.
    pub fn set_power(&mut self, p: u8)
        requires
            p <= 100,
        ensures
            final(self)@ == (DeviceModel { threshold: (100 - p) as u8, ..old(self)@ }),
            final(self)@.power() == p,
            final(self)@.wf(),
    {
        self.invert_power = 100 - p;
    }

    /// Drive the pin for tick `t` of the current half-cycle: low below the
    /// threshold, high from the threshold on. On a failed write the fault
    /// names the transition that failed: [`RbdDimmerErrorKind::SetHigh`] when
    /// asserting high failed, [`RbdDimmerErrorKind::SetLow`] when releasing
    /// low failed.
    pub fn tick(&mut self, t: u8) -> (r: Result<(), RbdDimmerError>)
        ensures
            final(self)@.id == old(self)@.id,
            final(self)@.threshold == old(self)@.threshold,
            r is Ok ==> final(self)@.level == Some(phase_level(old(self)@.threshold as int, t as int)),
            r is Err ==> r->Err_0.kind == (if t >= old(self)@.threshold {
                RbdDimmerErrorKind::SetHigh
            } else {
                RbdDimmerErrorKind::SetLow
            }),
    {
        if t >= self.invert_power {
            match self.pin.set_high() {
                Ok(_) => Ok(()),
                Err(_) => Err(RbdDimmerError::from(RbdDimmerErrorKind::SetHigh)),
            }
        } else {
            match self.pin.set_low() {
                Ok(_) => Ok(()),
                Err(_) => Err(RbdDimmerError::from(RbdDimmerErrorKind::SetLow)),
            }
        }
    }

    /// Force the output low, as done when re-synchronizing at the tick
    /// ceiling or on a new zero crossing — except at full power (threshold
    /// 0), where the channel conducts continuously and is deliberately never
    /// cycled off. A failed write is ignored: the next tick drives the pin
    /// again.
    pub fn reset(&mut self)
        ensures
            final(self)@.id == old(self)@.id,
            final(self)@.threshold == old(self)@.threshold,
            old(self)@.threshold == 0 ==> *final(self) == *old(self),
    {
        if self.invert_power > 0 {
            let _ = self.pin.set_low();
        }
    }

    /// The pin used to turn the device on and off.
    pub fn pin(&self) -> (p: &O)
        ensures
            p.level() == self@.level,
    {
        &self.pin
    }
}

/// Configuration of the device manager.
pub struct DevicesDimmerManagerConfig<O: OutputPin, ZC: ZeroCrossingPin> {
    /// Pin that reports the mains zero crossing.
    pub zero_crossing_pin: ZC,
    /// The channels to manage.
    pub devices: Vec<DimmerDevice<O>>,
    /// The mains frequency the engine is driven by.
    pub frequency: Frequency,
    /// How far the tick counter advances per scheduler invocation. The
    /// scheduler period is multiplied by the same amount, so a larger step
    /// trades power resolution for fewer interrupts.
    pub step_size: u8,
    /// The tick ceiling. It stays below 100 because the zero-crossing
    /// detection itself needs a safety margin near the half-cycle boundary.
    pub tick_max: u8,
}

impl<O: OutputPin, ZC: ZeroCrossingPin> DevicesDimmerManagerConfig<O, ZC> {
    /// A configuration is well formed when the step advances the counter
    /// (`step_size ≥ 1`), the ceiling leaves the zero-crossing margin
    /// (`tick_max < 100`), and every channel is well formed.
    pub open spec fn wf(&self) -> bool {
        &&& self.step_size >= 1
        &&& self.tick_max < 100
        &&& forall|i: int|
            0 <= i < self.devices@.len() ==> (#[trigger] self.devices@[i])@.wf()
    }

    /// A configuration with the default tick step of 1 and the default tick
    /// ceiling of 95.
    pub fn default(
        zero_crossing_pin: ZC,
        devices: Vec<DimmerDevice<O>>,
        frequency: Frequency,
    ) -> (c: Self)
        ensures
            c.zero_crossing_pin == zero_crossing_pin,
            c.devices == devices,
            c.frequency == frequency,
            c.step_size == 1,
            c.tick_max == 95,
    {
        Self { zero_crossing_pin, devices, frequency, step_size: 1, tick_max: 95 }
    }

    /// The default configuration for 50 Hz mains.
    pub fn default_50_hz(zero_crossing_pin: ZC, devices: Vec<DimmerDevice<O>>) -> (c: Self)
        ensures
            c.zero_crossing_pin == zero_crossing_pin,
            c.devices == devices,
            c.frequency == Frequency::F50HZ,
            c.step_size == 1,
            c.tick_max == 95,
    {
        Self { zero_crossing_pin, devices, frequency: Frequency::F50HZ, step_size: 1, tick_max: 95 }
    }

    /// The default configuration for 60 Hz mains.
    pub fn default_60_hz(zero_crossing_pin: ZC, devices: Vec<DimmerDevice<O>>) -> (c: Self)
        ensures
            c.zero_crossing_pin == zero_crossing_pin,
            c.devices == devices,
            c.frequency == Frequency::F60HZ,
            c.step_size == 1,
            c.tick_max == 95,
    {
        Self { zero_crossing_pin, devices, frequency: Frequency::F60HZ, step_size: 1, tick_max: 95 }
    }
}

/// The model of the manager: the shared tick counter with its bounds, whether
/// the periodic timer is scheduled, and the models of the managed channels.
#[verifier::ext_equal]
pub struct ManagerModel {
    pub tick: u8,
    pub tick_max: u8,
    pub tick_step: u8,
    pub timer_scheduled: bool,
    pub devices: Seq<DeviceModel>,
}

impl ManagerModel {
    /// The manager is well formed when the tick counter sits inside
    /// `[0, tick_max]`, the bounds are as the configuration promised, and
    /// every channel is well formed.
    pub open spec fn wf(&self) -> bool {
        &&& self.tick <= self.tick_max
        &&& self.tick_max < 100
        &&& self.tick_step >= 1
        &&& forall|i: int| 0 <= i < self.devices.len() ==> (#[trigger] self.devices[i]).wf()
    }
}

/// The tick counter after one scheduler invocation. Below the ceiling the
/// counter advances by the step, clamped at the ceiling so an overshooting
/// step lands exactly on the boundary case; at (or, defensively, past) the
/// ceiling it stays put until a zero crossing resets it.
pub open spec fn next_tick(tick: int, tick_max: int, tick_step: int) -> int {
    if tick < tick_max {
        if tick + tick_step >= tick_max {
            tick_max
        } else {
            tick + tick_step
        }
    } else {
        tick
    }
}

/// Manager of the dimmer channels and of the shared tick counter. The
/// surrounding layer holds exactly one instance for the process lifetime
/// (behind its own synchronization), invokes [`Self::scheduler_tick`] from the
/// periodic timer at the interval [`init`](Self::init) computes, and calls
/// everything else from the foreground.
pub struct DevicesDimmerManager<O: OutputPin, ZC: ZeroCrossingPin> {
    zero_crossing_pin: ZC,
    devices: Vec<DimmerDevice<O>>,
    tick: u8,
    tick_max: u8,
    tick_step: u8,
    timer_scheduled: bool,
}

impl<O: OutputPin, ZC: ZeroCrossingPin> View for DevicesDimmerManager<O, ZC> {
    type V = ManagerModel;

    closed spec fn view(&self) -> ManagerModel {
        ManagerModel {
            tick: self.tick,
            tick_max: self.tick_max,
            tick_step: self.tick_step,
            timer_scheduled: self.timer_scheduled,
            devices: self.devices@.map_values(|d: DimmerDevice<O>| d@),
        }
    }
}

impl<O: OutputPin, ZC: ZeroCrossingPin> DevicesDimmerManager<O, ZC> {
    /// One-time construction of the manager singleton, stored in the slot the
    /// surrounding layer owns.
    ///
    /// On the first call the manager is built from the configuration with the
    /// tick counter parked at the ceiling (channels stay at rest until the
    /// first zero crossing), and the caller is told to install the periodic
    /// timer: the returned period in microseconds is the frequency's base
    /// duration times the step size. A later call is a no-op that returns
    /// `None`: initialization is idempotent and never installs a second timer
    /// nor duplicates the channel collection.
    pub fn init(
        manager: &mut Option<Self>,
        config: DevicesDimmerManagerConfig<O, ZC>,
    ) -> (timer_period_micros: Option<u64>)
        requires
            config.wf(),
        ensures
            (*old(manager)) is Some ==> *final(manager) == *old(manager)
                && timer_period_micros is None,
            (*old(manager)) is None ==> ({
                &&& (*final(manager)) matches Some(m)
                &&& m@ == (ManagerModel {
                    tick: config.tick_max,
                    tick_max: config.tick_max,
                    tick_step: config.step_size,
                    timer_scheduled: true,
                    devices: config.devices@.map_values(|d: DimmerDevice<O>| d@),
                })
                &&& m@.wf()
                &&& timer_period_micros matches Some(p)
                &&& p == spec_timer_period_micros(config.frequency, config.step_size)
            }),
    {
        if manager.is_some() {
            return None;
        }
        let base = config.frequency.base_duration_micros();
        proof {
            assert((base as int) * (config.step_size as int) <= 255 * 255) by (nonlinear_arith)
                requires
                    base <= 255,
                    config.step_size <= 255,
            ;
        }
        let period = (base as u64) * (config.step_size as u64);
        *manager = Some(DevicesDimmerManager {
            zero_crossing_pin: config.zero_crossing_pin,
            devices: config.devices,
            tick: config.tick_max,
            tick_max: config.tick_max,
            tick_step: config.step_size,
            timer_scheduled: true,
        });
        Some(period)
    }

    /// One invocation of the tick scheduler, called by the periodic timer.
    ///
    /// Below the ceiling, every channel is driven for the current tick — a
    /// single channel's pin fault is ignored and never keeps the other
    /// channels from being driven — and the counter advances by the step,
    /// clamped at the ceiling. At the ceiling, every channel is reset to its
    /// rest state instead and the counter stays put until the next zero
    /// crossing. The caller must not block to call this: on contention for
    /// the manager it skips the invocation entirely.
    #[verifier::loop_isolation(false)]
    pub fn scheduler_tick(&mut self)
        requires
            old(self)@.wf(),
        ensures
            final(self)@.wf(),
            final(self)@.tick_max == old(self)@.tick_max,
            final(self)@.tick_step == old(self)@.tick_step,
            final(self)@.timer_scheduled == old(self)@.timer_scheduled,
            final(self)@.tick == next_tick(
                old(self)@.tick as int,
                old(self)@.tick_max as int,
                old(self)@.tick_step as int,
            ),
            final(self)@.devices.len() == old(self)@.devices.len(),
            forall|i: int| 0 <= i < old(self)@.devices.len() ==> {
                &&& (#[trigger] final(self)@.devices[i]).id == old(self)@.devices[i].id
                &&& final(self)@.devices[i].threshold == old(self)@.devices[i].threshold
            },
            old(self)@.tick >= old(self)@.tick_max ==> forall|i: int|
                0 <= i < old(self)@.devices.len() && old(self)@.devices[i].threshold == 0
                    ==> (#[trigger] final(self)@.devices[i]) == old(self)@.devices[i],
    {
        let ghost pre = self@;
        let t = self.tick;
        let max = self.tick_max;
        let n = self.devices.len();
        if t < max {
            let mut i: usize = 0;
            while i < n
                invariant
                    i <= n,
                    n == self.devices@.len(),
                    self@.tick == pre.tick,
                    self@.tick_max == pre.tick_max,
                    self@.tick_step == pre.tick_step,
                    self@.timer_scheduled == pre.timer_scheduled,
                    forall|k: int| 0 <= k < n ==> {
                        &&& (#[trigger] self@.devices[k]).id == pre.devices[k].id
                        &&& self@.devices[k].threshold == pre.devices[k].threshold
                    },
                decreases n - i,
            {
                let ghost snap = self@.devices;
                let d = &mut self.devices[i];
                let _ = d.tick(t);
                proof {
                    assert forall|k: int| 0 <= k < n implies {
                        &&& (#[trigger] self@.devices[k]).id == pre.devices[k].id
                        &&& self@.devices[k].threshold == pre.devices[k].threshold
                    } by {
                        assert(snap[k].id == pre.devices[k].id
                            && snap[k].threshold == pre.devices[k].threshold);
                        if k != i as int {
                            assert(self@.devices[k] == snap[k]);
                        } else {
                            assert(self@.devices[k].id == snap[k].id);
                            assert(self@.devices[k].threshold == snap[k].threshold);
                        }
                    }
                }
                i += 1;
            }
            let stepped = (t as u16) + (self.tick_step as u16);
            self.tick = if stepped >= (max as u16) {
                max
            } else {
                stepped as u8
            };
        } else {
            let mut i: usize = 0;
            while i < n
                invariant
                    i <= n,
                    n == self.devices@.len(),
                    self@.tick == pre.tick,
                    self@.tick_max == pre.tick_max,
                    self@.tick_step == pre.tick_step,
                    self@.timer_scheduled == pre.timer_scheduled,
                    forall|k: int| 0 <= k < n ==> {
                        &&& (#[trigger] self@.devices[k]).id == pre.devices[k].id
                        &&& self@.devices[k].threshold == pre.devices[k].threshold
                    },
                    forall|k: int| 0 <= k < n && pre.devices[k].threshold == 0
                        ==> (#[trigger] self@.devices[k]) == pre.devices[k],
                decreases n - i,
            {
                let ghost snap = self@.devices;
                let d = &mut self.devices[i];
                d.reset();
                proof {
                    assert forall|k: int| 0 <= k < n implies {
                        &&& (#[trigger] self@.devices[k]).id == pre.devices[k].id
                        &&& self@.devices[k].threshold == pre.devices[k].threshold
                        &&& (pre.devices[k].threshold == 0 ==> self@.devices[k] == pre.devices[k])
                    } by {
                        assert(snap[k].id == pre.devices[k].id
                            && snap[k].threshold == pre.devices[k].threshold);
                        assert(pre.devices[k].threshold == 0 ==> snap[k] == pre.devices[k]);
                        if k != i as int {
                            assert(self@.devices[k] == snap[k]);
                        } else {
                            assert(self@.devices[k].id == snap[k].id);
                            assert(self@.devices[k].threshold == snap[k].threshold);
                        }
                    }
                }
                i += 1;
            }
        }
    }

    /// Block until the zero-crossing pin reports the mains edge, then rearm
    /// the scheduler for the fresh half-cycle by resetting the tick counter
    /// to 0. When the wait itself fails nothing is touched: the fault is
    /// surfaced and the caller decides whether to retry.
    fn wait_zero_crossing(&mut self) -> (r: Result<(), RbdDimmerError>)
        ensures
            r is Ok ==> final(self)@ == (ManagerModel { tick: 0, ..old(self)@ }),
            r matches Err(e) ==> final(self)@ == old(self)@
                && e.kind == RbdDimmerErrorKind::Other
                && e.message@ == "Fail to wait signal on Zero Cross pin"@,
    {
        let result = self.zero_crossing_pin.wait_for_rising_edge();

        match result {
            Ok(_) => {
                self.tick = 0;
                Ok(())
            },
            Err(_) => Err(RbdDimmerError::other(
                "Fail to wait signal on Zero Cross pin".to_owned(),
            )),
        }
    }

    /// Stop driving channels: park the tick counter at the ceiling, so any
    /// in-flight scheduler invocation sees the boundary case and performs a
    /// clean reset of all channels rather than leaving them mid-cycle, and
    /// mark the timer as no longer scheduled. The returned flag tells the
    /// caller whether a periodic timer was scheduled and must now actually be
    /// cancelled; a hardware-level cancellation fault is the caller's to
    /// report (kind [`RbdDimmerErrorKind::TimerCancel`]).
    fn stop(&mut self) -> (r: Result<bool, RbdDimmerError>)
        ensures
            final(self)@ == (ManagerModel {
                tick: old(self)@.tick_max,
                timer_scheduled: false,
                ..old(self)@
            }),
            r matches Ok(was_scheduled) && was_scheduled == old(self)@.timer_scheduled,
    {
        self.tick = self.tick_max;
        let was_scheduled = self.timer_scheduled;
        self.timer_scheduled = false;
        Ok(was_scheduled)
    }

    /// The devices under management.
    pub fn devices(&self) -> (ds: &Vec<DimmerDevice<O>>)
        ensures
            ds@.map_values(|d: DimmerDevice<O>| d@) == self@.devices,
    {
        &self.devices
    }

    /// The current value of the tick counter.
    pub fn current_tick(&self) -> (t: u8)
        ensures
            t == self@.tick,
    {
        self.tick
    }
}

/// True when some device in `ds` carries the id.
pub open spec fn has_device(ds: Seq<DeviceModel>, id: u8) -> bool {
    exists|i: int| 0 <= i < ds.len() && ds[i].id == id
}

/// Set the power of the device with the given id, in percent of each
/// half-cycle.
///
/// When no device carries the id — also when the manager slot is still empty,
/// so no devices exist at all — the call fails with
/// [`RbdDimmerErrorKind::DimmerNotFound`] and leaves every existing channel
/// unmodified. Otherwise the first device with the id has its threshold
/// recomputed to `100 − power` and nothing else changes. The scheduler is
/// never stalled by this call: the surrounding layer acquires the manager
/// briefly and the mutation is a single store.
#[verifier::loop_isolation(false)]
pub fn set_power<O: OutputPin, ZC: ZeroCrossingPin>(
    manager: &mut Option<DevicesDimmerManager<O, ZC>>,
    id: u8,
    power: u8,
) -> (r: Result<(), RbdDimmerError>)
    requires
        power <= 100,
    ensures
        (*old(manager)) is None ==> (*final(manager)) is None
            && (r matches Err(e) && e.kind == RbdDimmerErrorKind::DimmerNotFound),
        (*old(manager)) matches Some(m) ==> ({
            &&& (*final(manager)) matches Some(m2)
            &&& !has_device(m@.devices, id) ==> ({
                &&& (r matches Err(e) && e.kind == RbdDimmerErrorKind::DimmerNotFound)
                &&& m2 == m
            })
            &&& has_device(m@.devices, id) ==> ({
                &&& r is Ok
                &&& exists|j: int| {
                    &&& 0 <= j < m@.devices.len()
                    &&& m@.devices[j].id == id
                    &&& (forall|k: int| 0 <= k < j ==> (#[trigger] m@.devices[k]).id != id)
                    &&& m2@ == (ManagerModel {
                        devices: m@.devices.update(j, (DeviceModel {
                            threshold: (100 - power) as u8,
                            ..m@.devices[j]
                        })),
                        ..m@
                    })
                }
            })
        }),
{
    match manager {
        None => Err(RbdDimmerError::from(RbdDimmerErrorKind::DimmerNotFound)),
        Some(m) => {
            let ghost m0 = *m;
            let ghost pre = m@;
            let n = m.devices.len();
            let mut i: usize = 0;
            while i < n
                invariant
                    i <= n,
                    n == m.devices@.len(),
                    *m == m0,
                    forall|k: int| 0 <= k < i ==> (#[trigger] pre.devices[k]).id != id,
                decreases n - i,
            {
                if m.devices[i].id == id {
                    let ghost snap = m@.devices;
                    let d = &mut m.devices[i];
                    d.set_power(power);
                    proof {
                        let j = i as int;
                        assert(m@.devices[j] == (DeviceModel {
                            threshold: (100 - power) as u8,
                            ..pre.devices[j]
                        }));
                        assert forall|k: int| 0 <= k < n && k != j implies
                            #[trigger] m@.devices[k] == pre.devices[k] by {
                            assert(m@.devices[k] == snap[k]);
                        }
                        assert(m@.devices =~= pre.devices.update(j, (DeviceModel {
                            threshold: (100 - power) as u8,
                            ..pre.devices[j]
                        })));
                        assert(m@ =~= (ManagerModel {
                            devices: pre.devices.update(j, (DeviceModel {
                                threshold: (100 - power) as u8,
                                ..pre.devices[j]
                            })),
                            ..pre
                        }));
                        assert(pre.devices[j].id == id);
                        assert(forall|k: int| 0 <= k < j ==> (#[trigger] pre.devices[k]).id != id);
                    }
                    return Ok(());
                }
                i += 1;
            }
            Err(RbdDimmerError::from(RbdDimmerErrorKind::DimmerNotFound))
        },
    }
}

/// Stop the manager: park the tick counter at the ceiling and mark the timer
/// as no longer scheduled; the returned flag tells the caller whether a
/// periodic timer must now actually be cancelled (see
/// [`DevicesDimmerManager::stop`]). Fails with
/// [`RbdDimmerErrorKind::DimmerManagerNotInit`] when called before `init`.
pub fn stop<O: OutputPin, ZC: ZeroCrossingPin>(
    manager: &mut Option<DevicesDimmerManager<O, ZC>>,
) -> (r: Result<bool, RbdDimmerError>)
    ensures
        (*old(manager)) is None ==> (*final(manager)) is None
            && (r matches Err(e) && e.kind == RbdDimmerErrorKind::DimmerManagerNotInit),
        (*old(manager)) matches Some(m) ==> ({
            &&& (*final(manager)) matches Some(m2)
            &&& m2@ == (ManagerModel { tick: m@.tick_max, timer_scheduled: false, ..m@ })
            &&& (r matches Ok(was_scheduled) && was_scheduled == m@.timer_scheduled)
        }),
{
    match manager {
        None => Err(RbdDimmerError::from(RbdDimmerErrorKind::DimmerManagerNotInit)),
        Some(m) => m.stop(),
    }
}

/// Block until the next mains zero crossing, then rearm the scheduler by
/// resetting the tick counter to 0, and return `Ok(true)`. Fails with
/// [`RbdDimmerErrorKind::DimmerManagerNotInit`] when called before `init`,
/// and with [`RbdDimmerErrorKind::Other`] when the wait on the zero-crossing
/// pin itself failed — in that case nothing is touched and the channel states
/// are stale until the next successful call; retrying is the caller's policy.
pub fn wait_zero_crossing<O: OutputPin, ZC: ZeroCrossingPin>(
    manager: &mut Option<DevicesDimmerManager<O, ZC>>,
) -> (r: Result<bool, RbdDimmerError>)
    ensures
        (*old(manager)) is None ==> (*final(manager)) is None
            && (r matches Err(e) && e.kind == RbdDimmerErrorKind::DimmerManagerNotInit),
        (*old(manager)) matches Some(m) ==> ({
            &&& (*final(manager)) matches Some(m2)
            &&& (r matches Ok(b) ==> b == true && m2@ == (ManagerModel { tick: 0, ..m@ }))
            &&& (r matches Err(e) ==> m2@ == m@ && e.kind == RbdDimmerErrorKind::Other
                && e.message@ == "Fail to wait signal on Zero Cross pin"@)
        }),
{
    match manager {
        None => Err(RbdDimmerError::from(RbdDimmerErrorKind::DimmerManagerNotInit)),
        Some(m) => match m.wait_zero_crossing() {
            Ok(()) => Ok(true),
            Err(e) => Err(e),
        },
    }
}

/// The channel output is monotonic in the tick: once a tick at or past the
/// threshold has driven the output high, every later tick of the same
/// half-cycle drives it high as well, and ticks below the threshold drive it
/// low — exactly the phase-control pattern for `power = 100 − threshold`.
pub proof fn lemma_phase_level_monotonic(threshold: int, t1: int, t2: int)
    requires
        t1 <= t2,
    ensures
        t1 < threshold <==> phase_level(threshold, t1) is Low,
        t1 >= threshold <==> phase_level(threshold, t1) is High,
        phase_level(threshold, t1) is High ==> phase_level(threshold, t2) is High,
{
}

/// At the power extremes the output never moves: a channel at power 0
/// (threshold 100) is low on every tick a scheduler can reach (the tick
/// ceiling stays below 100), and a channel at power 100 (threshold 0) is high
/// on every tick.
pub proof fn lemma_phase_level_extremes(t: int)
    requires
        0 <= t,
    ensures
        t < 100 ==> phase_level(100, t) is Low,
        phase_level(0, t) is High,
{
}

/// After a successful zero-crossing wait has reset the counter, tick 0 is
/// observed exactly once: the first scheduler invocation runs at tick 0 and
/// advances the counter to at least 1, and every later invocation keeps it at
/// 1 or above, until the next zero crossing resets it again. This needs a
/// ceiling of at least 1 — with `tick_max = 0` the scheduler is permanently
/// at the boundary and never advances at all.
pub proof fn lemma_tick_zero_observed_once(tick_max: int, tick_step: int)
    requires
        1 <= tick_max,
        1 <= tick_step,
    ensures
        next_tick(0, tick_max, tick_step) >= 1,
        forall|t: int| 1 <= t ==> next_tick(t, tick_max, tick_step) >= 1,
{
}

} // verus!
