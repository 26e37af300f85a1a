//! The device command dispatcher.
//!
//! One dispatcher owns the bus shared by the PWM motor driver and the inertial
//! sensor. For each command it decides the bus operations to perform, in
//! order, or the error that refuses the command; whoever holds the bus carries
//! the operations out one at a time, which keeps every transaction on the bus
//! serialised. `DeviceState` carries them out on a simulated pair of devices.

use vstd::prelude::*;
use vstd::array::spec_array_update;
use crate::pwm::{drive_writes, ChannelWrite, MotorChannels, WheelDrive, CHANNEL_COUNT};

verus! {

/// Prescale value written to the PWM controller when it is configured.
pub const PWM_PRESCALE: u8 = 100;

/// First bus address probed by the diagnostic scan.
pub const SCAN_FIRST: u8 = 0x03;

/// One past the last bus address probed by the diagnostic scan.
pub const SCAN_END: u8 = 0x78;

/// Errors surfaced by the dispatcher: `P` is the motor driver's error, `I`
/// the sensor's, and `A` the sensor's data-conversion error.
#[derive(Debug)]
pub enum DeviceError<P, I, A> {
    /// The motor driver's bus transaction failed.
    PwmError(P),
    /// The sensor's bus transaction failed.
    ImuError(I),
    /// The sensor's raw data could not be converted.
    AccelError(A),
    /// The sensor is absent.
    ImuNotInitialized,
    /// The motor driver is absent.
    PwmNotInitialized,
}

/// Power modes the dispatcher puts the inertial sensor in.
#[derive(Clone, Copy, Debug, PartialEq, Eq, Structural)]
pub enum ImuPowerMode {
    Sleep,
    SixAxisLowNoise,
}

/// One transaction on the shared bus.
#[derive(Clone, Copy, Debug, PartialEq, Eq, Structural)]
pub enum BusOp {
    /// Write one channel of the motor driver.
    SetChannel(ChannelWrite),
    /// Wake the motor driver's outputs.
    PwmEnable,
    /// Put the motor driver's outputs to sleep.
    PwmDisable,
    /// Set the motor driver's prescale, which fixes its PWM rate.
    PwmPrescale(u8),
    /// Put the sensor in a power mode.
    ImuPower(ImuPowerMode),
    /// Read acceleration, rotation rate and temperature from the sensor.
    ReadImu,
}

/// A command as it reaches the bus: motion commands have already been turned
/// into one drive per wheel by the kinematics.
#[derive(Clone, Copy, Debug)]
pub enum DeviceRequest {
    Drive([WheelDrive; 3]),
    ReadImu,
    Enable,
    Disable,
}

/// The dispatcher: which devices came up at initialisation, and the wheel to
/// channel map of the motor driver.
pub struct I2CDevices {
    pwm: bool,
    imu: bool,
    motor_channels: MotorChannels,
}

/// The bus operations that carry a channel plan.
pub open spec fn channel_ops(w: Seq<ChannelWrite>) -> Seq<BusOp> {
    w.map_values(|c: ChannelWrite| BusOp::SetChannel(c))
}

/// The addresses probed by the diagnostic scan, in increasing order.
pub open spec fn scan_range() -> Seq<u8> {
    Seq::new((SCAN_END - SCAN_FIRST) as nat, |i: int| (SCAN_FIRST + i) as u8)
}

impl I2CDevices {
    /// The motor driver came up.
    pub closed spec fn pwm_present(&self) -> bool {
        self.pwm
    }

    /// The sensor came up.
    pub closed spec fn imu_present(&self) -> bool {
        self.imu
    }

    /// The wheel to channel map.
    pub closed spec fn channels(&self) -> MotorChannels {
        self.motor_channels
    }

    /// The operations that turn the motor driver's outputs on and wake the
    /// sensor, for the devices that are present.
    pub open spec fn enable_ops(&self) -> Seq<BusOp> {
        (if self.pwm_present() {
            seq![BusOp::PwmEnable]
        } else {
            seq![]
        }) + (if self.imu_present() {
            seq![BusOp::ImuPower(ImuPowerMode::SixAxisLowNoise)]
        } else {
            seq![]
        })
    }

    /// The operations that turn the motor driver's outputs off and put the
    /// sensor to sleep, for the devices that are present.
    pub open spec fn disable_ops(&self) -> Seq<BusOp> {
        (if self.pwm_present() {
            seq![BusOp::PwmDisable]
        } else {
            seq![]
        }) + (if self.imu_present() {
            seq![BusOp::ImuPower(ImuPowerMode::Sleep)]
        } else {
            seq![]
        })
    }

    /// Whether the devices that `req` needs are present.
    pub open spec fn accepts(&self, req: DeviceRequest) -> bool {
        match req {
            DeviceRequest::Drive(_) => self.pwm_present(),
            DeviceRequest::ReadImu => self.imu_present(),
            DeviceRequest::Enable => true,
            DeviceRequest::Disable => true,
        }
    }

    /// The error for a request whose device is absent.
    pub open spec fn refusal<P, I, A>(&self, req: DeviceRequest) -> DeviceError<P, I, A> {
        match req {
            DeviceRequest::ReadImu => DeviceError::ImuNotInitialized,
            _ => DeviceError::PwmNotInitialized,
        }
    }

    /// The bus operations for an accepted request, in order.
    pub open spec fn ops_for(&self, req: DeviceRequest) -> Seq<BusOp> {
        match req {
            DeviceRequest::Drive(w) => channel_ops(drive_writes(self.channels(), w@)),
            DeviceRequest::ReadImu => seq![BusOp::ReadImu],
            DeviceRequest::Enable => self.enable_ops(),
            DeviceRequest::Disable => self.disable_ops(),
        }
    }

    /// A dispatcher before initialisation: no device is present yet.
    pub fn new(motor_channels: MotorChannels) -> (r: I2CDevices)
        requires
            motor_channels.wf(),
        ensures
            !r.pwm_present(),
            !r.imu_present(),
            r.channels() == motor_channels,
    {
        I2CDevices { pwm: false, imu: false, motor_channels }
    }

    /// Records the outcome of bringing the devices up: first the sensor, then
    /// the motor driver. Both become present when both came up; otherwise the
    /// first failure is returned and neither is present.
    pub fn init_devices<P, I, A>(&mut self, imu: Result<(), I>, pwm: Result<(), P>) -> (r: Result<
        (),
        DeviceError<P, I, A>,
    >)
        ensures
            final(self).channels() == old(self).channels(),
            r is Ok <==> (imu is Ok && pwm is Ok),
            final(self).pwm_present() == r is Ok,
            final(self).imu_present() == r is Ok,
            imu matches Err(e) ==> r == Err::<(), DeviceError<P, I, A>>(DeviceError::ImuError(e)),
            imu is Ok ==> (pwm matches Err(e) ==> r == Err::<(), DeviceError<P, I, A>>(
                DeviceError::PwmError(e),
            )),
    {
        self.pwm = false;
        self.imu = false;
        match imu {
            Err(e) => Err(DeviceError::ImuError(e)),
            Ok(()) => match pwm {
                Err(e) => Err(DeviceError::PwmError(e)),
                Ok(()) => {
                    self.imu = true;
                    self.pwm = true;
                    Ok(())
                },
            },
        }
    }

    /// The addresses to probe when initialisation failed, to report which
    /// devices answer on the bus.
    pub fn scan_addresses() -> (r: Vec<u8>)
        ensures
            r@ == scan_range(),
    {
        let mut r: Vec<u8> = Vec::new();
        let mut a: u8 = SCAN_FIRST;
        while a < SCAN_END
            invariant
                SCAN_FIRST <= a <= SCAN_END,
                r@ == scan_range().take(a - SCAN_FIRST),
            decreases SCAN_END - a,
        {
            r.push(a);
            a = a + 1;
            assert(r@ =~= scan_range().take(a - SCAN_FIRST));
        }
        assert(r@ =~= scan_range());
        r
    }

    /// The operations that configure the motor driver after initialisation:
    /// enable its outputs, then set its prescale.
    pub fn configure_pwm<P, I, A>(&self) -> (r: Result<Vec<BusOp>, DeviceError<P, I, A>>)
        ensures
            r is Ok <==> self.pwm_present(),
            r matches Ok(v) ==> v@ == seq![BusOp::PwmEnable, BusOp::PwmPrescale(PWM_PRESCALE)],
            r matches Err(e) ==> e == DeviceError::<P, I, A>::PwmNotInitialized,
    {
        if self.pwm {
            let mut v: Vec<BusOp> = Vec::new();
            v.push(BusOp::PwmEnable);
            v.push(BusOp::PwmPrescale(PWM_PRESCALE));
            assert(v@ =~= seq![BusOp::PwmEnable, BusOp::PwmPrescale(PWM_PRESCALE)]);
            Ok(v)
        } else {
            Err(DeviceError::PwmNotInitialized)
        }
    }

    /// The operations that carry `wheels` to the motors, or
    /// `PwmNotInitialized` when the motor driver is absent.
    pub fn apply_wheel_speeds<P, I, A>(&self, wheels: &[WheelDrive; 3]) -> (r: Result<
        Vec<BusOp>,
        DeviceError<P, I, A>,
    >)
        ensures
            r is Ok <==> self.pwm_present(),
            r matches Ok(v) ==> v@ == channel_ops(drive_writes(self.channels(), wheels@)),
            r matches Err(e) ==> e == DeviceError::<P, I, A>::PwmNotInitialized,
    {
        if !self.pwm {
            return Err(DeviceError::PwmNotInitialized);
        }
        let writes = self.motor_channels.drive_writes(wheels);
        let mut v: Vec<BusOp> = Vec::new();
        let mut i: usize = 0;
        while i < writes.len()
            invariant
                0 <= i <= writes@.len(),
                v@ == channel_ops(writes@.take(i as int)),
            decreases writes@.len() - i,
        {
            v.push(BusOp::SetChannel(writes[i]));
            i = i + 1;
            assert(v@ =~= channel_ops(writes@.take(i as int)));
        }
        assert(writes@.take(i as int) =~= writes@);
        Ok(v)
    }

    /// The operation that reads the sensor, or `ImuNotInitialized` when it is
    /// absent.
    pub fn read_imu<P, I, A>(&self) -> (r: Result<Vec<BusOp>, DeviceError<P, I, A>>)
        ensures
            r is Ok <==> self.imu_present(),
            r matches Ok(v) ==> v@ == seq![BusOp::ReadImu],
            r matches Err(e) ==> e == DeviceError::<P, I, A>::ImuNotInitialized,
    {
        if self.imu {
            let mut v: Vec<BusOp> = Vec::new();
            v.push(BusOp::ReadImu);
            assert(v@ =~= seq![BusOp::ReadImu]);
            Ok(v)
        } else {
            Err(DeviceError::ImuNotInitialized)
        }
    }

    /// The operations that power up the devices that are present. The
    /// channels keep the wheel commands they last received.
    pub fn enable(&self) -> (r: Vec<BusOp>)
        ensures
            r@ == self.enable_ops(),
    {
        let mut v: Vec<BusOp> = Vec::new();
        if self.pwm {
            v.push(BusOp::PwmEnable);
        }
        if self.imu {
            v.push(BusOp::ImuPower(ImuPowerMode::SixAxisLowNoise));
        }
        assert(v@ =~= self.enable_ops());
        v
    }

    /// The operations that power down the devices that are present. The
    /// channels keep the wheel commands they last received.
    pub fn disable(&self) -> (r: Vec<BusOp>)
        ensures
            r@ == self.disable_ops(),
    {
        let mut v: Vec<BusOp> = Vec::new();
        if self.pwm {
            v.push(BusOp::PwmDisable);
        }
        if self.imu {
            v.push(BusOp::ImuPower(ImuPowerMode::Sleep));
        }
        assert(v@ =~= self.disable_ops());
        v
    }

    /// The bus operations for `req`, in order, or the error that refuses it
    /// when a device it needs is absent.
    pub fn execute_command<P, I, A>(&self, req: DeviceRequest) -> (r: Result<Vec<BusOp>, DeviceError<P, I, A>>)
        ensures
            r is Ok <==> self.accepts(req),
            r matches Ok(v) ==> v@ == self.ops_for(req),
            r matches Err(e) ==> e == self.refusal::<P, I, A>(req),
    {
        match req {
            DeviceRequest::Drive(w) => self.apply_wheel_speeds(&w),
            DeviceRequest::ReadImu => self.read_imu(),
            DeviceRequest::Enable => Ok(self.enable()),
            DeviceRequest::Disable => Ok(self.disable()),
        }
    }
}

/// Prescale a PWM controller holds after power-on.
pub const PWM_RESET_PRESCALE: u8 = 30;

/// A simulated motor driver and sensor, as the bus operations leave them.
#[derive(Clone, Copy, Debug)]
pub struct DeviceState {
    /// The motor driver's outputs are awake.
    pub motors_enabled: bool,
    /// The motor driver's prescale.
    pub prescale: u8,
    /// The sensor's power mode.
    pub imu_mode: ImuPowerMode,
    /// The count at which each channel's output rises.
    pub channel_on: [u16; 16],
    /// The count at which each channel's output falls.
    pub channel_off: [u16; 16],
}

impl DeviceState {
    /// The state after one bus operation. A write to a channel the controller
    /// does not have changes nothing, and a sensor read changes nothing.
    pub open spec fn after(self, op: BusOp) -> DeviceState {
        match op {
            BusOp::SetChannel(w) => if w.channel < CHANNEL_COUNT {
                DeviceState {
                    motors_enabled: self.motors_enabled,
                    prescale: self.prescale,
                    imu_mode: self.imu_mode,
                    channel_on: spec_array_update(self.channel_on, w.channel as int, w.on),
                    channel_off: spec_array_update(self.channel_off, w.channel as int, w.off),
                }
            } else {
                self
            },
            BusOp::PwmEnable => DeviceState { motors_enabled: true, ..self },
            BusOp::PwmDisable => DeviceState { motors_enabled: false, ..self },
            BusOp::PwmPrescale(p) => DeviceState { prescale: p, ..self },
            BusOp::ImuPower(m) => DeviceState { imu_mode: m, ..self },
            BusOp::ReadImu => self,
        }
    }

    /// The state after a sequence of bus operations, performed in order.
    pub open spec fn run(self, ops: Seq<BusOp>) -> DeviceState
        decreases ops.len(),
    {
        if ops.len() == 0 {
            self
        } else {
            self.after(ops[0]).run(ops.drop_first())
        }
    }

    /// The devices as they come out of power-on: outputs asleep, every
    /// channel at zero, the sensor asleep.
    pub fn power_on() -> (r: DeviceState)
        ensures
            !r.motors_enabled,
            r.prescale == PWM_RESET_PRESCALE,
            r.imu_mode == ImuPowerMode::Sleep,
            forall|c: int| 0 <= c < 16 ==> r.channel_on[c] == 0 && r.channel_off[c] == 0,
    {
        DeviceState {
            motors_enabled: false,
            prescale: PWM_RESET_PRESCALE,
            imu_mode: ImuPowerMode::Sleep,
            channel_on: [0u16; 16],
            channel_off: [0u16; 16],
        }
    }

    /// Performs one bus operation on the simulated devices.
    pub fn apply(&mut self, op: BusOp)
        ensures
            *final(self) == old(self).after(op),
    {
        match op {
            BusOp::SetChannel(w) => {
                if w.channel < CHANNEL_COUNT {
                    let c = w.channel as usize;
                    self.channel_on[c] = w.on;
                    self.channel_off[c] = w.off;
                    assert(self.channel_on =~= spec_array_update(
                        old(self).channel_on,
                        w.channel as int,
                        w.on,
                    ));
                    assert(self.channel_off =~= spec_array_update(
                        old(self).channel_off,
                        w.channel as int,
                        w.off,
                    ));
                }
            },
            BusOp::PwmEnable => self.motors_enabled = true,
            BusOp::PwmDisable => self.motors_enabled = false,
            BusOp::PwmPrescale(p) => self.prescale = p,
            BusOp::ImuPower(m) => self.imu_mode = m,
            BusOp::ReadImu => {},
        }
    }

    /// Performs a sequence of bus operations on the simulated devices, in
    /// order.
    pub fn run_all(&mut self, ops: &Vec<BusOp>)
        ensures
            *final(self) == old(self).run(ops@),
    {
        let mut i: usize = 0;
        assert(ops@.skip(0) =~= ops@);
        while i < ops.len()
            invariant
                0 <= i <= ops@.len(),
                old(self).run(ops@) == self.run(ops@.skip(i as int)),
            decreases ops@.len() - i,
        {
            assert(ops@.skip(i as int).drop_first() =~= ops@.skip(i + 1));
            self.apply(ops[i]);
            i = i + 1;
        }
        assert(ops@.skip(i as int) =~= Seq::<BusOp>::empty());
    }
}

/// A wheel at rest: pointing forward with zero magnitude.
pub open spec fn at_rest(d: WheelDrive) -> bool {
    d.forward && d.magnitude == 0
}

/// Stopping all three wheels takes exactly six channel writes: for each wheel
/// its phase channel, then its enable channel, each written with both counts
/// at zero, so every wheel is set forward with no duty.
pub proof fn lemma_stop_writes(d: I2CDevices, w: [WheelDrive; 3])
    requires
        d.pwm_present(),
        forall|i: int| 0 <= i < 3 ==> at_rest(#[trigger] w@[i]),
    ensures
        d.accepts(DeviceRequest::Drive(w)),
        d.ops_for(DeviceRequest::Drive(w)).len() == 6,
        forall|k: int|
            0 <= k < 6 ==> #[trigger] d.ops_for(DeviceRequest::Drive(w))[k] == BusOp::SetChannel(
                ChannelWrite { channel: d.channels().channels()[k], on: 0, off: 0 },
            ),
{
    assert(at_rest(w@[0]) && at_rest(w@[1]) && at_rest(w@[2]));
    let m = d.channels();
    let ops = d.ops_for(DeviceRequest::Drive(w));
    let expect = Seq::new(
        6,
        |k: int| BusOp::SetChannel(ChannelWrite { channel: m.channels()[k], on: 0, off: 0 }),
    );
    assert(ops =~= expect);
}

/// When initialisation fails neither device is present, and the dispatcher
/// then refuses a sensor read with `ImuNotInitialized` and a drive with
/// `PwmNotInitialized`, while enabling and disabling touch nothing.
pub proof fn lemma_degraded_refusals<P, I, A>(d: I2CDevices, w: [WheelDrive; 3])
    requires
        !d.pwm_present(),
        !d.imu_present(),
    ensures
        !d.accepts(DeviceRequest::ReadImu),
        d.refusal::<P, I, A>(DeviceRequest::ReadImu) == DeviceError::<P, I, A>::ImuNotInitialized,
        !d.accepts(DeviceRequest::Drive(w)),
        d.refusal::<P, I, A>(DeviceRequest::Drive(w)) == DeviceError::<P, I, A>::PwmNotInitialized,
        d.ops_for(DeviceRequest::Enable) == Seq::<BusOp>::empty(),
        d.ops_for(DeviceRequest::Disable) == Seq::<BusOp>::empty(),
{
    assert(d.enable_ops() =~= Seq::<BusOp>::empty());
    assert(d.disable_ops() =~= Seq::<BusOp>::empty());
}

proof fn lemma_run_two(s: DeviceState, a: BusOp, b: BusOp)
    ensures
        s.run(seq![a]) == s.after(a),
        s.run(seq![b]) == s.after(b),
        s.run(seq![a, b]) == s.after(a).after(b),
        s.run(Seq::<BusOp>::empty()) == s,
{
    reveal_with_fuel(DeviceState::run, 3);
    assert(seq![a].drop_first() =~= Seq::<BusOp>::empty());
    assert(seq![a, b].drop_first() =~= seq![b]);
    assert(seq![b].drop_first() =~= Seq::<BusOp>::empty());
    assert(seq![a][0] == a);
    assert(seq![a, b][0] == a);
    assert(seq![b][0] == b);
}

/// Enabling twice in a row leaves the devices as enabling once does, and
/// enabling leaves every channel as it was.
pub proof fn lemma_enable_idempotent(d: I2CDevices, s: DeviceState)
    ensures
        s.run(d.ops_for(DeviceRequest::Enable)).run(d.ops_for(DeviceRequest::Enable)) == s.run(
            d.ops_for(DeviceRequest::Enable),
        ),
        s.run(d.ops_for(DeviceRequest::Enable)).channel_on == s.channel_on,
        s.run(d.ops_for(DeviceRequest::Enable)).channel_off == s.channel_off,
{
    let a = BusOp::PwmEnable;
    let b = BusOp::ImuPower(ImuPowerMode::SixAxisLowNoise);
    let t = s.run(d.enable_ops());
    lemma_run_two(s, a, b);
    lemma_run_two(t, a, b);
    if d.pwm_present() && d.imu_present() {
        assert(d.enable_ops() =~= seq![a, b]);
    } else if d.pwm_present() {
        assert(d.enable_ops() =~= seq![a]);
    } else if d.imu_present() {
        assert(d.enable_ops() =~= seq![b]);
    } else {
        assert(d.enable_ops() =~= Seq::<BusOp>::empty());
    }
}

/// Disabling twice in a row leaves the devices as disabling once does, and
/// disabling leaves every channel as it was.
pub proof fn lemma_disable_idempotent(d: I2CDevices, s: DeviceState)
    ensures
        s.run(d.ops_for(DeviceRequest::Disable)).run(d.ops_for(DeviceRequest::Disable)) == s.run(
            d.ops_for(DeviceRequest::Disable),
        ),
        s.run(d.ops_for(DeviceRequest::Disable)).channel_on == s.channel_on,
        s.run(d.ops_for(DeviceRequest::Disable)).channel_off == s.channel_off,
{
    let a = BusOp::PwmDisable;
    let b = BusOp::ImuPower(ImuPowerMode::Sleep);
    let t = s.run(d.disable_ops());
    lemma_run_two(s, a, b);
    lemma_run_two(t, a, b);
    if d.pwm_present() && d.imu_present() {
        assert(d.disable_ops() =~= seq![a, b]);
    } else if d.pwm_present() {
        assert(d.disable_ops() =~= seq![a]);
    } else if d.imu_present() {
        assert(d.disable_ops() =~= seq![b]);
    } else {
        assert(d.disable_ops() =~= Seq::<BusOp>::empty());
    }
}

} // verus!
