//! Motor output stage: the wheel to channel map of the PWM controller and the
//! channel writes that carry a set of wheel commands to it.

use vstd::prelude::*;

verus! {

/// Full-scale count of the 12-bit PWM controller.
pub const MAX_DUTY: u16 = 4095;

/// Number of output channels on the PWM controller.
pub const CHANNEL_COUNT: u8 = 16;

/// A wheel command as the output stage sees it: the sense of rotation and the
/// magnitude of the wheel speed scaled by `MAX_DUTY` (full speed is
/// `MAX_DUTY` counts; larger magnitudes saturate).
#[derive(Clone, Copy, Debug, PartialEq, Eq, Structural)]
pub struct WheelDrive {
    pub forward: bool,
    pub magnitude: u32,
}

/// One write to a PWM channel: the output rises at count `on` and falls at
/// count `off` of each period.
#[derive(Clone, Copy, Debug, PartialEq, Eq, Structural)]
pub struct ChannelWrite {
    pub channel: u8,
    pub on: u16,
    pub off: u16,
}

/// The two channels that drive one wheel: `phase` selects the direction and
/// `enable` carries the magnitude.
#[derive(Clone, Copy, Debug, PartialEq, Eq, Structural)]
pub struct ChannelPair {
    pub phase: u8,
    pub enable: u8,
}

/// The channel pair of each of the three wheels, fixed at construction.
#[derive(Clone, Copy, Debug)]
pub struct MotorChannels {
    pub wheels: [ChannelPair; 3],
}

/// The direction count written to a wheel's phase channel: 0 forward,
/// `MAX_DUTY` reverse.
pub open spec fn phase_count(d: WheelDrive) -> u16 {
    if d.forward {
        0
    } else {
        MAX_DUTY
    }
}

/// The magnitude count written to a wheel's enable channel: the magnitude,
/// saturated at full scale.
pub open spec fn duty_count(d: WheelDrive) -> u16 {
    if d.magnitude >= MAX_DUTY as u32 {
        MAX_DUTY
    } else {
        d.magnitude as u16
    }
}

/// The two writes for one wheel: its phase channel, then its enable channel.
pub open spec fn wheel_writes(p: ChannelPair, d: WheelDrive) -> Seq<ChannelWrite> {
    seq![
        ChannelWrite { channel: p.phase, on: 0, off: phase_count(d) },
        ChannelWrite { channel: p.enable, on: 0, off: duty_count(d) },
    ]
}

/// The writes for all three wheels, wheel by wheel.
pub open spec fn drive_writes(m: MotorChannels, w: Seq<WheelDrive>) -> Seq<ChannelWrite> {
    wheel_writes(m.wheels@[0], w[0]) + wheel_writes(m.wheels@[1], w[1]) + wheel_writes(
        m.wheels@[2],
        w[2],
    )
}

impl ChannelPair {
    pub open spec fn channels(self) -> Seq<u8> {
        seq![self.phase, self.enable]
    }
}

impl MotorChannels {
    /// The six channels, wheel by wheel, phase before enable.
    pub open spec fn channels(self) -> Seq<u8> {
        self.wheels@[0].channels() + self.wheels@[1].channels() + self.wheels@[2].channels()
    }

    /// Every channel exists on the controller and no channel serves twice.
    pub open spec fn wf(self) -> bool {
        &&& forall|k: int| 0 <= k < 6 ==> self.channels()[k] < CHANNEL_COUNT
        &&& forall|k: int, l: int|
            0 <= k < 6 && 0 <= l < 6 && k != l ==> self.channels()[k] != self.channels()[l]
    }

    /// The wiring of the robot's motor board: wheel 0 on channels 6 and 7,
    /// wheel 1 on 2 and 3, wheel 2 on 4 and 5.
    pub fn standard() -> (r: MotorChannels)
        ensures
            r.wf(),
            r.wheels@ == seq![
                ChannelPair { phase: 6, enable: 7 },
                ChannelPair { phase: 2, enable: 3 },
                ChannelPair { phase: 4, enable: 5 },
            ],
    {
        let r = MotorChannels {
            wheels: [
                ChannelPair { phase: 6, enable: 7 },
                ChannelPair { phase: 2, enable: 3 },
                ChannelPair { phase: 4, enable: 5 },
            ],
        };
        assert(r.wheels@ =~= seq![
            ChannelPair { phase: 6, enable: 7 },
            ChannelPair { phase: 2, enable: 3 },
            ChannelPair { phase: 4, enable: 5 },
        ]);
        assert(r.channels() =~= seq![6u8, 7, 2, 3, 4, 5]);
        r
    }

    /// A channel map from three pairs, or `None` when a channel is out of
    /// range or used twice.
    pub fn new(wheels: [ChannelPair; 3]) -> (r: Option<MotorChannels>)
        ensures
            r matches Some(m) ==> m.wheels == wheels,
            r is Some <==> (MotorChannels { wheels }).wf(),
    {
        let m = MotorChannels { wheels };
        let c = [
            wheels[0].phase,
            wheels[0].enable,
            wheels[1].phase,
            wheels[1].enable,
            wheels[2].phase,
            wheels[2].enable,
        ];
        assert(c@ =~= m.channels());
        let mut k: usize = 0;
        while k < 6
            invariant
                0 <= k <= 6,
                c@ == m.channels(),
                m.wheels == wheels,
                forall|a: int| 0 <= a < k ==> c@[a] < CHANNEL_COUNT,
                forall|a: int, b: int| 0 <= a < k && 0 <= b < 6 && a != b ==> c@[a] != c@[b],
            decreases 6 - k,
        {
            if c[k] >= CHANNEL_COUNT {
                assert(m.channels()[k as int] >= CHANNEL_COUNT);
                return None;
            }
            let mut l: usize = 0;
            while l < 6
                invariant
                    0 <= k < 6,
                    0 <= l <= 6,
                    c@ == m.channels(),
                    m.wheels == wheels,
                m.wheels == wheels,
                    forall|b: int| 0 <= b < l && b != k ==> c@[k as int] != c@[b],
                decreases 6 - l,
            {
                if l != k && c[l] == c[k] {
                    assert(m.channels()[l as int] == m.channels()[k as int]);
                    return None;
                }
                l = l + 1;
            }
            k = k + 1;
        }
        Some(m)
    }

    /// The channel writes that carry `wheels` to the motors: for each wheel in
    /// turn, its direction on the phase channel, then its magnitude on the
    /// enable channel.
    pub fn drive_writes(&self, wheels: &[WheelDrive; 3]) -> (r: Vec<ChannelWrite>)
        ensures
            r@ == drive_writes(*self, wheels@),
    {
        let mut r: Vec<ChannelWrite> = Vec::new();
        push_wheel_writes(&mut r, self.wheels[0], wheels[0]);
        push_wheel_writes(&mut r, self.wheels[1], wheels[1]);
        push_wheel_writes(&mut r, self.wheels[2], wheels[2]);
        assert(r@ =~= drive_writes(*self, wheels@));
        r
    }
}

/// The direction count for `d` (see `phase_count`).
pub fn phase_of(d: WheelDrive) -> (r: u16)
    ensures
        r == phase_count(d),
{
    if d.forward {
        0
    } else {
        MAX_DUTY
    }
}

/// The magnitude count for `d` (see `duty_count`).
pub fn duty_of(d: WheelDrive) -> (r: u16)
    ensures
        r == duty_count(d),
        r <= MAX_DUTY,
{
    if d.magnitude >= MAX_DUTY as u32 {
        MAX_DUTY
    } else {
        d.magnitude as u16
    }
}

fn push_wheel_writes(out: &mut Vec<ChannelWrite>, p: ChannelPair, d: WheelDrive)
    ensures
        final(out)@ == old(out)@ + wheel_writes(p, d),
{
    out.push(ChannelWrite { channel: p.phase, on: 0, off: phase_of(d) });
    out.push(ChannelWrite { channel: p.enable, on: 0, off: duty_of(d) });
    assert(final(out)@ =~= old(out)@ + wheel_writes(p, d));
}

} // verus!
