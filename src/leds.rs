//! The addressable LED strip: the on/off state and the last chosen colour,
//! and the frame that each command writes to the strip.

use vstd::prelude::*;

verus! {

/// Number of LEDs in the chain.
pub const LED_COUNT: usize = 2;

/// An 8-bit-per-channel colour.
#[derive(Clone, Copy, Debug, PartialEq, Eq, Structural)]
pub struct Rgb {
    pub r: u8,
    pub g: u8,
    pub b: u8,
}

/// The colour the strip shows when it is turned on before any colour was
/// chosen.
pub open spec fn white() -> Rgb {
    Rgb { r: 255, g: 255, b: 255 }
}

/// The colour written to turn the strip off.
pub open spec fn black() -> Rgb {
    Rgb { r: 0, g: 0, b: 0 }
}

/// Commands for the LED strip.
#[derive(Clone, Copy, Debug, PartialEq, Eq, Structural)]
pub enum LEDCommand {
    /// Turn the strip on, in the last chosen colour or white.
    On,
    /// Turn the strip off.
    Off,
    /// Choose a colour; the strip shows it at once if it is on.
    SC { r: u8, g: u8, b: u8 },
}

/// The state of the strip: whether it is on, and the last chosen colour.
pub struct LedModule {
    is_on: bool,
    last_color: Option<Rgb>,
}

/// The colour the strip shows when it is turned on with `last` chosen.
pub open spec fn on_color(last: Option<Rgb>) -> Rgb {
    match last {
        Some(c) => c,
        None => white(),
    }
}

/// A frame that shows `color` on every LED of the chain.
pub open spec fn uniform_frame(color: Rgb) -> Seq<Rgb> {
    Seq::new(LED_COUNT as nat, |i: int| color)
}

impl LedModule {
    /// The strip is on.
    pub closed spec fn on(&self) -> bool {
        self.is_on
    }

    /// The last chosen colour, if any.
    pub closed spec fn chosen(&self) -> Option<Rgb> {
        self.last_color
    }

    /// A strip that is off, with no colour chosen.
    pub fn new() -> (r: LedModule)
        ensures
            !r.on(),
            r.chosen() is None,
    {
        LedModule { is_on: false, last_color: None }
    }

    /// Whether the strip is on.
    pub fn is_on(&self) -> (r: bool)
        ensures
            r == self.on(),
    {
        self.is_on
    }

    /// The last chosen colour, if any.
    pub fn last_color(&self) -> (r: Option<Rgb>)
        ensures
            r == self.chosen(),
    {
        self.last_color
    }

    /// Applies a command to the state and returns the colour to show on the
    /// whole strip, or `None` when the strip is to be left as it is.
    pub fn ex_command(&mut self, cmd: LEDCommand) -> (r: Option<Rgb>)
        ensures
            match cmd {
                LEDCommand::On => {
                    &&& final(self).on()
                    &&& final(self).chosen() == old(self).chosen()
                    &&& r == Some(on_color(old(self).chosen()))
                },
                LEDCommand::Off => {
                    &&& !final(self).on()
                    &&& final(self).chosen() == old(self).chosen()
                    &&& r == Some(black())
                },
                LEDCommand::SC { r: red, g, b } => {
                    &&& final(self).on() == old(self).on()
                    &&& final(self).chosen() == Some(Rgb { r: red, g, b })
                    &&& r == if old(self).on() {
                        Some(Rgb { r: red, g, b })
                    } else {
                        None
                    }
                },
            },
    {
        match cmd {
            LEDCommand::On => {
                self.is_on = true;
                match self.last_color {
                    Some(c) => Some(c),
                    None => Some(Rgb { r: 255, g: 255, b: 255 }),
                }
            },
            LEDCommand::Off => {
                self.is_on = false;
                Some(Rgb { r: 0, g: 0, b: 0 })
            },
            LEDCommand::SC { r, g, b } => {
                let c = Rgb { r, g, b };
                self.last_color = Some(c);
                if self.is_on {
                    Some(c)
                } else {
                    None
                }
            },
        }
    }
}

/// The frame that shows `color` on every LED of the chain.
pub fn frame(color: Rgb) -> (r: Vec<Rgb>)
    ensures
        r@ == uniform_frame(color),
{
    let mut r: Vec<Rgb> = Vec::new();
    let mut i: usize = 0;
    while i < LED_COUNT
        invariant
            0 <= i <= LED_COUNT,
            r@ == uniform_frame(color).take(i as int),
        decreases LED_COUNT - i,
    {
        r.push(color);
        i = i + 1;
        assert(r@ =~= uniform_frame(color).take(i as int));
    }
    assert(r@ =~= uniform_frame(color));
    r
}

} // verus!
