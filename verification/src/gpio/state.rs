//! Pin modes, pull states and event-detection selections for the GPIO
//! block.

use vstd::prelude::*;

verus! {

/// The pull state of a pin.
#[derive(Clone, Copy, Debug, PartialEq, Eq, Structural)]
pub enum Pull {
    /// Pin is pulled down.
    Down,
    /// Pin is pulled up.
    Up,
}

impl From<Pull> for bool {
    fn from(pull: Pull) -> (r: bool) {
        match pull {
            Pull::Up => true,
            Pull::Down => false,
        }
    }
}

impl vstd::std_specs::convert::FromSpecImpl<Pull> for bool {
    open spec fn obeys_from_spec() -> bool {
        true
    }

    open spec fn from_spec(pull: Pull) -> bool {
        pull == Pull::Up
    }
}

impl From<bool> for Pull {
    fn from(value: bool) -> (r: Pull) {
        if value {
            Pull::Up
        } else {
            Pull::Down
        }
    }
}

impl vstd::std_specs::convert::FromSpecImpl<bool> for Pull {
    open spec fn obeys_from_spec() -> bool {
        true
    }

    open spec fn from_spec(value: bool) -> Pull {
        if value {
            Pull::Up
        } else {
            Pull::Down
        }
    }
}

/// Marker for a pin configured as an input.
pub struct Input;

/// Marker for a pin configured as an output.
pub struct Output;

/// Marker for a pin routed to alternate function 0.
pub struct Alternate0;

/// Marker for a pin routed to alternate function 1.
pub struct Alternate1;

/// Marker for a pin routed to alternate function 2.
pub struct Alternate2;

/// Marker for a pin routed to alternate function 3.
pub struct Alternate3;

/// Marker for a pin routed to alternate function 4.
pub struct Alternate4;

/// Marker for a pin routed to alternate function 5.
pub struct Alternate5;

/// A pin mode, carrying the three-bit code the function-select register
/// stores for it.
pub trait PinType {
    /// The function-select code of this mode.
    spec fn spec_mode_bits() -> u32;

    /// The function-select code of this mode.
    fn mode_bits() -> (r: u32)
        ensures
            r == Self::spec_mode_bits(),
            r < 8,
    ;
}

impl PinType for Input {
    open spec fn spec_mode_bits() -> u32 {
        0b000
    }

    fn mode_bits() -> u32 {
        0b000
    }
}

impl PinType for Output {
    open spec fn spec_mode_bits() -> u32 {
        0b001
    }

    fn mode_bits() -> u32 {
        0b001
    }
}

impl PinType for Alternate0 {
    open spec fn spec_mode_bits() -> u32 {
        0b100
    }

    fn mode_bits() -> u32 {
        0b100
    }
}

impl PinType for Alternate1 {
    open spec fn spec_mode_bits() -> u32 {
        0b101
    }

    fn mode_bits() -> u32 {
        0b101
    }
}

impl PinType for Alternate2 {
    open spec fn spec_mode_bits() -> u32 {
        0b110
    }

    fn mode_bits() -> u32 {
        0b110
    }
}

impl PinType for Alternate3 {
    open spec fn spec_mode_bits() -> u32 {
        0b111
    }

    fn mode_bits() -> u32 {
        0b111
    }
}

impl PinType for Alternate4 {
    open spec fn spec_mode_bits() -> u32 {
        0b011
    }

    fn mode_bits() -> u32 {
        0b011
    }
}

impl PinType for Alternate5 {
    open spec fn spec_mode_bits() -> u32 {
        0b010
    }

    fn mode_bits() -> u32 {
        0b010
    }
}

/// The number of event-detection functions the GPIO block offers, in
/// register order: rising edge, falling edge, high level, low level,
/// asynchronous rising edge, asynchronous falling edge.
pub const DETECT_KINDS: usize = 6;

/// The events to detect on a pin.  Each selected flag arms the matching
/// detect-enable register.
#[derive(Clone, Copy, Debug, PartialEq, Eq, Structural)]
pub struct DetectState {
    /// Detect a level change, low to high, sampled by the system clock.
    pub rising_edge: bool,
    /// Detect a level change, high to low, sampled by the system clock.
    pub falling_edge: bool,
    /// Detect the pin level being high.
    pub high: bool,
    /// Detect the pin level being low.
    pub low: bool,
    /// Detect a low-to-high change without clock sampling; triggers even
    /// for very short pulses, so glitches can cause false positives.
    pub async_rising_edge: bool,
    /// Detect a high-to-low change without clock sampling; triggers even
    /// for very short pulses, so glitches can cause false positives.
    pub async_falling_edge: bool,
}

/// The selected detect kinds of a selection, in ascending register
/// order, each exactly once.
pub open spec fn spec_selected_kinds(s: DetectState) -> Seq<usize> {
    (if s.rising_edge {
        seq![0usize]
    } else {
        seq![]
    }) + (if s.falling_edge {
        seq![1usize]
    } else {
        seq![]
    }) + (if s.high {
        seq![2usize]
    } else {
        seq![]
    }) + (if s.low {
        seq![3usize]
    } else {
        seq![]
    }) + (if s.async_rising_edge {
        seq![4usize]
    } else {
        seq![]
    }) + (if s.async_falling_edge {
        seq![5usize]
    } else {
        seq![]
    })
}

/// The selection with no event.
pub open spec fn spec_empty_detect() -> DetectState {
    DetectState {
        rising_edge: false,
        falling_edge: false,
        high: false,
        low: false,
        async_rising_edge: false,
        async_falling_edge: false,
    }
}

impl DetectState {
    /// No event selected.
    pub fn empty() -> (r: DetectState)
        ensures
            r == spec_empty_detect(),
            r.spec_is_empty(),
    {
        DetectState {
            rising_edge: false,
            falling_edge: false,
            high: false,
            low: false,
            async_rising_edge: false,
            async_falling_edge: false,
        }
    }

    /// Every event selected.
    pub fn all() -> (r: DetectState)
        ensures
            r == (DetectState {
                rising_edge: true,
                falling_edge: true,
                high: true,
                low: true,
                async_rising_edge: true,
                async_falling_edge: true,
            }),
            forall|k: int| 0 <= k < 6 ==> r.spec_selected(k),
    {
        DetectState {
            rising_edge: true,
            falling_edge: true,
            high: true,
            low: true,
            async_rising_edge: true,
            async_falling_edge: true,
        }
    }

    /// Detect a rising edge only.
    pub fn rising() -> (r: DetectState)
        ensures
            r == (DetectState { rising_edge: true, ..spec_empty_detect() }),
    {
        DetectState { rising_edge: true, ..DetectState::empty() }
    }

    /// Detect a falling edge only.
    pub fn falling() -> (r: DetectState)
        ensures
            r == (DetectState { falling_edge: true, ..spec_empty_detect() }),
    {
        DetectState { falling_edge: true, ..DetectState::empty() }
    }

    /// Detect a high level only.
    pub fn level_high() -> (r: DetectState)
        ensures
            r == (DetectState { high: true, ..spec_empty_detect() }),
    {
        DetectState { high: true, ..DetectState::empty() }
    }

    /// Detect a low level only.
    pub fn level_low() -> (r: DetectState)
        ensures
            r == (DetectState { low: true, ..spec_empty_detect() }),
    {
        DetectState { low: true, ..DetectState::empty() }
    }

    /// Both events of two selections.
    pub fn union(self, other: DetectState) -> (r: DetectState)
        ensures
            r == (DetectState {
                rising_edge: self.rising_edge || other.rising_edge,
                falling_edge: self.falling_edge || other.falling_edge,
                high: self.high || other.high,
                low: self.low || other.low,
                async_rising_edge: self.async_rising_edge || other.async_rising_edge,
                async_falling_edge: self.async_falling_edge || other.async_falling_edge,
            }),
            forall|k: int| 0 <= k < 6 ==> r.spec_selected(k)
                == (self.spec_selected(k) || other.spec_selected(k)),
    {
        DetectState {
            rising_edge: self.rising_edge || other.rising_edge,
            falling_edge: self.falling_edge || other.falling_edge,
            high: self.high || other.high,
            low: self.low || other.low,
            async_rising_edge: self.async_rising_edge || other.async_rising_edge,
            async_falling_edge: self.async_falling_edge || other.async_falling_edge,
        }
    }

    /// Whether no event is selected.
    pub open spec fn spec_is_empty(&self) -> bool {
        !self.rising_edge && !self.falling_edge && !self.high && !self.low
            && !self.async_rising_edge && !self.async_falling_edge
    }

    /// Whether no event is selected.
    pub fn is_empty(&self) -> (r: bool)
        ensures
            r == self.spec_is_empty(),
    {
        !self.rising_edge && !self.falling_edge && !self.high && !self.low
            && !self.async_rising_edge && !self.async_falling_edge
    }

    /// Whether detect function `kind` is selected, in register order.
    pub open spec fn spec_selected(&self, kind: int) -> bool {
        if kind == 0 {
            self.rising_edge
        } else if kind == 1 {
            self.falling_edge
        } else if kind == 2 {
            self.high
        } else if kind == 3 {
            self.low
        } else if kind == 4 {
            self.async_rising_edge
        } else if kind == 5 {
            self.async_falling_edge
        } else {
            false
        }
    }

    /// The detect functions this selection arms: the selected kinds in
    /// ascending register order, each exactly once.  Each kind names the
    /// detect-enable register pair its events go to.
    pub fn registers(&self) -> (r: Vec<usize>)
        ensures
            r@ == spec_selected_kinds(*self),
    {
        let mut r: Vec<usize> = Vec::new();
        if self.rising_edge {
            r.push(0);
        }
        if self.falling_edge {
            r.push(1);
        }
        if self.high {
            r.push(2);
        }
        if self.low {
            r.push(3);
        }
        if self.async_rising_edge {
            r.push(4);
        }
        if self.async_falling_edge {
            r.push(5);
        }
        proof {
            assert(r@ =~= spec_selected_kinds(*self));
        }
        r
    }

    /// Whether detect function `kind` is selected, in register order.
    pub fn selected(&self, kind: usize) -> (r: bool)
        requires
            kind < DETECT_KINDS,
        ensures
            r == self.spec_selected(kind as int),
    {
        match kind {
            0 => self.rising_edge,
            1 => self.falling_edge,
            2 => self.high,
            3 => self.low,
            4 => self.async_rising_edge,
            _ => self.async_falling_edge,
        }
    }
}

} // verus!
