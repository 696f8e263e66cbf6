//! Which of the board's eight LEDs show an AQI colour.
//!
//! The board has two LEDs each of blue, red, orange and green, none of them
//! yellow or purple, so a colour is shown by a combination of two or three
//! LEDs. `LedController` keeps the level of every LED line; whoever owns the
//! pins copies the levels to them.

use vstd::prelude::*;
use crate::aqi::Color;

verus! {

/// One of the eight LED lines of the board.
#[derive(Debug, Clone, Copy, PartialEq, Eq, Structural)]
pub enum Led {
    /// First blue LED.
    Blue1,
    /// First red LED.
    Red1,
    /// First orange LED.
    Orange1,
    /// First green LED.
    Green1,
    /// Second blue LED.
    Blue2,
    /// Second red LED.
    Red2,
    /// Second orange LED.
    Orange2,
    /// Second green LED.
    Green2,
}

/// The LEDs that show a colour.
pub open spec fn leds_for(color: Color) -> Set<Led> {
    match color {
        Color::Green => set![Led::Green1, Led::Green2],
        Color::Yellow => set![Led::Green1, Led::Orange1],
        Color::Orange => set![Led::Orange1, Led::Orange2],
        Color::Red => set![Led::Red1, Led::Red2],
        Color::Purple => set![Led::Red1, Led::Blue1],
        Color::DarkPurple => set![Led::Red2, Led::Blue1, Led::Blue2],
    }
}

/// The levels of the eight LED lines: `true` for a line that is high, its
/// LED lit.
#[derive(Debug, Clone, Copy, PartialEq, Eq)]
pub struct LedController {
    led_blue1: bool,
    led_red1: bool,
    led_orange1: bool,
    led_green1: bool,
    led_blue2: bool,
    led_red2: bool,
    led_orange2: bool,
    led_green2: bool,
}

impl LedController {
    /// Whether the line of `led` is high.
    pub closed spec fn level(self, led: Led) -> bool {
        match led {
            Led::Blue1 => self.led_blue1,
            Led::Red1 => self.led_red1,
            Led::Orange1 => self.led_orange1,
            Led::Green1 => self.led_green1,
            Led::Blue2 => self.led_blue2,
            Led::Red2 => self.led_red2,
            Led::Orange2 => self.led_orange2,
            Led::Green2 => self.led_green2,
        }
    }

    /// The set of LEDs that are lit.
    pub open spec fn lit(self) -> Set<Led> {
        Set::new(|led: Led| self.level(led))
    }

    /// A controller with every LED off.
    pub fn new() -> (controller: LedController)
        ensures
            controller.lit() == Set::<Led>::empty(),
    {
        let controller = LedController {
            led_blue1: false,
            led_red1: false,
            led_orange1: false,
            led_green1: false,
            led_blue2: false,
            led_red2: false,
            led_orange2: false,
            led_green2: false,
        };
        assert(controller.lit() =~= Set::<Led>::empty());
        controller
    }

    /// Turns on the LEDs that show `color` and turns off all others.
    pub fn set_color(&mut self, color: Color)
        ensures
            final(self).lit() == leds_for(color),
    {
        self.all_off();
        match color {
            Color::Green => {
                self.led_green1 = true;
                self.led_green2 = true;
            },
            Color::Yellow => {
                self.led_green1 = true;
                self.led_orange1 = true;
            },
            Color::Orange => {
                self.led_orange1 = true;
                self.led_orange2 = true;
            },
            Color::Red => {
                self.led_red1 = true;
                self.led_red2 = true;
            },
            Color::Purple => {
                self.led_red1 = true;
                self.led_blue1 = true;
            },
            Color::DarkPurple => {
                self.led_red2 = true;
                self.led_blue1 = true;
                self.led_blue2 = true;
            },
        }
        assert(self.lit() =~= leds_for(color));
    }

    /// Turns every LED off.
    pub fn all_off(&mut self)
        ensures
            final(self).lit() == Set::<Led>::empty(),
    {
        self.led_orange1 = false;
        self.led_green1 = false;
        self.led_red1 = false;
        self.led_blue1 = false;
        self.led_orange2 = false;
        self.led_green2 = false;
        self.led_red2 = false;
        self.led_blue2 = false;
        assert(self.lit() =~= Set::<Led>::empty());
    }

    /// Whether `led` is lit.
    pub fn is_lit(&self, led: Led) -> (lit: bool)
        ensures
            lit == self.lit().contains(led),
    {
        match led {
            Led::Blue1 => self.led_blue1,
            Led::Red1 => self.led_red1,
            Led::Orange1 => self.led_orange1,
            Led::Green1 => self.led_green1,
            Led::Blue2 => self.led_blue2,
            Led::Red2 => self.led_red2,
            Led::Orange2 => self.led_orange2,
            Led::Green2 => self.led_green2,
        }
    }
}

/// No two colours are shown by the same LEDs, and every colour lights at
/// least one LED, so that the six colours and the dark board can all be told
/// apart.
pub proof fn law_colors_are_distinguishable(a: Color, b: Color)
    ensures
        a != b ==> leds_for(a) != leds_for(b),
        leds_for(a) != Set::<Led>::empty(),
{
    // One LED that tells each colour from the colours after it.
    assert(leds_for(Color::Green).contains(Led::Green2));
    assert(leds_for(Color::Yellow).contains(Led::Green1));
    assert(leds_for(Color::Orange).contains(Led::Orange2));
    assert(leds_for(Color::Red).contains(Led::Red2));
    assert(leds_for(Color::Purple).contains(Led::Red1));
    assert(leds_for(Color::DarkPurple).contains(Led::Blue2));
    assert(!leds_for(Color::Yellow).contains(Led::Green2));
    assert(!leds_for(Color::Orange).contains(Led::Green2));
    assert(!leds_for(Color::Orange).contains(Led::Green1));
    assert(!leds_for(Color::Red).contains(Led::Orange2));
    assert(!leds_for(Color::Purple).contains(Led::Red2));
    assert(!leds_for(Color::DarkPurple).contains(Led::Red1));
}

} // verus!
