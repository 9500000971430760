use vstd::prelude::*;

verus! {

/// Brightness levels shared by the color palette.
pub const ULTRA_DIM: u8 = 2;
pub const DIM_MAJOR: u8 = 20;
pub const DIM_MINOR: u8 = 10;
pub const DIM_EQ_MIX: u8 = DIM_MAJOR;
pub const REG_MAJOR: u8 = 30;
pub const REG_MINOR: u8 = 20;
pub const REG_EQ_MIX: u8 = REG_MAJOR;

/// One RGB pixel of the strip.
#[derive(Clone, Copy, Debug, Eq, Hash, PartialEq, Structural)]
pub struct Led {
    pub red: u8,
    pub green: u8,
    pub blue: u8,
}

impl Led {
    /// The pixel's channels as a triple, usable in contracts.
    pub open spec fn rgb(&self) -> (u8, u8, u8) {
        (self.red, self.green, self.blue)
    }

    pub fn from(r: u8, g: u8, b: u8) -> (res: Self)
        ensures
            res.rgb() == (r, g, b),
    {
        Self { red: r, green: g, blue: b }
    }

    pub fn r(&self) -> (res: u8)
        ensures
            res == self.red,
    {
        self.red
    }

    pub fn g(&self) -> (res: u8)
        ensures
            res == self.green,
    {
        self.green
    }

    pub fn b(&self) -> (res: u8)
        ensures
            res == self.blue,
    {
        self.blue
    }

    pub fn eq(&self, other: &Self) -> (res: bool)
        ensures
            res == (self == other),
    {
        self.red == other.red && self.green == other.green && self.blue == other.blue
    }

    /// Adds the given channels onto the pixel, saturating at full brightness.
    pub fn add_tuple(&mut self, rgb: (u8, u8, u8))
        ensures
            final(self).red == old(self).red.saturating_add(rgb.0),
            final(self).green == old(self).green.saturating_add(rgb.1),
            final(self).blue == old(self).blue.saturating_add(rgb.2),
    {
        self.red = self.red.saturating_add(rgb.0);
        self.green = self.green.saturating_add(rgb.1);
        self.blue = self.blue.saturating_add(rgb.2);
    }

    pub fn off() -> (res: Self)
        ensures
            res.rgb() == (0u8, 0u8, 0u8),
    {
        Self { red: 0, green: 0, blue: 0 }
    }

    /// Backdrop marker for a station with no train on it.
    pub fn empty_station() -> (res: Self)
        ensures
            res == Self::spec_dull_white(),
    {
        Self::dull_white()
    }

    pub fn ln_1_at_station() -> (res: Self)
        ensures
            res.rgb() == (0u8, REG_MAJOR, 0u8),
    {
        Self::green()
    }

    pub fn ln_1_between_stations() -> (res: Self)
        ensures
            res.rgb() == (DIM_EQ_MIX, DIM_EQ_MIX, 0u8),
    {
        Self::dull_yellow()
    }

    pub fn ln_2_at_station() -> (res: Self)
        ensures
            res.rgb() == (0u8, 0u8, REG_MAJOR),
    {
        Self::blue()
    }

    pub fn ln_2_between_stations() -> (res: Self)
        ensures
            res == Self::spec_dull_purple(),
    {
        Self::dull_purple()
    }

    /// Marker for an anchor cell shared by more than one train.
    pub fn at_station_mixed() -> (res: Self)
        ensures
            res == Self::spec_purple(),
    {
        Self::purple()
    }

    /// Overflow indicator for a band holding more trains than cells.
    pub fn between_stations_mixed() -> (res: Self)
        ensures
            res == Self::spec_dull_orange(),
    {
        Self::dull_orange()
    }

    pub fn red() -> (res: Self)
        ensures
            res.rgb() == (REG_MAJOR, 0u8, 0u8),
    {
        Self { red: REG_MAJOR, green: 0, blue: 0 }
    }

    pub fn green() -> (res: Self)
        ensures
            res.rgb() == (0u8, REG_MAJOR, 0u8),
    {
        Self { red: 0, green: REG_MAJOR, blue: 0 }
    }

    pub fn dull_green() -> (res: Self)
        ensures
            res.rgb() == (0u8, DIM_MAJOR, 0u8),
    {
        Self { red: 0, green: DIM_MAJOR, blue: 0 }
    }

    pub fn blue() -> (res: Self)
        ensures
            res.rgb() == (0u8, 0u8, REG_MAJOR),
    {
        Self { red: 0, green: 0, blue: REG_MAJOR }
    }

    pub fn dull_blue() -> (res: Self)
        ensures
            res.rgb() == (0u8, 0u8, DIM_MAJOR),
    {
        Self { red: 0, green: 0, blue: DIM_MAJOR }
    }

    pub fn cyan() -> (res: Self)
        ensures
            res.rgb() == (0u8, REG_EQ_MIX, REG_EQ_MIX),
    {
        Self { red: 0, green: REG_EQ_MIX, blue: REG_EQ_MIX }
    }

    pub fn dull_cyan() -> (res: Self)
        ensures
            res == Self::spec_dull_cyan(),
    {
        Self { red: 5, green: DIM_MINOR, blue: DIM_MAJOR }
    }

    pub fn purple() -> (res: Self)
        ensures
            res == Self::spec_purple(),
    {
        Self { red: REG_EQ_MIX, green: 0, blue: REG_EQ_MIX }
    }

    pub fn dull_purple() -> (res: Self)
        ensures
            res == Self::spec_dull_purple(),
    {
        Self { red: DIM_EQ_MIX, green: 0, blue: DIM_EQ_MIX }
    }

    pub fn orange() -> (res: Self)
        ensures
            res.rgb() == (REG_MINOR, REG_MAJOR, 0u8),
    {
        Self { red: REG_MINOR, green: REG_MAJOR, blue: 0 }
    }

    pub fn dull_orange() -> (res: Self)
        ensures
            res == Self::spec_dull_orange(),
    {
        Self { red: DIM_MINOR, green: DIM_MAJOR, blue: 0 }
    }

    pub fn dull_yellow() -> (res: Self)
        ensures
            res == Self::spec_dull_yellow(),
    {
        Self { red: DIM_EQ_MIX, green: DIM_EQ_MIX, blue: 0 }
    }

    pub fn dull_white() -> (res: Self)
        ensures
            res == Self::spec_dull_white(),
    {
        Self { red: ULTRA_DIM, green: ULTRA_DIM, blue: ULTRA_DIM }
    }

    pub fn as_tuple(&self) -> (res: (u8, u8, u8))
        ensures
            res == self.rgb(),
    {
        (self.red, self.green, self.blue)
    }

    /// The colors that the layout engine's contracts name directly.
    pub open spec fn spec_off() -> Self {
        Led { red: 0, green: 0, blue: 0 }
    }

    pub open spec fn spec_dull_white() -> Self {
        Led { red: ULTRA_DIM, green: ULTRA_DIM, blue: ULTRA_DIM }
    }

    pub open spec fn spec_purple() -> Self {
        Led { red: REG_EQ_MIX, green: 0, blue: REG_EQ_MIX }
    }

    pub open spec fn spec_dull_orange() -> Self {
        Led { red: DIM_MINOR, green: DIM_MAJOR, blue: 0 }
    }

    pub open spec fn spec_dull_yellow() -> Self {
        Led { red: DIM_EQ_MIX, green: DIM_EQ_MIX, blue: 0 }
    }

    pub open spec fn spec_dull_cyan() -> Self {
        Led { red: 5, green: DIM_MINOR, blue: DIM_MAJOR }
    }

    pub open spec fn spec_dull_purple() -> Self {
        Led { red: DIM_EQ_MIX, green: 0, blue: DIM_EQ_MIX }
    }

    pub open spec fn spec_green() -> Self {
        Led { red: 0, green: REG_MAJOR, blue: 0 }
    }

    pub open spec fn spec_blue() -> Self {
        Led { red: 0, green: 0, blue: REG_MAJOR }
    }

    pub open spec fn spec_red() -> Self {
        Led { red: REG_MAJOR, green: 0, blue: 0 }
    }
}

} // verus!
