use vstd::prelude::*;

verus! {

/// An RGB color with one 8-bit value per channel.
#[derive(Debug, Clone, Copy, Eq)]
pub struct Color {
    r: u8,
    g: u8,
    b: u8,
}

impl Color {
    /// The channels as a triple `(red, green, blue)`.
    pub open spec fn components(self) -> (u8, u8, u8) {
        (self.red(), self.green(), self.blue())
    }

    /// The red channel, as a spec value.
    pub closed spec fn red(self) -> u8 {
        self.r
    }

    /// The green channel, as a spec value.
    pub closed spec fn green(self) -> u8 {
        self.g
    }

    /// The blue channel, as a spec value.
    pub closed spec fn blue(self) -> u8 {
        self.b
    }

    /// A color is determined by its channels.
    pub proof fn lemma_same_components(a: Color, b: Color)
        requires
            a.components() == b.components(),
        ensures
            a == b,
    {
    }

    /// The color with the given channels.
    pub fn new(r: u8, g: u8, b: u8) -> (c: Color)
        ensures
            c.red() == r,
            c.green() == g,
            c.blue() == b,
    {
        Color { r, g, b }
    }

    /// Expose the contents as a tuple of `(red, green, blue)` channels.
    pub fn into_components(self) -> (t: (u8, u8, u8))
        ensures
            t == self.components(),
    {
        (self.r, self.g, self.b)
    }

    /// The red channel of this color.
    pub fn r(&self) -> (v: u8)
        ensures
            v == self.red(),
    {
        self.r
    }

    /// The green channel of this color.
    pub fn g(&self) -> (v: u8)
        ensures
            v == self.green(),
    {
        self.g
    }

    /// The blue channel of this color.
    pub fn b(&self) -> (v: u8)
        ensures
            v == self.blue(),
    {
        self.b
    }
}

impl PartialEq for Color {
    fn eq(&self, other: &Color) -> (same: bool)
        ensures
            same == (self.components() == other.components()),
    {
        self.r == other.r && self.g == other.g && self.b == other.b
    }
}

impl vstd::std_specs::cmp::PartialEqSpecImpl for Color {
    open spec fn obeys_eq_spec() -> bool {
        true
    }

    open spec fn eq_spec(&self, other: &Color) -> bool {
        self.components() == other.components()
    }
}

impl PartialEq<(u8, u8, u8)> for Color {
    fn eq(&self, other: &(u8, u8, u8)) -> (same: bool)
        ensures
            same == (self.components() == *other),
    {
        self.r == other.0 && self.g == other.1 && self.b == other.2
    }
}

impl vstd::std_specs::cmp::PartialEqSpecImpl<(u8, u8, u8)> for Color {
    open spec fn obeys_eq_spec() -> bool {
        true
    }

    open spec fn eq_spec(&self, other: &(u8, u8, u8)) -> bool {
        self.components() == *other
    }
}

impl From<Color> for (u8, u8, u8) {
    fn from(color: Color) -> (t: (u8, u8, u8))
        ensures
            t == color.components(),
    {
        color.into_components()
    }
}

impl vstd::std_specs::convert::FromSpecImpl<Color> for (u8, u8, u8) {
    open spec fn obeys_from_spec() -> bool {
        true
    }

    open spec fn from_spec(color: Color) -> (u8, u8, u8) {
        color.components()
    }
}

/// A color equals, by the cross-type `==`, the triple of its own channels.
pub proof fn lemma_components_match(c: Color)
    ensures
        <Color as vstd::std_specs::cmp::PartialEqSpec<(u8, u8, u8)>>::eq_spec(&c, &c.components()),
{
}

} // verus!
