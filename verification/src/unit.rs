//! Units of measure and the quantities written in them.
//!
//! A unit's symbol is its name in lower case. A quantity is a magnitude,
//! held as the numeral that is written out, followed by the symbol.

use vstd::prelude::*;
use vstd::string::*;
use crate::text::same_text;

verus! {

/// A unit of measure: a value that has a symbol to write after a magnitude.
pub trait Measurable: Sized {
    /// The symbol of the unit.
    spec fn symbol(&self) -> Seq<char>;

    fn as_str(&self) -> (s: &'static str)
        ensures
            s@ == self.symbol(),
    ;
}

/// A magnitude in a unit of measure.
#[derive(Debug, Clone)]
pub struct Unit<T: Measurable> {
    pub measurement: T,
    /// The magnitude, as the numeral that is written out.
    pub n: String,
}

impl<T: Measurable> Unit<T> {
    /// The quantity as it is written: the magnitude, then the symbol, with
    /// nothing between them.
    pub open spec fn text(&self) -> Seq<char> {
        self.n@ + self.measurement.symbol()
    }

    pub fn new(measurement: T, n: String) -> (u: Self)
        ensures
            u.measurement == measurement,
            u.n == n,
    {
        Unit { measurement, n }
    }

    pub fn to_text(&self) -> (s: String)
        ensures
            s@ == self.text(),
    {
        let mut s = self.n.clone();
        s.append(self.measurement.as_str());
        s
    }
}

/// Lengths of a fixed size.
#[derive(Debug, Clone, Copy, PartialEq, Eq, Structural)]
pub enum Absolute {
    Px,
    Cm,
    Mm,
    Q,
    In,
    Pc,
    Pt,
}

impl Measurable for Absolute {
    open spec fn symbol(&self) -> Seq<char> {
        match self {
            Absolute::Px => "px"@,
            Absolute::Cm => "cm"@,
            Absolute::Mm => "mm"@,
            Absolute::Q => "q"@,
            Absolute::In => "in"@,
            Absolute::Pc => "pc"@,
            Absolute::Pt => "pt"@,
        }
    }

    fn as_str(&self) -> (s: &'static str) {
        match self {
            Absolute::Px => "px",
            Absolute::Cm => "cm",
            Absolute::Mm => "mm",
            Absolute::Q => "q",
            Absolute::In => "in",
            Absolute::Pc => "pc",
            Absolute::Pt => "pt",
        }
    }
}

impl Absolute {
    /// The unit that a symbol names, if it names one.
    pub open spec fn of_symbol(t: Seq<char>) -> Option<Absolute> {
        if t == "px"@ {
            Some(Absolute::Px)
        } else if t == "cm"@ {
            Some(Absolute::Cm)
        } else if t == "mm"@ {
            Some(Absolute::Mm)
        } else if t == "q"@ {
            Some(Absolute::Q)
        } else if t == "in"@ {
            Some(Absolute::In)
        } else if t == "pc"@ {
            Some(Absolute::Pc)
        } else if t == "pt"@ {
            Some(Absolute::Pt)
        } else {
            None
        }
    }

    pub fn to_text(&self) -> (s: String)
        ensures
            s@ == self.symbol(),
    {
        String::from_str(self.as_str())
    }

    /// Reads a symbol; the match is exact, case included.
    pub fn parse(s: &str) -> (u: Option<Absolute>)
        ensures
            u == Absolute::of_symbol(s@),
    {
        if same_text(s, "px") {
            Some(Absolute::Px)
        } else if same_text(s, "cm") {
            Some(Absolute::Cm)
        } else if same_text(s, "mm") {
            Some(Absolute::Mm)
        } else if same_text(s, "q") {
            Some(Absolute::Q)
        } else if same_text(s, "in") {
            Some(Absolute::In)
        } else if same_text(s, "pc") {
            Some(Absolute::Pc)
        } else if same_text(s, "pt") {
            Some(Absolute::Pt)
        } else {
            None
        }
    }

    /// The quantity of magnitude `n` in this unit.
    pub fn into_unit(self, n: String) -> (u: Unit<Self>)
        ensures
            u.measurement == self,
            u.n == n,
    {
        Unit { measurement: self, n }
    }

    /// Reading the symbol of a unit gives that unit back.
    pub proof fn symbol_round_trip(u: Absolute)
        ensures
            Absolute::of_symbol(u.symbol()) == Some(u),
    {
        reveal_strlit("px");
        reveal_strlit("cm");
        reveal_strlit("mm");
        reveal_strlit("q");
        reveal_strlit("in");
        reveal_strlit("pc");
        reveal_strlit("pt");
        assert("px"@.len() == 2 && "px"@[0] == 'p' && "px"@[1] == 'x');
        assert("cm"@.len() == 2 && "cm"@[0] == 'c' && "cm"@[1] == 'm');
        assert("mm"@.len() == 2 && "mm"@[0] == 'm' && "mm"@[1] == 'm');
        assert("q"@.len() == 1 && "q"@[0] == 'q');
        assert("in"@.len() == 2 && "in"@[0] == 'i' && "in"@[1] == 'n');
        assert("pc"@.len() == 2 && "pc"@[0] == 'p' && "pc"@[1] == 'c');
        assert("pt"@.len() == 2 && "pt"@[0] == 'p' && "pt"@[1] == 't');
    }

    /// A symbol is read as a unit only if it is that unit's symbol.
    pub proof fn symbol_read_exact(t: Seq<char>, u: Absolute)
        requires
            Absolute::of_symbol(t) == Some(u),
        ensures
            u.symbol() == t,
    {
    }
}

/// Lengths that follow a font or a containing box.
#[derive(Debug, Clone, Copy, PartialEq, Eq, Structural)]
pub enum Relative {
    Em,
    Ex,
    Ch,
    Rem,
    Lh,
    Rlh,
    Percentage,
}

impl Measurable for Relative {
    open spec fn symbol(&self) -> Seq<char> {
        match self {
            Relative::Em => "em"@,
            Relative::Ex => "ex"@,
            Relative::Ch => "ch"@,
            Relative::Rem => "rem"@,
            Relative::Lh => "lh"@,
            Relative::Rlh => "rlh"@,
            Relative::Percentage => "percentage"@,
        }
    }

    fn as_str(&self) -> (s: &'static str) {
        match self {
            Relative::Em => "em",
            Relative::Ex => "ex",
            Relative::Ch => "ch",
            Relative::Rem => "rem",
            Relative::Lh => "lh",
            Relative::Rlh => "rlh",
            Relative::Percentage => "percentage",
        }
    }
}

impl Relative {
    /// The unit that a symbol names, if it names one.
    pub open spec fn of_symbol(t: Seq<char>) -> Option<Relative> {
        if t == "em"@ {
            Some(Relative::Em)
        } else if t == "ex"@ {
            Some(Relative::Ex)
        } else if t == "ch"@ {
            Some(Relative::Ch)
        } else if t == "rem"@ {
            Some(Relative::Rem)
        } else if t == "lh"@ {
            Some(Relative::Lh)
        } else if t == "rlh"@ {
            Some(Relative::Rlh)
        } else if t == "percentage"@ {
            Some(Relative::Percentage)
        } else {
            None
        }
    }

    pub fn to_text(&self) -> (s: String)
        ensures
            s@ == self.symbol(),
    {
        String::from_str(self.as_str())
    }

    /// Reads a symbol; the match is exact, case included.
    pub fn parse(s: &str) -> (u: Option<Relative>)
        ensures
            u == Relative::of_symbol(s@),
    {
        if same_text(s, "em") {
            Some(Relative::Em)
        } else if same_text(s, "ex") {
            Some(Relative::Ex)
        } else if same_text(s, "ch") {
            Some(Relative::Ch)
        } else if same_text(s, "rem") {
            Some(Relative::Rem)
        } else if same_text(s, "lh") {
            Some(Relative::Lh)
        } else if same_text(s, "rlh") {
            Some(Relative::Rlh)
        } else if same_text(s, "percentage") {
            Some(Relative::Percentage)
        } else {
            None
        }
    }

    /// The quantity of magnitude `n` in this unit.
    pub fn into_unit(self, n: String) -> (u: Unit<Self>)
        ensures
            u.measurement == self,
            u.n == n,
    {
        Unit { measurement: self, n }
    }

    /// Reading the symbol of a unit gives that unit back.
    pub proof fn symbol_round_trip(u: Relative)
        ensures
            Relative::of_symbol(u.symbol()) == Some(u),
    {
        reveal_strlit("em");
        reveal_strlit("ex");
        reveal_strlit("ch");
        reveal_strlit("rem");
        reveal_strlit("lh");
        reveal_strlit("rlh");
        reveal_strlit("percentage");
        assert("em"@.len() == 2 && "em"@[0] == 'e' && "em"@[1] == 'm');
        assert("ex"@.len() == 2 && "ex"@[0] == 'e' && "ex"@[1] == 'x');
        assert("ch"@.len() == 2 && "ch"@[0] == 'c' && "ch"@[1] == 'h');
        assert("rem"@.len() == 3 && "rem"@[0] == 'r' && "rem"@[1] == 'e' && "rem"@[2] == 'm');
        assert("lh"@.len() == 2 && "lh"@[0] == 'l' && "lh"@[1] == 'h');
        assert("rlh"@.len() == 3 && "rlh"@[0] == 'r' && "rlh"@[1] == 'l' && "rlh"@[2] == 'h');
        assert("percentage"@.len() == 10 && "percentage"@[0] == 'p' && "percentage"@[1] == 'e' && "percentage"@[2] == 'r' && "percentage"@[3] == 'c' && "percentage"@[4] == 'e' && "percentage"@[5] == 'n' && "percentage"@[6] == 't' && "percentage"@[7] == 'a' && "percentage"@[8] == 'g' && "percentage"@[9] == 'e');
    }

    /// A symbol is read as a unit only if it is that unit's symbol.
    pub proof fn symbol_read_exact(t: Seq<char>, u: Relative)
        requires
            Relative::of_symbol(t) == Some(u),
        ensures
            u.symbol() == t,
    {
    }
}

/// Lengths that follow the size of the viewport.
#[derive(Debug, Clone, Copy, PartialEq, Eq, Structural)]
pub enum Viewport {
    Vw,
    Vh,
    Vmin,
    Vmax,
    Vb,
    Vi,
    Svw,
    Svh,
    Lvw,
    Lvh,
    Dvw,
    Dvh,
}

impl Measurable for Viewport {
    open spec fn symbol(&self) -> Seq<char> {
        match self {
            Viewport::Vw => "vw"@,
            Viewport::Vh => "vh"@,
            Viewport::Vmin => "vmin"@,
            Viewport::Vmax => "vmax"@,
            Viewport::Vb => "vb"@,
            Viewport::Vi => "vi"@,
            Viewport::Svw => "svw"@,
            Viewport::Svh => "svh"@,
            Viewport::Lvw => "lvw"@,
            Viewport::Lvh => "lvh"@,
            Viewport::Dvw => "dvw"@,
            Viewport::Dvh => "dvh"@,
        }
    }

    fn as_str(&self) -> (s: &'static str) {
        match self {
            Viewport::Vw => "vw",
            Viewport::Vh => "vh",
            Viewport::Vmin => "vmin",
            Viewport::Vmax => "vmax",
            Viewport::Vb => "vb",
            Viewport::Vi => "vi",
            Viewport::Svw => "svw",
            Viewport::Svh => "svh",
            Viewport::Lvw => "lvw",
            Viewport::Lvh => "lvh",
            Viewport::Dvw => "dvw",
            Viewport::Dvh => "dvh",
        }
    }
}

impl Viewport {
    /// The unit that a symbol names, if it names one.
    pub open spec fn of_symbol(t: Seq<char>) -> Option<Viewport> {
        if t == "vw"@ {
            Some(Viewport::Vw)
        } else if t == "vh"@ {
            Some(Viewport::Vh)
        } else if t == "vmin"@ {
            Some(Viewport::Vmin)
        } else if t == "vmax"@ {
            Some(Viewport::Vmax)
        } else if t == "vb"@ {
            Some(Viewport::Vb)
        } else if t == "vi"@ {
            Some(Viewport::Vi)
        } else if t == "svw"@ {
            Some(Viewport::Svw)
        } else if t == "svh"@ {
            Some(Viewport::Svh)
        } else if t == "lvw"@ {
            Some(Viewport::Lvw)
        } else if t == "lvh"@ {
            Some(Viewport::Lvh)
        } else if t == "dvw"@ {
            Some(Viewport::Dvw)
        } else if t == "dvh"@ {
            Some(Viewport::Dvh)
        } else {
            None
        }
    }

    pub fn to_text(&self) -> (s: String)
        ensures
            s@ == self.symbol(),
    {
        String::from_str(self.as_str())
    }

    /// Reads a symbol; the match is exact, case included.
    pub fn parse(s: &str) -> (u: Option<Viewport>)
        ensures
            u == Viewport::of_symbol(s@),
    {
        if same_text(s, "vw") {
            Some(Viewport::Vw)
        } else if same_text(s, "vh") {
            Some(Viewport::Vh)
        } else if same_text(s, "vmin") {
            Some(Viewport::Vmin)
        } else if same_text(s, "vmax") {
            Some(Viewport::Vmax)
        } else if same_text(s, "vb") {
            Some(Viewport::Vb)
        } else if same_text(s, "vi") {
            Some(Viewport::Vi)
        } else if same_text(s, "svw") {
            Some(Viewport::Svw)
        } else if same_text(s, "svh") {
            Some(Viewport::Svh)
        } else if same_text(s, "lvw") {
            Some(Viewport::Lvw)
        } else if same_text(s, "lvh") {
            Some(Viewport::Lvh)
        } else if same_text(s, "dvw") {
            Some(Viewport::Dvw)
        } else if same_text(s, "dvh") {
            Some(Viewport::Dvh)
        } else {
            None
        }
    }

    /// The quantity of magnitude `n` in this unit.
    pub fn into_unit(self, n: String) -> (u: Unit<Self>)
        ensures
            u.measurement == self,
            u.n == n,
    {
        Unit { measurement: self, n }
    }

    /// Reading the symbol of a unit gives that unit back.
    pub proof fn symbol_round_trip(u: Viewport)
        ensures
            Viewport::of_symbol(u.symbol()) == Some(u),
    {
        reveal_strlit("vw");
        reveal_strlit("vh");
        reveal_strlit("vmin");
        reveal_strlit("vmax");
        reveal_strlit("vb");
        reveal_strlit("vi");
        reveal_strlit("svw");
        reveal_strlit("svh");
        reveal_strlit("lvw");
        reveal_strlit("lvh");
        reveal_strlit("dvw");
        reveal_strlit("dvh");
        assert("vw"@.len() == 2 && "vw"@[0] == 'v' && "vw"@[1] == 'w');
        assert("vh"@.len() == 2 && "vh"@[0] == 'v' && "vh"@[1] == 'h');
        assert("vmin"@.len() == 4 && "vmin"@[0] == 'v' && "vmin"@[1] == 'm' && "vmin"@[2] == 'i' && "vmin"@[3] == 'n');
        assert("vmax"@.len() == 4 && "vmax"@[0] == 'v' && "vmax"@[1] == 'm' && "vmax"@[2] == 'a' && "vmax"@[3] == 'x');
        assert("vb"@.len() == 2 && "vb"@[0] == 'v' && "vb"@[1] == 'b');
        assert("vi"@.len() == 2 && "vi"@[0] == 'v' && "vi"@[1] == 'i');
        assert("svw"@.len() == 3 && "svw"@[0] == 's' && "svw"@[1] == 'v' && "svw"@[2] == 'w');
        assert("svh"@.len() == 3 && "svh"@[0] == 's' && "svh"@[1] == 'v' && "svh"@[2] == 'h');
        assert("lvw"@.len() == 3 && "lvw"@[0] == 'l' && "lvw"@[1] == 'v' && "lvw"@[2] == 'w');
        assert("lvh"@.len() == 3 && "lvh"@[0] == 'l' && "lvh"@[1] == 'v' && "lvh"@[2] == 'h');
        assert("dvw"@.len() == 3 && "dvw"@[0] == 'd' && "dvw"@[1] == 'v' && "dvw"@[2] == 'w');
        assert("dvh"@.len() == 3 && "dvh"@[0] == 'd' && "dvh"@[1] == 'v' && "dvh"@[2] == 'h');
    }

    /// A symbol is read as a unit only if it is that unit's symbol.
    pub proof fn symbol_read_exact(t: Seq<char>, u: Viewport)
        requires
            Viewport::of_symbol(t) == Some(u),
        ensures
            u.symbol() == t,
    {
    }
}

/// Angles.
#[derive(Debug, Clone, Copy, PartialEq, Eq, Structural)]
pub enum Angle {
    Grad,
    Turn,
    Deg,
    Rad,
}

impl Measurable for Angle {
    open spec fn symbol(&self) -> Seq<char> {
        match self {
            Angle::Grad => "grad"@,
            Angle::Turn => "turn"@,
            Angle::Deg => "deg"@,
            Angle::Rad => "rad"@,
        }
    }

    fn as_str(&self) -> (s: &'static str) {
        match self {
            Angle::Grad => "grad",
            Angle::Turn => "turn",
            Angle::Deg => "deg",
            Angle::Rad => "rad",
        }
    }
}

impl Angle {
    /// The unit that a symbol names, if it names one.
    pub open spec fn of_symbol(t: Seq<char>) -> Option<Angle> {
        if t == "grad"@ {
            Some(Angle::Grad)
        } else if t == "turn"@ {
            Some(Angle::Turn)
        } else if t == "deg"@ {
            Some(Angle::Deg)
        } else if t == "rad"@ {
            Some(Angle::Rad)
        } else {
            None
        }
    }

    pub fn to_text(&self) -> (s: String)
        ensures
            s@ == self.symbol(),
    {
        String::from_str(self.as_str())
    }

    /// Reads a symbol; the match is exact, case included.
    pub fn parse(s: &str) -> (u: Option<Angle>)
        ensures
            u == Angle::of_symbol(s@),
    {
        if same_text(s, "grad") {
            Some(Angle::Grad)
        } else if same_text(s, "turn") {
            Some(Angle::Turn)
        } else if same_text(s, "deg") {
            Some(Angle::Deg)
        } else if same_text(s, "rad") {
            Some(Angle::Rad)
        } else {
            None
        }
    }

    /// The quantity of magnitude `n` in this unit.
    pub fn into_unit(self, n: String) -> (u: Unit<Self>)
        ensures
            u.measurement == self,
            u.n == n,
    {
        Unit { measurement: self, n }
    }

    /// Reading the symbol of a unit gives that unit back.
    pub proof fn symbol_round_trip(u: Angle)
        ensures
            Angle::of_symbol(u.symbol()) == Some(u),
    {
        reveal_strlit("grad");
        reveal_strlit("turn");
        reveal_strlit("deg");
        reveal_strlit("rad");
        assert("grad"@.len() == 4 && "grad"@[0] == 'g' && "grad"@[1] == 'r' && "grad"@[2] == 'a' && "grad"@[3] == 'd');
        assert("turn"@.len() == 4 && "turn"@[0] == 't' && "turn"@[1] == 'u' && "turn"@[2] == 'r' && "turn"@[3] == 'n');
        assert("deg"@.len() == 3 && "deg"@[0] == 'd' && "deg"@[1] == 'e' && "deg"@[2] == 'g');
        assert("rad"@.len() == 3 && "rad"@[0] == 'r' && "rad"@[1] == 'a' && "rad"@[2] == 'd');
    }

    /// A symbol is read as a unit only if it is that unit's symbol.
    pub proof fn symbol_read_exact(t: Seq<char>, u: Angle)
        requires
            Angle::of_symbol(t) == Some(u),
        ensures
            u.symbol() == t,
    {
    }
}

/// Durations.
#[derive(Debug, Clone, Copy, PartialEq, Eq, Structural)]
pub enum Time {
    S,
    Ms,
}

impl Measurable for Time {
    open spec fn symbol(&self) -> Seq<char> {
        match self {
            Time::S => "s"@,
            Time::Ms => "ms"@,
        }
    }

    fn as_str(&self) -> (s: &'static str) {
        match self {
            Time::S => "s",
            Time::Ms => "ms",
        }
    }
}

impl Time {
    /// The unit that a symbol names, if it names one.
    pub open spec fn of_symbol(t: Seq<char>) -> Option<Time> {
        if t == "s"@ {
            Some(Time::S)
        } else if t == "ms"@ {
            Some(Time::Ms)
        } else {
            None
        }
    }

    pub fn to_text(&self) -> (s: String)
        ensures
            s@ == self.symbol(),
    {
        String::from_str(self.as_str())
    }

    /// Reads a symbol; the match is exact, case included.
    pub fn parse(s: &str) -> (u: Option<Time>)
        ensures
            u == Time::of_symbol(s@),
    {
        if same_text(s, "s") {
            Some(Time::S)
        } else if same_text(s, "ms") {
            Some(Time::Ms)
        } else {
            None
        }
    }

    /// The quantity of magnitude `n` in this unit.
    pub fn into_unit(self, n: String) -> (u: Unit<Self>)
        ensures
            u.measurement == self,
            u.n == n,
    {
        Unit { measurement: self, n }
    }

    /// Reading the symbol of a unit gives that unit back.
    pub proof fn symbol_round_trip(u: Time)
        ensures
            Time::of_symbol(u.symbol()) == Some(u),
    {
        reveal_strlit("s");
        reveal_strlit("ms");
        assert("s"@.len() == 1 && "s"@[0] == 's');
        assert("ms"@.len() == 2 && "ms"@[0] == 'm' && "ms"@[1] == 's');
    }

    /// A symbol is read as a unit only if it is that unit's symbol.
    pub proof fn symbol_read_exact(t: Seq<char>, u: Time)
        requires
            Time::of_symbol(t) == Some(u),
        ensures
            u.symbol() == t,
    {
    }
}

/// Frequencies.
#[derive(Debug, Clone, Copy, PartialEq, Eq, Structural)]
pub enum Frequency {
    Hz,
    Khz,
}

impl Measurable for Frequency {
    open spec fn symbol(&self) -> Seq<char> {
        match self {
            Frequency::Hz => "hz"@,
            Frequency::Khz => "khz"@,
        }
    }

    fn as_str(&self) -> (s: &'static str) {
        match self {
            Frequency::Hz => "hz",
            Frequency::Khz => "khz",
        }
    }
}

impl Frequency {
    /// The unit that a symbol names, if it names one.
    pub open spec fn of_symbol(t: Seq<char>) -> Option<Frequency> {
        if t == "hz"@ {
            Some(Frequency::Hz)
        } else if t == "khz"@ {
            Some(Frequency::Khz)
        } else {
            None
        }
    }

    pub fn to_text(&self) -> (s: String)
        ensures
            s@ == self.symbol(),
    {
        String::from_str(self.as_str())
    }

    /// Reads a symbol; the match is exact, case included.
    pub fn parse(s: &str) -> (u: Option<Frequency>)
        ensures
            u == Frequency::of_symbol(s@),
    {
        if same_text(s, "hz") {
            Some(Frequency::Hz)
        } else if same_text(s, "khz") {
            Some(Frequency::Khz)
        } else {
            None
        }
    }

    /// The quantity of magnitude `n` in this unit.
    pub fn into_unit(self, n: String) -> (u: Unit<Self>)
        ensures
            u.measurement == self,
            u.n == n,
    {
        Unit { measurement: self, n }
    }

    /// Reading the symbol of a unit gives that unit back.
    pub proof fn symbol_round_trip(u: Frequency)
        ensures
            Frequency::of_symbol(u.symbol()) == Some(u),
    {
        reveal_strlit("hz");
        reveal_strlit("khz");
        assert("hz"@.len() == 2 && "hz"@[0] == 'h' && "hz"@[1] == 'z');
        assert("khz"@.len() == 3 && "khz"@[0] == 'k' && "khz"@[1] == 'h' && "khz"@[2] == 'z');
    }

    /// A symbol is read as a unit only if it is that unit's symbol.
    pub proof fn symbol_read_exact(t: Seq<char>, u: Frequency)
        requires
            Frequency::of_symbol(t) == Some(u),
        ensures
            u.symbol() == t,
    {
    }
}

/// Pixel densities.
#[derive(Debug, Clone, Copy, PartialEq, Eq, Structural)]
pub enum Resolution {
    Dpi,
    Dpcm,
    Dppx,
}

impl Measurable for Resolution {
    open spec fn symbol(&self) -> Seq<char> {
        match self {
            Resolution::Dpi => "dpi"@,
            Resolution::Dpcm => "dpcm"@,
            Resolution::Dppx => "dppx"@,
        }
    }

    fn as_str(&self) -> (s: &'static str) {
        match self {
            Resolution::Dpi => "dpi",
            Resolution::Dpcm => "dpcm",
            Resolution::Dppx => "dppx",
        }
    }
}

impl Resolution {
    /// The unit that a symbol names, if it names one.
    pub open spec fn of_symbol(t: Seq<char>) -> Option<Resolution> {
        if t == "dpi"@ {
            Some(Resolution::Dpi)
        } else if t == "dpcm"@ {
            Some(Resolution::Dpcm)
        } else if t == "dppx"@ {
            Some(Resolution::Dppx)
        } else {
            None
        }
    }

    pub fn to_text(&self) -> (s: String)
        ensures
            s@ == self.symbol(),
    {
        String::from_str(self.as_str())
    }

    /// Reads a symbol; the match is exact, case included.
    pub fn parse(s: &str) -> (u: Option<Resolution>)
        ensures
            u == Resolution::of_symbol(s@),
    {
        if same_text(s, "dpi") {
            Some(Resolution::Dpi)
        } else if same_text(s, "dpcm") {
            Some(Resolution::Dpcm)
        } else if same_text(s, "dppx") {
            Some(Resolution::Dppx)
        } else {
            None
        }
    }

    /// The quantity of magnitude `n` in this unit.
    pub fn into_unit(self, n: String) -> (u: Unit<Self>)
        ensures
            u.measurement == self,
            u.n == n,
    {
        Unit { measurement: self, n }
    }

    /// Reading the symbol of a unit gives that unit back.
    pub proof fn symbol_round_trip(u: Resolution)
        ensures
            Resolution::of_symbol(u.symbol()) == Some(u),
    {
        reveal_strlit("dpi");
        reveal_strlit("dpcm");
        reveal_strlit("dppx");
        assert("dpi"@.len() == 3 && "dpi"@[0] == 'd' && "dpi"@[1] == 'p' && "dpi"@[2] == 'i');
        assert("dpcm"@.len() == 4 && "dpcm"@[0] == 'd' && "dpcm"@[1] == 'p' && "dpcm"@[2] == 'c' && "dpcm"@[3] == 'm');
        assert("dppx"@.len() == 4 && "dppx"@[0] == 'd' && "dppx"@[1] == 'p' && "dppx"@[2] == 'p' && "dppx"@[3] == 'x');
    }

    /// A symbol is read as a unit only if it is that unit's symbol.
    pub proof fn symbol_read_exact(t: Seq<char>, u: Resolution)
        requires
            Resolution::of_symbol(t) == Some(u),
        ensures
            u.symbol() == t,
    {
    }
}

} // verus!
