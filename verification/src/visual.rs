//! Pure rendering of a boolean pin level as a markup fragment.
//!
//! An [`OutputVisual`] is an immutable snapshot: either a literal text
//! payload or an indicator lamp, a `(color, level)` pair rendered as a
//! compact vector graphic with a filled circle. Each color tag maps to a
//! fixed pair of shades: the fill when the lamp is on and the fill when it
//! is off; the on rendering also strokes the circle in the off shade.

use vstd::prelude::*;
use vstd::string::StringExecFns;

verus! {

/// A lamp color tag. Each tag has a fixed on shade and off shade.
#[derive(Clone, Copy, PartialEq, Eq, Structural, Debug)]
pub enum LedColor {
    Red,
    Green,
    Yellow,
    Orange,
    Blue,
}

/// The fill shade of a lit lamp of color `c`.
pub open spec fn on_shade(c: LedColor) -> Seq<char> {
    match c {
        LedColor::Red => "red"@,
        LedColor::Green => "lightgreen"@,
        LedColor::Yellow => "yellow"@,
        LedColor::Orange => "orange"@,
        LedColor::Blue => "lightblue"@,
    }
}

/// The fill shade of an unlit lamp of color `c`, also used as the stroke
/// around a lit lamp.
pub open spec fn off_shade(c: LedColor) -> Seq<char> {
    match c {
        LedColor::Red => "darkred"@,
        LedColor::Green => "darkgreen"@,
        LedColor::Yellow => "#94a000"@,
        LedColor::Orange => "#a97200"@,
        LedColor::Blue => "darkblue"@,
    }
}

/// The markup fragment for a lamp of color `c` at level `level`: a filled
/// circle, filled with the on shade and stroked with the off shade when
/// lit, filled with the off shade and unstroked when unlit.
pub open spec fn led_markup(c: LedColor, level: bool) -> Seq<char> {
    if level {
        "<svg height=\"50\" width=\"50\"><circle cx=\"25\" cy=\"25\" r=\"10\" fill=\""@ + on_shade(
            c,
        ) + "\" stroke-width=\"3\" stroke=\""@ + off_shade(c) + "\"/></svg>"@
    } else {
        "<svg height=\"50\" width=\"50\"><circle cx=\"25\" cy=\"25\" r=\"10\" fill=\""@ + off_shade(
            c,
        ) + "\" /></svg>"@
    }
}

impl LedColor {
    /// The on shade as a string slice.
    pub fn on_shade_str(&self) -> (r: &'static str)
        ensures
            r@ == on_shade(*self),
    {
        match self {
            LedColor::Red => "red",
            LedColor::Green => "lightgreen",
            LedColor::Yellow => "yellow",
            LedColor::Orange => "orange",
            LedColor::Blue => "lightblue",
        }
    }

    /// The off shade as a string slice.
    pub fn off_shade_str(&self) -> (r: &'static str)
        ensures
            r@ == off_shade(*self),
    {
        match self {
            LedColor::Red => "darkred",
            LedColor::Green => "darkgreen",
            LedColor::Yellow => "#94a000",
            LedColor::Orange => "#a97200",
            LedColor::Blue => "darkblue",
        }
    }

    /// Combines this color with a boolean level into an indicator visual.
    /// Symmetric companion of [`OutputVisual::led`].
    pub fn with_level(self, level: bool) -> (v: OutputVisual)
        ensures
            v == OutputVisual::Led(self, level),
    {
        OutputVisual::Led(self, level)
    }
}

/// An immutable rendering of a boolean pin level: a literal text payload,
/// or an indicator lamp of a given color and level.
pub enum OutputVisual {
    Text(String),
    Led(LedColor, bool),
}

impl OutputVisual {
    /// The textual form of this visual.
    pub open spec fn spec_render(self) -> Seq<char> {
        match self {
            OutputVisual::Text(s) => s@,
            OutputVisual::Led(c, level) => led_markup(c, level),
        }
    }

    /// Combines a boolean level with a color into an indicator visual.
    /// Symmetric companion of [`LedColor::with_level`].
    pub fn led(level: bool, color: LedColor) -> (v: OutputVisual)
        ensures
            v == OutputVisual::Led(color, level),
    {
        OutputVisual::Led(color, level)
    }

    /// A bare boolean rendered as literal text: "ON" when true, "OFF" when
    /// false.
    pub fn from_level(level: bool) -> (v: OutputVisual)
        ensures
            v matches OutputVisual::Text(s) && s@ == (if level {
                "ON"@
            } else {
                "OFF"@
            }),
    {
        if level {
            OutputVisual::Text(String::from_str("ON"))
        } else {
            OutputVisual::Text(String::from_str("OFF"))
        }
    }

    /// A literal text payload used as a visual unchanged.
    pub fn from_text(s: String) -> (v: OutputVisual)
        ensures
            v == OutputVisual::Text(s),
    {
        OutputVisual::Text(s)
    }

    /// Renders this visual to its textual form.
    pub fn render(&self) -> (r: String)
        ensures
            r@ == self.spec_render(),
    {
        match self {
            OutputVisual::Text(s) => s.clone(),
            OutputVisual::Led(c, level) => {
                let mut r = String::from_str(
                    "<svg height=\"50\" width=\"50\"><circle cx=\"25\" cy=\"25\" r=\"10\" fill=\"",
                );
                if *level {
                    r.append(c.on_shade_str());
                    r.append("\" stroke-width=\"3\" stroke=\"");
                    r.append(c.off_shade_str());
                    r.append("\"/></svg>");
                } else {
                    r.append(c.off_shade_str());
                    r.append("\" /></svg>");
                }
                r
            },
        }
    }
}

/// Rendering an indicator is a pure function of `(color, level)`, and the
/// two levels of any one color render to distinct payloads.
pub proof fn lemma_indicator_distinct(c: LedColor)
    ensures
        led_markup(c, true) != led_markup(c, false),
{
    reveal_strlit("<svg height=\"50\" width=\"50\"><circle cx=\"25\" cy=\"25\" r=\"10\" fill=\"");
    reveal_strlit("\" stroke-width=\"3\" stroke=\"");
    reveal_strlit("\"/></svg>");
    reveal_strlit("\" /></svg>");
    reveal_strlit("red");
    reveal_strlit("darkred");
    reveal_strlit("lightgreen");
    reveal_strlit("darkgreen");
    reveal_strlit("yellow");
    reveal_strlit("#94a000");
    reveal_strlit("orange");
    reveal_strlit("#a97200");
    reveal_strlit("lightblue");
    reveal_strlit("darkblue");
    assert(led_markup(c, true).len() != led_markup(c, false).len());
}

} // verus!
