//! Typography: the keywords of text styling and the style of a run of text.

use vstd::prelude::*;
use vstd::string::*;
use crate::color::Color;
use crate::direction::Direction;
use crate::text::{joined, joined_step, push_joined, views};
use crate::unit::{Measurable, Relative, Unit};

verus! {

/// How the lines of a text are set between the margins.
#[derive(Debug, Clone, Copy, PartialEq, Eq, Structural)]
pub enum Alignment {
    Left,
    Center,
    Justify,
    Right,
}

impl Default for Alignment {
    fn default() -> (v: Self)
        ensures
            v == Alignment::Left,
    {
        Alignment::Left
    }
}

impl Alignment {
    /// The keyword that a style sheet writes for the value.
    pub open spec fn keyword(self) -> Seq<char> {
        match self {
            Alignment::Left => "left"@,
            Alignment::Center => "center"@,
            Alignment::Justify => "justify"@,
            Alignment::Right => "right"@,
        }
    }

    pub fn as_str(&self) -> (s: &'static str)
        ensures
            s@ == self.keyword(),
    {
        match self {
            Alignment::Left => "left",
            Alignment::Center => "center",
            Alignment::Justify => "justify",
            Alignment::Right => "right",
        }
    }

    pub fn to_text(&self) -> (s: String)
        ensures
            s@ == self.keyword(),
    {
        String::from_str(self.as_str())
    }
}

/// A line drawn along a text.
#[derive(Debug, Clone, Copy, PartialEq, Eq, Structural)]
pub enum Decor {
    Underline,
    Overline,
    LineThrough,
    Blink,
}

impl Decor {
    /// The keyword that a style sheet writes for the value.
    pub open spec fn keyword(self) -> Seq<char> {
        match self {
            Decor::Underline => "underline"@,
            Decor::Overline => "overline"@,
            Decor::LineThrough => "line-through"@,
            Decor::Blink => "blink"@,
        }
    }

    pub fn as_str(&self) -> (s: &'static str)
        ensures
            s@ == self.keyword(),
    {
        match self {
            Decor::Underline => "underline",
            Decor::Overline => "overline",
            Decor::LineThrough => "line-through",
            Decor::Blink => "blink",
        }
    }

    pub fn to_text(&self) -> (s: String)
        ensures
            s@ == self.keyword(),
    {
        String::from_str(self.as_str())
    }
}

/// How a line drawn along a text is stroked.
#[derive(Debug, Clone, Copy, PartialEq, Eq, Structural)]
pub enum DecorStyle {
    Solid,
    Double,
    Dotted,
    Dashed,
    Wavy,
}

impl Default for DecorStyle {
    fn default() -> (v: Self)
        ensures
            v == DecorStyle::Solid,
    {
        DecorStyle::Solid
    }
}

impl DecorStyle {
    /// The keyword that a style sheet writes for the value.
    pub open spec fn keyword(self) -> Seq<char> {
        match self {
            DecorStyle::Solid => "solid"@,
            DecorStyle::Double => "double"@,
            DecorStyle::Dotted => "dotted"@,
            DecorStyle::Dashed => "dashed"@,
            DecorStyle::Wavy => "wavy"@,
        }
    }

    pub fn as_str(&self) -> (s: &'static str)
        ensures
            s@ == self.keyword(),
    {
        match self {
            DecorStyle::Solid => "solid",
            DecorStyle::Double => "double",
            DecorStyle::Dotted => "dotted",
            DecorStyle::Dashed => "dashed",
            DecorStyle::Wavy => "wavy",
        }
    }

    pub fn to_text(&self) -> (s: String)
        ensures
            s@ == self.keyword(),
    {
        String::from_str(self.as_str())
    }
}

/// How heavy the strokes of a font are.
#[derive(Debug, Clone, Copy, PartialEq, Eq, Structural)]
pub enum Weight {
    Normal,
    Bold,
    Bolder,
    Lighter,
}

impl Default for Weight {
    fn default() -> (v: Self)
        ensures
            v == Weight::Normal,
    {
        Weight::Normal
    }
}

impl Weight {
    /// The keyword that a style sheet writes for the value.
    pub open spec fn keyword(self) -> Seq<char> {
        match self {
            Weight::Normal => "normal"@,
            Weight::Bold => "bold"@,
            Weight::Bolder => "bolder"@,
            Weight::Lighter => "lighter"@,
        }
    }

    pub fn as_str(&self) -> (s: &'static str)
        ensures
            s@ == self.keyword(),
    {
        match self {
            Weight::Normal => "normal",
            Weight::Bold => "bold",
            Weight::Bolder => "bolder",
            Weight::Lighter => "lighter",
        }
    }

    pub fn to_text(&self) -> (s: String)
        ensures
            s@ == self.keyword(),
    {
        String::from_str(self.as_str())
    }
}

/// What becomes of the blanks and line breaks of a text.
#[derive(Debug, Clone, Copy, PartialEq, Eq, Structural)]
pub enum WhiteSpace {
    Normal,
    NoWrap,
    Pre,
    PreWrap,
    PreLine,
}

impl Default for WhiteSpace {
    fn default() -> (v: Self)
        ensures
            v == WhiteSpace::Normal,
    {
        WhiteSpace::Normal
    }
}

impl WhiteSpace {
    /// The keyword that a style sheet writes for the value.
    pub open spec fn keyword(self) -> Seq<char> {
        match self {
            WhiteSpace::Normal => "normal"@,
            WhiteSpace::NoWrap => "nowrap"@,
            WhiteSpace::Pre => "pre"@,
            WhiteSpace::PreWrap => "pre-wrap"@,
            WhiteSpace::PreLine => "pre-line"@,
        }
    }

    pub fn as_str(&self) -> (s: &'static str)
        ensures
            s@ == self.keyword(),
    {
        match self {
            WhiteSpace::Normal => "normal",
            WhiteSpace::NoWrap => "nowrap",
            WhiteSpace::Pre => "pre",
            WhiteSpace::PreWrap => "pre-wrap",
            WhiteSpace::PreLine => "pre-line",
        }
    }

    pub fn to_text(&self) -> (s: String)
        ensures
            s@ == self.keyword(),
    {
        String::from_str(self.as_str())
    }
}

/// Where a word too long for its line may be broken.
#[derive(Debug, Clone, Copy, PartialEq, Eq, Structural)]
pub enum OverflowWrap {
    Normal,
    BreakWord,
    Anywhere,
}

impl Default for OverflowWrap {
    fn default() -> (v: Self)
        ensures
            v == OverflowWrap::Normal,
    {
        OverflowWrap::Normal
    }
}

impl OverflowWrap {
    /// The keyword that a style sheet writes for the value.
    pub open spec fn keyword(self) -> Seq<char> {
        match self {
            OverflowWrap::Normal => "normal"@,
            OverflowWrap::BreakWord => "break-word"@,
            OverflowWrap::Anywhere => "anywhere"@,
        }
    }

    pub fn as_str(&self) -> (s: &'static str)
        ensures
            s@ == self.keyword(),
    {
        match self {
            OverflowWrap::Normal => "normal",
            OverflowWrap::BreakWord => "break-word",
            OverflowWrap::Anywhere => "anywhere",
        }
    }

    pub fn to_text(&self) -> (s: String)
        ensures
            s@ == self.keyword(),
    {
        String::from_str(self.as_str())
    }
}

/// The kinds of colour gradient.
#[derive(Debug, Clone, Copy, PartialEq, Eq, Structural)]
pub enum Gradient {
    Linear,
    Radial,
    Conic,
    Repeating,
}

impl Default for Gradient {
    fn default() -> (v: Self)
        ensures
            v == Gradient::Linear,
    {
        Gradient::Linear
    }
}

impl Gradient {
    /// The keyword that a style sheet writes for the value.
    pub open spec fn keyword(self) -> Seq<char> {
        match self {
            Gradient::Linear => "linear-gradient"@,
            Gradient::Radial => "radial-gradient"@,
            Gradient::Conic => "conic-gradient"@,
            Gradient::Repeating => "repeating-gradient"@,
        }
    }

    pub fn as_str(&self) -> (s: &'static str)
        ensures
            s@ == self.keyword(),
    {
        match self {
            Gradient::Linear => "linear-gradient",
            Gradient::Radial => "radial-gradient",
            Gradient::Conic => "conic-gradient",
            Gradient::Repeating => "repeating-gradient",
        }
    }

    pub fn to_text(&self) -> (s: String)
        ensures
            s@ == self.keyword(),
    {
        String::from_str(self.as_str())
    }
}

/// The font families that this library names.
#[derive(Debug, Clone, Copy, PartialEq, Eq, Structural)]
pub enum Family {
    BrCobane,
}

impl Default for Family {
    fn default() -> (v: Self)
        ensures
            v == Family::BrCobane,
    {
        Family::BrCobane
    }
}

/// What a run of text is styled with. A field that is `None` takes its
/// default.
#[derive(Debug, Clone)]
pub struct TypographyProps {
    pub size: Option<Unit<Relative>>,
    /// The font family, as it is written.
    pub family: String,
    pub weight: Option<Weight>,
    pub gradient: Option<Gradient>,
    pub gradient_direction: Option<Direction>,
    /// The colours of the gradient, each as it is written.
    pub colors: Option<Vec<String>>,
    pub letter_spacing: Option<Unit<Relative>>,
    pub word_spacing: Option<Unit<Relative>>,
    pub decor: Option<Vec<Decor>>,
    /// The colour of the decoration, as it is written.
    pub decor_color: Option<String>,
    pub decor_style: Option<DecorStyle>,
    pub decor_thickness: Option<Unit<Relative>>,
    pub white_space: Option<WhiteSpace>,
    pub overflow_wrap: Option<OverflowWrap>,
    pub alignment: Option<Alignment>,
}

/// A length as it is written, one em where none is given.
pub open spec fn length_or_em(length: Option<Unit<Relative>>) -> Seq<char> {
    match length {
        Some(u) => u.text(),
        None => "1"@ + Relative::Em.symbol(),
    }
}

/// A colour as it is written, white where none is given.
pub open spec fn color_or_white(color: Option<String>) -> Seq<char> {
    match color {
        Some(c) => c@,
        None => Color::Hex(crate::color::HEX_MAX).hex_rep_spec(),
    }
}

/// The keywords of a list of decorations.
pub open spec fn decor_keywords(decor: Seq<Decor>) -> Seq<Seq<char>> {
    decor.map_values(|d: Decor| d.keyword())
}

impl TypographyProps {
    /// The colours of the gradient: those given, or white alone.
    pub open spec fn gradient_colors(&self) -> Seq<Seq<char>> {
        match self.colors {
            Some(colors) => views(colors@),
            None => seq![color_or_white(None)],
        }
    }

    /// The background: the kind of gradient, then in brackets the side it
    /// runs to, a comma, and the colours with a comma and a blank between
    /// each two.
    pub open spec fn background(&self) -> Seq<char> {
        let gradient = match self.gradient {
            Some(g) => g,
            None => Gradient::Linear,
        };
        let direction = match self.gradient_direction {
            Some(d) => d,
            None => Direction::Bottom,
        };
        gradient.keyword() + "("@ + direction.gradient_side() + ","@ + joined(
            self.gradient_colors(),
            ", "@,
        ) + ")"@
    }

    /// The decoration: the lines with a comma and a blank between each two,
    /// then the stroke, then the colour, a blank before each.
    pub open spec fn decoration(&self) -> Seq<char> {
        let lines = match self.decor {
            Some(decor) => decor_keywords(decor@),
            None => Seq::empty(),
        };
        let stroke = match self.decor_style {
            Some(s) => s,
            None => DecorStyle::Solid,
        };
        joined(lines, ", "@) + " "@ + stroke.keyword() + " "@ + color_or_white(self.decor_color)
    }

    /// The inline style of the run of text: ten declarations, each on a line
    /// of its own.
    pub open spec fn style(&self) -> Seq<char> {
        let weight = match self.weight {
            Some(w) => w,
            None => Weight::Normal,
        };
        let white_space = match self.white_space {
            Some(w) => w,
            None => WhiteSpace::Normal,
        };
        let overflow_wrap = match self.overflow_wrap {
            Some(w) => w,
            None => OverflowWrap::Normal,
        };
        let alignment = match self.alignment {
            Some(a) => a,
            None => Alignment::Left,
        };
        "\n                    font-size: "@ + length_or_em(self.size)
            + ";\n                    font-family: "@ + self.family@
            + ";\n                    font-weight: "@ + weight.keyword()
            + ";\n                    background: "@ + self.background()
            + ";\n                    letter-spacing: "@ + length_or_em(self.letter_spacing)
            + ";\n                    word-spacing: "@ + length_or_em(self.word_spacing)
            + ";\n                    text-decoration: "@ + self.decoration()
            + ";\n                    white-space: "@ + white_space.keyword()
            + ";\n                    overflow-wrap: "@ + overflow_wrap.keyword()
            + ";\n                    text-align: "@ + alignment.keyword()
            + ";\n                "@
    }
}

/// A length as text, one em where none is given.
fn length_text(length: &Option<Unit<Relative>>) -> (s: String)
    ensures
        s@ == length_or_em(*length),
{
    match length {
        Some(u) => u.to_text(),
        None => Relative::Em.into_unit(String::from_str("1")).to_text(),
    }
}

/// A colour as text, white where none is given.
fn color_text(color: &Option<String>) -> (s: String)
    ensures
        s@ == color_or_white(*color),
{
    match color {
        Some(c) => c.clone(),
        None => Color::default().hex_rep(),
    }
}

/// Appends the keywords of the decorations, a comma and a blank between each
/// two.
fn push_decor(out: &mut String, decor: &Vec<Decor>)
    ensures
        final(out)@ == old(out)@ + joined(decor_keywords(decor@), ", "@),
{
    let ghost all = decor_keywords(decor@);
    let mut i: usize = 0;
    assert(old(out)@ + joined(all.subrange(0, 0), ", "@) =~= old(out)@);
    while i < decor.len()
        invariant
            i <= decor.len(),
            all == decor_keywords(decor@),
            out@ == old(out)@ + joined(all.subrange(0, i as int), ", "@),
        decreases decor.len() - i,
    {
        if i > 0 {
            out.append(", ");
        }
        out.append(decor[i].as_str());
        proof {
            joined_step(all, ", "@, i as int);
            assert(out@ =~= old(out)@ + joined(all.subrange(0, i + 1), ", "@));
        }
        i += 1;
    }
    assert(all.subrange(0, i as int) =~= all);
}

fn background_text(props: &TypographyProps) -> (s: String)
    ensures
        s@ == props.background(),
{
    let gradient = match props.gradient {
        Some(g) => g,
        None => Gradient::default(),
    };
    let direction = match props.gradient_direction {
        Some(d) => d,
        None => Direction::default(),
    };
    let mut s = gradient.to_text();
    s.append("(");
    s.append(direction.gradient_side_text());
    s.append(",");
    match &props.colors {
        Some(colors) => {
            push_joined(&mut s, colors, ", ");
        },
        None => {
            let white = color_text(&None);
            s.append(white.as_str());
            assert(props.gradient_colors().len() == 1);
        },
    }
    s.append(")");
    s
}

fn decoration_text(props: &TypographyProps) -> (s: String)
    ensures
        s@ == props.decoration(),
{
    let stroke = match props.decor_style {
        Some(s) => s,
        None => DecorStyle::default(),
    };
    let mut s = String::new();
    match &props.decor {
        Some(decor) => {
            push_decor(&mut s, decor);
        },
        None => {},
    }
    assert(s@ =~= joined(
        match props.decor {
            Some(decor) => decor_keywords(decor@),
            None => Seq::empty(),
        },
        ", "@,
    ));
    s.append(" ");
    s.append(stroke.as_str());
    s.append(" ");
    let color = color_text(&props.decor_color);
    s.append(color.as_str());
    s
}

/// The inline style of a run of text.
#[allow(non_snake_case)]
pub fn Typography(props: TypographyProps) -> (style: String)
    ensures
        style@ == props.style(),
{
    let weight = match props.weight {
        Some(w) => w,
        None => Weight::default(),
    };
    let white_space = match props.white_space {
        Some(w) => w,
        None => WhiteSpace::default(),
    };
    let overflow_wrap = match props.overflow_wrap {
        Some(w) => w,
        None => OverflowWrap::default(),
    };
    let alignment = match props.alignment {
        Some(a) => a,
        None => Alignment::default(),
    };
    let size = length_text(&props.size);
    let background = background_text(&props);
    let letter_spacing = length_text(&props.letter_spacing);
    let word_spacing = length_text(&props.word_spacing);
    let decoration = decoration_text(&props);
    let mut style = String::from_str("\n                    font-size: ");
    style.append(size.as_str());
    style.append(";\n                    font-family: ");
    style.append(props.family.as_str());
    style.append(";\n                    font-weight: ");
    style.append(weight.as_str());
    style.append(";\n                    background: ");
    style.append(background.as_str());
    style.append(";\n                    letter-spacing: ");
    style.append(letter_spacing.as_str());
    style.append(";\n                    word-spacing: ");
    style.append(word_spacing.as_str());
    style.append(";\n                    text-decoration: ");
    style.append(decoration.as_str());
    style.append(";\n                    white-space: ");
    style.append(white_space.as_str());
    style.append(";\n                    overflow-wrap: ");
    style.append(overflow_wrap.as_str());
    style.append(";\n                    text-align: ");
    style.append(alignment.as_str());
    style.append(";\n                ");
    style
}

} // verus!
