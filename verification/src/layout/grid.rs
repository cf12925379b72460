//! The grid: a block whose children are placed in rows and columns.

use vstd::prelude::*;
use vstd::string::*;
use crate::text::{decimal, push_decimal};
use super::{added_style, push_added_style, Block};

verus! {

#[derive(Debug, Clone)]
pub struct GridProps {
    pub row_count: u8,
    pub row_gap: Option<String>,
    pub col_count: u8,
    pub col_gap: Option<String>,
    pub gap: Option<String>,
    pub class: Option<String>,
    pub style: Option<String>,
}

/// A gap as it is written: the text given, or zero.
pub open spec fn gap_or_zero(gap: Option<String>) -> Seq<char> {
    match gap {
        Some(g) => g@,
        None => "0"@,
    }
}

/// A number of tracks of equal share: the count first, in decimal, then the
/// share of each.
pub open spec fn equal_tracks(count: u8) -> Seq<char> {
    "repeat("@ + decimal(count as nat) + ", 1fr)"@
}

/// The style of a grid: the rows and the columns as tracks of equal share,
/// the gap, the gap between rows, the gap between columns, then what the
/// caller adds.
pub open spec fn grid_style(props: GridProps) -> Seq<char> {
    "\n                    display: grid;\n                    grid-template-rows: "@ + equal_tracks(
        props.row_count,
    ) + ";\n                    grid-template-columns: "@ + equal_tracks(props.col_count)
        + ";\n                    gap: "@ + gap_or_zero(props.gap) + ";\n                    row-gap: "@
        + gap_or_zero(props.row_gap) + ";\n                    column-gap: "@ + gap_or_zero(
        props.col_gap,
    ) + ";\n                    "@ + added_style(props.style) + "\n                "@
}

fn push_equal_tracks(out: &mut String, count: u8)
    ensures
        final(out)@ == old(out)@ + equal_tracks(count),
{
    out.append("repeat(");
    push_decimal(out, count as u128);
    out.append(", 1fr)");
    assert(final(out)@ =~= old(out)@ + equal_tracks(count));
}

fn push_gap(out: &mut String, gap: &Option<String>)
    ensures
        final(out)@ == old(out)@ + gap_or_zero(*gap),
{
    match gap {
        Some(g) => {
            out.append(g.as_str());
        },
        None => {
            out.append("0");
        },
    }
}

/// The block that a grid renders. It has no class, whatever the properties
/// give.
#[allow(non_snake_case)]
pub fn Grid(props: GridProps) -> (block: Block)
    ensures
        block.class is None,
        block.style@ == grid_style(props),
{
    let mut style = String::from_str(
        "\n                    display: grid;\n                    grid-template-rows: ",
    );
    push_equal_tracks(&mut style, props.row_count);
    style.append(";\n                    grid-template-columns: ");
    push_equal_tracks(&mut style, props.col_count);
    style.append(";\n                    gap: ");
    push_gap(&mut style, &props.gap);
    style.append(";\n                    row-gap: ");
    push_gap(&mut style, &props.row_gap);
    style.append(";\n                    column-gap: ");
    push_gap(&mut style, &props.col_gap);
    style.append(";\n                    ");
    push_added_style(&mut style, &props.style);
    style.append("\n                ");
    Block { class: None, style }
}

} // verus!
