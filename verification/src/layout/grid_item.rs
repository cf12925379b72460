//! The grid item: a block that spans a range of columns and of rows.

use vstd::prelude::*;
use vstd::string::*;
use crate::text::{decimal, push_decimal};
use super::{added_style, push_added_style, Block};

verus! {

#[derive(Debug, Clone)]
pub struct GridItemProps {
    pub x_from: u8,
    pub y_from: u8,
    pub x_to: u8,
    pub y_to: u8,
    /// The depth; zero where none is given.
    pub z: Option<u128>,
    pub class: Option<String>,
    pub style: Option<String>,
}

/// The depth of a grid item.
pub open spec fn depth_or_zero(z: Option<u128>) -> nat {
    match z {
        Some(z) => z as nat,
        None => 0,
    }
}

/// The style of a grid item: the columns from and to, the rows from and to,
/// and the depth, all in decimal, then what the caller adds.
pub open spec fn grid_item_style(props: GridItemProps) -> Seq<char> {
    "\n                    grid-column: "@ + decimal(props.x_from as nat) + " / "@ + decimal(
        props.x_to as nat,
    ) + ";\n                    grid-row: "@ + decimal(props.y_from as nat) + " / "@ + decimal(
        props.y_to as nat,
    ) + ";\n                    z-index: "@ + decimal(depth_or_zero(props.z))
        + ";\n                    "@ + added_style(props.style) + "\n                "@
}

/// The block that a grid item renders.
#[allow(non_snake_case)]
pub fn GridItem(props: GridItemProps) -> (block: Block)
    ensures
        block.class == props.class,
        block.style@ == grid_item_style(props),
{
    let z: u128 = match props.z {
        Some(z) => z,
        None => 0,
    };
    let mut style = String::from_str("\n                    grid-column: ");
    push_decimal(&mut style, props.x_from as u128);
    style.append(" / ");
    push_decimal(&mut style, props.x_to as u128);
    style.append(";\n                    grid-row: ");
    push_decimal(&mut style, props.y_from as u128);
    style.append(" / ");
    push_decimal(&mut style, props.y_to as u128);
    style.append(";\n                    z-index: ");
    push_decimal(&mut style, z);
    style.append(";\n                    ");
    push_added_style(&mut style, &props.style);
    style.append("\n                ");
    Block { class: props.class, style }
}

} // verus!
