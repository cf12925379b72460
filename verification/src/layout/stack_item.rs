//! The stack item: a column laid over its stack at a given depth.

use vstd::prelude::*;
use vstd::string::*;
use crate::text::{decimal, push_decimal};
use super::{added_style, col_style, push_added_style, Block, Col, CommonProps};

verus! {

#[derive(Debug, Clone)]
pub struct StackItemProps {
    /// The depth: an item with a greater one lies over an item with a smaller.
    pub z: u64,
    pub class: Option<String>,
    pub style: Option<String>,
}

/// The style of a stack item: that of a column to which the position and the
/// depth, in decimal, are added, then what the caller adds.
pub open spec fn stack_item_style(z: u64, added: Seq<char>) -> Seq<char> {
    col_style(
        "\n                    position: absolute;\n                    z-index: "@ + decimal(z as nat)
            + ";\n                    "@ + added + "\n                "@,
    )
}

/// The block that a stack item renders.
#[allow(non_snake_case)]
pub fn StackItem(props: StackItemProps) -> (block: Block)
    ensures
        block.class == props.class,
        block.style@ == stack_item_style(props.z, added_style(props.style)),
{
    let mut style = String::from_str("\n                    position: absolute;\n                    z-index: ");
    push_decimal(&mut style, props.z as u128);
    style.append(";\n                    ");
    push_added_style(&mut style, &props.style);
    style.append("\n                ");
    Col(CommonProps { class: props.class, style: Some(style) })
}

} // verus!
