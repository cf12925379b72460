//! The row: a column whose children run from side to side.

use vstd::prelude::*;
use vstd::string::*;
use super::{added_style, col_style, push_added_style, Block, Col, CommonProps};

verus! {

/// The style of a row: that of a column to which the direction is added, then
/// what the caller adds.
pub open spec fn row_style(added: Seq<char>) -> Seq<char> {
    col_style("\n                    flex-direction: row;\n                    "@ + added + "\n                "@)
}

/// The block that a row renders.
#[allow(non_snake_case)]
pub fn Row(props: CommonProps) -> (block: Block)
    ensures
        block.class == props.class,
        block.style@ == row_style(added_style(props.style)),
{
    let mut style = String::from_str("\n                    flex-direction: row;\n                    ");
    push_added_style(&mut style, &props.style);
    style.append("\n                ");
    Col(CommonProps { class: props.class, style: Some(style) })
}

} // verus!
