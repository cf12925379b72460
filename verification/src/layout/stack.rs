//! The stack: a column that its items are placed against.

use vstd::prelude::*;
use vstd::string::*;
use super::{added_style, col_style, push_added_style, Block, Col, CommonProps};

verus! {

/// The style of a stack: that of a column to which the position is added,
/// then what the caller adds.
pub open spec fn stack_style(added: Seq<char>) -> Seq<char> {
    col_style("\n                    position: relative;\n                    "@ + added + "\n                "@)
}

/// The block that a stack renders.
#[allow(non_snake_case)]
pub fn Stack(props: CommonProps) -> (block: Block)
    ensures
        block.class == props.class,
        block.style@ == stack_style(added_style(props.style)),
{
    let mut style = String::from_str("\n                    position: relative;\n                    ");
    push_added_style(&mut style, &props.style);
    style.append("\n                ");
    Col(CommonProps { class: props.class, style: Some(style) })
}

} // verus!
