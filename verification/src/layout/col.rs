//! The column: a flex box that centres its children along both axes.

use vstd::prelude::*;
use vstd::string::*;
use super::{added_style, push_added_style, Block, CommonProps};

verus! {

/// The style of a column: its own four declarations, then what the caller
/// adds.
pub open spec fn col_style(added: Seq<char>) -> Seq<char> {
    "\n                    display: flex;\n                    flex-direction: column;\n                    justify-content: center;\n                    align-items: center;\n                    "@
        + added + "\n                "@
}

/// The block that a column renders.
#[allow(non_snake_case)]
pub fn Col(props: CommonProps) -> (block: Block)
    ensures
        block.class == props.class,
        block.style@ == col_style(added_style(props.style)),
{
    let mut style = String::from_str(
        "\n                    display: flex;\n                    flex-direction: column;\n                    justify-content: center;\n                    align-items: center;\n                    ",
    );
    push_added_style(&mut style, &props.style);
    style.append("\n                ");
    Block { class: props.class, style }
}

} // verus!
