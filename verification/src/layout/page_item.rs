//! The page item: one screen of a page, with a background behind it.

use vstd::prelude::*;
use vstd::string::*;
use super::{
    abs_pos_reset, abs_pos_reset_text, added_style, fill_view, fill_view_text, push_added_style,
    stack_item_style, stack_style, Block, CommonProps, Stack, StackItem, StackItemProps,
};

verus! {

#[derive(Debug, Clone)]
pub struct PageItemProps {
    pub class: Option<String>,
    pub style: Option<String>,
}

/// What a page item renders: the frame, and the two blocks stacked in it.
/// The background is rendered first and takes the item's background; the
/// foreground is rendered second and takes the item's top, its children and
/// its bottom, in that order.
#[derive(Debug, Clone)]
pub struct PageItemLayout {
    pub frame: Block,
    pub background: Block,
    pub foreground: Block,
}

/// The style of a page item's frame: that of a stack which fills the
/// viewport, then what the caller adds.
pub open spec fn page_item_frame_style(added: Seq<char>) -> Seq<char> {
    stack_style(
        "\n                    flex: 1;\n                    "@ + fill_view() + "\n                    "@
            + added + "\n                "@,
    )
}

/// The style of a page item's background: that of a stack item at depth
/// zero, placed at the frame's corner, of the size of the viewport.
pub open spec fn page_item_background_style() -> Seq<char> {
    stack_item_style(
        0,
        "\n                        "@ + abs_pos_reset() + "\n                        "@ + fill_view()
            + "\n                    "@,
    )
}

/// The style of a page item's foreground: that of a stack item at depth one,
/// placed as the background is, which spreads its children from top to
/// bottom and is a place where a page that scrolls comes to rest.
pub open spec fn page_item_foreground_style() -> Seq<char> {
    stack_item_style(
        1,
        "\n                        justify-content: space-between;\n                        scroll-snap-align: start;\n                        "@
            + abs_pos_reset() + "\n                        "@ + fill_view()
            + "\n                    "@,
    )
}

/// The blocks that a page item renders. Only the frame takes the caller's
/// class and style.
#[allow(non_snake_case)]
pub fn PageItem(props: PageItemProps) -> (layout: PageItemLayout)
    ensures
        layout.frame.class == props.class,
        layout.frame.style@ == page_item_frame_style(added_style(props.style)),
        layout.background.class is None,
        layout.background.style@ == page_item_background_style(),
        layout.foreground.class is None,
        layout.foreground.style@ == page_item_foreground_style(),
{
    let mut frame = String::from_str("\n                    flex: 1;\n                    ");
    frame.append(fill_view_text());
    frame.append("\n                    ");
    push_added_style(&mut frame, &props.style);
    frame.append("\n                ");

    let mut background = String::from_str("\n                        ");
    background.append(abs_pos_reset_text());
    background.append("\n                        ");
    background.append(fill_view_text());
    background.append("\n                    ");

    let mut foreground = String::from_str(
        "\n                        justify-content: space-between;\n                        scroll-snap-align: start;\n                        ",
    );
    foreground.append(abs_pos_reset_text());
    foreground.append("\n                        ");
    foreground.append(fill_view_text());
    foreground.append("\n                    ");

    PageItemLayout {
        frame: Stack(CommonProps { class: props.class, style: Some(frame) }),
        background: StackItem(StackItemProps { z: 0, class: None, style: Some(background) }),
        foreground: StackItem(StackItemProps { z: 1, class: None, style: Some(foreground) }),
    }
}

} // verus!
