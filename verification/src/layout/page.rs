//! The page: a frame of the size of the viewport, with the content that
//! scrolls and an overlay that stays.

use vstd::prelude::*;
use vstd::string::*;
use super::{
    added_style, fill, fill_text, fill_view, fill_view_text, push_added_style, stack_item_style,
    stack_style, Block, CommonProps, Stack, StackItem, StackItemProps,
};

verus! {

/// The depth of a page's overlay: half of the greatest depth there is, so
/// that the overlay lies over the content and a caller can still lay a block
/// over the overlay.
pub const PAGE_OVERLAY_Z_INDEX: u64 = u64::MAX / 2;

/// How strictly a page that scrolls comes to rest at its items.
#[derive(Debug, Clone, Copy, PartialEq, Eq, Structural)]
pub enum PageScrollSnap {
    Mandatory,
    Proximity,
}

#[derive(Debug, Clone)]
pub struct PageProps {
    pub scroll_snap: Option<PageScrollSnap>,
    pub class: Option<String>,
    pub style: Option<String>,
}

/// What a page renders: the frame, and the two blocks stacked in it. The
/// overlay is rendered first and takes the page's overlay; the content is
/// rendered second and takes the page's children.
#[derive(Debug, Clone)]
pub struct PageLayout {
    pub frame: Block,
    pub overlay: Block,
    pub content: Block,
}

/// The value of the scroll snap type: along the vertical axis as strictly as
/// asked, or none.
pub open spec fn scroll_snap_type(snap: Option<PageScrollSnap>) -> Seq<char> {
    match snap {
        Some(PageScrollSnap::Mandatory) => "y mandatory"@,
        Some(PageScrollSnap::Proximity) => "y proximity"@,
        None => "none"@,
    }
}

/// The style of a page's frame: that of a stack which fills the viewport,
/// then what the caller adds.
pub open spec fn page_frame_style(added: Seq<char>) -> Seq<char> {
    stack_style(
        "\n                    justify-content: start;\n                    "@ + fill_view()
            + "\n                    "@ + added + "\n                "@,
    )
}

/// The style of a page's overlay: that of a stack item at the overlay's
/// depth, which fills the frame, hides what overflows and lets the pointer
/// through.
pub open spec fn page_overlay_style() -> Seq<char> {
    stack_item_style(
        PAGE_OVERLAY_Z_INDEX,
        "\n                        justify-content: start;\n                        overflow-x: hidden;\n                        overflow-y: hidden;\n                        pointer-events: none;\n                        "@
            + fill() + "\n                    "@,
    )
}

/// The style of a page's content: that of a stack item at depth zero, which
/// fills the frame and scrolls along the vertical axis.
pub open spec fn page_content_style(snap: Option<PageScrollSnap>) -> Seq<char> {
    stack_item_style(
        0,
        "\n                        justify-content: start;\n                        overflow-x: hidden;\n                        overflow-y: auto;\n                        scroll-snap-type: "@
            + scroll_snap_type(snap)
            + ";\n                        scroll-behavior: smooth;\n                        "@ + fill()
            + "\n                    "@,
    )
}

fn scroll_snap_text(snap: &Option<PageScrollSnap>) -> (s: &'static str)
    ensures
        s@ == scroll_snap_type(*snap),
{
    match snap {
        Some(PageScrollSnap::Mandatory) => "y mandatory",
        Some(PageScrollSnap::Proximity) => "y proximity",
        None => "none",
    }
}

/// The blocks that a page renders. Only the frame takes the caller's class
/// and style.
#[allow(non_snake_case)]
pub fn Page(props: PageProps) -> (layout: PageLayout)
    ensures
        layout.frame.class == props.class,
        layout.frame.style@ == page_frame_style(added_style(props.style)),
        layout.overlay.class is None,
        layout.overlay.style@ == page_overlay_style(),
        layout.content.class is None,
        layout.content.style@ == page_content_style(props.scroll_snap),
{
    let mut frame = String::from_str("\n                    justify-content: start;\n                    ");
    frame.append(fill_view_text());
    frame.append("\n                    ");
    push_added_style(&mut frame, &props.style);
    frame.append("\n                ");

    let mut overlay = String::from_str(
        "\n                        justify-content: start;\n                        overflow-x: hidden;\n                        overflow-y: hidden;\n                        pointer-events: none;\n                        ",
    );
    overlay.append(fill_text());
    overlay.append("\n                    ");

    let mut content = String::from_str(
        "\n                        justify-content: start;\n                        overflow-x: hidden;\n                        overflow-y: auto;\n                        scroll-snap-type: ",
    );
    content.append(scroll_snap_text(&props.scroll_snap));
    content.append(";\n                        scroll-behavior: smooth;\n                        ");
    content.append(fill_text());
    content.append("\n                    ");

    PageLayout {
        frame: Stack(CommonProps { class: props.class, style: Some(frame) }),
        overlay: StackItem(
            StackItemProps { z: PAGE_OVERLAY_Z_INDEX, class: None, style: Some(overlay) },
        ),
        content: StackItem(StackItemProps { z: 0, class: None, style: Some(content) }),
    }
}

} // verus!
