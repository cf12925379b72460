//! Layout primitives: what each one renders, given its properties.
//!
//! A primitive renders one block, or a frame with blocks stacked in it. The
//! functions here compute the class and the inline style of every block; the
//! children are placed by whoever renders.

use vstd::prelude::*;
use vstd::string::*;

mod col;
mod grid;
mod grid_item;
mod page;
mod page_item;
mod row;
mod stack;
mod stack_item;

pub use col::{col_style, Col};
pub use grid::{equal_tracks, gap_or_zero, grid_style, Grid, GridProps};
pub use grid_item::{depth_or_zero, grid_item_style, GridItem, GridItemProps};
pub use page::{
    page_content_style, page_frame_style, page_overlay_style, scroll_snap_type, Page, PageLayout,
    PageProps, PageScrollSnap, PAGE_OVERLAY_Z_INDEX,
};
pub use page_item::{
    page_item_background_style, page_item_foreground_style, page_item_frame_style, PageItem,
    PageItemLayout, PageItemProps,
};
pub use row::{row_style, Row};
pub use stack::{stack_style, Stack};
pub use stack_item::{stack_item_style, StackItem, StackItemProps};

verus! {

/// The properties that every primitive takes.
#[derive(Debug, Clone)]
pub struct CommonProps {
    pub class: Option<String>,
    pub style: Option<String>,
}

/// A rendered block: its class, if it has one, and its inline style.
#[derive(Debug, Clone)]
pub struct Block {
    pub class: Option<String>,
    pub style: String,
}

/// The declarations that put a block at the top left corner of its frame.
pub open spec fn abs_pos_reset() -> Seq<char> {
    "\n    top: 0%;\n    left: 0%;\n"@
}

/// The declarations that give a block the size of the viewport, neither more
/// nor less.
pub open spec fn fill_view() -> Seq<char> {
    "\n    min-width: 100vw;\n    max-width: 100vw;\n    width: 100vw;\n    min-height: 100vh;\n    max-height: 100vh;\n    height: 100vh;\n"@
}

/// The declarations that let a block fill its frame.
pub open spec fn fill() -> Seq<char> {
    "\n    width: 100%;\n    height: 100%;\n    flex: 1;\n"@
}

/// The style that the caller adds to a primitive's own: the text given, or
/// nothing.
pub open spec fn added_style(style: Option<String>) -> Seq<char> {
    match style {
        Some(s) => s@,
        None => Seq::empty(),
    }
}

pub(crate) fn abs_pos_reset_text() -> (s: &'static str)
    ensures
        s@ == abs_pos_reset(),
{
    "\n    top: 0%;\n    left: 0%;\n"
}

pub(crate) fn fill_view_text() -> (s: &'static str)
    ensures
        s@ == fill_view(),
{
    "\n    min-width: 100vw;\n    max-width: 100vw;\n    width: 100vw;\n    min-height: 100vh;\n    max-height: 100vh;\n    height: 100vh;\n"
}

pub(crate) fn fill_text() -> (s: &'static str)
    ensures
        s@ == fill(),
{
    "\n    width: 100%;\n    height: 100%;\n    flex: 1;\n"
}

/// Appends to `out` the style that the caller adds.
pub(crate) fn push_added_style(out: &mut String, style: &Option<String>)
    ensures
        final(out)@ == old(out)@ + added_style(*style),
{
    match style {
        Some(s) => {
            out.append(s.as_str());
        },
        None => {
            assert(old(out)@ + Seq::<char>::empty() =~= old(out)@);
        },
    }
}

} // verus!
