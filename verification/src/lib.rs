//! Design tokens and layout rules for browser user interfaces.
//!
//! Every function here computes on plain values: colours, units of measure,
//! closed sets of keywords, and the inline style text of the layout
//! primitives. Each states what it returns as a contract over the value's
//! mathematical model.

pub mod color;
pub mod direction;
pub mod layout;
pub mod text;
pub mod typography;
pub mod unit;
pub mod url;
pub mod win;
