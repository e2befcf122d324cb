//! The colors used to display each kind of line.
use vstd::prelude::*;
use crate::config::Color;
use crate::view::styles::Colors;

verus! {

/// The colors of each kind of line.
#[derive(Clone, Copy, PartialEq, Eq, Debug, Structural)]
pub struct LineStyles {
    pub heading_one: Colors,
    pub heading_two: Colors,
    pub heading_three: Colors,
    pub link: Colors,
    pub list_item: Colors,
    pub quote: Colors,
    pub preformat: Colors,
    pub text: Colors,
    pub plaintext: Colors,
}

/// Brown on dark green.
pub open spec fn brown_on_green() -> Colors {
    Colors { foreground: Color { r: 128, g: 64, b: 32 }, background: Color { r: 16, g: 32, b: 32 } }
}

impl LineStyles {
    /// Every kind of line in brown on dark green.
    pub fn new() -> (r: LineStyles)
        ensures
            r.heading_one == brown_on_green(),
            r.heading_two == brown_on_green(),
            r.heading_three == brown_on_green(),
            r.link == brown_on_green(),
            r.list_item == brown_on_green(),
            r.quote == brown_on_green(),
            r.preformat == brown_on_green(),
            r.text == brown_on_green(),
            r.plaintext == brown_on_green(),
    {
        let style = Colors::new(Color { r: 128, g: 64, b: 32 }, Color { r: 16, g: 32, b: 32 });
        LineStyles {
            heading_one: style,
            heading_two: style,
            heading_three: style,
            link: style,
            list_item: style,
            quote: style,
            preformat: style,
            plaintext: style,
            text: style,
        }
    }
}

} // verus!
