//! The colors of each kind of gemtext line.
use vstd::prelude::*;
use crate::config::Color;
use crate::gemini::gemtext::{GemTextData, TextKind};

verus! {

/// A foreground and a background color.
#[derive(Clone, Copy, PartialEq, Eq, Debug, Structural)]
pub struct Colors {
    pub foreground: Color,
    pub background: Color,
}

impl Colors {
    pub fn new(foreground: Color, background: Color) -> (r: Colors)
        ensures
            r == (Colors { foreground, background }),
    {
        Colors { foreground, background }
    }
}

/// A pair of colors by their parts.
pub open spec fn pair(f: (u8, u8, u8), b: (u8, u8, u8)) -> Colors {
    Colors {
        foreground: Color { r: f.0, g: f.1, b: f.2 },
        background: Color { r: b.0, g: b.1, b: b.2 },
    }
}

/// The colors of each kind of line.
#[derive(Clone, Copy, PartialEq, Eq, Debug, Structural)]
pub struct LineStyles {
    pub heading_one: Colors,
    pub heading_two: Colors,
    pub heading_three: Colors,
    pub link: Colors,
    pub list_item: Colors,
    pub quote: Colors,
    pub preformat: Colors,
    pub text: Colors,
    pub plaintext: Colors,
}

/// The colors of headings, links and other text.
pub open spec fn default_styles() -> LineStyles {
    let heading = pair((208, 96, 96), (0, 0, 0));
    let plain = pair((192, 192, 144), (0, 0, 0));
    LineStyles {
        heading_one: pair((208, 96, 96), (48, 24, 24)),
        heading_two: heading,
        heading_three: heading,
        link: pair((176, 96, 192), (0, 0, 0)),
        list_item: plain,
        quote: plain,
        preformat: plain,
        plaintext: plain,
        text: plain,
    }
}

/// The colors of a kind of line; a link has the link colors.
pub open spec fn style_of(s: LineStyles, k: TextKind) -> Colors {
    match k {
        TextKind::HeadingOne => s.heading_one,
        TextKind::HeadingTwo => s.heading_two,
        TextKind::HeadingThree => s.heading_three,
        TextKind::Text => s.text,
        TextKind::Quote => s.quote,
        TextKind::ListItem => s.list_item,
        TextKind::PreFormat => s.preformat,
        TextKind::Link(_) => s.link,
    }
}

impl LineStyles {
    pub fn new() -> (r: LineStyles)
        ensures
            r == default_styles(),
    {
        let heading_one_style = Colors::new(Color { r: 208, g: 96, b: 96 }, Color { r: 48, g: 24, b: 24 });
        let heading_two_style = Colors::new(Color { r: 208, g: 96, b: 96 }, Color { r: 0, g: 0, b: 0 });
        let heading_three_style = Colors::new(Color { r: 208, g: 96, b: 96 }, Color { r: 0, g: 0, b: 0 });
        let link_style = Colors::new(Color { r: 176, g: 96, b: 192 }, Color { r: 0, g: 0, b: 0 });
        let text_style = Colors::new(Color { r: 192, g: 192, b: 144 }, Color { r: 0, g: 0, b: 0 });
        let list_style = Colors::new(Color { r: 192, g: 192, b: 144 }, Color { r: 0, g: 0, b: 0 });
        let quote_style = Colors::new(Color { r: 192, g: 192, b: 144 }, Color { r: 0, g: 0, b: 0 });
        LineStyles {
            heading_one: heading_one_style,
            heading_two: heading_two_style,
            heading_three: heading_three_style,
            link: link_style,
            list_item: list_style,
            quote: quote_style,
            preformat: text_style,
            plaintext: text_style,
            text: text_style,
        }
    }

    pub fn get_colors(&self, data: GemTextData) -> (r: Colors)
        ensures
            r == style_of(*self, data@),
    {
        match data {
            GemTextData::HeadingOne => self.heading_one,
            GemTextData::HeadingTwo => self.heading_two,
            GemTextData::HeadingThree => self.heading_three,
            GemTextData::Text => self.text,
            GemTextData::Quote => self.quote,
            GemTextData::ListItem => self.list_item,
            GemTextData::PreFormat => self.preformat,
            _ => self.link,
        }
    }
}

} // verus!
