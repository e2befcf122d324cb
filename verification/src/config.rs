//! Settings: the start page, key bindings, layout and colors, with their
//! defaults.
use vstd::prelude::*;
use crate::gemini::{GemType, GemKind, GemDoc};
use crate::strings::string_from;
use crate::widget::ColoredText;

verus! {

/// A color by its red, green and blue parts.
#[derive(Clone, Copy, PartialEq, Eq, Debug, Structural)]
pub struct Color {
    pub r: u8,
    pub g: u8,
    pub b: u8,
}

/// The color of a triple.
pub open spec fn rgb(t: (u8, u8, u8)) -> Color {
    Color { r: t.0, g: t.1, b: t.2 }
}

fn color_of(t: (u8, u8, u8)) -> (c: Color)
    ensures
        c == rgb(t),
{
    Color { r: t.0, g: t.1, b: t.2 }
}

/// All settings.
#[derive(Debug, Clone)]
pub struct Config {
    pub init_url: String,
    pub scroll_at: u8,
    pub colors: ColorParams,
    pub keys: KeyParams,
    pub format: FormatParams,
}

impl Config {
    /// The settings used where none are given.
    pub fn default() -> (r: Config)
        ensures
            r.init_url@ == "gemini://datapulp.smol.pub/"@,
            r.scroll_at == 3,
            r.colors == ColorParams::spec_default(),
            r.keys == KeyParams::spec_default(),
            r.format.is_default(),
    {
        Config {
            init_url: string_from("gemini://datapulp.smol.pub/"),
            scroll_at: 3,
            colors: ColorParams::default(),
            keys: KeyParams::default(),
            format: FormatParams::default(),
        }
    }
}

/// Key bindings.
#[derive(Debug, Clone, Copy, PartialEq, Eq, Structural)]
pub struct KeyParams {
    pub global: char,
    pub load_cfg: char,
    pub msg_view: char,
    pub tab_view: char,
    pub dialog: DialogKeyParams,
    pub tab: TabKeyParams,
}

impl KeyParams {
    pub open spec fn spec_default() -> KeyParams {
        KeyParams {
            global: 'g',
            load_cfg: 'c',
            msg_view: 'm',
            tab_view: 't',
            dialog: DialogKeyParams::spec_default(),
            tab: TabKeyParams::spec_default(),
        }
    }

    /// The default bindings.
    pub fn default() -> (r: KeyParams)
        ensures
            r == KeyParams::spec_default(),
    {
        KeyParams {
            global: 'g',
            load_cfg: 'c',
            msg_view: 'm',
            tab_view: 't',
            dialog: DialogKeyParams::default(),
            tab: TabKeyParams::default(),
        }
    }
}

/// Key bindings inside a tab.
#[derive(Debug, Clone, Copy, PartialEq, Eq, Structural)]
pub struct TabKeyParams {
    pub move_up: char,
    pub move_down: char,
    pub cycle_left: char,
    pub cycle_right: char,
    pub inspect: char,
    pub delete_tab: char,
    pub new_tab: char,
}

impl TabKeyParams {
    pub open spec fn spec_default() -> TabKeyParams {
        TabKeyParams {
            move_up: 'o',
            move_down: 'i',
            cycle_left: 'e',
            cycle_right: 'n',
            inspect: 'w',
            delete_tab: 'v',
            new_tab: 'p',
        }
    }

    /// The default bindings.
    pub fn default() -> (r: TabKeyParams)
        ensures
            r == TabKeyParams::spec_default(),
    {
        TabKeyParams {
            move_up: 'o',
            move_down: 'i',
            cycle_left: 'e',
            cycle_right: 'n',
            inspect: 'w',
            delete_tab: 'v',
            new_tab: 'p',
        }
    }
}

/// Key bindings in a dialog.
#[derive(Debug, Clone, Copy, PartialEq, Eq, Structural)]
pub struct DialogKeyParams {
    pub ack: char,
    pub yes: char,
    pub no: char,
}

impl DialogKeyParams {
    pub open spec fn spec_default() -> DialogKeyParams {
        DialogKeyParams { ack: 'y', yes: 'y', no: 'n' }
    }

    /// The default bindings.
    pub fn default() -> (r: DialogKeyParams)
        ensures
            r == DialogKeyParams::spec_default(),
    {
        DialogKeyParams { ack: 'y', yes: 'y', no: 'n' }
    }
}

/// Layout settings.
#[derive(Debug)]
pub struct FormatParams {
    pub margin: u8,
    pub list_prefix: String,
    pub heading1: (u8, u8),
    pub heading2: (u8, u8),
    pub heading3: (u8, u8),
}

impl Clone for FormatParams {
    fn clone(&self) -> (r: FormatParams)
        ensures
            r.margin == self.margin,
            r.list_prefix@ == self.list_prefix@,
            r.heading1 == self.heading1,
            r.heading2 == self.heading2,
            r.heading3 == self.heading3,
    {
        FormatParams {
            margin: self.margin,
            list_prefix: self.list_prefix.clone(),
            heading1: self.heading1,
            heading2: self.heading2,
            heading3: self.heading3,
        }
    }
}

impl FormatParams {
    /// These are the default settings.
    pub open spec fn is_default(self) -> bool {
        &&& self.margin == 2
        &&& self.list_prefix@ == "- "@
        &&& self.heading1 == (3u8, 2u8)
        &&& self.heading2 == (2u8, 1u8)
        &&& self.heading3 == (1u8, 0u8)
    }

    /// The default settings.
    pub fn default() -> (r: FormatParams)
        ensures
            r.is_default(),
    {
        FormatParams {
            margin: 2,
            list_prefix: string_from("- "),
            heading1: (3, 2),
            heading2: (2, 1),
            heading3: (1, 0),
        }
    }
}

/// Colors, each as red, green and blue.
#[derive(Debug, Clone, Copy)]
pub struct ColorParams {
    pub background: (u8, u8, u8),
    pub banner: (u8, u8, u8),
    pub dialog: (u8, u8, u8),
    pub text: (u8, u8, u8),
    pub heading1: (u8, u8, u8),
    pub heading2: (u8, u8, u8),
    pub heading3: (u8, u8, u8),
    pub link: (u8, u8, u8),
    pub badlink: (u8, u8, u8),
    pub quote: (u8, u8, u8),
    pub list: (u8, u8, u8),
    pub preformat: (u8, u8, u8),
}

/// The color for a kind of line.
pub open spec fn kind_color(c: ColorParams, kind: GemKind) -> Color {
    match kind {
        GemKind::HeadingOne => rgb(c.heading1),
        GemKind::HeadingTwo => rgb(c.heading2),
        GemKind::HeadingThree => rgb(c.heading3),
        GemKind::Text => rgb(c.text),
        GemKind::Quote => rgb(c.quote),
        GemKind::ListItem => rgb(c.list),
        GemKind::PreFormat => rgb(c.preformat),
        GemKind::Link(_, _) => rgb(c.link),
        GemKind::BadLink(_) => rgb(c.badlink),
    }
}

impl ColorParams {
    pub open spec fn spec_default() -> ColorParams {
        ColorParams {
            background: (205, 205, 205),
            dialog: (0, 0, 0),
            banner: (0, 0, 0),
            text: (0, 0, 0),
            heading1: (0, 0, 0),
            heading2: (0, 0, 0),
            heading3: (0, 0, 0),
            link: (0, 0, 0),
            badlink: (0, 0, 0),
            quote: (0, 0, 0),
            list: (0, 0, 0),
            preformat: (0, 0, 0),
        }
    }

    /// The default colors: a light grey background, black elsewhere.
    pub fn default() -> (r: ColorParams)
        ensures
            r == ColorParams::spec_default(),
    {
        ColorParams {
            background: (205, 205, 205),
            dialog: (0, 0, 0),
            banner: (0, 0, 0),
            text: (0, 0, 0),
            heading1: (0, 0, 0),
            heading2: (0, 0, 0),
            heading3: (0, 0, 0),
            link: (0, 0, 0),
            badlink: (0, 0, 0),
            quote: (0, 0, 0),
            list: (0, 0, 0),
            preformat: (0, 0, 0),
        }
    }

    pub fn get_banner(&self) -> (r: Color)
        ensures
            r == rgb(self.banner),
    {
        color_of(self.banner)
    }

    pub fn get_dialog(&self) -> (r: Color)
        ensures
            r == rgb(self.dialog),
    {
        color_of(self.dialog)
    }

    pub fn get_background(&self) -> (r: Color)
        ensures
            r == rgb(self.background),
    {
        color_of(self.background)
    }

    /// The lines of a document, each in the color of its kind.
    pub fn from_gem_doc(&self, doc: &GemDoc) -> (r: Vec<ColoredText>)
        ensures
            r@.len() == doc.doc@.len(),
            forall|i: int| 0 <= i < r@.len() ==> (#[trigger] r@[i]).text@ == doc.doc@[i].1@,
            forall|i: int| 0 <= i < r@.len() ==> (#[trigger] r@[i]).color == kind_color(*self, doc.doc@[i].0@),
    {
        let mut v: Vec<ColoredText> = Vec::new();
        let mut k: usize = 0;
        while k < doc.doc.len()
            invariant
                k <= doc.doc@.len(),
                v@.len() == k,
                forall|i: int| 0 <= i < k ==> (#[trigger] v@[i]).text@ == doc.doc@[i].1@,
                forall|i: int| 0 <= i < k ==> (#[trigger] v@[i]).color == kind_color(*self, doc.doc@[i].0@),
            decreases doc.doc@.len() - k,
        {
            let item = &doc.doc[k];
            v.push(self.from_gem_type(&item.0, item.1.as_str()));
            k = k + 1;
        }
        v
    }

    /// A text in the color of its kind.
    pub fn from_gem_type(&self, gem: &GemType, text: &str) -> (r: ColoredText)
        ensures
            r.text@ == text@,
            r.color == kind_color(*self, gem@),
    {
        let color = match gem {
            GemType::HeadingOne => color_of(self.heading1),
            GemType::HeadingTwo => color_of(self.heading2),
            GemType::HeadingThree => color_of(self.heading3),
            GemType::Text => color_of(self.text),
            GemType::Quote => color_of(self.quote),
            GemType::ListItem => color_of(self.list),
            GemType::PreFormat => color_of(self.preformat),
            GemType::Link(_, _) => color_of(self.link),
            GemType::BadLink(_) => color_of(self.badlink),
        };
        ColoredText::new(text, color)
    }
}

} // verus!
