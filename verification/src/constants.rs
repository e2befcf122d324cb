//! Keys, the start page and the symbols of the gemini protocol.
use vstd::prelude::*;

verus! {

/// Keys that move the cursor, and the key that asks for a URL.
pub const LEFT: char = 'e';
pub const DOWN: char = 'i';
pub const UP: char = 'o';
pub const RIGHT: char = 'n';
pub const URL: char = 'g';

/// The page opened first.
pub const INIT_LINK: &'static str = "gemini://geminiprotocol.net/";

/// URL schemes, line symbols and the port of the gemini protocol.
pub const GOPHER_SCHEME: &'static str = "gopher";
pub const HTTPS_SCHEME: &'static str = "https";
pub const HTTP_SCHEME: &'static str = "http";
pub const LINK_SYMBOL: &'static str = "=>";
pub const TOGGLE_SYMBOL: &'static str = "```";
pub const QUOTE_SYMBOL: &'static str = ">";
pub const LIST_ITEM_SYMBOL: &'static str = "*";
pub const HEADING_1_SYMBOL: &'static str = "#";
pub const HEADING_2_SYMBOL: &'static str = "##";
pub const HEADING_3_SYMBOL: &'static str = "###";
pub const GEMINI_PORT: &'static str = "1965";
pub const GEMINI_SCHEME: &'static str = "gemini";

} // verus!
