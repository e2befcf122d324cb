//! How a message changes the viewer.  Following a link needs the page
//! behind it: `update` names the URL to fetch, and `respond_to_dialog`
//! takes what was fetched.
use vstd::prelude::*;
use crate::weburl::WebUrl;
use crate::msg::Message;
use crate::constants::{UP, DOWN};
use crate::status::{Status, header_status};
use crate::gemini::gemtext::GemTextData;
use crate::view::model::{Model, dialog_view};
use crate::view::dialog::{Dialog, Action, ActionView, query_view};
use crate::view::text::{
    PageView, up_from, down_from, down_ok, readable, page_of, response_text, response_text_of, readable_text,
};

verus! {

/// The cursor of a page is on a piece of one of its blocks.
pub open spec fn cursor_ok(p: PageView) -> bool {
    &&& p.current < p.blocks.len()
    &&& p.blocks[p.current as int].current < p.blocks[p.current as int].text.len()
}

/// A message can be handled: the moves and the lookup it asks for are
/// defined.
pub open spec fn update_ok(m: Model, msg: Message) -> bool {
    match msg {
        Message::Enter => m.dialog is None ==> cursor_ok(m.text@),
        Message::Code(c) => m.dialog is None ==> {
            &&& (c == UP ==> m.text@.current < m.text@.blocks.len())
            &&& (c == DOWN ==> down_ok(m.text@.blocks, m.text@.current as int))
        },
        _ => true,
    }
}

/// The URL a dialog asks to follow.
pub open spec fn followed(d: Option<Dialog>) -> Option<(Seq<char>, Seq<char>)> {
    match d {
        Some(d) => match d.action@ {
            ActionView::FollowLink(u) => Some(u),
            _ => None,
        },
        None => None,
    }
}

/// The views of an optional URL.
pub open spec fn url_view(u: Option<WebUrl>) -> Option<(Seq<char>, Seq<char>)> {
    match u {
        Some(u) => Some(u@),
        None => None,
    }
}

/// The dialog for the line under the cursor.
pub fn query_gemtext_data(text: GemTextData) -> (r: Option<Dialog>)
    ensures
        r matches Some(d) && d@ == query_view(text@),
{
    Dialog::query_gemtext_data(text)
}

/// The viewer after a message, and the URL to fetch where a dialog asked
/// to follow a link.  Stop quits; escape closes the dialog; enter answers
/// the dialog, or opens one for the line under the cursor; with no dialog
/// open, the up and down keys move the cursor.
pub fn update(model: Model, msg: Message) -> (r: (Model, Option<WebUrl>))
    requires
        update_ok(model, msg),
    ensures
        url_view(r.1) == (match msg {
            Message::Enter => followed(model.dialog),
            _ => None,
        }),
        r.0.address == model.address,
        match msg {
            Message::Stop => r.0.quit && r.0.text == model.text && r.0.dialog == model.dialog,
            Message::Escape => r.0.quit == model.quit && r.0.text == model.text && r.0.dialog is None,
            Message::Enter => r.0.quit == model.quit && r.0.text == model.text && match model.dialog {
                Some(_) => r.0.dialog is None,
                None => dialog_view(r.0.dialog) == Some(query_view(
                    model.text@.blocks[model.text@.current as int].kind,
                )),
            },
            Message::Resize(_, _) => r.0 == model,
            Message::Code(c) => r.0.quit == model.quit && r.0.dialog == model.dialog && if model.dialog is None
                && c == UP {
                let m = up_from(model.text@.blocks, model.text@.current as int);
                r.0.text@ == PageView { blocks: m.0, current: m.1 as nat, ..model.text@ }
            } else if model.dialog is None && c == DOWN {
                let m = down_from(model.text@.blocks, model.text@.current as int);
                r.0.text@ == PageView { blocks: m.0, current: m.1 as nat, ..model.text@ }
            } else {
                r.0.text == model.text
            },
        },
{
    let mut m = model;
    let mut fetch: Option<WebUrl> = None;
    match msg {
        Message::Stop => {
            m.quit = true;
        },
        Message::Escape => {
            m.dialog = None;
        },
        Message::Enter => {
            match m.dialog {
                Some(dialog) => {
                    match dialog.action {
                        Action::FollowLink(url) => {
                            fetch = Some(url);
                        },
                        _ => {},
                    }
                    m.dialog = None;
                },
                None => {
                    let data = m.text.get_text_under_cursor().0;
                    m.dialog = query_gemtext_data(data);
                },
            }
        },
        Message::Resize(_y, _x) => {},
        Message::Code(c) => {
            if m.dialog.is_none() {
                if c == UP {
                    m.text.move_cursor_up();
                } else if c == DOWN {
                    m.text.move_cursor_down();
                }
            }
        },
    }
    (m, fetch)
}

/// The fetched page can be shown: where its status reads, the text shown
/// for it reads as gemtext.
pub open spec fn respond_ok(data: Option<(String, String)>) -> bool {
    match data {
        Some((h, c)) => match header_status(h@) {
            Some(s) => readable(response_text(s, c@)),
            None => true,
        },
        None => true,
    }
}

/// Whether the fetched page can be shown (`respond_ok`).
pub fn response_ok(data: &Option<(String, String)>) -> (r: bool)
    ensures
        r == respond_ok(*data),
{
    match data {
        Some((h, c)) => match Status::from_str(h.as_str()) {
            Ok(s) => {
                let t = response_text_of(&s, c.as_str());
                readable_text(t.as_str())
            },
            Err(_) => true,
        },
        None => true,
    }
}

/// The viewer after the page behind a followed link was fetched (`None`
/// where fetching failed): a response whose status reads replaces the
/// page; the dialog is closed.
pub fn respond_to_dialog(model: Model, data: Option<(String, String)>) -> (r: Model)
    requires
        respond_ok(data),
    ensures
        r.dialog is None,
        r.quit == model.quit,
        r.address == model.address,
        match data {
            Some((h, c)) => match header_status(h@) {
                Some(s) => r.text@ == page_of(response_text(s, c@), model.text@.styles, model.text@.size),
                None => r.text == model.text,
            },
            None => r.text == model.text,
        },
{
    let mut m = model;
    match data {
        Some((header, content)) => {
            match Status::from_str(header.as_str()) {
                Ok(status) => {
                    m.text = m.text.update_from_response(status, content);
                },
                Err(_) => {},
            }
        },
        None => {},
    }
    m.dialog = None;
    m
}

} // verus!
