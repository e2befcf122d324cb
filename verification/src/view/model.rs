//! The viewer's state: the address shown, the page, an open dialog, and
//! whether to quit.
use vstd::prelude::*;
use crate::weburl::WebUrl;
use crate::strings::{string_from, push_str, has_prefix, starts_with};
use crate::status::{Status, StatusView, header_status};
use crate::view::dialog::{Dialog, ActionView};
use crate::view::styles::{LineStyles, default_styles};
use crate::view::text::{GemTextView, PageView, readable, page_of, lemma_plain_line, readable_text};

verus! {

/// What the viewer shows: a URL, or a plain text.
#[derive(Clone, Debug)]
pub enum Address {
    Url(WebUrl),
    String(String),
}

/// An address as values.
pub enum AddressView {
    Url((Seq<char>, Seq<char>)),
    String(Seq<char>),
}

impl View for Address {
    type V = AddressView;

    open spec fn view(&self) -> AddressView {
        match self {
            Address::Url(u) => AddressView::Url(u@),
            Address::String(s) => AddressView::String(s@),
        }
    }
}

/// The viewer's state.
#[derive(Debug)]
pub struct Model {
    pub dialog: Option<Dialog>,
    pub address: Address,
    pub text: GemTextView,
    pub quit: bool,
}

/// The dialog views of an optional dialog.
pub open spec fn dialog_view(d: Option<Dialog>) -> Option<(ActionView, Seq<char>)> {
    match d {
        Some(d) => Some(d@),
        None => None,
    }
}

/// The dialog a response opens: a download for a success that is not
/// text, an acknowledgement for input and certificate requests, a link for
/// a redirect, none otherwise.
pub open spec fn status_dialog(status: StatusView) -> Option<(ActionView, Seq<char>)> {
    match status {
        StatusView::Success(_v, meta) => if has_prefix(meta, "text/"@) {
            None
        } else {
            Some((ActionView::Download, "Download nontext type: "@ + meta + "?"@))
        },
        StatusView::InputExpected(_v, msg) => Some((ActionView::Acknowledge, "input: "@ + msg + "?"@)),
        StatusView::Redirect(_v, u) => Some((ActionView::FollowLink(u), "Go to "@ + u.0 + "?"@)),
        StatusView::ClientCertRequired(_v, meta) => Some((ActionView::Acknowledge, "Certificate required: "@ + meta + "?"@)),
        _ => None,
    }
}

/// The text the viewer starts with: a welcome without a URL; a note where
/// the data could not be fetched or its status not read; else the content.
pub open spec fn start_text(url: Option<WebUrl>, data: Option<(String, String)>) -> Seq<char> {
    match url {
        None => "welcome"@,
        Some(_) => match data {
            None => "data retrieval failed"@,
            Some((h, c)) => match header_status(h@) {
                None => "could not parse status"@,
                Some(_) => c@,
            },
        },
    }
}

/// The content fetched for a URL reads as gemtext, where it is shown.
pub open spec fn init_ok(url: Option<WebUrl>, data: Option<(String, String)>) -> bool {
    match (url, data) {
        (Some(_), Some((h, c))) => header_status(h@) is Some ==> readable(c@),
        _ => true,
    }
}

/// Whether the content fetched for a URL can be shown (`init_ok`).
pub fn content_ok(url: &Option<WebUrl>, data: &Option<(String, String)>) -> (r: bool)
    ensures
        r == init_ok(*url, *data),
{
    match (url, data) {
        (Some(_), Some((h, c))) => match Status::from_str(h.as_str()) {
            Ok(_) => readable_text(c.as_str()),
            Err(_) => true,
        },
        _ => true,
    }
}

impl Model {
    /// The viewer for a URL and the response fetched from it (`None` where
    /// fetching failed), on a screen of `size`.
    pub fn init(url: &Option<WebUrl>, data: Option<(String, String)>, size: (u16, u16)) -> (r: Model)
        requires
            init_ok(*url, data),
        ensures
            r.text@ == page_of(start_text(*url, data), default_styles(), size),
            !r.quit,
            r.address@ == (match url {
                Some(u) => AddressView::Url(u@),
                None => AddressView::String(Seq::<char>::empty()),
            }),
            dialog_view(r.dialog) == (match (url, data) {
                (Some(_), Some((h, _))) => match header_status(h@) {
                    Some(s) => status_dialog(s),
                    None => None,
                },
                _ => None,
            }),
    {
        let styles = LineStyles::new();
        let url = match url {
            None => {
                proof {
                    reveal_strlit("welcome");
                    lemma_plain_line("welcome"@);
                }
                let text = GemTextView::new(string_from("welcome"), &styles, size);
                return Model { address: Address::String(String::new()), text, dialog: None, quit: false };
            },
            Some(u) => u,
        };
        let address = Address::Url(url.clone());
        let (header, content) = match data {
            None => {
                proof {
                    reveal_strlit("data retrieval failed");
                    lemma_plain_line("data retrieval failed"@);
                }
                let text = GemTextView::new(string_from("data retrieval failed"), &styles, size);
                return Model { address, text, dialog: None, quit: false };
            },
            Some(p) => p,
        };
        let status = match Status::from_str(header.as_str()) {
            Err(_) => {
                proof {
                    reveal_strlit("could not parse status");
                    lemma_plain_line("could not parse status"@);
                }
                let text = GemTextView::new(string_from("could not parse status"), &styles, size);
                return Model { address, text, dialog: None, quit: false };
            },
            Ok(s) => s,
        };
        let ghost sv = status@;
        let text = GemTextView::new(content, &styles, size);
        let dialog = match status {
            Status::Success(_v, meta) => {
                if starts_with(meta.as_str(), "text/") {
                    None
                } else {
                    Some(Dialog::download(meta))
                }
            },
            Status::InputExpected(_v, msg) => {
                let mut t = string_from("input: ");
                push_str(&mut t, msg.as_str());
                Some(Dialog::acknowledge(t))
            },
            Status::Redirect(_v, new_url) => Some(Dialog::follow_link(new_url)),
            Status::ClientCertRequired(_v, meta) => {
                let mut t = string_from("Certificate required: ");
                push_str(&mut t, meta.as_str());
                Some(Dialog::acknowledge(t))
            },
            _ => None,
        };
        assert(dialog_view(dialog) =~= status_dialog(sv));
        Model { address, text, dialog, quit: false }
    }
}


/// The status asks something of the user: input, a client certificate, a
/// redirect to follow, or a download of content that is not text.
pub open spec fn asks_user(status: StatusView) -> bool {
    ||| status is InputExpected
    ||| status is ClientCertRequired
    ||| status is Redirect
    ||| (status matches StatusView::Success(_, meta) && !has_prefix(meta, "text/"@))
}

/// A response opens a dialog exactly when its status asks something of
/// the user, and the dialog quotes the status's text as a question: a
/// certificate request is acknowledged with "Certificate required: " and
/// its text; an input request is acknowledged; a redirect offers to follow
/// its link; other content offers a download.
pub proof fn lemma_status_dialogs(status: StatusView)
    ensures
        status_dialog(status) is Some <==> asks_user(status),
        status matches StatusView::ClientCertRequired(_, m) ==> status_dialog(status)
            == Some((ActionView::Acknowledge, "Certificate required: "@ + m + "?"@)),
        status matches StatusView::InputExpected(_, m) ==> status_dialog(status)
            == Some((ActionView::Acknowledge, "input: "@ + m + "?"@)),
        status matches StatusView::Redirect(_, u) ==> (status_dialog(status) matches Some((a, _)) && a == ActionView::FollowLink(u)),
        status matches StatusView::Success(_, m) && asks_user(status) ==> (status_dialog(status) matches Some((a, _)) && a == ActionView::Download),
{
}

} // verus!
