//! Dialogs: a question for the user and what a yes does.
use vstd::prelude::*;
use crate::weburl::WebUrl;
use crate::strings::{string_from, push_str};
use crate::gemini::gemtext::{GemTextData, Scheme, SchemeView, TextKind, kind_debug};

verus! {

/// What a dialog does when the user agrees.
#[derive(Clone, Debug)]
pub enum Action {
    FollowLink(WebUrl),
    Download,
    Acknowledge,
}

/// What a dialog does, with a URL as its serialization and scheme.
pub enum ActionView {
    FollowLink((Seq<char>, Seq<char>)),
    Download,
    Acknowledge,
}

impl View for Action {
    type V = ActionView;

    open spec fn view(&self) -> ActionView {
        match self {
            Action::FollowLink(u) => ActionView::FollowLink(u@),
            Action::Download => ActionView::Download,
            Action::Acknowledge => ActionView::Acknowledge,
        }
    }
}

/// A dialog: its action and its question.
#[derive(Clone, Debug)]
pub struct Dialog {
    pub action: Action,
    pub text: String,
}

impl View for Dialog {
    type V = (ActionView, Seq<char>);

    open spec fn view(&self) -> (ActionView, Seq<char>) {
        (self.action@, self.text@)
    }
}

/// The dialog that a line under the cursor opens: a gemini link asks to be
/// followed; anything else asks to acknowledge its `Debug` form.
pub open spec fn query_view(k: TextKind) -> (ActionView, Seq<char>) {
    match k {
        TextKind::Link(SchemeView::Gemini(u)) => (ActionView::FollowLink(u), "Go to "@ + u.0 + "?"@),
        _ => (ActionView::Acknowledge, kind_debug(k) + "?"@),
    }
}

impl Dialog {
    /// A dialog asking to download a resource of a type that is not text.
    pub fn download(str: String) -> (r: Dialog)
        ensures
            r@ == (ActionView::Download, "Download nontext type: "@ + str@ + "?"@),
    {
        let mut text = string_from("Download nontext type: ");
        push_str(&mut text, str.as_str());
        push_str(&mut text, "?");
        Dialog { action: Action::Download, text }
    }

    /// A dialog asking for acknowledgement.
    pub fn acknowledge(str: String) -> (r: Dialog)
        ensures
            r@ == (ActionView::Acknowledge, str@ + "?"@),
    {
        let mut text = string_from(str.as_str());
        push_str(&mut text, "?");
        Dialog { action: Action::Acknowledge, text }
    }

    /// A dialog asking to go to a URL.
    pub fn follow_link(url: WebUrl) -> (r: Dialog)
        ensures
            r@ == (ActionView::FollowLink(url@), "Go to "@ + url@.0 + "?"@),
    {
        let mut text = string_from("Go to ");
        push_str(&mut text, url.as_str());
        push_str(&mut text, "?");
        Dialog { action: Action::FollowLink(url.clone()), text }
    }

    /// The dialog for the kind of line under the cursor.
    pub fn query_gemtext_data(text: GemTextData) -> (r: Option<Dialog>)
        ensures
            r matches Some(d) && d@ == query_view(text@),
    {
        match text {
            GemTextData::Link(Scheme::Gemini(url)) => Some(Dialog::follow_link(url)),
            g => Some(Dialog::acknowledge(g.debug_text())),
        }
    }
}

} // verus!
