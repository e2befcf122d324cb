//! Tabs: the messages a tab sends, and what the tab server does with them
//! (which tab is shown, which tab is opened or closed), with the banner
//! that names the tab shown.
use vstd::prelude::*;
use crate::util::Rect;
use crate::strings::{decimal, push_decimal, push_str, push_char, string_from};
use crate::config::{Config, KeyParams, TabKeyParams};
use crate::dialog::InputMsg;
use crate::gemini::{GemType, GemKind, Scheme, gem_kind_debug};

verus! {

/// What a tab asks of the tab server.
#[derive(Debug)]
pub enum TabMsg {
    Quit,
    Nothing,
    CycleLeft,
    CycleRight,
    DeleteMe,
    Acknowledge,
    NewTab,
    Open(String),
    Go(String),
}

/// A tab message as values.
pub enum TabMsgView {
    Quit,
    Nothing,
    CycleLeft,
    CycleRight,
    DeleteMe,
    Acknowledge,
    NewTab,
    Open(Seq<char>),
    Go(Seq<char>),
}

impl View for TabMsg {
    type V = TabMsgView;

    open spec fn view(&self) -> TabMsgView {
        match self {
            TabMsg::Quit => TabMsgView::Quit,
            TabMsg::Nothing => TabMsgView::Nothing,
            TabMsg::CycleLeft => TabMsgView::CycleLeft,
            TabMsg::CycleRight => TabMsgView::CycleRight,
            TabMsg::DeleteMe => TabMsgView::DeleteMe,
            TabMsg::Acknowledge => TabMsgView::Acknowledge,
            TabMsg::NewTab => TabMsgView::NewTab,
            TabMsg::Open(t) => TabMsgView::Open(t@),
            TabMsg::Go(t) => TabMsgView::Go(t@),
        }
    }
}

impl Clone for TabMsg {
    fn clone(&self) -> (r: TabMsg)
        ensures
            r@ == self@,
    {
        match self {
            TabMsg::Quit => TabMsg::Quit,
            TabMsg::Nothing => TabMsg::Nothing,
            TabMsg::CycleLeft => TabMsg::CycleLeft,
            TabMsg::CycleRight => TabMsg::CycleRight,
            TabMsg::DeleteMe => TabMsg::DeleteMe,
            TabMsg::Acknowledge => TabMsg::Acknowledge,
            TabMsg::NewTab => TabMsg::NewTab,
            TabMsg::Open(t) => TabMsg::Open(t.clone()),
            TabMsg::Go(t) => TabMsg::Go(t.clone()),
        }
    }
}

/// What the tab server must do besides changing the tab shown: open a tab
/// for an address, or close the tab at an index.
#[derive(Clone, Debug)]
pub enum TabAction {
    Stay,
    Open(String),
    Close(usize),
}

/// The tab shown and the number of tabs after a message, with what must
/// be opened or closed: a new tab is shown after the others; closing keeps
/// at least one tab and shows the last; cycling wraps around.
pub open spec fn tab_step(cur: int, len: int, msg: TabMsg) -> (int, int) {
    match msg {
        TabMsg::Go(_) => (len, len + 1),
        TabMsg::Open(_) => (len, len + 1),
        TabMsg::DeleteMe => if len > 1 { (len - 2, len - 1) } else { (cur, len) },
        TabMsg::CycleLeft => if cur == 0 { (len - 1, len) } else { (cur - 1, len) },
        TabMsg::CycleRight => if cur == len - 1 { (0, len) } else { (cur + 1, len) },
        _ => (cur, len),
    }
}

/// The tab server's answer to a message from the tab shown: the index of
/// the tab shown next, the number of tabs, and what to open or close.
pub fn next_tab(cur_index: usize, len: usize, msg: &TabMsg) -> (r: (usize, usize, TabAction))
    requires
        cur_index < len,
        len < usize::MAX,
    ensures
        (r.0 as int, r.1 as int) == tab_step(cur_index as int, len as int, *msg),
        r.0 < r.1,
        match msg {
            TabMsg::Go(u) => r.2 matches TabAction::Open(t) && t@ == u@,
            TabMsg::Open(u) => r.2 matches TabAction::Open(t) && t@ == u@,
            TabMsg::DeleteMe => if len > 1 { r.2 matches TabAction::Close(i) && i == cur_index } else { r.2 is Stay },
            _ => r.2 is Stay,
        },
{
    match msg {
        TabMsg::Go(url) => (len, len + 1, TabAction::Open(url.clone())),
        TabMsg::Open(text) => (len, len + 1, TabAction::Open(text.clone())),
        TabMsg::DeleteMe => {
            if len > 1 {
                (len - 2, len - 1, TabAction::Close(cur_index))
            } else {
                (cur_index, len, TabAction::Stay)
            }
        },
        TabMsg::CycleLeft => {
            if cur_index == 0 {
                (len - 1, len, TabAction::Stay)
            } else {
                (cur_index - 1, len, TabAction::Stay)
            }
        },
        TabMsg::CycleRight => {
            if cur_index == len - 1 {
                (0, len, TabAction::Stay)
            } else {
                (cur_index + 1, len, TabAction::Stay)
            }
        },
        _ => (cur_index, len, TabAction::Stay),
    }
}

/// Cycling left and then right, or right and then left, shows the same tab
/// again.
pub proof fn lemma_cycle_back(cur: int, len: int)
    requires
        0 <= cur < len,
    ensures
        ({
            let l = tab_step(cur, len, TabMsg::CycleLeft);
            tab_step(l.0, l.1, TabMsg::CycleRight) == (cur, len)
        }),
        ({
            let r = tab_step(cur, len, TabMsg::CycleRight);
            tab_step(r.0, r.1, TabMsg::CycleLeft) == (cur, len)
        }),
{
}

/// Every message keeps the tab shown among the tabs.
pub proof fn lemma_tab_shown(cur: int, len: int, msg: TabMsg)
    requires
        0 <= cur < len,
    ensures
        0 <= tab_step(cur, len, msg).0 < tab_step(cur, len, msg).1,
{
}

/// The tab shown and the number of tabs after the tab shown sent each of
/// `msgs` in turn.
pub open spec fn tab_steps(cur: int, len: int, msgs: Seq<TabMsg>) -> (int, int)
    decreases msgs.len(),
{
    if msgs.len() == 0 {
        (cur, len)
    } else {
        let s = tab_step(cur, len, msgs[0]);
        tab_steps(s.0, s.1, msgs.drop_first())
    }
}

/// Whatever messages the tabs send, one after another, some tab is left
/// and the tab shown is one of them.
pub proof fn lemma_tab_shown_always(cur: int, len: int, msgs: Seq<TabMsg>)
    requires
        0 <= cur < len,
    ensures
        0 <= tab_steps(cur, len, msgs).0 < tab_steps(cur, len, msgs).1,
    decreases msgs.len(),
{
    if msgs.len() > 0 {
        let s = tab_step(cur, len, msgs[0]);
        lemma_tab_shown(cur, len, msgs[0]);
        lemma_tab_shown_always(s.0, s.1, msgs.drop_first());
    }
}

/// The area of the page under the banner: `margin` columns in from each
/// side and two rows down.
pub open spec fn page_rect(r: Rect, margin: u8) -> Rect {
    Rect { x: (r.x + margin) as u16, y: (r.y + 2) as u16, w: (r.w - margin * 2) as u16, h: (r.h - 2) as u16 }
}

/// The area of the page under the banner.  The margins must fit: twice
/// the margin is computed as a `u8`.
pub fn tab_rect(r: &Rect, margin: u8) -> (out: Rect)
    requires
        margin * 2 <= u8::MAX,
        r.x + margin <= u16::MAX,
        r.y + 2 <= u16::MAX,
        margin * 2 <= r.w,
        2 <= r.h,
    ensures
        out == page_rect(*r, margin),
{
    Rect { x: r.x + margin as u16, y: r.y + 2, w: r.w - (margin * 2) as u16, h: r.h - 2 }
}

/// The banner: the number of the tab shown, the number of tabs, and the
/// address of the tab shown.
pub open spec fn banner(cur_index: nat, total: nat, url: Seq<char>) -> Seq<char> {
    decimal(cur_index + 1) + "/"@ + decimal(total) + ": "@ + url
}

pub fn get_banner_text(cur_index: usize, total_tab: usize, url: &str) -> (r: String)
    requires
        cur_index < usize::MAX,
    ensures
        r@ == banner(cur_index as nat, total_tab as nat, url@),
{
    let mut s = String::new();
    push_decimal(&mut s, cur_index + 1);
    push_str(&mut s, "/");
    push_decimal(&mut s, total_tab);
    push_str(&mut s, ": ");
    push_str(&mut s, url);
    assert(s@ =~= banner(cur_index as nat, total_tab as nat, url@));
    s
}

/// A line of `w` dashes under the banner.
pub fn get_banner_line(w: u16) -> (r: String)
    ensures
        r@ == Seq::new(w as nat, |i: int| '-'),
{
    let mut s = String::new();
    let mut k: u16 = 0;
    while k < w
        invariant
            k <= w,
            s@ == Seq::new(k as nat, |i: int| '-'),
        decreases w - k,
    {
        push_char(&mut s, '-');
        k = k + 1;
        assert(s@ =~= Seq::new(k as nat, |i: int| '-'));
    }
    s
}

/// A dialog that a tab opens: a question and the keys that answer it,
/// each with its label; or a question answered by typing a text.
#[derive(Debug)]
pub enum DialogRequest {
    Choose(String, Vec<(char, String)>),
    Text(String),
}

/// A dialog request as values.
pub enum DialogRequestView {
    Choose(Seq<char>, Seq<(char, Seq<char>)>),
    Text(Seq<char>),
}

impl View for DialogRequest {
    type V = DialogRequestView;

    open spec fn view(&self) -> DialogRequestView {
        match self {
            DialogRequest::Choose(p, cs) => DialogRequestView::Choose(p@, cs@.map_values(|x: (char, String)| (x.0, x.1@))),
            DialogRequest::Text(p) => DialogRequestView::Text(p@),
        }
    }
}

/// What a tab does with a key while no dialog is open: nothing; move the
/// cursor of its page down or up (answering `Nothing` where the page moved,
/// nothing otherwise); send a message; or open a dialog whose yes sends the
/// message.
#[derive(Debug)]
pub enum KeyAction {
    Ignore,
    MoveDown,
    MoveUp,
    Send(TabMsg),
    Ask(TabMsg, DialogRequest),
}

/// A key action as values.
pub enum KeyActionView {
    Ignore,
    MoveDown,
    MoveUp,
    Send(TabMsgView),
    Ask(TabMsgView, DialogRequestView),
}

impl View for KeyAction {
    type V = KeyActionView;

    open spec fn view(&self) -> KeyActionView {
        match self {
            KeyAction::Ignore => KeyActionView::Ignore,
            KeyAction::MoveDown => KeyActionView::MoveDown,
            KeyAction::MoveUp => KeyActionView::MoveUp,
            KeyAction::Send(m) => KeyActionView::Send(m@),
            KeyAction::Ask(m, d) => KeyActionView::Ask(m@, d@),
        }
    }
}

/// The yes and no answers.
pub open spec fn yes_no(keys: KeyParams) -> Seq<(char, Seq<char>)> {
    seq![(keys.dialog.yes, "yes"@), (keys.dialog.no, "no"@)]
}

/// The one answer that acknowledges.
pub open spec fn ack_only(keys: KeyParams) -> Seq<(char, Seq<char>)> {
    seq![(keys.dialog.yes, "acknowledge"@)]
}

/// The dialog that inspecting the line under the cursor opens: a gemini
/// link asks whether to go there; another link says its protocol is not
/// supported; anything else names the kind of line.
pub open spec fn inspect_view(keys: KeyParams, under: GemKind) -> KeyActionView {
    match under {
        GemKind::Link(Scheme::Gemini, u) => KeyActionView::Ask(
            TabMsgView::Go(u.0),
            DialogRequestView::Choose("go to "@ + u.0 + "?"@, yes_no(keys)),
        ),
        GemKind::Link(_, u) => KeyActionView::Ask(
            TabMsgView::Acknowledge,
            DialogRequestView::Choose("Protocol "@ + u.0 + " not yet supported"@, ack_only(keys)),
        ),
        _ => KeyActionView::Ask(
            TabMsgView::Acknowledge,
            DialogRequestView::Choose("you've selected "@ + gem_kind_debug(under), ack_only(keys)),
        ),
    }
}

/// What a key does in a tab without a dialog, by the tab's key bindings,
/// checked in turn: down, up, cycle left, cycle right, delete (asks first),
/// new tab (asks for a path), inspect the line under the cursor.
pub open spec fn key_view(c: char, keys: KeyParams, under: GemKind) -> KeyActionView {
    if c == keys.tab.move_down {
        KeyActionView::MoveDown
    } else if c == keys.tab.move_up {
        KeyActionView::MoveUp
    } else if c == keys.tab.cycle_left {
        KeyActionView::Send(TabMsgView::CycleLeft)
    } else if c == keys.tab.cycle_right {
        KeyActionView::Send(TabMsgView::CycleRight)
    } else if c == keys.tab.delete_tab {
        KeyActionView::Ask(TabMsgView::DeleteMe, DialogRequestView::Choose("Delete current tab?"@, yes_no(keys)))
    } else if c == keys.tab.new_tab {
        KeyActionView::Ask(TabMsgView::NewTab, DialogRequestView::Text("enter path: "@))
    } else if c == keys.tab.inspect {
        inspect_view(keys, under)
    } else {
        KeyActionView::Ignore
    }
}

fn yes_no_of(keys: &KeyParams) -> (r: Vec<(char, String)>)
    ensures
        r@.map_values(|x: (char, String)| (x.0, x.1@)) == yes_no(*keys),
{
    let mut v: Vec<(char, String)> = Vec::new();
    v.push((keys.dialog.yes, string_from("yes")));
    v.push((keys.dialog.no, string_from("no")));
    assert(v@.map_values(|x: (char, String)| (x.0, x.1@)) =~= yes_no(*keys));
    v
}

fn ack_only_of(keys: &KeyParams) -> (r: Vec<(char, String)>)
    ensures
        r@.map_values(|x: (char, String)| (x.0, x.1@)) == ack_only(*keys),
{
    let mut v: Vec<(char, String)> = Vec::new();
    v.push((keys.dialog.yes, string_from("acknowledge")));
    assert(v@.map_values(|x: (char, String)| (x.0, x.1@)) =~= ack_only(*keys));
    v
}

/// What a key does in a tab without a dialog; `under` is the kind of the
/// line under the page's cursor (text where the tab has no document).
pub fn key_action(c: char, keys: &KeyParams, under: &GemType) -> (r: KeyAction)
    ensures
        r@ == key_view(c, *keys, under@),
{
    if c == keys.tab.move_down {
        KeyAction::MoveDown
    } else if c == keys.tab.move_up {
        KeyAction::MoveUp
    } else if c == keys.tab.cycle_left {
        KeyAction::Send(TabMsg::CycleLeft)
    } else if c == keys.tab.cycle_right {
        KeyAction::Send(TabMsg::CycleRight)
    } else if c == keys.tab.delete_tab {
        KeyAction::Ask(TabMsg::DeleteMe, DialogRequest::Choose(string_from("Delete current tab?"), yes_no_of(keys)))
    } else if c == keys.tab.new_tab {
        KeyAction::Ask(TabMsg::NewTab, DialogRequest::Text(string_from("enter path: ")))
    } else if c == keys.tab.inspect {
        match under {
            GemType::Link(Scheme::Gemini, url) => {
                let mut p = string_from("go to ");
                push_str(&mut p, url.as_str());
                push_str(&mut p, "?");
                KeyAction::Ask(TabMsg::Go(string_from(url.as_str())), DialogRequest::Choose(p, yes_no_of(keys)))
            },
            GemType::Link(_, url) => {
                let mut p = string_from("Protocol ");
                push_str(&mut p, url.as_str());
                push_str(&mut p, " not yet supported");
                KeyAction::Ask(TabMsg::Acknowledge, DialogRequest::Choose(p, ack_only_of(keys)))
            },
            g => {
                let mut p = string_from("you've selected ");
                let d = g.debug_text();
                push_str(&mut p, d.as_str());
                KeyAction::Ask(TabMsg::Acknowledge, DialogRequest::Choose(p, ack_only_of(keys)))
            },
        }
    } else {
        KeyAction::Ignore
    }
}

/// The message for the tab server once the open dialog answered, and
/// whether the dialog closes: a choice sends the pending message where it
/// is yes; a typed text opens it where the dialog asked for a new tab;
/// cancelling closes the dialog; an answer still in progress keeps it.
pub open spec fn answer_view(pending: TabMsgView, answer: Option<InputMsg>, yes: char) -> (Option<TabMsgView>, bool) {
    match answer {
        Some(InputMsg::Choose(c)) => (Some(if c == yes { pending } else { TabMsgView::Nothing }), true),
        Some(InputMsg::Text(t)) => (Some(match pending {
            TabMsgView::NewTab => TabMsgView::Open(t@),
            _ => TabMsgView::Nothing,
        }), true),
        Some(InputMsg::Cancel) => (Some(TabMsgView::Nothing), true),
        Some(InputMsg::Nothing) => (Some(TabMsgView::Nothing), false),
        None => (None, false),
    }
}

/// The views of an optional message.
pub open spec fn msg_view(m: Option<TabMsg>) -> Option<TabMsgView> {
    match m {
        Some(m) => Some(m@),
        None => None,
    }
}

/// The message for the tab server once the open dialog answered, and
/// whether the dialog closes.
pub fn dialog_answer(pending: &TabMsg, answer: Option<InputMsg>, yes: char) -> (r: (Option<TabMsg>, bool))
    ensures
        (msg_view(r.0), r.1) == answer_view(pending@, answer, yes),
{
    match answer {
        Some(InputMsg::Choose(c)) => {
            if c == yes {
                (Some(pending.clone()), true)
            } else {
                (Some(TabMsg::Nothing), true)
            }
        },
        Some(InputMsg::Text(text)) => {
            let m = match pending {
                TabMsg::NewTab => TabMsg::Open(text),
                _ => TabMsg::Nothing,
            };
            (Some(m), true)
        },
        Some(InputMsg::Cancel) => (Some(TabMsg::Nothing), true),
        Some(InputMsg::Nothing) => (Some(TabMsg::Nothing), false),
        None => (None, false),
    }
}

/// A tab: the address it shows and its page.
pub struct Tab<P> {
    pub url: String,
    pub page: P,
}

/// The tabs, the tab shown, and the banner above its page: the number and
/// address of the tab shown, and a line under it as wide as the page.
pub struct TabServer<P> {
    pub rect: Rect,
    pub tabs: Vec<Tab<P>>,
    pub cur_index: usize,
    pub banner_text: String,
    pub banner_line: String,
}

/// A line of `w` dashes.
pub open spec fn dashes(w: u16) -> Seq<char> {
    Seq::new(w as nat, |i: int| '-')
}

impl<P> TabServer<P> {
    /// There is a tab, and the tab shown is one of them.
    pub open spec fn wf(&self) -> bool {
        1 <= self.tabs@.len() && self.cur_index < self.tabs@.len()
    }

    /// The banner names the tab shown, and its line spans the page.
    pub open spec fn banner_ok(&self) -> bool {
        &&& self.cur_index < self.tabs@.len()
        &&& self.banner_text@ == banner(
            self.cur_index as nat,
            self.tabs@.len(),
            self.tabs@[self.cur_index as int].url@,
        )
        &&& self.banner_line@ == dashes(self.rect.w)
    }

    /// The server for a screen area, with the page opened first at the
    /// start address.  The margins must fit the area.
    pub fn new(r: &Rect, config: &Config, first: Tab<P>) -> (s: TabServer<P>)
        requires
            config.format.margin * 2 <= u8::MAX,
            r.x + config.format.margin <= u16::MAX,
            r.y + 2 <= u16::MAX,
            config.format.margin * 2 <= r.w,
            2 <= r.h,
            first.url@ == config.init_url@,
        ensures
            s.rect == page_rect(*r, config.format.margin),
            s.tabs@ == seq![first],
            s.cur_index == 0,
            s.wf(),
            s.banner_ok(),
    {
        let rect = tab_rect(r, config.format.margin);
        let banner_text = get_banner_text(0, 1, config.init_url.as_str());
        let banner_line = get_banner_line(rect.w);
        let mut tabs: Vec<Tab<P>> = Vec::new();
        tabs.push(first);
        assert(tabs@ =~= seq![first]);
        TabServer { rect, tabs, cur_index: 0, banner_text, banner_line }
    }

    /// Answers the message of the tab shown (`None` where it had none) and
    /// tells whether there was one.  A new tab (for `Go` or `Open`) is
    /// appended and shown: `opened` is that tab, made for the address.
    /// Closing removes the tab shown where another is left and shows the
    /// last; cycling moves to the next or previous tab, wrapping around.
    /// The banner is renewed for the tab shown.
    pub fn update(&mut self, msg: Option<TabMsg>, opened: Option<Tab<P>>) -> (r: bool)
        requires
            old(self).wf(),
            old(self).tabs@.len() < usize::MAX,
            match msg {
                Some(TabMsg::Go(u)) => opened matches Some(t) && t.url@ == u@,
                Some(TabMsg::Open(u)) => opened matches Some(t) && t.url@ == u@,
                _ => true,
            },
        ensures
            r == msg is Some,
            final(self).wf(),
            msg matches Some(m) ==> (final(self).cur_index as int, final(self).tabs@.len() as int)
                == tab_step(old(self).cur_index as int, old(self).tabs@.len() as int, m),
            final(self).rect == old(self).rect,
            ({
                let n = old(self).tabs@.len() as int;
                let c = old(self).cur_index as int;
                match msg {
                    None => *final(self) == *old(self),
                    Some(m) => final(self).banner_ok() && match m {
                        TabMsg::Go(_) => final(self).tabs@ == old(self).tabs@.push(opened->0)
                            && final(self).cur_index == n,
                        TabMsg::Open(_) => final(self).tabs@ == old(self).tabs@.push(opened->0)
                            && final(self).cur_index == n,
                        TabMsg::DeleteMe => if n > 1 {
                            final(self).tabs@ == old(self).tabs@.remove(c) && final(self).cur_index == n - 2
                        } else {
                            final(self).tabs@ == old(self).tabs@ && final(self).cur_index == c
                        },
                        TabMsg::CycleLeft => final(self).tabs@ == old(self).tabs@
                            && final(self).cur_index == (c + n - 1) % n,
                        TabMsg::CycleRight => final(self).tabs@ == old(self).tabs@
                            && final(self).cur_index == (c + 1) % n,
                        _ => final(self).tabs@ == old(self).tabs@ && final(self).cur_index == c,
                    },
                }
            }),
    {
        let m = match msg {
            None => return false,
            Some(m) => m,
        };
        let ghost n = self.tabs@.len() as int;
        let ghost c = self.cur_index as int;
        let (next, _len, action) = next_tab(self.cur_index, self.tabs.len(), &m);
        match action {
            TabAction::Open(_) => {
                match opened {
                    Some(t) => {
                        self.tabs.push(t);
                    },
                    None => {},
                }
            },
            TabAction::Close(i) => {
                self.tabs.remove(i);
            },
            TabAction::Stay => {},
        }
        self.cur_index = next;
        proof {
            if c + 1 < n {
                assert((c + 1) % n == c + 1) by (nonlinear_arith)
                    requires 0 <= c + 1 < n;
            } else {
                assert((c + 1) % n == 0) by (nonlinear_arith)
                    requires c + 1 == n, n >= 1;
            }
            if c > 0 {
                assert((c + n - 1) % n == c - 1) by (nonlinear_arith)
                    requires 0 < c < n;
            } else {
                assert((c + n - 1) % n == n - 1) by (nonlinear_arith)
                    requires c == 0, n >= 1;
            }
        }
        let len = self.tabs.len();
        self.banner_text = get_banner_text(self.cur_index, len, self.tabs[self.cur_index].url.as_str());
        self.banner_line = get_banner_line(self.rect.w);
        true
    }
}


/// No two of a tab's actions share a key.
pub open spec fn bindings_distinct(t: TabKeyParams) -> bool {
    let k = seq![t.move_down, t.move_up, t.cycle_left, t.cycle_right, t.delete_tab, t.new_tab, t.inspect];
    forall|i: int, j: int| 0 <= i < j < 7 ==> k[i] != k[j]
}

/// With distinct bindings each key does what it is bound to: the down and
/// up keys move the page's cursor; the cycle-right key shows the next tab
/// to the right and the cycle-left key the next to the left, wrapping
/// around; the delete key asks before deleting the tab; the new-tab key
/// asks for a path; the inspect key opens a dialog.
pub proof fn lemma_bindings_act(keys: KeyParams, under: GemKind, cur: int, len: int, m: TabMsg)
    requires
        bindings_distinct(keys.tab),
        0 <= cur < len,
    ensures
        key_view(keys.tab.move_down, keys, under) is MoveDown,
        key_view(keys.tab.move_up, keys, under) is MoveUp,
        key_view(keys.tab.cycle_right, keys, under) is Send,
        key_view(keys.tab.cycle_left, keys, under) is Send,
        key_view(keys.tab.cycle_right, keys, under) == KeyActionView::Send(m@) ==> tab_step(cur, len, m) == ((cur + 1) % len, len),
        key_view(keys.tab.cycle_left, keys, under) == KeyActionView::Send(m@) ==> tab_step(cur, len, m) == ((cur + len - 1) % len, len),
        key_view(keys.tab.delete_tab, keys, under) matches KeyActionView::Ask(a, DialogRequestView::Choose(_, cs))
            && a == TabMsgView::DeleteMe && cs == yes_no(keys),
        key_view(keys.tab.new_tab, keys, under) matches KeyActionView::Ask(a, DialogRequestView::Text(_)) && a == TabMsgView::NewTab,
        key_view(keys.tab.inspect, keys, under) is Ask,
{
    let t = keys.tab;
    let k = seq![t.move_down, t.move_up, t.cycle_left, t.cycle_right, t.delete_tab, t.new_tab, t.inspect];
    assert(k[0] != k[1] && k[0] != k[2] && k[0] != k[3] && k[0] != k[4] && k[0] != k[5] && k[0] != k[6]);
    assert(k[1] != k[2] && k[1] != k[3] && k[1] != k[4] && k[1] != k[5] && k[1] != k[6]);
    assert(k[2] != k[3] && k[2] != k[4] && k[2] != k[5] && k[2] != k[6]);
    assert(k[3] != k[4] && k[3] != k[5] && k[3] != k[6]);
    assert(k[4] != k[5] && k[4] != k[6]);
    assert(k[5] != k[6]);
    if cur + 1 < len {
        assert((cur + 1) % len == cur + 1) by (nonlinear_arith)
            requires 0 <= cur + 1 < len;
    } else {
        assert((cur + 1) % len == 0) by (nonlinear_arith)
            requires cur + 1 == len, len >= 1;
    }
    if cur > 0 {
        assert((cur + len - 1) % len == cur - 1) by (nonlinear_arith)
            requires 0 < cur < len;
    } else {
        assert((cur + len - 1) % len == len - 1) by (nonlinear_arith)
            requires cur == 0, len >= 1;
    }
}


/// A dialog's answer sends its pending message only where the yes key was
/// chosen; a typed text opens a tab for it where the dialog asked for a new
/// tab; any other choice, text or a cancel sends nothing; all of these
/// close the dialog, while a key the dialog takes keeps it open.
pub proof fn lemma_answers(pending: TabMsgView, yes: char, other: char, t: String)
    requires
        other != yes,
    ensures
        answer_view(pending, Some(InputMsg::Choose(yes)), yes) == (Some(pending), true),
        answer_view(pending, Some(InputMsg::Choose(other)), yes) == (Some(TabMsgView::Nothing), true),
        pending is NewTab ==> answer_view(pending, Some(InputMsg::Text(t)), yes) == (Some(TabMsgView::Open(t@)), true),
        !(pending is NewTab) ==> answer_view(pending, Some(InputMsg::Text(t)), yes) == (Some(TabMsgView::Nothing), true),
        answer_view(pending, Some(InputMsg::Cancel), yes) == (Some(TabMsgView::Nothing), true),
        answer_view(pending, Some(InputMsg::Nothing), yes) == (Some(TabMsgView::Nothing), false),
        answer_view(pending, None, yes) == (None::<TabMsgView>, false),
{
}

} // verus!
