//! The first tab manager's tabs: their messages, the dialogs they stack, and
//! what a tab does with a key or with a dialog's answer.
use vstd::prelude::*;
use crate::config::KeyParams;
use crate::weburl::{WebUrl, url_joined};
use crate::strings::{string_from, push_str};
use crate::gemini::gemtext::{GemTextData, Scheme, SchemeView, TextKind, kind_debug};
use crate::event::KeyCode;

verus! {

/// What a tab asks of the tab manager.
#[derive(Debug)]
pub enum TabMsg {
    Quit,
    Nothing,
    CycleLeft,
    CycleRight,
    DeleteMe,
    Go(String),
}

/// A tab message as values.
pub enum TabMsgView {
    Quit,
    Nothing,
    CycleLeft,
    CycleRight,
    DeleteMe,
    Go(Seq<char>),
}

impl View for TabMsg {
    type V = TabMsgView;

    open spec fn view(&self) -> TabMsgView {
        match self {
            TabMsg::Quit => TabMsgView::Quit,
            TabMsg::Nothing => TabMsgView::Nothing,
            TabMsg::CycleLeft => TabMsgView::CycleLeft,
            TabMsg::CycleRight => TabMsgView::CycleRight,
            TabMsg::DeleteMe => TabMsgView::DeleteMe,
            TabMsg::Go(t) => TabMsgView::Go(t@),
        }
    }
}

impl Clone for TabMsg {
    fn clone(&self) -> (r: TabMsg)
        ensures
            r@ == self@,
    {
        match self {
            TabMsg::Quit => TabMsg::Quit,
            TabMsg::Nothing => TabMsg::Nothing,
            TabMsg::CycleLeft => TabMsg::CycleLeft,
            TabMsg::CycleRight => TabMsg::CycleRight,
            TabMsg::DeleteMe => TabMsg::DeleteMe,
            TabMsg::Go(t) => TabMsg::Go(t.clone()),
        }
    }
}

/// The input of a dialog on a tab: a choice among keys with their labels,
/// with the key chosen so far; a text typed so far; or none.
#[derive(Debug)]
pub enum StackInput {
    Choose(char, Vec<(char, String)>),
    Input(String),
    Nothing,
}

/// A dialog input as values.
pub enum StackInputView {
    Choose(char, Seq<(char, Seq<char>)>),
    Input(Seq<char>),
    Nothing,
}

impl View for StackInput {
    type V = StackInputView;

    open spec fn view(&self) -> StackInputView {
        match self {
            StackInput::Choose(c, cs) => StackInputView::Choose(*c, cs@.map_values(|x: (char, String)| (x.0, x.1@))),
            StackInput::Input(t) => StackInputView::Input(t@),
            StackInput::Nothing => StackInputView::Nothing,
        }
    }
}

/// A dialog on a tab: the message it submits, its input, its question.
#[derive(Debug)]
pub struct StackDialog {
    pub msg: TabMsg,
    pub input: StackInput,
    pub prompt: String,
}

impl View for StackDialog {
    type V = (TabMsgView, StackInputView, Seq<char>);

    open spec fn view(&self) -> (TabMsgView, StackInputView, Seq<char>) {
        (self.msg@, self.input@, self.prompt@)
    }
}

/// What a dialog answers a key with: it submits its message, it is
/// cancelled, or it takes the key itself.
#[derive(Debug)]
pub enum DialogMsg {
    Submit(TabMsg),
    Cancel,
    Nothing,
}

/// What a tab does with a key while no dialog is open: nothing; move its
/// page's cursor down or up (and answer `Nothing`); send a message; or put
/// a dialog on its stack (and answer `Nothing`).
#[derive(Debug)]
pub enum StackAction {
    Ignore,
    MoveDown,
    MoveUp,
    Send(TabMsg),
    Push(StackDialog),
}

/// A tab's action as values: a dialog as its message, input and question.
pub enum StackActionView {
    Ignore,
    MoveDown,
    MoveUp,
    Send(TabMsgView),
    Push(TabMsgView, StackInputView, Seq<char>),
}

impl View for StackAction {
    type V = StackActionView;

    open spec fn view(&self) -> StackActionView {
        match self {
            StackAction::Ignore => StackActionView::Ignore,
            StackAction::MoveDown => StackActionView::MoveDown,
            StackAction::MoveUp => StackActionView::MoveUp,
            StackAction::Send(m) => StackActionView::Send(m@),
            StackAction::Push(d) => StackActionView::Push(d.msg@, d.input@, d.prompt@),
        }
    }
}

/// The yes and no answers, with no chosen first.
pub open spec fn yes_no_input(keys: KeyParams) -> StackInputView {
    StackInputView::Choose('n', seq![(keys.dialog.yes, "yes"@), (keys.dialog.no, "no"@)])
}

/// What inspecting the line under the cursor does: a relative link asks
/// whether to go to it, joined onto the tab's address; a gemini link asks
/// whether to go to it; anything else names the kind of line.
pub open spec fn inspect_stack(keys: KeyParams, under: TextKind, base: Seq<char>) -> StackActionView {
    match under {
        TextKind::Link(SchemeView::Relative(l)) => StackActionView::Push(
            TabMsgView::Go(url_joined(base, l)->Ok_0.0),
            yes_no_input(keys),
            "go to "@ + l + "?"@,
        ),
        TextKind::Link(SchemeView::Gemini(u)) => StackActionView::Push(
            TabMsgView::Go(u.0),
            yes_no_input(keys),
            "go to "@ + u.0 + "?"@,
        ),
        _ => StackActionView::Push(TabMsgView::Nothing, StackInputView::Nothing, kind_debug(under)),
    }
}

/// What a key does in a tab without a dialog, by the tab's key bindings,
/// checked in turn: down, up, cycle left, cycle right, delete (asks
/// first), new tab (asks for a path), inspect the line under the cursor.
pub open spec fn stack_key_view(c: char, keys: KeyParams, under: TextKind, base: Seq<char>) -> StackActionView {
    if c == keys.tab.move_down {
        StackActionView::MoveDown
    } else if c == keys.tab.move_up {
        StackActionView::MoveUp
    } else if c == keys.tab.cycle_left {
        StackActionView::Send(TabMsgView::CycleLeft)
    } else if c == keys.tab.cycle_right {
        StackActionView::Send(TabMsgView::CycleRight)
    } else if c == keys.tab.delete_tab {
        StackActionView::Push(TabMsgView::DeleteMe, yes_no_input(keys), "Delete current tab?"@)
    } else if c == keys.tab.new_tab {
        StackActionView::Push(TabMsgView::Go(Seq::empty()), StackInputView::Input(Seq::empty()), "enter path: "@)
    } else if c == keys.tab.inspect {
        inspect_stack(keys, under, base)
    } else {
        StackActionView::Ignore
    }
}

/// The key inspects a relative link: the link is joined onto the tab's
/// address.
pub open spec fn joins_link(c: char, keys: KeyParams, under: TextKind) -> Option<Seq<char>> {
    if c != keys.tab.move_down && c != keys.tab.move_up && c != keys.tab.cycle_left
        && c != keys.tab.cycle_right && c != keys.tab.delete_tab && c != keys.tab.new_tab
        && c == keys.tab.inspect {
        match under {
            TextKind::Link(SchemeView::Relative(l)) => Some(l),
            _ => None,
        }
    } else {
        None
    }
}

fn yes_no_of(keys: &KeyParams) -> (r: StackInput)
    ensures
        r@ == yes_no_input(*keys),
{
    let mut v: Vec<(char, String)> = Vec::new();
    v.push((keys.dialog.yes, string_from("yes")));
    v.push((keys.dialog.no, string_from("no")));
    let r = StackInput::Choose('n', v);
    assert(v@.map_values(|x: (char, String)| (x.0, x.1@)) =~= seq![(keys.dialog.yes, "yes"@), (keys.dialog.no, "no"@)]);
    r
}

fn go_to(l: &str) -> (r: String)
    ensures
        r@ == "go to "@ + l@ + "?"@,
{
    let mut p = string_from("go to ");
    push_str(&mut p, l);
    push_str(&mut p, "?");
    p
}

/// What a key does in a tab without a dialog; `under` is the kind of the
/// line under the page's cursor and `base` the tab's address.  A relative
/// link under the cursor must join onto the address.
pub fn stack_key_action(c: char, keys: &KeyParams, under: &GemTextData, base: &WebUrl) -> (r: StackAction)
    requires
        joins_link(c, *keys, under@) matches Some(l) ==> url_joined(base@.0, l) is Ok,
    ensures
        r@ == stack_key_view(c, *keys, under@, base@.0),
{
    if c == keys.tab.move_down {
        StackAction::MoveDown
    } else if c == keys.tab.move_up {
        StackAction::MoveUp
    } else if c == keys.tab.cycle_left {
        StackAction::Send(TabMsg::CycleLeft)
    } else if c == keys.tab.cycle_right {
        StackAction::Send(TabMsg::CycleRight)
    } else if c == keys.tab.delete_tab {
        StackAction::Push(StackDialog {
            msg: TabMsg::DeleteMe,
            input: yes_no_of(keys),
            prompt: string_from("Delete current tab?"),
        })
    } else if c == keys.tab.new_tab {
        let r = StackAction::Push(StackDialog {
            msg: TabMsg::Go(String::new()),
            input: StackInput::Input(String::new()),
            prompt: string_from("enter path: "),
        });
        r
    } else if c == keys.tab.inspect {
        match under {
            GemTextData::Link(Scheme::Relative(l)) => {
                let target = match base.join(l.as_str()) {
                    Ok(u) => string_from(u.as_str()),
                    Err(_) => {
                        assert(false);
                        String::new()
                    },
                };
                StackAction::Push(StackDialog { msg: TabMsg::Go(target), input: yes_no_of(keys), prompt: go_to(l.as_str()) })
            },
            GemTextData::Link(Scheme::Gemini(u)) => {
                StackAction::Push(StackDialog {
                    msg: TabMsg::Go(string_from(u.as_str())),
                    input: yes_no_of(keys),
                    prompt: go_to(u.as_str()),
                })
            },
            g => StackAction::Push(StackDialog { msg: TabMsg::Nothing, input: StackInput::Nothing, prompt: g.debug_text() }),
        }
    } else {
        StackAction::Ignore
    }
}

/// What a key does in a tab without a dialog, where a relative link under
/// the cursor joins onto the tab's address; `None` where it does not.
pub fn stack_key_checked(c: char, keys: &KeyParams, under: &GemTextData, base: &WebUrl) -> (r: Option<StackAction>)
    ensures
        match joins_link(c, *keys, under@) {
            Some(l) => match url_joined(base@.0, l) {
                Ok(_) => r matches Some(a) && a@ == stack_key_view(c, *keys, under@, base@.0),
                Err(_) => r is None,
            },
            None => r matches Some(a) && a@ == stack_key_view(c, *keys, under@, base@.0),
        },
{
    let joins = c != keys.tab.move_down && c != keys.tab.move_up && c != keys.tab.cycle_left
        && c != keys.tab.cycle_right && c != keys.tab.delete_tab && c != keys.tab.new_tab
        && c == keys.tab.inspect;
    if joins {
        match under {
            GemTextData::Link(Scheme::Relative(l)) => {
                if base.join(l.as_str()).is_err() {
                    return None;
                }
            },
            _ => {},
        }
    }
    Some(stack_key_action(c, keys, under, base))
}

/// The message for the tab manager once the top dialog answered, and
/// whether the dialog leaves the stack: a submitted choice sends the
/// submitted message where the key chosen is yes; a submitted text goes to
/// that path where the message was to go somewhere; cancelling pops the
/// dialog; a key the dialog takes keeps it.
pub open spec fn submit_view(input: StackInputView, answer: Option<DialogMsg>, yes: char) -> (Option<TabMsgView>, bool) {
    match answer {
        Some(DialogMsg::Submit(a)) => (Some(match input {
            StackInputView::Choose(c, _) => if c == yes { a@ } else { TabMsgView::Nothing },
            StackInputView::Input(v) => match a@ {
                TabMsgView::Go(_) => TabMsgView::Go(v),
                _ => TabMsgView::Nothing,
            },
            StackInputView::Nothing => TabMsgView::Nothing,
        }), true),
        Some(DialogMsg::Cancel) => (Some(TabMsgView::Nothing), true),
        Some(DialogMsg::Nothing) => (Some(TabMsgView::Nothing), false),
        None => (None, false),
    }
}

/// The views of an optional message.
pub open spec fn msg_view(m: Option<TabMsg>) -> Option<TabMsgView> {
    match m {
        Some(m) => Some(m@),
        None => None,
    }
}

/// The message for the tab manager once the top dialog answered, and
/// whether the dialog leaves the stack.
pub fn stack_submit(input: &StackInput, answer: Option<DialogMsg>, yes: char) -> (r: (Option<TabMsg>, bool))
    ensures
        (msg_view(r.0), r.1) == submit_view(input@, answer, yes),
{
    match answer {
        Some(DialogMsg::Submit(a)) => {
            let m = match input {
                StackInput::Choose(c, _) => if *c == yes { a } else { TabMsg::Nothing },
                StackInput::Input(v) => match a {
                    TabMsg::Go(_) => TabMsg::Go(v.clone()),
                    _ => TabMsg::Nothing,
                },
                StackInput::Nothing => TabMsg::Nothing,
            };
            (Some(m), true)
        },
        Some(DialogMsg::Cancel) => (Some(TabMsg::Nothing), true),
        Some(DialogMsg::Nothing) => (Some(TabMsg::Nothing), false),
        None => (None, false),
    }
}

/// How a tab's page moves its cursor after a key: not at all, one line
/// down, or one line up.
#[derive(Clone, Copy, PartialEq, Eq, Debug, Structural)]
pub enum PageMove {
    Stay,
    Down,
    Up,
}

/// The dialogs open on a tab, the last one on top: a key goes to the top
/// dialog, and to the tab itself only while none is open.
#[derive(Debug)]
pub struct DialogStack {
    pub dialogs: Vec<StackDialog>,
}

impl View for DialogStack {
    type V = Seq<(TabMsgView, StackInputView, Seq<char>)>;

    open spec fn view(&self) -> Seq<(TabMsgView, StackInputView, Seq<char>)> {
        self.dialogs@.map_values(|d: StackDialog| d@)
    }
}

/// A key that the tab takes itself can be handled: where it inspects a
/// relative link, the link joins onto the tab's address.
pub open spec fn key_joins(keycode: KeyCode, keys: KeyParams, under: TextKind, base: Seq<char>) -> bool {
    keycode matches KeyCode::Char(c) ==> (joins_link(c, keys, under) matches Some(l) ==> url_joined(base, l) is Ok)
}

/// What a tab does with a key and with the answer of its top dialog to
/// that key: the stack after it, the message for the tab manager, and how
/// the page's cursor moves.  With a dialog open, the dialog's answer
/// decides (`submit_view`) and the top dialog leaves where it was
/// submitted or cancelled; with none open, a key press acts as
/// `stack_key_view` says and any other key does nothing.
pub open spec fn stack_step(
    stack: Seq<(TabMsgView, StackInputView, Seq<char>)>,
    keycode: KeyCode,
    answer: Option<DialogMsg>,
    keys: KeyParams,
    under: TextKind,
    base: Seq<char>,
) -> (Seq<(TabMsgView, StackInputView, Seq<char>)>, Option<TabMsgView>, PageMove) {
    if stack.len() > 0 {
        let (m, popped) = submit_view(stack.last().1, answer, keys.dialog.yes);
        (if popped { stack.drop_last() } else { stack }, m, PageMove::Stay)
    } else {
        match keycode {
            KeyCode::Char(c) => match stack_key_view(c, keys, under, base) {
                StackActionView::Ignore => (stack, None, PageMove::Stay),
                StackActionView::MoveDown => (stack, Some(TabMsgView::Nothing), PageMove::Down),
                StackActionView::MoveUp => (stack, Some(TabMsgView::Nothing), PageMove::Up),
                StackActionView::Send(m) => (stack, Some(m), PageMove::Stay),
                StackActionView::Push(m, i, p) => (stack.push((m, i, p)), Some(TabMsgView::Nothing), PageMove::Stay),
            },
            _ => (stack, None, PageMove::Stay),
        }
    }
}

/// A dialog that a key opened, cancelled by the next key, leaves the
/// stack as it was before.
pub proof fn lemma_cancel_undoes_open(
    stack: Seq<(TabMsgView, StackInputView, Seq<char>)>,
    keycode: KeyCode,
    answer: Option<DialogMsg>,
    next: KeyCode,
    keys: KeyParams,
    under: TextKind,
    base: Seq<char>,
)
    requires
        stack_step(stack, keycode, answer, keys, under, base).0.len() == stack.len() + 1,
    ensures
        stack_step(stack_step(stack, keycode, answer, keys, under, base).0, next, Some(DialogMsg::Cancel), keys, under, base).0
            == stack,
{
    let opened = stack_step(stack, keycode, answer, keys, under, base).0;
    assert(stack.len() == 0);
    assert(opened.drop_last() =~= stack);
}

impl DialogStack {
    /// No dialog open.
    pub fn new() -> (r: DialogStack)
        ensures
            r@ == Seq::<(TabMsgView, StackInputView, Seq<char>)>::empty(),
    {
        let r = DialogStack { dialogs: Vec::new() };
        assert(r@ =~= Seq::<(TabMsgView, StackInputView, Seq<char>)>::empty());
        r
    }

    /// What the tab shows: the top dialog's question, or `None` for the
    /// page.
    pub fn top_prompt(&self) -> (r: Option<&String>)
        ensures
            self@.len() == 0 <==> r is None,
            r matches Some(p) ==> p@ == self@.last().2,
    {
        let n = self.dialogs.len();
        if n == 0 {
            None
        } else {
            Some(&self.dialogs[n - 1].prompt)
        }
    }

    /// A tab takes a key; `answer` is what its top dialog, if one is open,
    /// answered the key with, `under` the kind of the line under the
    /// page's cursor and `base` the tab's address.  Returns the message
    /// for the tab manager and how the page's cursor moves.
    pub fn update(
        &mut self,
        keycode: &KeyCode,
        answer: Option<DialogMsg>,
        keys: &KeyParams,
        under: &GemTextData,
        base: &WebUrl,
    ) -> (r: (Option<TabMsg>, PageMove))
        requires
            old(self)@.len() == 0 ==> key_joins(*keycode, *keys, under@, base@.0),
        ensures
            (final(self)@, msg_view(r.0), r.1) == stack_step(old(self)@, *keycode, answer, *keys, under@, base@.0),
    {
        let n = self.dialogs.len();
        if n > 0 {
            let (m, popped) = stack_submit(&self.dialogs[n - 1].input, answer, keys.dialog.yes);
            if popped {
                let ghost before = self.dialogs@;
                let _ = self.dialogs.pop();
                proof {
                    assert(self@ =~= old(self)@.drop_last()) by {
                        assert(self.dialogs@ =~= before.drop_last());
                    }
                }
            }
            (m, PageMove::Stay)
        } else {
            match keycode {
                KeyCode::Char(c) => match stack_key_action(*c, keys, under, base) {
                    StackAction::Ignore => (None, PageMove::Stay),
                    StackAction::MoveDown => (Some(TabMsg::Nothing), PageMove::Down),
                    StackAction::MoveUp => (Some(TabMsg::Nothing), PageMove::Up),
                    StackAction::Send(m) => (Some(m), PageMove::Stay),
                    StackAction::Push(d) => {
                        let ghost dv = d@;
                        self.dialogs.push(d);
                        proof {
                            assert(self@ =~= old(self)@.push(dv));
                        }
                        (Some(TabMsg::Nothing), PageMove::Stay)
                    },
                },
                _ => (None, PageMove::Stay),
            }
        }
    }

    /// `update` where the key can be handled; where the key inspects a
    /// relative link that does not join onto the tab's address, `None`
    /// and the stack unchanged.
    pub fn update_checked(
        &mut self,
        keycode: &KeyCode,
        answer: Option<DialogMsg>,
        keys: &KeyParams,
        under: &GemTextData,
        base: &WebUrl,
    ) -> (r: Option<(Option<TabMsg>, PageMove)>)
        ensures
            old(self)@.len() == 0 && !key_joins(*keycode, *keys, under@, base@.0) ==> r is None && final(self)@ == old(self)@,
            old(self)@.len() > 0 || key_joins(*keycode, *keys, under@, base@.0) ==> (r matches Some(p)
                && (final(self)@, msg_view(p.0), p.1) == stack_step(old(self)@, *keycode, answer, *keys, under@, base@.0)),
    {
        if self.dialogs.len() == 0 {
            match keycode {
                KeyCode::Char(c) => {
                    if stack_key_checked(*c, keys, under, base).is_none() {
                        return None;
                    }
                },
                _ => {},
            }
        }
        Some(self.update(keycode, answer, keys, under, base))
    }
}


/// No two of a tab's actions share a key.
pub open spec fn keys_distinct(keys: KeyParams) -> bool {
    let t = keys.tab;
    let k = seq![t.move_down, t.move_up, t.cycle_left, t.cycle_right, t.delete_tab, t.new_tab, t.inspect];
    forall|i: int, j: int| 0 <= i < j < 7 ==> k[i] != k[j]
}

/// With distinct bindings each key does what it is bound to: the down and
/// up keys move the page's cursor; the cycle keys ask the tab manager for
/// the tab to the left or right; the delete key asks yes or no before
/// deleting the tab; the new-tab key asks for a path to go to; the inspect
/// key opens a dialog about the line under the cursor.
pub proof fn lemma_stack_bindings(keys: KeyParams, under: TextKind, base: Seq<char>)
    requires
        keys_distinct(keys),
    ensures
        stack_key_view(keys.tab.move_down, keys, under, base) is MoveDown,
        stack_key_view(keys.tab.move_up, keys, under, base) is MoveUp,
        stack_key_view(keys.tab.cycle_left, keys, under, base) == StackActionView::Send(TabMsgView::CycleLeft),
        stack_key_view(keys.tab.cycle_right, keys, under, base) == StackActionView::Send(TabMsgView::CycleRight),
        stack_key_view(keys.tab.delete_tab, keys, under, base) matches StackActionView::Push(m, i, _)
            && m == TabMsgView::DeleteMe && i == yes_no_input(keys),
        stack_key_view(keys.tab.new_tab, keys, under, base) matches StackActionView::Push(m, i, _)
            && m is Go && i is Input,
        stack_key_view(keys.tab.inspect, keys, under, base) is Push,
{
    let t = keys.tab;
    let k = seq![t.move_down, t.move_up, t.cycle_left, t.cycle_right, t.delete_tab, t.new_tab, t.inspect];
    assert(k[0] != k[1] && k[0] != k[2] && k[0] != k[3] && k[0] != k[4] && k[0] != k[5] && k[0] != k[6]);
    assert(k[1] != k[2] && k[1] != k[3] && k[1] != k[4] && k[1] != k[5] && k[1] != k[6]);
    assert(k[2] != k[3] && k[2] != k[4] && k[2] != k[5] && k[2] != k[6]);
    assert(k[3] != k[4] && k[3] != k[5] && k[3] != k[6]);
    assert(k[4] != k[5] && k[4] != k[6]);
    assert(k[5] != k[6]);
}

/// A dialog answered by submitting asks the tab manager for its message
/// only where it was a choice answered with the yes key, or a typed path
/// for a dialog that goes somewhere (then to go to that path); cancelling
/// or any other submission asks for nothing, and both close the dialog; a
/// key the dialog takes keeps it open.
pub proof fn lemma_submit_answers(input: StackInputView, a: TabMsg, yes: char, other: char)
    requires
        other != yes,
    ensures
        input matches StackInputView::Choose(c, _) && c == yes
            ==> submit_view(input, Some(DialogMsg::Submit(a)), yes) == (Some(a@), true),
        input matches StackInputView::Choose(c, _) && c == other
            ==> submit_view(input, Some(DialogMsg::Submit(a)), yes) == (Some(TabMsgView::Nothing), true),
        input matches StackInputView::Input(v)
            ==> (a is Go ==> submit_view(input, Some(DialogMsg::Submit(a)), yes) == (Some(TabMsgView::Go(v)), true)),
        submit_view(input, Some(DialogMsg::Cancel), yes) == (Some(TabMsgView::Nothing), true),
        submit_view(input, Some(DialogMsg::Nothing), yes) == (Some(TabMsgView::Nothing), false),
        submit_view(input, None, yes) == (None::<TabMsgView>, false),
{
}

} // verus!
