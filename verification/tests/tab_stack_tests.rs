use gem::tabs::{self, StackAction, StackInput, DialogMsg, TabMsg, DialogStack, PageMove};
use gem::event::KeyCode;
use gem::config::KeyParams;
use gem::gemini::gemtext::{GemTextData, Scheme};
use gem::weburl::WebUrl;

#[test]
fn stack_keys() {
    let keys = KeyParams::default();
    let base = WebUrl::parse("gemini://h.x/d/").unwrap();
    assert!(matches!(tabs::stack_key_action('i', &keys, &GemTextData::Text, &base), StackAction::MoveDown));
    assert!(matches!(tabs::stack_key_action('n', &keys, &GemTextData::Text, &base), StackAction::Send(TabMsg::CycleRight)));
    assert!(matches!(tabs::stack_key_action('q', &keys, &GemTextData::Text, &base), StackAction::Ignore));
    match tabs::stack_key_action('v', &keys, &GemTextData::Text, &base) {
        StackAction::Push(d) => {
            assert!(matches!(d.msg, TabMsg::DeleteMe));
            assert_eq!(d.prompt, "Delete current tab?");
            match d.input {
                StackInput::Choose(c, cs) => {
                    assert_eq!(c, 'n');
                    assert_eq!(cs, vec![('y', "yes".to_string()), ('n', "no".to_string())]);
                },
                other => panic!("unexpected {:?}", other),
            }
        },
        other => panic!("unexpected {:?}", other),
    }
    match tabs::stack_key_action('w', &keys, &GemTextData::Link(Scheme::Relative("e".to_string())), &base) {
        StackAction::Push(d) => {
            assert!(matches!(&d.msg, TabMsg::Go(u) if u == "gemini://h.x/d/e"));
            assert_eq!(d.prompt, "go to e?");
        },
        other => panic!("unexpected {:?}", other),
    }
    match tabs::stack_key_action('w', &keys, &GemTextData::Quote, &base) {
        StackAction::Push(d) => {
            assert!(matches!(d.msg, TabMsg::Nothing));
            assert!(matches!(d.input, StackInput::Nothing));
            assert_eq!(d.prompt, "Quote");
        },
        other => panic!("unexpected {:?}", other),
    }
    let odd = WebUrl::parse("data:text/plain,x").unwrap();
    assert!(tabs::stack_key_checked('w', &keys, &GemTextData::Link(Scheme::Relative("e".to_string())), &odd).is_none());
    assert!(tabs::stack_key_checked('i', &keys, &GemTextData::Text, &odd).is_some());
}

#[test]
fn stack_submits() {
    let choose = StackInput::Choose('y', vec![('y', "yes".to_string())]);
    assert!(matches!(tabs::stack_submit(&choose, Some(DialogMsg::Submit(TabMsg::DeleteMe)), 'y'), (Some(TabMsg::DeleteMe), true)));
    let no = StackInput::Choose('n', vec![]);
    assert!(matches!(tabs::stack_submit(&no, Some(DialogMsg::Submit(TabMsg::DeleteMe)), 'y'), (Some(TabMsg::Nothing), true)));
    let input = StackInput::Input("gemini://z/".to_string());
    match tabs::stack_submit(&input, Some(DialogMsg::Submit(TabMsg::Go(String::new()))), 'y') {
        (Some(TabMsg::Go(p)), true) => assert_eq!(p, "gemini://z/"),
        other => panic!("unexpected {:?}", other),
    }
    assert!(matches!(tabs::stack_submit(&input, Some(DialogMsg::Cancel), 'y'), (Some(TabMsg::Nothing), true)));
    assert!(matches!(tabs::stack_submit(&input, Some(DialogMsg::Nothing), 'y'), (Some(TabMsg::Nothing), false)));
    assert!(matches!(tabs::stack_submit(&input, None, 'y'), (None, false)));
}

#[test]
fn choice_dialog_answers() {
    let src = vec![('y', "yes".to_string()), ('n', "no".to_string())];
    assert!(matches!(gem::dialog::choose_update(&src, &gem::event::KeyCode::Esc), Some(gem::dialog::InputMsg::Cancel)));
    assert!(matches!(gem::dialog::choose_update(&src, &gem::event::KeyCode::Char('n')), Some(gem::dialog::InputMsg::Choose('n'))));
    assert!(gem::dialog::choose_update(&src, &gem::event::KeyCode::Char('x')).is_none());
    assert!(gem::dialog::choose_update(&src, &gem::event::KeyCode::Enter).is_none());
}

#[test]
fn dialog_stack_opens_and_answers() {
    let keys = KeyParams::default();
    let base = WebUrl::parse("gemini://h.x/d/").unwrap();
    let mut stack = DialogStack::new();
    assert!(stack.top_prompt().is_none());
    assert!(matches!(stack.update(&KeyCode::Char('i'), None, &keys, &GemTextData::Text, &base), (Some(TabMsg::Nothing), PageMove::Down)));
    assert!(matches!(stack.update(&KeyCode::Char('o'), None, &keys, &GemTextData::Text, &base), (Some(TabMsg::Nothing), PageMove::Up)));
    assert!(matches!(stack.update(&KeyCode::Char('e'), None, &keys, &GemTextData::Text, &base), (Some(TabMsg::CycleLeft), PageMove::Stay)));
    assert!(matches!(stack.update(&KeyCode::Char('q'), None, &keys, &GemTextData::Text, &base), (None, PageMove::Stay)));
    assert!(matches!(stack.update(&KeyCode::Enter, None, &keys, &GemTextData::Text, &base), (None, PageMove::Stay)));
    assert_eq!(stack.dialogs.len(), 0);
    assert!(matches!(stack.update(&KeyCode::Char('v'), None, &keys, &GemTextData::Text, &base), (Some(TabMsg::Nothing), PageMove::Stay)));
    assert_eq!(stack.dialogs.len(), 1);
    assert_eq!(stack.top_prompt().unwrap(), "Delete current tab?");
    // the dialog takes the key and stays open
    assert!(matches!(stack.update(&KeyCode::Char('x'), Some(DialogMsg::Nothing), &keys, &GemTextData::Text, &base), (Some(TabMsg::Nothing), PageMove::Stay)));
    assert_eq!(stack.dialogs.len(), 1);
    // no answer: nothing happens
    assert!(matches!(stack.update(&KeyCode::Char('x'), None, &keys, &GemTextData::Text, &base), (None, PageMove::Stay)));
    assert_eq!(stack.dialogs.len(), 1);
    // submitted with 'n' chosen: nothing is sent, the dialog leaves
    assert!(matches!(stack.update(&KeyCode::Enter, Some(DialogMsg::Submit(TabMsg::DeleteMe)), &keys, &GemTextData::Text, &base), (Some(TabMsg::Nothing), PageMove::Stay)));
    assert_eq!(stack.dialogs.len(), 0);
}

#[test]
fn dialog_stack_submits_path_and_cancels() {
    let keys = KeyParams::default();
    let base = WebUrl::parse("gemini://h.x/d/").unwrap();
    let mut stack = DialogStack::new();
    stack.update(&KeyCode::Char('p'), None, &keys, &GemTextData::Text, &base);
    assert_eq!(stack.top_prompt().unwrap(), "enter path: ");
    stack.dialogs[0].input = StackInput::Input("gemini://z/".to_string());
    match stack.update(&KeyCode::Enter, Some(DialogMsg::Submit(TabMsg::Go(String::new()))), &keys, &GemTextData::Text, &base) {
        (Some(TabMsg::Go(p)), PageMove::Stay) => assert_eq!(p, "gemini://z/"),
        other => panic!("unexpected {:?}", other),
    }
    assert_eq!(stack.dialogs.len(), 0);
    // inspecting a relative link asks to go to it; cancelling leaves no dialog
    stack.update(&KeyCode::Char('w'), None, &keys, &GemTextData::Link(Scheme::Relative("e".to_string())), &base);
    assert_eq!(stack.top_prompt().unwrap(), "go to e?");
    assert!(matches!(&stack.dialogs[0].msg, TabMsg::Go(u) if u == "gemini://h.x/d/e"));
    assert!(matches!(stack.update(&KeyCode::Esc, Some(DialogMsg::Cancel), &keys, &GemTextData::Text, &base), (Some(TabMsg::Nothing), PageMove::Stay)));
    assert!(stack.top_prompt().is_none());
    // a yes answer sends the dialog's message
    stack.update(&KeyCode::Char('v'), None, &keys, &GemTextData::Text, &base);
    stack.dialogs[0].input = StackInput::Choose('y', vec![('y', "yes".to_string()), ('n', "no".to_string())]);
    assert!(matches!(stack.update(&KeyCode::Char('y'), Some(DialogMsg::Submit(TabMsg::DeleteMe)), &keys, &GemTextData::Text, &base), (Some(TabMsg::DeleteMe), PageMove::Stay)));
    assert_eq!(stack.dialogs.len(), 0);
}

#[test]
fn dialog_stack_checked_refuses_unjoinable_link() {
    let keys = KeyParams::default();
    let odd = WebUrl::parse("data:text/plain,x").unwrap();
    let mut stack = DialogStack::new();
    assert!(stack.update_checked(&KeyCode::Char('w'), None, &keys, &GemTextData::Link(Scheme::Relative("e".to_string())), &odd).is_none());
    assert_eq!(stack.dialogs.len(), 0);
    assert!(matches!(stack.update_checked(&KeyCode::Char('v'), None, &keys, &GemTextData::Text, &odd), Some((Some(TabMsg::Nothing), PageMove::Stay))));
    assert_eq!(stack.dialogs.len(), 1);
    // with a dialog open the key goes to it, whatever is under the cursor
    assert!(matches!(stack.update_checked(&KeyCode::Char('w'), Some(DialogMsg::Cancel), &keys, &GemTextData::Link(Scheme::Relative("e".to_string())), &odd), Some((Some(TabMsg::Nothing), PageMove::Stay))));
    assert_eq!(stack.dialogs.len(), 0);
}
