use gem::ui::{UI, ActiveView};
use gem::screen::{Pos, Screen};
use gem::event::{Event, KeyEvent, KeyCode, KeyEventKind, CONTROL};
use gem::tab::{self, TabMsg, TabAction, key_action, KeyAction, DialogRequest, dialog_answer};
use gem::dialog::InputMsg;
use gem::util::Rect;
use gem::config::{Config, ColorParams, KeyParams, FormatParams, Color};
use gem::gemini::{GemType, GemDoc};
use gem::weburl::WebUrl;
use gem::bar::TextBar;
use gem::content::ViewBox;
use gem::table::ListBox;
use gem::widget::ColoredText;
use gem::strings::{lines_vec, starts_with};

fn key(c: char) -> Event {
    Event::Key(KeyEvent { code: KeyCode::Char(c), modifiers: 0, kind: KeyEventKind::Press })
}

#[test]
fn ui_starts_in_text_area() {
    let ui = UI::new("ab\ncd", 40, 20);
    assert!(!ui.is_quit());
    assert_eq!(ui.view, ActiveView::Text);
    assert_eq!(ui.editor.txtscr.outer, Screen { x: 8, y: 2, w: 24, h: 16 });
    assert_eq!(ui.editor.txtscr.inner, Screen { x: 11, y: 5, w: 18, h: 10 });
    assert_eq!(ui.editor.pos, Pos { x: 8, y: 2, i: 0, j: 0 });
    assert_eq!(ui.editor.txt, vec!["ab", "cd"]);
    assert_eq!(ui.editor.txtlen, vec![2, 2]);
}

#[test]
fn ui_keys_move_and_quit() {
    let mut ui = UI::new("ab\ncd", 40, 20);
    assert!(ui.update(key('n')));
    assert_eq!(ui.editor.pos, Pos { x: 9, y: 2, i: 0, j: 0 });
    assert_eq!(ui.editor.pref_x, 9);
    assert!(ui.update(key('i')));
    assert_eq!(ui.editor.pos, Pos { x: 9, y: 3, i: 0, j: 0 });
    assert!(!ui.update(key('z')));
    assert!(ui.update(key('e')));
    assert_eq!(ui.editor.pos.x, 8);
    assert!(!ui.update(key('e')));
    let release = Event::Key(KeyEvent { code: KeyCode::Char('n'), modifiers: 0, kind: KeyEventKind::Release });
    assert!(!ui.update(release));
    let ctrl_c = Event::Key(KeyEvent { code: KeyCode::Char('c'), modifiers: CONTROL, kind: KeyEventKind::Press });
    assert!(ui.update(ctrl_c));
    assert!(ui.is_quit());
}

#[test]
fn ui_quit_stays_quit() {
    let mut ui = UI::new("ab\ncd", 40, 20);
    let ctrl_c = Event::Key(KeyEvent { code: KeyCode::Char('c'), modifiers: CONTROL, kind: KeyEventKind::Press });
    assert!(ui.update(ctrl_c));
    assert!(ui.is_quit());
    ui.update(key('n'));
    assert!(ui.is_quit());
    ui.update(Event::Resize(50, 30));
    assert!(ui.is_quit());
    ui.update(Event::Other);
    assert!(ui.update(ctrl_c));
    assert!(ui.is_quit());
    assert_eq!(ui.view, ActiveView::Quit);
}

#[test]
fn ui_resize_keeps_cursor_in_text() {
    let mut ui = UI::new("abcdef\nx", 40, 20);
    assert!(ui.update(key('n')));
    assert!(ui.update(key('n')));
    assert!(ui.update(Event::Resize(50, 30)));
    assert_eq!(ui.editor.scr, Screen { x: 0, y: 0, w: 50, h: 30 });
    assert_eq!(ui.editor.txtscr.outer, Screen { x: 8, y: 2, w: 34, h: 26 });
    assert_eq!(ui.editor.pos, Pos { x: 10, y: 2, i: 0, j: 0 });
}

#[test]
fn tab_cycling_wraps_and_returns() {
    assert!(matches!(tab::next_tab(0, 3, &TabMsg::CycleLeft), (2, 3, TabAction::Stay)));
    assert!(matches!(tab::next_tab(2, 3, &TabMsg::CycleRight), (0, 3, TabAction::Stay)));
    let (l, n, _) = tab::next_tab(1, 3, &TabMsg::CycleLeft);
    let (back, _, _) = tab::next_tab(l, n, &TabMsg::CycleRight);
    assert_eq!(back, 1);
    match tab::next_tab(0, 3, &TabMsg::Go("gemini://x/".to_string())) {
        (3, 4, TabAction::Open(u)) => assert_eq!(u, "gemini://x/"),
        other => panic!("unexpected {:?}", other),
    }
    assert!(matches!(tab::next_tab(0, 1, &TabMsg::DeleteMe), (0, 1, TabAction::Stay)));
    assert!(matches!(tab::next_tab(1, 3, &TabMsg::DeleteMe), (1, 2, TabAction::Close(1))));
    assert!(matches!(tab::next_tab(1, 3, &TabMsg::Nothing), (1, 3, TabAction::Stay)));
}

#[test]
fn tab_messages_in_turn_keep_a_tab_shown() {
    let msgs = vec![
        TabMsg::DeleteMe,
        TabMsg::CycleLeft,
        TabMsg::Go("gemini://a/".to_string()),
        TabMsg::CycleRight,
        TabMsg::CycleRight,
        TabMsg::DeleteMe,
        TabMsg::DeleteMe,
        TabMsg::CycleLeft,
    ];
    let (mut cur, mut len) = (0usize, 1usize);
    let mut seen = vec![];
    for m in msgs.iter() {
        let (c, n, _) = tab::next_tab(cur, len, m);
        assert!(c < n);
        cur = c;
        len = n;
        seen.push((cur, len));
    }
    assert_eq!(seen, vec![(0, 1), (0, 1), (1, 2), (0, 2), (1, 2), (0, 1), (0, 1), (0, 1)]);
}

#[test]
fn tab_banner_and_area() {
    assert_eq!(tab::get_banner_text(1, 3, "gemini://a/"), "2/3: gemini://a/");
    assert_eq!(tab::get_banner_line(3), "---");
    assert_eq!(tab::get_banner_line(0), "");
    assert_eq!(tab::tab_rect(&Rect { x: 0, y: 0, w: 80, h: 24 }, 2), Rect { x: 2, y: 2, w: 76, h: 22 });
}

#[test]
fn config_defaults() {
    let c = Config::default();
    assert_eq!(c.init_url, "gemini://datapulp.smol.pub/");
    assert_eq!(c.scroll_at, 3);
    assert_eq!(c.colors.background, (205, 205, 205));
    assert_eq!(c.keys.tab.move_up, 'o');
    assert_eq!(c.keys.dialog.no, 'n');
    assert_eq!(KeyParams::default().global, 'g');
    let f = FormatParams::default();
    assert_eq!(f.list_prefix, "- ");
    assert_eq!(f.heading1, (3, 2));
    assert_eq!(f.clone().margin, 2);
}

#[test]
fn config_colors() {
    let mut colors = ColorParams::default();
    colors.link = (1, 2, 3);
    colors.banner = (4, 5, 6);
    assert_eq!(colors.get_banner(), Color { r: 4, g: 5, b: 6 });
    assert_eq!(colors.get_background(), Color { r: 205, g: 205, b: 205 });
    let url = WebUrl::parse("gemini://a.b/").unwrap();
    let link = GemType::Link(gem::gemini::Scheme::Gemini, url.clone());
    let t = colors.from_gem_type(&link, "go");
    assert_eq!(t.text, "go");
    assert_eq!(t.color, Color { r: 1, g: 2, b: 3 });
    let doc = GemDoc::from_response(&url, "20 text/gemini\r\n", "=> gemini://c.d/ x\nplain").unwrap();
    let v = colors.from_gem_doc(&doc);
    assert_eq!(v.len(), 2);
    assert_eq!(v[0].color, Color { r: 1, g: 2, b: 3 });
    assert_eq!(v[1].text, "plain");
    let ct = ColoredText::new("hi", Color { r: 0, g: 0, b: 0 });
    assert_eq!(ct.text, "hi");
}

#[test]
fn bars_and_boxes_move_within_bounds() {
    let mut bar = TextBar::default();
    assert_eq!(bar.content, "textbar");
    assert!(bar.move_horizontal(5));
    assert_eq!(bar.pos, 5);
    assert!(!bar.move_horizontal(20));
    assert_eq!(bar.pos, 5);
    assert!(!bar.move_horizontal(-6));
    let mut vb = ViewBox::default();
    assert!(vb.move_vertical(1));
    assert!(!vb.move_vertical(1));
    assert!(!vb.move_horizontal(1));
    let mut lb = ListBox::default();
    assert_eq!(lb.content, vec!["listbox"]);
    assert!(lb.move_vertical(1));
    assert_eq!(lb.pos, 1);
    assert!(!lb.move_vertical(-2));
}

#[test]
fn text_helpers() {
    assert_eq!(lines_vec("a\r\nb\n\nc\n"), vec!["a", "b", "", "c"]);
    assert!(starts_with("text/gemini", "text/"));
    assert!(!starts_with("tex", "text/"));
}

#[test]
fn tab_key_actions() {
    let keys = KeyParams::default();
    assert!(matches!(key_action('i', &keys, &GemType::Text), KeyAction::MoveDown));
    assert!(matches!(key_action('o', &keys, &GemType::Text), KeyAction::MoveUp));
    assert!(matches!(key_action('e', &keys, &GemType::Text), KeyAction::Send(TabMsg::CycleLeft)));
    assert!(matches!(key_action('x', &keys, &GemType::Text), KeyAction::Ignore));
    match key_action('v', &keys, &GemType::Text) {
        KeyAction::Ask(TabMsg::DeleteMe, DialogRequest::Choose(p, cs)) => {
            assert_eq!(p, "Delete current tab?");
            assert_eq!(cs, vec![('y', "yes".to_string()), ('n', "no".to_string())]);
        },
        other => panic!("unexpected {:?}", other),
    }
    match key_action('p', &keys, &GemType::Text) {
        KeyAction::Ask(TabMsg::NewTab, DialogRequest::Text(p)) => assert_eq!(p, "enter path: "),
        other => panic!("unexpected {:?}", other),
    }
    let url = WebUrl::parse("gemini://a.b/c").unwrap();
    match key_action('w', &keys, &GemType::Link(gem::gemini::Scheme::Gemini, url.clone())) {
        KeyAction::Ask(TabMsg::Go(u), DialogRequest::Choose(p, _)) => {
            assert_eq!(u, "gemini://a.b/c");
            assert_eq!(p, "go to gemini://a.b/c?");
        },
        other => panic!("unexpected {:?}", other),
    }
    match key_action('w', &keys, &GemType::Link(gem::gemini::Scheme::Http, url)) {
        KeyAction::Ask(TabMsg::Acknowledge, DialogRequest::Choose(p, cs)) => {
            assert_eq!(p, "Protocol gemini://a.b/c not yet supported");
            assert_eq!(cs, vec![('y', "acknowledge".to_string())]);
        },
        other => panic!("unexpected {:?}", other),
    }
    match key_action('w', &keys, &GemType::BadLink("no \"url\"".to_string())) {
        KeyAction::Ask(TabMsg::Acknowledge, DialogRequest::Choose(p, _)) => {
            assert_eq!(p, "you've selected BadLink(\"no \\\"url\\\"\")");
        },
        other => panic!("unexpected {:?}", other),
    }
}

#[test]
fn tab_dialog_answers() {
    assert!(matches!(dialog_answer(&TabMsg::DeleteMe, Some(InputMsg::Choose('y')), 'y'), (Some(TabMsg::DeleteMe), true)));
    assert!(matches!(dialog_answer(&TabMsg::DeleteMe, Some(InputMsg::Choose('n')), 'y'), (Some(TabMsg::Nothing), true)));
    match dialog_answer(&TabMsg::NewTab, Some(InputMsg::Text("gemini://x/".to_string())), 'y') {
        (Some(TabMsg::Open(t)), true) => assert_eq!(t, "gemini://x/"),
        other => panic!("unexpected {:?}", other),
    }
    assert!(matches!(dialog_answer(&TabMsg::Acknowledge, Some(InputMsg::Text("t".to_string())), 'y'), (Some(TabMsg::Nothing), true)));
    assert!(matches!(dialog_answer(&TabMsg::NewTab, Some(InputMsg::Cancel), 'y'), (Some(TabMsg::Nothing), true)));
    assert!(matches!(dialog_answer(&TabMsg::NewTab, Some(InputMsg::Nothing), 'y'), (Some(TabMsg::Nothing), false)));
    assert!(matches!(dialog_answer(&TabMsg::NewTab, None, 'y'), (None, false)));
}

#[test]
fn gem_type_debug_text() {
    let url = WebUrl::parse("gemini://a.b/").unwrap();
    let parsed = url::Url::parse("gemini://a.b/").unwrap();
    assert_eq!(GemType::Link(gem::gemini::Scheme::Gopher, url).debug_text(), format!("Link(Gopher, {:?})", parsed));
    assert_eq!(GemType::Quote.debug_text(), "Quote");
}

fn page(url: &str) -> tab::Tab<u8> {
    tab::Tab { url: url.to_string(), page: 0 }
}

#[test]
fn tab_server_keeps_tabs_and_banner() {
    let config = Config::default();
    let mut s = tab::TabServer::new(&Rect { x: 0, y: 0, w: 20, h: 10 }, &config, page("gemini://datapulp.smol.pub/"));
    assert_eq!(s.rect, Rect { x: 2, y: 2, w: 16, h: 8 });
    assert_eq!(s.banner_text, "1/1: gemini://datapulp.smol.pub/");
    assert_eq!(s.banner_line, "-".repeat(16));
    assert!(!s.update(None, None));
    assert!(s.update(Some(TabMsg::Go("gemini://b/".to_string())), Some(page("gemini://b/"))));
    assert_eq!((s.tabs.len(), s.cur_index), (2, 1));
    assert_eq!(s.banner_text, "2/2: gemini://b/");
    assert!(s.update(Some(TabMsg::CycleRight), None));
    assert_eq!(s.cur_index, 0);
    assert!(s.update(Some(TabMsg::CycleLeft), None));
    assert_eq!(s.cur_index, 1);
    assert!(s.update(Some(TabMsg::Open("gemini://c/".to_string())), Some(page("gemini://c/"))));
    assert!(s.update(Some(TabMsg::CycleLeft), None));
    assert_eq!(s.cur_index, 1);
    assert!(s.update(Some(TabMsg::DeleteMe), None));
    assert_eq!(s.tabs.len(), 2);
    assert_eq!(s.tabs[1].url, "gemini://c/");
    assert_eq!(s.cur_index, 1);
    assert_eq!(s.banner_text, "2/2: gemini://c/");
    assert!(s.update(Some(TabMsg::DeleteMe), None));
    assert!(s.update(Some(TabMsg::DeleteMe), None));
    assert_eq!(s.tabs.len(), 1);
    assert_eq!(s.cur_index, 0);
    assert!(s.update(Some(TabMsg::Acknowledge), None));
}

#[test]
fn ui_event_checks() {
    let ui = UI::new("ab\ncd", 40, 20);
    assert!(ui.event_defined(key('n')));
    assert!(ui.event_defined(key('i')));
    assert!(ui.event_defined(Event::Resize(50, 30)));
    let empty = UI::new("", 40, 20);
    assert!(!empty.event_defined(Event::Resize(50, 30)));
    assert!(empty.event_defined(key('e')));
    assert!(ui.editor.update_defined('z'));
}
