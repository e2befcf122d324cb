use gem::view::{self, dialog::{Dialog, Action}, styles::LineStyles, text::{GemTextView, split_words}, model::{Model, Address}, update};
use gem::gemini::gemtext::{GemTextData, Scheme};
use gem::weburl::WebUrl;
use gem::msg::Message;
use gem::event::{Event, KeyEvent, KeyCode, KeyEventKind, CONTROL};

#[test]
fn dialog_texts() {
    let d = Dialog::download("image/png".to_string());
    assert!(matches!(d.action, Action::Download));
    assert_eq!(d.text, "Download nontext type: image/png?");
    assert_eq!(Dialog::acknowledge("ok".to_string()).text, "ok?");
    let f = Dialog::follow_link(WebUrl::parse("gemini://a.b/c").unwrap());
    assert_eq!(f.text, "Go to gemini://a.b/c?");
    assert!(matches!(f.action, Action::FollowLink(_)));
}

#[test]
fn query_gemtext_data_cases() {
    let d = update::query_gemtext_data(GemTextData::HeadingOne).unwrap();
    assert_eq!(d.text, "HeadingOne?");
    let u = WebUrl::parse("gemini://a.b/").unwrap();
    let g = update::query_gemtext_data(GemTextData::Link(Scheme::Gemini(u))).unwrap();
    assert_eq!(g.text, "Go to gemini://a.b/?");
    let r = Dialog::query_gemtext_data(GemTextData::Link(Scheme::Relative("x".to_string()))).unwrap();
    assert_eq!(r.text, "Link(Relative(\"x\"))?");
}

#[test]
fn split_words_is_splitn() {
    assert_eq!(split_words("a b c", 2), vec!["a", "b c"]);
    assert_eq!(split_words("a b c", 0), Vec::<String>::new());
    assert_eq!(split_words("abc", 3), vec!["abc"]);
    assert_eq!(split_words(" x", 5), vec!["", "x"]);
    let s = "one two  three";
    assert_eq!(split_words(s, 4).join(" "), s);
}

#[test]
fn page_cursor_moves_across_blocks() {
    let styles = LineStyles::new();
    let mut page = GemTextView::new("one two three\n# head".to_string(), &styles, (2, 10));
    let (k, t) = page.get_text_under_cursor();
    assert!(matches!(k, GemTextData::Text));
    assert_eq!(t, "one");
    assert!(page.move_cursor_down());
    assert_eq!(page.get_text_under_cursor().1, "two three");
    assert!(page.move_cursor_down());
    let (k, t) = page.get_text_under_cursor();
    assert!(matches!(k, GemTextData::HeadingOne));
    assert_eq!(t, "head");
    assert!(!page.move_cursor_down());
    assert!(page.move_cursor_up());
    assert_eq!(page.get_text_under_cursor().1, "");
    assert!(page.move_cursor_up());
    assert_eq!(page.get_text_under_cursor().1, "one");
    assert!(!page.move_cursor_up());
}

#[test]
fn line_styles_colors() {
    let s = LineStyles::new();
    assert_eq!((s.heading_one.background.r, s.heading_one.background.g), (48, 24));
    assert_eq!(s.link.foreground.r, 176);
    let c = s.get_colors(GemTextData::Quote);
    assert_eq!(c, s.quote);
    let d = gem::display::LineStyles::new();
    assert_eq!(d.text.foreground.r, 128);
    assert_eq!(d.text.background.g, 32);
}

#[test]
fn model_init_cases() {
    let m = Model::init(&None, None, (80, 24));
    assert!(!m.quit);
    assert!(m.dialog.is_none());
    assert!(matches!(&m.address, Address::String(s) if s.is_empty()));
    assert_eq!(m.text.get_text_under_cursor().1, "welcome");
    let u = Some(WebUrl::parse("gemini://a.b/").unwrap());
    let f = Model::init(&u, None, (80, 24));
    assert_eq!(f.text.get_text_under_cursor().1, "data");
    let p = Model::init(&u, Some(("oops".to_string(), String::new())), (80, 24));
    assert_eq!(p.text.get_text_under_cursor().1, "could");
    let t = Model::init(&u, Some(("20 text/gemini\r\n".to_string(), "hello".to_string())), (80, 24));
    assert!(t.dialog.is_none());
    assert_eq!(t.text.get_text_under_cursor().1, "hello");
    let n = Model::init(&u, Some(("20 image/png\r\n".to_string(), "x".to_string())), (80, 24));
    assert_eq!(n.dialog.unwrap().text, "Download nontext type: image/png?");
    let i = Model::init(&u, Some(("10 name?\r\n".to_string(), "x".to_string())), (80, 24));
    assert_eq!(i.dialog.unwrap().text, "input: name??");
}

#[test]
fn update_messages() {
    let m = Model::init(&None, None, (80, 24));
    let (m, fetch) = update::update(m, Message::Stop);
    assert!(m.quit);
    assert!(fetch.is_none());
    let (m, _) = update::update(m, Message::Enter);
    assert_eq!(m.dialog.as_ref().unwrap().text, "Text?");
    let (m, fetch) = update::update(m, Message::Enter);
    assert!(m.dialog.is_none());
    assert!(fetch.is_none());
    let u = Some(WebUrl::parse("gemini://a.b/").unwrap());
    let r = Model::init(&u, Some(("30 gemini://c.d/\r\n".to_string(), "x".to_string())), (80, 24));
    assert_eq!(r.dialog.as_ref().unwrap().text, "Go to gemini://c.d/?");
    let (r, fetch) = update::update(r, Message::Enter);
    assert_eq!(fetch.unwrap().as_str(), "gemini://c.d/");
    let data = Some(("51 gone\r\n".to_string(), String::new()));
    assert!(update::response_ok(&data));
    let r = update::respond_to_dialog(r, data);
    assert!(r.dialog.is_none());
    assert_eq!(r.text.get_text_under_cursor().1, "Permanent");
}

#[test]
fn update_moves_cursor() {
    let u = Some(WebUrl::parse("gemini://a.b/").unwrap());
    let m = Model::init(&u, Some(("20 text/gemini\r\n".to_string(), "a b".to_string())), (80, 24));
    let (m, _) = update::update(m, Message::Code('i'));
    assert_eq!(m.text.get_text_under_cursor().1, "b");
    let (m, _) = update::update(m, Message::Code('o'));
    assert_eq!(m.text.get_text_under_cursor().1, "a");
    let (m, _) = update::update(m, Message::Escape);
    assert!(m.dialog.is_none());
}

#[test]
fn handle_event_messages() {
    let press = |code| Event::Key(KeyEvent { code, modifiers: 0, kind: KeyEventKind::Press });
    assert_eq!(view::handle_event(press(KeyCode::Enter)), Some(Message::Enter));
    assert_eq!(view::handle_event(press(KeyCode::Esc)), Some(Message::Escape));
    assert_eq!(view::handle_event(press(KeyCode::Char('x'))), Some(Message::Code('x')));
    assert_eq!(view::handle_event(Event::Resize(3, 4)), Some(Message::Resize(3, 4)));
    let ctrl_c = KeyEvent { code: KeyCode::Char('c'), modifiers: CONTROL, kind: KeyEventKind::Press };
    assert_eq!(view::handle_key_event(ctrl_c), Some(Message::Stop));
    let release = KeyEvent { code: KeyCode::Char('c'), modifiers: 0, kind: KeyEventKind::Release };
    assert_eq!(Message::from_event(Event::Key(release)), None);
    assert_eq!(gem::model::Message::from_event(Event::Key(ctrl_c)), Some(gem::model::Message::Code('c')));
    assert_eq!(gem::model::Message::from_event(press(KeyCode::Enter)), None);
}

#[test]
fn readability_checks() {
    assert!(gem::view::text::readable_text("# ok\nplain"));
    assert!(!gem::view::text::readable_text("=>http://[x y"));
    let u = Some(WebUrl::parse("gemini://a.b/").unwrap());
    let bad = Some(("20 text/gemini\r\n".to_string(), "=>http://[x y".to_string()));
    assert!(!gem::view::model::content_ok(&u, &bad));
    let unread = Some(("oops".to_string(), "=>http://[x y".to_string()));
    assert!(gem::view::model::content_ok(&u, &unread));
    assert!(gem::view::model::content_ok(&None, &bad));
}
