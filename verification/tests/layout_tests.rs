use gem::scr::{self, ScreenRange, PosCol, Screen as ScrScreen, DataRange};
use gem::screen::{Screen, DataScreen, Pos};
use gem::util::{Rect, Range, Cursor, split_whitespace_once, wrap, wrap_list};
use gem::common::{Bound, ScreenRange as CommonRange};

#[test]
fn scr_move_backward_cases() {
    let inner = ScreenRange { start: 2, end: 8 };
    let outer = ScreenRange { start: 0, end: 10 };
    let r = scr::move_backward(&inner, &outer, &PosCol { screen: 5, data: 3 }, 1);
    assert_eq!(r, Some(PosCol { screen: 4, data: 3 }));
    let r = scr::move_backward(&inner, &outer, &PosCol { screen: 0, data: 0 }, 1);
    assert_eq!(r, None);
    let r = scr::move_backward(&inner, &outer, &PosCol { screen: 0, data: 5 }, 2);
    assert_eq!(r, Some(PosCol { screen: 0, data: 3 }));
    let r = scr::move_backward(&inner, &outer, &PosCol { screen: 2, data: 1 }, 3);
    assert_eq!(r, Some(PosCol { screen: 0, data: 0 }));
}

#[test]
fn scr_move_forward_cases() {
    let inner = ScreenRange { start: 2, end: 8 };
    let outer = ScreenRange { start: 0, end: 10 };
    let r = scr::move_forward(&inner, &outer, &PosCol { screen: 3, data: 0 }, 5, 1);
    assert_eq!(r, Some(PosCol { screen: 4, data: 0 }));
    let r = scr::move_forward(&inner, &outer, &PosCol { screen: 5, data: 0 }, 5, 1);
    assert_eq!(r, None);
    let r = scr::move_forward(&inner, &outer, &PosCol { screen: 7, data: 0 }, 20, 1);
    assert_eq!(r, Some(PosCol { screen: 8, data: 0 }));
    let r = scr::move_forward(&inner, &outer, &PosCol { screen: 8, data: 0 }, 20, 1);
    assert_eq!(r, Some(PosCol { screen: 8, data: 1 }));
}

#[test]
fn scr_screen_ranges() {
    let r = ScreenRange::new(9, 4);
    assert_eq!(r, ScreenRange { start: 4, end: 9 });
    assert_eq!(r.len(), 5);
    assert_eq!(ScreenRange::from_length(3, 4), ScreenRange { start: 3, end: 7 });
    assert_eq!(r.to_data_range(), DataRange { start: 0, end: 5 });
    let s = ScrScreen::origin(40, 20);
    let c = s.xcrop(8);
    assert_eq!(c, ScrScreen { x: 8, y: 0, w: 24, h: 20 });
    assert_eq!(scr::data_range(&ScreenRange { start: 0, end: 10 }, &PosCol { screen: 0, data: 4 }, 12), DataRange { start: 4, end: 12 });
    assert_eq!(scr::data_range(&ScreenRange { start: 0, end: 10 }, &PosCol { screen: 0, data: 4 }, 6), DataRange { start: 0, end: 6 });
}

#[test]
fn screen_crop_and_data_screen() {
    let s = Screen::origin(40, 20);
    let outer = s.crop_x(8).crop_y(2);
    assert_eq!(outer, Screen { x: 8, y: 2, w: 24, h: 16 });
    let d = DataScreen::new(outer, 3, 3);
    assert_eq!(d.inner, Screen { x: 11, y: 5, w: 18, h: 10 });
    assert_eq!(Pos::origin(&outer), Pos { x: 8, y: 2, i: 0, j: 0 });
}

#[test]
fn range_new_and_error() {
    let r = Range::new(2, 7).unwrap();
    assert_eq!((r.start(), r.end(), r.len()), (2, 7, 5));
    match Range::new(5, 3) {
        Err(e) => assert_eq!(e, "invalid range: (a: 5) > (b: 3)"),
        Ok(_) => panic!("a range must not end before it starts"),
    }
}

#[test]
fn rect_formulas() {
    let r = Rect { x: 2, y: 4, w: 10, h: 6 };
    assert_eq!(r.mid_x(), 7);
    assert_eq!(r.mid_y(), 7);
    let q = r.quarter_x().unwrap();
    assert_eq!((q.start(), q.end()), (4, 10));
    let h = r.horizontal().unwrap();
    assert_eq!((h.start(), h.end()), (2, 12));
    let v = r.verticle().unwrap();
    assert_eq!((v.start(), v.end()), (4, 10));
    assert_eq!(Rect::origin(3, 4), Rect { x: 0, y: 0, w: 3, h: 4 });
}

#[test]
fn cursor_scrolls_after_inner_end() {
    let r = Range::new(0, 10).unwrap();
    let mut c = Cursor::new(20, &r, 2);
    assert!(c.is_start());
    assert!(c.forward(1));
    assert_eq!(c.get_index(), 1);
    assert!(c.forward(10));
    assert_eq!(c.get_scroll(), 4);
    assert_eq!(c.get_cursor(), 7);
    assert_eq!(c.get_index(), 11);
    assert!(c.backward(1));
    assert_eq!(c.get_index(), 10);
    assert_eq!(c.get_display_range(), (4, 14));
}

#[test]
fn cursor_back_then_forward_returns() {
    let r = Range::new(0, 10).unwrap();
    let mut c = Cursor::new(20, &r, 2);
    assert!(c.forward(3));
    let before = c.get_index();
    assert!(c.backward(1));
    assert!(c.forward(1));
    assert_eq!(c.get_index(), before);
    let mut s = Cursor::new(20, &r, 2);
    assert!(!s.backward(1));
    assert!(s.is_start());
}

#[test]
fn split_whitespace_once_cases() {
    assert_eq!(split_whitespace_once("  a b  "), ("a", "b"));
    assert_eq!(split_whitespace_once("x\ty z"), ("x", "y z"));
    assert_eq!(split_whitespace_once(" solo "), ("solo", "solo"));
}

#[test]
fn wrap_breaks_at_spaces() {
    assert_eq!(wrap("hello world foo", 5), vec!["hello", "worl", "ld", "foo"]);
    assert_eq!(wrap("short", 10), vec!["short"]);
    assert_eq!(wrap("", 5), Vec::<String>::new());
    assert_eq!(wrap("  padded  ", 20), vec!["padded"]);
}

#[test]
fn wrap_list_keeps_line_index() {
    let lines = vec!["ab cd".to_string(), "e".to_string()];
    assert_eq!(wrap_list(&lines, 5), vec![(0, "ab cd".to_string()), (1, "e".to_string())]);
}

#[test]
fn common_bound_kinds() {
    let scr = CommonRange { a: 0, b: 10 };
    assert_eq!(Bound::new(scr, 2, 5), Bound::Data(CommonRange { a: 0, b: 5 }));
    assert_eq!(Bound::new(scr, 2, 20), Bound::Space(CommonRange { a: 2, b: 7 }, 20));
    assert_eq!(Bound::new(scr, 0, 20), Bound::Screen(20));
    assert_eq!(Bound::Screen(20).increment(), Bound::Screen(21));
    assert_eq!(Bound::Data(CommonRange { a: 0, b: 5 }).increment(), Bound::Data(CommonRange { a: 0, b: 6 }));
}

#[test]
fn wrap_ascii_at_narrow_widths() {
    assert_eq!(wrap("ab cd", 2), vec!["ab", "c", "cd"]);
    assert_eq!(wrap("abcd", 3), vec!["abc", "d"]);
}

#[test]
fn moved_down_cursor_stays_inside_its_line() {
    let outer = Screen::origin(40, 20).crop_x(8).crop_y(2);
    let d = DataScreen::new(outer, 3, 3);
    let data = vec![10usize, 2, 30];
    let start = Pos { x: 18, y: 2, i: 0, j: 0 };
    let down = gem::screen::move_down(&d, &start, &data, 1).unwrap();
    assert_eq!(down, Pos { x: 10, y: 3, i: 0, j: 0 });
    assert_eq!(gem::screen::move_into_x(&d, &down, &data), down);

    let page = gem::bnd::Page::new(&ScrScreen { x: 0, y: 0, w: 20, h: 10 }, &vec!["abcdefghij".to_string(), "ab".to_string()], 2, 2);
    let p = scr::Pos { x: 8, y: 0, i: 0, j: 0 };
    let q = page.move_down(&p, 1).unwrap();
    assert_eq!(q, scr::Pos { x: 2, y: 1, i: 0, j: 0 });
    assert_eq!(page.move_into_x(&q), q);
}
