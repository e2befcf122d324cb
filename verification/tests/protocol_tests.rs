use gem::gemstatus;
use gem::status;
use gem::gemini::{self, GemType, GemDoc, Scheme};
use gem::gemini::gemtext::{self, GemTextLine, GemTextData};
use gem::weburl::WebUrl;
use std::str::FromStr;

#[test]
fn gemstatus_parse_line_cases() {
    match gemstatus::Status::parse_line("20 text/gemini\r\n") {
        Ok(gemstatus::Status::Success(gemstatus::Success::Success(20), meta)) => assert_eq!(meta, "text/gemini"),
        other => panic!("unexpected {:?}", other),
    }
    match gemstatus::Status::parse_line("99 x\r\n") {
        Err(e) => assert_eq!(e, "this =>>> (99) ? ... is not meth"),
        other => panic!("unexpected {:?}", other),
    }
    match gemstatus::Status::parse_line("hello") {
        Err(e) => assert_eq!(e, ""),
        other => panic!("unexpected {:?}", other),
    }
    assert!(matches!(gemstatus::Status::from_str("11 secret\r\n"),
        Ok(gemstatus::Status::InputExpected(gemstatus::Input::Sensitive, _))));
}

#[test]
fn gemstatus_codes() {
    assert_eq!(gemstatus::Input::new(10), Some(gemstatus::Input::Input(10)));
    assert_eq!(gemstatus::Redirect::new(31), Some(gemstatus::Redirect::Permanent));
    assert_eq!(gemstatus::TemporaryFailure::new(44), Some(gemstatus::TemporaryFailure::SlowDown));
    assert_eq!(gemstatus::PermanentFailure::new(51), Some(gemstatus::PermanentFailure::NotFound));
    assert_eq!(gemstatus::Success::new(42), None);
}

#[test]
fn status_redirect_parses_url() {
    match status::Status::from_str("31 gemini://x.y/\r\n") {
        Ok(status::Status::Redirect(status::Redirect::Permanent, url)) => assert_eq!(url.as_str(), "gemini://x.y/"),
        other => panic!("unexpected {:?}", other),
    }
    match status::Status::new(70, "x".to_string()) {
        Err(e) => assert_eq!(e, "received status number 70 which maps to nothing"),
        other => panic!("unexpected {:?}", other),
    }
    match status::Status::from_str("30 not a url\r\n") {
        Err(e) => assert_eq!(e, url::Url::parse("not a url").unwrap_err().to_string()),
        other => panic!("unexpected {:?}", other),
    }
}

#[test]
fn status_debug_texts() {
    assert_eq!(status::Success::Success(21).debug_text(), "Success(21)");
    assert_eq!(status::Input::Sensitive.debug_text(), "Sensitive");
    assert_eq!(status::TemporaryFailure::CGIError.debug_text(), "CGIError");
    assert_eq!(status::PermanentFailure::PermanentFailure(50).debug_text(), format!("{:?}", status::PermanentFailure::PermanentFailure(50)));
}

#[test]
fn parse_status_cases() {
    let (s, m) = gemini::parse_status("20 text/gemini\r\n").unwrap();
    assert_eq!(s, gemini::Status::Success);
    assert_eq!(m, "text/gemini");
    assert_eq!(gemini::parse_status("99 hi").unwrap_err(), "invalid status number: 99");
    assert_eq!(gemini::parse_status("abc hi").unwrap_err(), "abc".parse::<u8>().unwrap_err().to_string());
    assert_eq!(gemini::parse_status("300 x").unwrap_err(), "300".parse::<u8>().unwrap_err().to_string());
    assert_eq!(gemini::parse_status("+51 gone").unwrap().0, gemini::Status::FailNotFound);
    assert_eq!(gemini::parse_status("12 q").unwrap().0, gemini::Status::InputExpected);
}

#[test]
fn status_names() {
    assert_eq!(gemini::Status::FailCGIError.name(), "FailCGIError");
    assert_eq!(gemini::Status::Success.name(), format!("{:?}", gemini::Status::Success));
}

#[test]
fn find_clrf_cases() {
    assert_eq!(gemini::find_clrf(b"ab\r\ncd\r\n"), Some(2));
    assert_eq!(gemini::find_clrf(b"ab\ncd\r"), None);
    assert_eq!(gemini::find_clrf(b""), None);
}

#[test]
fn response_parts_cases() {
    let (h, c) = gemini::response_parts(b"20 ok\r\nbody".to_vec()).unwrap();
    assert_eq!(h, "20 ok\r\n");
    assert_eq!(c, "body");
    assert_eq!(gemini::response_parts(b"no break".to_vec()).unwrap_err(), "Could not find the clrf");
    let (_, bad) = gemini::response_parts(vec![b'2', b'0', b'\r', b'\n', 0xff]).unwrap();
    assert_eq!(bad, "\u{fffd}");
}

#[test]
fn parse_doc_lines() {
    let base = WebUrl::parse("gemini://h.x/d/").unwrap();
    let doc = gemini::parse_doc("# Title\n```\npre\n```\n* item\n=> /a rel\nplain", &base);
    assert_eq!(doc.len(), 5);
    assert!(matches!(doc[0].0, GemType::HeadingOne));
    assert_eq!(doc[0].1, " Title");
    assert!(matches!(doc[1].0, GemType::PreFormat));
    assert_eq!(doc[1].1, "pre");
    assert!(matches!(doc[2].0, GemType::ListItem));
    assert_eq!(doc[2].1, "-  item");
    match &doc[3].0 {
        GemType::Link(Scheme::Gemini, u) => assert_eq!(u.as_str(), "gemini://h.x/a"),
        other => panic!("unexpected {:?}", other),
    }
    assert_eq!(doc[3].1, "rel");
    assert!(matches!(doc[4].0, GemType::Text));
    assert_eq!(doc[4].1, "plain");
}

#[test]
fn join_if_relative_cases() {
    let base = WebUrl::parse("gemini://h.x/d/").unwrap();
    assert_eq!(gemini::join_if_relative(&base, "e").unwrap().as_str(), "gemini://h.x/d/e");
    assert_eq!(gemini::join_if_relative(&base, "https://w.x/").unwrap().as_str(), "https://w.x/");
    assert_eq!(gemini::parse_scheme(&WebUrl::parse("https://w.x/").unwrap()), Scheme::Http);
    assert_eq!(gemini::parse_scheme(&WebUrl::parse("ftp://w.x/").unwrap()), Scheme::Unknown);
    let e = gemini::join_if_relative(&base, "http://[x").unwrap_err();
    assert_eq!(e, url::Url::parse("http://[x").unwrap_err().to_string());
}

#[test]
fn gem_doc_from_response() {
    let url = WebUrl::parse("gemini://h.x/").unwrap();
    let d = GemDoc::from_response(&url, "51 not here\r\n", "").unwrap();
    assert_eq!(d.status, gemini::Status::FailNotFound);
    assert_eq!(d.msg, "not here");
    assert_eq!(d.doc.len(), 1);
    assert_eq!(d.doc[0].1, "response: status: FailNotFound, msg: not here");
    let ok = GemDoc::from_response(&url, "20 text/gemini\r\n", "## two").unwrap();
    assert!(matches!(ok.doc[0].0, GemType::HeadingTwo));
    assert_eq!(ok.doc[0].1, " two");
    assert!(GemDoc::from_response(&url, "x", "").is_err());
}

#[test]
fn gemtext_scheme_from_str() {
    match gemtext::Scheme::from_str("gemini://a.b/ label") {
        Ok((gemtext::Scheme::Gemini(u), l)) => {
            assert_eq!(u.as_str(), "gemini://a.b/");
            assert_eq!(l, "label");
        },
        other => panic!("unexpected {:?}", other),
    }
    match gemtext::Scheme::from_str(" /rel") {
        Ok((gemtext::Scheme::Relative(s), l)) => {
            assert_eq!(s, "/rel");
            assert_eq!(l, "/rel");
        },
        other => panic!("unexpected {:?}", other),
    }
    assert_eq!(gemtext::Scheme::from_str("a b\nc").unwrap_err(), "regex: no captures");
    assert_eq!(gemtext::Scheme::from_str("http://[x").unwrap_err(), "no parse url");
    assert!(matches!(gemtext::Scheme::from_str("gopher://g.x/"), Ok((gemtext::Scheme::Gopher(_), _))));
}

#[test]
fn gemtext_parse_doc_cases() {
    let err = GemTextLine::parse_doc(vec!["# h", "=>http://[x y"]).unwrap_err();
    assert_eq!(err, "could not parse link \"no parse url\"");
    let lines = GemTextLine::parse_doc(vec!["```", "=> not parsed", "```", "* item", "> q"]).unwrap();
    assert_eq!(lines.len(), 3);
    assert!(matches!(lines[0].data, GemTextData::PreFormat));
    assert_eq!(lines[0].text, "=> not parsed");
    assert!(matches!(lines[1].data, GemTextData::ListItem));
    assert_eq!(lines[1].text, " item");
    assert!(matches!(lines[2].data, GemTextData::Quote));
    assert_eq!(GemTextLine::parse_doc(vec![]).unwrap().len(), 0);
}

#[test]
fn gemtext_debug_text() {
    let rel = GemTextData::Link(gemtext::Scheme::Relative("a\"b".to_string()));
    assert_eq!(rel.debug_text(), "Link(Relative(\"a\\\"b\"))");
    let url = url::Url::parse("gemini://a.b/").unwrap();
    let g = GemTextData::Link(gemtext::Scheme::Gemini(WebUrl::parse("gemini://a.b/").unwrap()));
    assert_eq!(g.debug_text(), format!("Link(Gemini({:?}))", url));
    assert_eq!(GemTextData::HeadingThree.debug_text(), "HeadingThree");
}

#[test]
fn every_code_from_ten_to_sixty_nine_is_named() {
    for code in 10..=69 {
        assert!(gemini::parse_status(&format!("{} m", code)).is_ok(), "code {}", code);
    }
    assert_eq!(gemini::parse_status("9 m").unwrap_err(), "invalid status number: 9");
    assert_eq!(gemini::parse_status("70 m").unwrap_err(), "invalid status number: 70");
}

#[test]
fn documents_without_links_always_read() {
    let lines = vec!["# a", "## b", "### c", "> d", "* e", "```", "=> not a link here", "```", "plain"];
    let doc = GemTextLine::parse_doc(lines).unwrap();
    assert_eq!(doc.len(), 7);
}
