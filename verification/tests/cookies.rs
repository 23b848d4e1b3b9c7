use todos_api::cookies::{
    char_is_whitespace, get_cookie_value, session_cookie, ACCESS_COOKIE, REFRESH_COOKIE,
};

fn by_split_and_trim(cookie_header: &str, key: &str) -> Option<String> {
    for piece in cookie_header.split("; ") {
        if let Some((name, value)) = piece.split_once('=') {
            if name.trim() == key {
                return Some(value.trim().to_string());
            }
        }
    }
    None
}

fn value(header: &str, key: &str) -> Option<String> {
    get_cookie_value(header, key)
}

#[test]
fn cookie_names() {
    assert_eq!(ACCESS_COOKIE, "act");
    assert_eq!(REFRESH_COOKIE, "rft");
}

#[test]
fn session_cookie_has_the_wire_format() {
    assert_eq!(
        session_cookie("act", "abc.def.ghi"),
        "act=abc.def.ghi; Path=/; HttpOnly; SameSite=Lax; Max-Age=1209600"
    );
    assert_eq!(
        session_cookie("rft", "x"),
        "rft=x; Path=/; HttpOnly; SameSite=Lax; Max-Age=1209600"
    );
    assert_eq!(session_cookie("", ""), "=; Path=/; HttpOnly; SameSite=Lax; Max-Age=1209600");
}

#[test]
fn session_cookie_keeps_for_fourteen_days() {
    let text = session_cookie("act", "t");
    let seconds: u64 = text.rsplit("Max-Age=").next().unwrap().parse().unwrap();
    assert_eq!(seconds, 14 * 24 * 60 * 60);
}

#[test]
fn single_cookie() {
    assert_eq!(value("act=token", "act"), Some("token".to_string()));
    assert_eq!(value("act=token", "rft"), None);
    assert_eq!(value("act=", "act"), Some("".to_string()));
    assert_eq!(value("=token", ""), Some("token".to_string()));
}

#[test]
fn several_cookies() {
    let header = "theme=dark; act=aaa.bbb.ccc; rft=ddd.eee.fff";
    assert_eq!(value(header, "act"), Some("aaa.bbb.ccc".to_string()));
    assert_eq!(value(header, "rft"), Some("ddd.eee.fff".to_string()));
    assert_eq!(value(header, "theme"), Some("dark".to_string()));
    assert_eq!(value(header, "ac"), None);
    assert_eq!(value(header, "act "), None);
}

#[test]
fn first_match_decides() {
    assert_eq!(value("act=one; act=two", "act"), Some("one".to_string()));
    assert_eq!(value("act; act=two", "act"), Some("two".to_string()));
}

#[test]
fn value_is_cut_at_the_first_equals_sign() {
    assert_eq!(value("act=a=b=c", "act"), Some("a=b=c".to_string()));
    assert_eq!(value("a=act=b", "act"), None);
}

#[test]
fn name_and_value_are_trimmed() {
    assert_eq!(value("  act \t= \u{a0}token\u{3000} ", "act"), Some("token".to_string()));
    assert_eq!(value("x=1;  act = a b ", "act"), Some("a b".to_string()));
    assert_eq!(value("x = 1 ;  act = a b ", "x"), Some("1".to_string()));
    assert_eq!(value(" \t ", ""), None);
    assert_eq!(value(" = ", ""), Some("".to_string()));
}

#[test]
fn only_semicolon_and_space_separates() {
    assert_eq!(value("a=1;act=2", "act"), None);
    assert_eq!(value("a=1;act=2", "a"), Some("1;act=2".to_string()));
    assert_eq!(value("a=1;\tact=2", "act"), None);
    assert_eq!(value("a=1;; act=2", "act"), Some("2".to_string()));
    assert_eq!(value("a=1;; act=2", "a"), Some("1;".to_string()));
    assert_eq!(value("a=1; ; act=2", "act"), Some("2".to_string()));
}

#[test]
fn header_without_pairs() {
    assert_eq!(value("", "act"), None);
    assert_eq!(value("", ""), None);
    assert_eq!(value("act", "act"), None);
    assert_eq!(value("; ", "act"), None);
    assert_eq!(value("; ; ", ""), None);
}

#[test]
fn names_outside_ascii() {
    assert_eq!(value("clé=valeur; 名前=値", "名前"), Some("値".to_string()));
    assert_eq!(value("clé=valeur; 名前=値", "clé"), Some("valeur".to_string()));
}

#[test]
fn whitespace_is_what_the_standard_library_says() {
    for code in 0..=0x10FFFFu32 {
        if let Some(c) = char::from_u32(code) {
            assert_eq!(char_is_whitespace(c), c.is_whitespace(), "U+{:04X}", code);
        }
    }
}

#[test]
fn agrees_with_split_and_trim_on_every_short_header() {
    let alphabet = ['a', '=', ';', ' ', '\t'];
    let keys = ["", "a", "aa", "a a"];
    let mut headers: Vec<String> = vec![String::new()];
    let mut from = 0;
    for _ in 0..7 {
        let to = headers.len();
        for i in from..to {
            for c in alphabet {
                let mut longer = headers[i].clone();
                longer.push(c);
                headers.push(longer);
            }
        }
        from = to;
    }
    assert_eq!(headers.len(), 97_656);
    for header in &headers {
        for key in keys {
            assert_eq!(
                get_cookie_value(header, key),
                by_split_and_trim(header, key),
                "{:?} {:?}",
                header,
                key
            );
        }
    }
}
