use taglib::error::NulError;
use taglib::text::from_transport;
use taglib::text::measure;
use taglib::text::owned;
use taglib::text::to_transport;
use taglib::text::TERMINATOR;

#[test]
fn the_terminator_is_the_zero_byte() {
    assert_eq!(TERMINATOR, 0u8);
}

#[test]
fn measure_stops_at_the_first_terminator() {
    assert_eq!(measure(b"abc\0def\0"), 3);
    assert_eq!(measure(b"abc"), 3);
    assert_eq!(measure(b"\0abc"), 0);
    assert_eq!(measure(b"\0"), 0);
    assert_eq!(measure(b""), 0);
    assert_eq!(measure(&[1, 2, 3, 4, 0]), 4);
    assert_eq!(measure(&[0xff; 300]), 300);
}

#[test]
fn to_transport_appends_the_terminator() {
    assert_eq!(to_transport("abc").unwrap(), vec![b'a', b'b', b'c', 0]);
    assert_eq!(to_transport("").unwrap(), vec![0]);
    assert_eq!(to_transport("\u{e9}").unwrap(), vec![0xc3, 0xa9, 0]);
    assert_eq!(to_transport("\u{20ac}").unwrap(), vec![0xe2, 0x82, 0xac, 0]);
    assert_eq!(to_transport("\u{1f3b7}").unwrap(), vec![0xf0, 0x9f, 0x8e, 0xb7, 0]);
    assert_eq!(to_transport("\u{1}").unwrap(), vec![1, 0]);
}

#[test]
fn to_transport_refuses_an_embedded_terminator() {
    let e: NulError = to_transport("ab\0c\0").unwrap_err();
    assert_eq!(e.nul_position(), 2);
    assert_eq!(e.into_vec(), vec![b'a', b'b', 0, b'c', 0]);

    let e = to_transport("\0").unwrap_err();
    assert_eq!(e.nul_position(), 0);
    assert_eq!(e.into_vec(), vec![0]);

    let e = to_transport("tail\0").unwrap_err();
    assert_eq!(e.nul_position(), 4);
}

#[test]
fn the_place_of_the_terminator_counts_bytes() {
    let e = to_transport("\u{e9}\u{20ac}\0x").unwrap_err();
    assert_eq!(e.nul_position(), 5);
    assert_eq!(e.into_vec(), vec![0xc3, 0xa9, 0xe2, 0x82, 0xac, 0, b'x']);
}

#[test]
fn refused_texts_compare_by_what_they_hold() {
    assert_eq!(to_transport("a\0b").unwrap_err(), to_transport("a\0b").unwrap_err());
    assert_ne!(to_transport("a\0b").unwrap_err(), to_transport("a\0c").unwrap_err());
}

#[test]
fn from_transport_reads_up_to_the_terminator() {
    assert_eq!(from_transport(b"abc\0junk").unwrap(), "abc");
    assert_eq!(from_transport(b"abc").unwrap(), "abc");
    assert_eq!(from_transport(b"\0").unwrap(), "");
    assert_eq!(from_transport(b"").unwrap(), "");
    assert_eq!(from_transport(&[0xe2, 0x82, 0xac, 0]).unwrap(), "\u{20ac}");
}

#[test]
fn from_transport_ignores_what_follows_the_terminator() {
    assert_eq!(from_transport(&[b'o', b'k', 0, 0xff, 0xfe]).unwrap(), "ok");
}

#[test]
fn from_transport_reports_malformed_text() {
    let e = from_transport(&[b'a', 0xff, b'b', 0]).unwrap_err();
    assert_eq!(e.valid_up_to(), 1);
    assert_eq!(e.error_len(), Some(1));

    let e = from_transport(&[0xc0, 0x80, 0]).unwrap_err();
    assert_eq!(e.valid_up_to(), 0);

    let e = from_transport(&[0xed, 0xa0, 0x80, 0]).unwrap_err();
    assert_eq!(e.valid_up_to(), 0);

    let e = from_transport(&[0xf4, 0x90, 0x80, 0x80, 0]).unwrap_err();
    assert_eq!(e.valid_up_to(), 0);
}

#[test]
fn a_text_cut_by_the_terminator_is_malformed() {
    let e = from_transport(&[b'a', 0xe2, 0x82, 0, 0xac]).unwrap_err();
    assert_eq!(e.valid_up_to(), 1);
    assert_eq!(e.error_len(), None);
}

#[test]
fn transport_gives_back_what_was_put_in() {
    let texts = [
        "",
        "plain",
        "with space and\ttab\nand line",
        "\u{e9}t\u{e9}",
        "\u{65e5}\u{672c}\u{8a9e}",
        "\u{1f3b7}\u{1f3ba}",
        "\u{1}\u{7f}\u{80}\u{7ff}\u{800}\u{d7ff}\u{e000}\u{ffff}\u{10000}\u{10ffff}",
    ];
    for text in texts {
        let wire = to_transport(text).unwrap();
        assert_eq!(wire.len(), text.len() + 1);
        assert_eq!(measure(&wire), text.len());
        assert_eq!(from_transport(&wire).unwrap(), text);
    }
}

#[test]
fn a_text_is_refused_exactly_when_it_holds_nul() {
    let texts = ["", "a", "\0", "a\0", "\0a", "\u{e9}\0\u{e9}", "\u{100}", "\u{4000}", "\u{10000}"];
    for text in texts {
        assert_eq!(to_transport(text).is_err(), text.contains('\0'));
    }
}

#[test]
fn owned_copies_a_text_and_hands_a_fault_on() {
    assert_eq!(owned(Ok("abc")), Ok("abc".to_string()));
    assert_eq!(owned(Ok("")), Ok(String::new()));
    let fault = std::str::from_utf8(&[b'a', 0x80]).unwrap_err();
    assert_eq!(owned(Err(fault)), Err(fault));
    assert_eq!(owned(Err(fault)).unwrap_err().valid_up_to(), 1);
}
