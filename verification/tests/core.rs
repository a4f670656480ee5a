use fl_chen::bridge::handle_command;
use fl_chen::decimal::u8_to_decimal;
use fl_chen::html::get_html;
use fl_chen::html::inline_script;
use fl_chen::html::inline_style;
use fl_chen::router::apply_transport;
use fl_chen::router::process_cycle;
use fl_chen::router::process_events;
use fl_chen::router::process_midi_event;
use fl_chen::state::SharedState;

fn event(code: u8) -> [u8; 3] {
    [144, code, 100]
}

#[test]
fn defined_codes_select_their_modes() {
    let table: [(u8, u8); 9] = [
        (69, 0),
        (71, 1),
        (72, 2),
        (74, 3),
        (76, 4),
        (77, 5),
        (79, 6),
        (81, 7),
        (83, 8),
    ];
    for (code, mode) in table {
        let mut s = SharedState::new();
        process_midi_event(&mut s, event(code));
        assert_eq!(s.get_mode(), mode);
    }
}

#[test]
fn unknown_codes_leave_the_mode_alone() {
    let mut s = SharedState::new();
    process_midi_event(&mut s, event(72));
    for code in [0u8, 68, 70, 73, 75, 78, 80, 82, 84, 100, 255] {
        process_midi_event(&mut s, event(code));
        assert_eq!(s.get_mode(), 2);
    }
}

#[test]
fn batch_applies_events_in_order() {
    let mut s = SharedState::new();
    process_events(&mut s, &vec![event(71), event(83)]);
    assert_eq!(s.get_mode(), 8);
    process_events(&mut s, &vec![event(69), event(70)]);
    assert_eq!(s.get_mode(), 0);
    process_events(&mut s, &vec![]);
    assert_eq!(s.get_mode(), 0);
}

#[test]
fn last_position_write_wins() {
    let mut s = SharedState::new();
    assert_eq!(s.get_position(), "0");
    s.set_position(String::from("1.25"));
    s.set_position(String::from("3.5"));
    assert_eq!(s.get_position(), "3.5");
    assert_eq!(handle_command(&s, "getTime"), "3.5");
}

#[test]
fn failed_transport_query_keeps_last_position() {
    let mut s = SharedState::new();
    s.set_position(String::from("7.75"));
    apply_transport(&mut s, None);
    assert_eq!(s.get_position(), "7.75");
    apply_transport(&mut s, Some(String::from("8.0")));
    assert_eq!(s.get_position(), "8.0");
}

#[test]
fn get_mode_reply_is_the_decimal_mode() {
    let s = SharedState::new();
    assert_eq!(handle_command(&s, "getMode"), "0");
    let mut s = SharedState::new();
    process_midi_event(&mut s, event(83));
    assert_eq!(handle_command(&s, "getMode"), "8");
}

#[test]
fn command_tokens_after_the_first_are_ignored() {
    let mut s = SharedState::new();
    process_midi_event(&mut s, event(74));
    assert_eq!(handle_command(&s, "getMode please now"), "3");
    assert_eq!(handle_command(&s, "  getMode  "), "3");
    assert_eq!(handle_command(&s, "getTime\u{00A0}x"), "0");
    assert_eq!(handle_command(&s, "\tgetTime"), "0");
}

#[test]
fn unknown_commands_reply_with_the_empty_string() {
    let s = SharedState::new();
    for line in [
        "",
        " ",
        "\t \n",
        "getVolume",
        "getmode",
        "getModee",
        "get Mode",
        "foo bar baz",
        "xgetTime",
    ] {
        assert_eq!(handle_command(&s, line), "");
    }
}

#[test]
fn decimal_text_is_exact() {
    assert_eq!(u8_to_decimal(0), "0");
    assert_eq!(u8_to_decimal(5), "5");
    assert_eq!(u8_to_decimal(9), "9");
    assert_eq!(u8_to_decimal(10), "10");
    assert_eq!(u8_to_decimal(42), "42");
    assert_eq!(u8_to_decimal(99), "99");
    assert_eq!(u8_to_decimal(100), "100");
    assert_eq!(u8_to_decimal(207), "207");
    assert_eq!(u8_to_decimal(255), "255");
}

#[test]
fn inline_tags_wrap_their_text() {
    assert_eq!(
        inline_script("var x = 1;"),
        "<script type=\"text/javascript\">var x = 1;</script>"
    );
    assert_eq!(
        inline_style("body { color: red; }"),
        "<style type=\"text/css\">body { color: red; }</style>"
    );
    assert_eq!(inline_script(""), "<script type=\"text/javascript\"></script>");
}

#[test]
fn page_wraps_style_and_script() {
    let page = get_html("S", "J");
    let expected = format!(
        "{}{}{}{}{}",
        "<!doctype html>\n<html>\n<head>\n<meta charset=\"utf-8\">\n<meta name=\"viewport\" content=\"width=device-width, initial-scale=1.0\">\n",
        "<style type=\"text/css\">S</style>",
        "\n</head>\n<body>\n<div id=\"app\"></div>\n<!--[if lt IE 9]>\n<div class=\"ie-upgrade-container\">\n<p class=\"ie-upgrade-message\">Please, upgrade Internet Explorer to continue using this software.</p>\n<a class=\"ie-upgrade-link\" target=\"_blank\" href=\"https://www.microsoft.com/en-us/download/internet-explorer.aspx\">Upgrade</a>\n</div>\n<![endif]-->\n<!--[if gte IE 9 | !IE ]> <!-->\n",
        "<script type=\"text/javascript\">J</script>",
        "\n<![endif]-->\n</body>\n</html>\n"
    );
    assert_eq!(page, expected);
}

#[test]
fn end_to_end_session() {
    let mut s = SharedState::new();
    assert_eq!(s.get_mode(), 0);
    assert_eq!(s.get_position(), "0");
    process_cycle(&mut s, &vec![event(72)], Some(String::from("3.5")));
    assert_eq!(handle_command(&s, "getMode"), "2");
    assert_eq!(handle_command(&s, "getTime"), "3.5");
    assert_eq!(handle_command(&s, "getVolume"), "");
}
