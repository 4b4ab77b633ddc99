use argon_utils::daemon::control::{
    no_answer_in_time, nobody_to_act, not_a_request, read_request, socket_path, unreadable_request,
    NotARequest,
};
use argon_utils::device::control::{Request, Response, SOCKET_PATH};

#[test]
fn requests_and_responses_round_trip_as_single_lines() {
    let req = Request::PoweroffWithWake { at_unix: 1_789_800_000 };
    let line = req.to_line();
    assert!(line.ends_with('\n') && !line.trim_end().contains('\n'));
    assert_eq!(Request::from_line(&line).unwrap(), req);

    for resp in [
        Response::PoweroffScheduled { wake_unix: 1, poweroff_unix: 2 },
        Response::error("nope"),
    ] {
        let line = resp.to_line();
        assert_eq!(Response::from_line(&line).unwrap(), resp);
    }
}

#[test]
fn the_wire_form_is_stable() {
    // Pinned: a change here breaks every argonctl talking to an older argond, and must be a
    // deliberate protocol change rather than a side effect of a rename.
    assert_eq!(
        Request::PoweroffWithWake { at_unix: 60 }.to_line(),
        "{\"poweroff_with_wake\":{\"at_unix\":60}}\n"
    );
    assert_eq!(
        Response::PoweroffScheduled { wake_unix: 1, poweroff_unix: 2 }.to_line(),
        "{\"poweroff_scheduled\":{\"wake_unix\":1,\"poweroff_unix\":2}}\n"
    );
}

#[test]
fn garbage_is_an_error_not_a_default() {
    assert!(Request::from_line("{\"reboot\":{}}").is_err());
    assert!(Request::from_line("poweroff").is_err());
}

#[test]
fn a_message_with_every_kind_of_character_survives() {
    let nasty = "quote \" slash \\ tab \t line \n bell \u{7} delete \u{7f} \u{e9} \u{1f50b} /";
    let line = Response::error(nasty).to_line();
    assert_eq!(line.matches('\n').count(), 1, "{line:?}");
    assert_eq!(Response::from_line(&line), Ok(Response::error(nasty)));
    // The same text as the JSON library prints.
    assert_eq!(
        line,
        format!("{{\"error\":{{\"message\":{}}}}}\n", serde_json::Value::from(nasty))
    );
}

#[test]
fn space_between_the_parts_of_a_message_is_allowed() {
    assert_eq!(
        Request::from_line(" { \"poweroff_with_wake\" : { \"at_unix\" : 60 } } \n"),
        Ok(Request::PoweroffWithWake { at_unix: 60 })
    );
    assert!(Request::from_line("{\"poweroff_with_wake\":{\"at_unix\":-1}}\n").is_err());
    assert!(Request::from_line("{\"poweroff_with_wake\":{\"at_unix\":\"60\"}}\n").is_err());
    assert!(Request::from_line("{\"poweroff_with_wake\":{}}\n").is_err());
    assert!(Response::from_line("{\"error\":{\"message\":7}}\n").is_err());
    // A message may be written with escapes.
    assert_eq!(
        Response::from_line("{\"error\":{\"message\":\"\\u0041\\/\"}}\n"),
        Ok(Response::error("A/"))
    );
}

#[test]
fn a_request_is_one_complete_line() {
    assert_eq!(socket_path(), SOCKET_PATH);
    let line = Request::PoweroffWithWake { at_unix: 60 }.to_line();
    assert_eq!(read_request(&line), Ok(Request::PoweroffWithWake { at_unix: 60 }));
    assert_eq!(read_request(line.trim_end()), Err(NotARequest::Incomplete));
    assert_eq!(read_request(""), Err(NotARequest::Incomplete));
    let why = read_request("garbage\n").unwrap_err();
    assert!(matches!(why, NotARequest::NotUnderstood(_)));
    match not_a_request(&why) {
        Response::Error { message } => {
            assert!(message.starts_with("not a request argond understands: "), "{message}");
        }
        other => panic!("{other:?}"),
    }
    assert_eq!(
        not_a_request(&NotARequest::Incomplete),
        Response::error("the request was not a single complete line")
    );
    assert_eq!(
        unreadable_request("timed out"),
        Response::error("reading the request: timed out")
    );
    assert!(matches!(nobody_to_act(), Response::Error { .. }));
    assert!(matches!(no_answer_in_time(), Response::Error { .. }));
}

#[test]
fn what_is_wrong_with_a_line_is_said() {
    let known = "not a request that is known";
    for line in [
        "{}\n",
        "{\"reboot\":{}}\n",
        "{\"poweroff_with_wake\":{}}\n",
        "{\"poweroff_with_wake\":{\"at_unix\":-1}}\n",
    ] {
        assert_eq!(Request::from_line(line).unwrap_err().why, known);
        assert_eq!(
            read_request(line),
            Err(NotARequest::NotUnderstood(known.to_owned()))
        );
    }
    assert_eq!(
        Response::from_line("{}\n").unwrap_err().why,
        "not an answer that is known"
    );
    // Where the text is no JSON at all, in the words of the JSON library.
    let words = serde_json::from_str::<serde_json::Value>("poweroff")
        .unwrap_err()
        .to_string();
    assert_eq!(Request::from_line("poweroff\n").unwrap_err().why, words);
    assert_eq!(Response::from_line("poweroff\n").unwrap_err().why, words);
}

#[test]
fn the_fields_of_a_message_may_be_written_in_an_array() {
    assert_eq!(
        Request::from_line("{\"poweroff_with_wake\":[60]}\n"),
        Ok(Request::PoweroffWithWake { at_unix: 60 })
    );
    assert_eq!(
        Response::from_line(" {\"poweroff_scheduled\" : [ 2 , 1 ] } \n"),
        Ok(Response::PoweroffScheduled { wake_unix: 2, poweroff_unix: 1 })
    );
    assert_eq!(Response::from_line("{\"error\":[\"no\"]}\n"), Ok(Response::error("no")));
    for line in [
        "{\"poweroff_with_wake\":[]}",
        "{\"poweroff_with_wake\":[60,]}",
        "{\"poweroff_with_wake\":[60,61]}",
        "{\"poweroff_with_wake\":[60 61]}",
        "{\"poweroff_with_wake\":[,60]}",
        "{\"poweroff_with_wake\":[60}",
        "{\"poweroff_with_wake\":[[60]]}",
    ] {
        assert!(Request::from_line(line).is_err(), "{line}");
    }
}

#[test]
fn a_field_or_a_tag_that_is_repeated_is_refused() {
    for line in [
        "{\"poweroff_with_wake\":{\"at_unix\":60,\"at_unix\":60}}",
        "{\"poweroff_with_wake\":{\"at_unix\":60,\"at\\u005funix\":61}}",
        "{\"poweroff_with_wake\":{\"at_unix\":60},\"poweroff_with_wake\":{\"at_unix\":60}}",
        "{\"poweroff_with_wake\":{\"at_unix\":60},\"other\":{}}",
        "{\"other\":{},\"poweroff_with_wake\":{\"at_unix\":60}}",
    ] {
        assert!(Request::from_line(line).is_err(), "{line}");
    }
    assert_eq!(
        Request::from_line("{\"poweroff\\u005fwith_wake\":{\"at\\u005funix\":60}}"),
        Ok(Request::PoweroffWithWake { at_unix: 60 })
    );
}

#[test]
fn a_field_that_is_not_known_is_ignored_whatever_it_holds() {
    let deep = format!("{}{}", "[".repeat(500), "]".repeat(500));
    for value in [
        "null",
        "true",
        "-1.5e3",
        "1e999",
        "99999999999999999999999999",
        "\"text\"",
        "\"\\ud800\"",
        "{\"a\":[1,{\"b\":null}]}",
        deep.as_str(),
    ] {
        let line =
            format!("{{\"poweroff_with_wake\":{{\"x\":{value},\"at_unix\":60,\"x\":{value}}}}}\n");
        assert_eq!(
            Request::from_line(&line),
            Ok(Request::PoweroffWithWake { at_unix: 60 }),
            "{line}"
        );
    }
    for value in ["", "nul", "01", "'a'", "[1,]", "{1:2}", "\"\\x\""] {
        let line = format!("{{\"poweroff_with_wake\":{{\"x\":{value},\"at_unix\":60}}}}\n");
        assert!(Request::from_line(&line).is_err(), "{line}");
    }
}

#[test]
fn a_message_that_is_not_well_formed_is_refused() {
    for line in [
        "",
        "\"poweroff_with_wake\"",
        "[60]",
        "{\"poweroff_with_wake\":60}",
        "{\"poweroff_with_wake\":null}",
        "{\"poweroff_with_wake\"{\"at_unix\":60}}",
        "{\"poweroff_with_wake\":{\"at_unix\" 60}}",
        "{\"poweroff_with_wake\":{\"at_unix\":60,}}",
        "{\"poweroff_with_wake\":{,\"at_unix\":60}}",
        "{\"poweroff_with_wake\":{\"at_unix\":60 \"x\":1}}",
        "{\"poweroff_with_wake\":{\"at_unix\":60.0}}",
        "{\"poweroff_with_wake\":{\"at_unix\":-0}}",
        "{\"poweroff_with_wake\":{\"at_unix\":060}}",
        "{\"poweroff_with_wake\":{\"at_unix\":18446744073709551616}}",
        "{\"poweroff_with_wake\":{\"at_unix\":60}",
        "{\"poweroff_with_wake\":{\"at_unix\":60}}}",
        "{\"poweroff_with_wake\":{\"at_unix\":60}} x",
        "{poweroff_with_wake:{\"at_unix\":60}}",
    ] {
        assert!(Request::from_line(line).is_err(), "{line}");
    }
    assert_eq!(
        Request::from_line("{\"poweroff_with_wake\":{\"at_unix\":18446744073709551615}}"),
        Ok(Request::PoweroffWithWake { at_unix: u64::MAX })
    );
}
