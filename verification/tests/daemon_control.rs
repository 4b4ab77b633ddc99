use argon_utils::daemon::control::{
    no_answer_in_time, nobody_to_act, not_a_request, read_request, socket_path,
    unreadable_request, NotARequest, MAX_LINE,
};
use argon_utils::device::control::{Request, Response};

/// What the socket answers to these bytes, where every request that gets through is answered with
/// `answer`. A line is read up to the limit.
fn ask(bytes: &[u8], answer: &Response) -> String {
    let read = &bytes[..bytes.len().min(MAX_LINE as usize)];
    let line = String::from_utf8_lossy(read);
    match read_request(&line) {
        Ok(_) => answer.to_line(),
        Err(why) => not_a_request(&why).to_line(),
    }
}

#[test]
fn a_request_is_relayed_and_its_answer_returned() {
    let answer = Response::PoweroffScheduled {
        wake_unix: 120,
        poweroff_unix: 60,
    };
    let req = Request::PoweroffWithWake { at_unix: 120 }.to_line();
    let got = Response::from_line(&ask(req.as_bytes(), &answer)).unwrap();
    assert_eq!(got, answer);
}

#[test]
fn garbage_gets_an_error_and_never_reaches_the_ups_thread() {
    let answer = Response::PoweroffScheduled {
        wake_unix: 0,
        poweroff_unix: 0,
    };
    for junk in [
        &b"poweroff now\n"[..],
        b"{\"reboot\":{}}\n",
        b"no newline at all",
    ] {
        let got = Response::from_line(&ask(junk, &answer)).unwrap();
        assert!(
            matches!(got, Response::Error { .. }),
            "{junk:?} was accepted: {got:?}"
        );
    }
}

#[test]
fn an_oversized_request_is_refused() {
    let answer = Response::PoweroffScheduled {
        wake_unix: 0,
        poweroff_unix: 0,
    };
    let mut big = vec![b'x'; 10_000];
    big.push(b'\n');
    let got = Response::from_line(&ask(&big, &answer)).unwrap();
    assert!(matches!(got, Response::Error { .. }));
}

#[test]
fn a_line_that_was_cut_short_is_told_from_one_not_understood() {
    let whole = Request::PoweroffWithWake { at_unix: 7 }.to_line();
    assert_eq!(
        read_request(&whole),
        Ok(Request::PoweroffWithWake { at_unix: 7 })
    );
    assert_eq!(
        read_request(whole.trim_end()),
        Err(NotARequest::Incomplete)
    );
    assert!(matches!(
        read_request("{}\n"),
        Err(NotARequest::NotUnderstood(_))
    ));
}

#[test]
fn every_refusal_says_why() {
    let said = |r: Response| match r {
        Response::Error { message } => message,
        other => panic!("{other:?}"),
    };
    assert_eq!(
        said(unreadable_request("timed out")),
        "reading the request: timed out"
    );
    assert!(said(nobody_to_act()).contains("not running"));
    assert!(said(no_answer_in_time()).contains("in time"));
    assert_eq!(
        said(not_a_request(&NotARequest::Incomplete)),
        "the request was not a single complete line"
    );
    assert_eq!(socket_path(), "/run/argon-utils/control.sock");
}
