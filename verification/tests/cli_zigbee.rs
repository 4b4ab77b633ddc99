use argon_utils::cli::zigbee::{
    bytes_line, held_line, interpret, owner_line, report, Capture, Event, Findings, Version,
};

fn version(revision: Option<u32>) -> Version {
    Version {
        transport_rev: 2,
        product: 1,
        major: 2,
        minor: 7,
        maint: 1,
        revision,
    }
}

#[test]
fn a_healthy_coordinator_that_restarted_on_open() {
    let f = interpret(&Capture {
        listened_bytes: 11,
        listened: vec![Event::Reset(vec![0x00, 2, 1, 2, 7, 1])],
        ping: vec![Event::Pong(vec![0x59, 0x06])],
        version: vec![Event::VersionReply(Some(version(Some(20_230_507))))],
    });
    assert_eq!(f.reset_on_open, Some(0x00));
    assert_eq!(f.ping, Some(0x0659));
    assert_eq!(f.version.unwrap().revision, Some(20_230_507));
    assert_eq!(f.rejected, 0);
}

#[test]
fn a_healthy_coordinator_that_did_not_restart() {
    let f = interpret(&Capture {
        listened_bytes: 0,
        listened: Vec::new(),
        ping: vec![Event::Pong(vec![0x59, 0x06])],
        version: vec![Event::VersionReply(Some(version(None)))],
    });
    assert_eq!(f.reset_on_open, None);
    assert!(!f.heard_anything);
    assert!(f.ping.is_some());
}

#[test]
fn silence_is_no_answer_not_an_error() {
    let f = interpret(&Capture {
        listened_bytes: 0,
        listened: Vec::new(),
        ping: Vec::new(),
        version: Vec::new(),
    });
    assert_eq!(f, Findings::default());
}

#[test]
fn a_reply_to_the_wrong_request_is_not_taken_as_an_answer() {
    // A version response arriving where the ping's should be proves the firmware talks,
    // but it is not a ping reply, and must not be reported as one.
    let f = interpret(&Capture {
        listened_bytes: 0,
        listened: Vec::new(),
        ping: vec![Event::VersionReply(Some(version(None)))],
        version: Vec::new(),
    });
    assert_eq!(f.ping, None);
}

#[test]
fn corrupted_frames_are_counted_not_believed() {
    let f = interpret(&Capture {
        listened_bytes: 0,
        listened: Vec::new(),
        ping: vec![Event::Rejected],
        version: Vec::new(),
    });
    assert_eq!(f.ping, None);
    assert_eq!(f.rejected, 1);
}

#[test]
fn noise_while_listening_is_not_a_restart() {
    let f = interpret(&Capture {
        listened_bytes: 3,
        listened: Vec::new(),
        ping: Vec::new(),
        version: Vec::new(),
    });
    assert!(f.heard_anything);
    assert_eq!(f.reset_on_open, None);
}

#[test]
fn what_was_found_is_reported() {
    let f = interpret(&Capture {
        listened_bytes: 11,
        listened: vec![Event::Reset(vec![0x02])],
        ping: vec![Event::Pong(vec![0x59, 0x06])],
        version: vec![Event::VersionReply(Some(version(Some(20_230_507))))],
    });
    let said = report(&f);
    assert!(said.contains("20230507"), "{said}");
    assert!(owner_line(Some((7, "cat")), true).contains("pid 7 (cat)"));
    assert!(held_line("/dev/ttyUSB0", 7, "cat").contains("/dev/ttyUSB0"));
    assert!(bytes_line("ping", &[0xfe, 0x02]).to_lowercase().contains("fe"));
}
