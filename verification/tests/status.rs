use argon_utils::device::status::{
    interpret, level_name, local_hhmm, notice, source_of, Level, LevelName, Reading, UpsStatus,
    Urgency, Watcher, STALE_AFTER,
};
use argon_utils::time::{Duration, SystemTime};

fn at(n: u64) -> SystemTime {
    SystemTime::from_unix(n)
}

fn status(level: &str, percent: Option<u8>, shutdown_at: Option<u64>) -> UpsStatus {
    UpsStatus {
        updated: at(1_000),
        level: level.to_owned(),
        percent,
        shutdown_at: shutdown_at.map(at),
    }
}

#[test]
fn what_is_written_is_read_back() {
    for s in [
        status("on-mains", Some(100), None),
        status("critical", Some(9), Some(1_120)),
        status("unknown", None, None),
    ] {
        assert_eq!(UpsStatus::parse(&s.to_text()), Ok(s));
    }
}

#[test]
fn a_file_that_is_no_status_is_refused_and_a_newer_key_is_not() {
    let text = status("low", Some(18), None).to_text();
    assert!(UpsStatus::parse("").is_err());
    assert!(UpsStatus::parse(&text.replace("version=1", "version=2")).is_err());
    assert!(UpsStatus::parse(&text.replace("low", "")).is_err() || text.contains("low"));
    let newer = format!("{text}temperature=31\n");
    assert_eq!(UpsStatus::parse(&newer), UpsStatus::parse(&text));
}

#[test]
fn a_status_is_believed_only_while_it_is_fresh() {
    let s = status("on-mains", Some(95), None);
    assert_eq!(interpret(None, at(1_000)), Reading::NoData);
    assert_eq!(
        interpret(Some(&s), at(1_000 + STALE_AFTER)),
        Reading::Current {
            percent: 95,
            level: LevelName::OnMains
        }
    );
    assert_eq!(
        interpret(Some(&s), at(1_001 + STALE_AFTER)),
        Reading::Stale {
            age: Duration::from_secs(STALE_AFTER + 1)
        }
    );
    // A clock that stepped back does not make a file old.
    assert!(matches!(
        interpret(Some(&s), at(500)),
        Reading::Current { .. }
    ));
    let failed = status("unknown", Some(95), None);
    assert_eq!(interpret(Some(&failed), at(1_000)), Reading::Failed);
    let pending = status("critical", Some(9), Some(1_120));
    assert_eq!(
        interpret(Some(&pending), at(1_000)),
        Reading::PowerOffPending {
            percent: 9,
            at: at(1_120)
        }
    );
    let newer = status("charging", Some(9), None);
    assert!(matches!(
        interpret(Some(&newer), at(1_000)),
        Reading::Current {
            level: LevelName::Unrecognised("charging"),
            ..
        }
    ));
}

#[test]
fn levels_have_names_and_sources() {
    assert_eq!(level_name(Level::OnBattery), "on-battery");
    assert_eq!(source_of("on-mains"), "mains");
    assert_eq!(source_of("critical"), "battery");
    assert_eq!(source_of("charging"), "unknown");
}

#[test]
fn only_what_needs_attention_is_said() {
    let mains = status("on-mains", Some(95), None);
    let battery = status("on-battery", Some(80), None);
    let low = status("low", Some(18), None);
    let off = status("critical", Some(9), Some(1_120));
    assert_eq!(notice(None, &mains, ""), None);
    assert_eq!(notice(Some(&mains), &mains, ""), None);
    assert_eq!(
        notice(Some(&mains), &battery, "").unwrap().text,
        "Running on battery (80%)."
    );
    assert_eq!(notice(None, &low, "").unwrap().text, "Battery low (18%).");
    let n = notice(Some(&low), &off, "10:38").unwrap();
    assert_eq!(n.urgency, Urgency::Critical);
    assert_eq!(
        n.text,
        "Battery critical (9%): powering off at 10:38. Restore mains power to cancel."
    );
    assert_eq!(
        notice(Some(&off), &mains, "").unwrap().text,
        "Mains power restored (95%): shutdown cancelled."
    );
    assert_eq!(
        notice(Some(&mains), &status("unknown", None, None), "")
            .unwrap()
            .text,
        "Lost contact with the UPS."
    );
}

#[test]
fn a_stop_in_the_updates_is_said_once() {
    let mut w = Watcher::new();
    let s = status("on-mains", Some(95), None);
    assert!(w.observe(Some(s.clone()), at(1_000), "").is_none());
    assert!(w.observe(None, at(1_030), "").is_none());
    let later = at(1_000 + STALE_AFTER + 1);
    let n = w.observe(Some(s.clone()), later, "").unwrap();
    assert_eq!(n.text, "UPS monitoring has stopped updating.");
    assert!(w.observe(Some(s), later, "").is_none());
}

#[test]
fn a_time_of_day_is_never_dropped() {
    assert_eq!(local_hhmm(at(1_000), Some("10:38\n")), "10:38");
    assert_eq!(local_hhmm(at(1_000), None), "@1000");
}
