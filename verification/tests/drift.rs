use argon_utils::device::drift::{cut_back, rate, read, Action, Entry, Rate, KEEP_LINES, MAX_LINES};

const DAY: u64 = 86_400;

fn e(unix: u64, offset_s: i64, action: Action) -> Entry {
    Entry { unix, offset_s, action }
}

fn s_per_day(r: &Rate) -> f64 {
    r.gained_s as f64 * 86_400.0 / r.span_s as f64
}

#[test]
fn entries_round_trip_through_their_line_form() {
    for entry in [
        e(1_789_740_000, -21, Action::Corrected { after_s: 0 }),
        e(1_789_761_600, 1, Action::InSync),
        e(1_789_783_200, -5, Action::LeftAlone),
    ] {
        assert_eq!(Entry::parse(&entry.to_line()), Some(entry));
    }
    assert_eq!(e(1, 1, Action::InSync).to_line(), "1 +1 in-sync");
}

#[test]
fn comments_and_damage_are_skipped_not_fatal() {
    for bad in ["# header", "", "garbage", "1 x in-sync", "1 +1 teleported", "1 +1 corrected"] {
        assert_eq!(Entry::parse(bad), None, "{bad:?}");
    }
}

#[test]
fn a_rate_is_the_offset_change_over_an_uncorrected_stretch() {
    // Corrected to 0, then 3 s slow two days later: -1.5 s/day.
    let r = rate(&[
        e(0, -21, Action::Corrected { after_s: 0 }),
        e(DAY, -1, Action::InSync),
        e(2 * DAY, -3, Action::LeftAlone),
    ])
    .unwrap();
    assert!((s_per_day(&r) - -1.5).abs() < 1e-9, "{r:?}");
    assert_eq!(r.span_s, 2 * DAY);
}

#[test]
fn a_correction_starts_a_new_stretch() {
    // The first stretch drifts fast; after the correction the clock barely moves. Only the most
    // recent stretch counts, measured from the offset read back after correcting.
    let r = rate(&[
        e(0, 0, Action::InSync),
        e(2 * DAY, -10, Action::Corrected { after_s: 1 }),
        e(4 * DAY, 1, Action::InSync),
    ])
    .unwrap();
    assert!(s_per_day(&r).abs() < 1e-9, "{r:?}");
}

#[test]
fn under_a_day_is_not_a_rate() {
    assert_eq!(
        rate(&[e(0, 0, Action::Corrected { after_s: 0 }), e(9_000, 1, Action::InSync)]),
        None
    );
    assert_eq!(rate(&[]), None);
}

#[test]
fn the_record_is_cut_back_once_it_grows_past_the_limit() {
    let mut text = String::new();
    for i in 0..=MAX_LINES as u64 {
        text.push_str(&e(i, 0, Action::InSync).to_line());
        text.push('\n');
    }
    let kept = read(&cut_back(&text).unwrap());
    assert_eq!(kept.len(), KEEP_LINES);
    assert_eq!(kept.last().unwrap().unix, MAX_LINES as u64, "lost the newest entry");
    assert_eq!(cut_back("1 +1 in-sync\n"), None);
}
