use argon_utils::cli::poweroff::{
    date_answer, done_text, plan_text, resolve, tomorrow, unreached_words, Unreached,
};
use argon_utils::device::ups_time::UpsTime;

// 2026-09-18 13:20:00 UTC.
const NOW: u64 = 1_789_737_600;

const DAY: u64 = 86_400;

/// Answers as `date -d <text> +%s` does in UTC for the texts that are asked here: a time of day,
/// one of tomorrow, and a full date.
fn date(text: &str) -> Result<u64, String> {
    let midnight = NOW - NOW % DAY;
    let of_day = |hhmm: &str| -> Option<u64> {
        let (h, m) = hhmm.split_once(':')?;
        Some(h.parse::<u64>().ok()? * 3_600 + m.parse::<u64>().ok()? * 60)
    };
    if let Some(rest) = text.strip_prefix("tomorrow ") {
        if let Some(s) = of_day(rest) {
            return Ok(midnight + DAY + s);
        }
    }
    if let Some((day, rest)) = text.split_once(' ') {
        if let (Some(s), true) = (of_day(rest), day == "2099-01-02") {
            return Ok(4_070_995_200 + s);
        }
    }
    match of_day(text) {
        Some(s) => Ok(midnight + s),
        None => date_answer(text, Err("date: invalid date")),
    }
}

#[test]
fn a_bare_time_already_past_means_tomorrow() {
    // One minute ago, as HH:MM, must resolve to roughly a day from now, not the past.
    let ago = (NOW - 60) % DAY;
    let hhmm = format!("{:02}:{:02}", ago / 3_600, ago % 3_600 / 60);
    let at = resolve(&hhmm, NOW, date).unwrap();
    assert!(
        at > NOW + 23 * 3_600 && at < NOW + 25 * 3_600,
        "{hhmm} resolved to {} s from now",
        at.saturating_sub(NOW)
    );
}

#[test]
fn an_explicit_date_is_not_moved() {
    let at = resolve("2099-01-02 03:04", NOW, date).unwrap();
    assert!(at > NOW + 365 * 86_400);
    assert_eq!(at, 4_070_995_200 + 3 * 3_600 + 4 * 60);
}

#[test]
fn nonsense_is_an_error() {
    assert!(resolve("half past nowhere", NOW, date).is_err());
}

#[test]
fn a_time_too_close_to_be_accepted_means_tomorrow() {
    assert_eq!(
        tomorrow(" 13:30 ", NOW + 600, NOW),
        Some("tomorrow 13:30".to_owned())
    );
    assert_eq!(tomorrow("13:40", NOW + 1_200, NOW), None);
    assert_eq!(tomorrow("in five minutes", NOW + 300, NOW), None);
}

#[test]
fn what_date_says_is_taken_at_its_word() {
    assert_eq!(date_answer("07:00", Ok("1789801200\n")), Ok(1_789_801_200));
    assert_eq!(
        date_answer("7 \"am\"", Err("date: invalid date\n")),
        Err("cannot understand \"7 \\\"am\\\"\" as a time: date: invalid date".to_owned())
    );
    assert_eq!(
        date_answer("07:00", Ok("soon")),
        Err("date gave no timestamp for \"07:00\"".to_owned())
    );
}

#[test]
fn the_plan_names_both_times() {
    let t = UpsTime::from_unix_seconds(NOW).unwrap();
    assert!(plan_text(t, "Fri 15:20").contains("Fri 15:20"));
    let done = done_text("15:21", "Sat 07:00");
    assert!(done.contains("15:21") && done.contains("Sat 07:00"));
    assert!(unreached_words(&Unreached::Other("broken".to_owned())).contains("broken"));
    assert_ne!(
        unreached_words(&Unreached::Denied),
        unreached_words(&Unreached::NotListening)
    );
}
