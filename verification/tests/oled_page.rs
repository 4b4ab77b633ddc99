use argon_utils::device::fan_control::FanReading;
use argon_utils::device::oled::{
    command_write, flush_writes, init_writes, off_writes, test_pattern, Mark, DATA_CHUNK, HEIGHT,
    WIDTH,
};
use argon_utils::device::oled_page::{
    clip, draw, page, shift_at, short_age, PageInput, CONTENT_WIDTH, LINE_CHARS, MAX_LINES,
    MAX_SHIFT, SHIFT_PERIOD,
};
use argon_utils::device::status::{UpsStatus, STALE_AFTER};
use argon_utils::time::{Duration, SystemTime};

fn at(secs: u64) -> SystemTime {
    SystemTime::from_unix(secs)
}

fn ups(level: &str, percent: Option<u8>, shutdown_at: Option<u64>) -> UpsStatus {
    UpsStatus {
        updated: at(1_000),
        level: level.to_owned(),
        percent,
        shutdown_at: shutdown_at.map(at),
    }
}

fn input(status: Option<&UpsStatus>) -> PageInput<'_> {
    PageInput {
        status,
        now: at(1_005),
        cpu_decicelsius: Some(452),
        fan: Some(FanReading {
            pwm: 0,
            rpm: Some(0),
        }),
    }
}

/// The panel's font is five pixels wide, with one between two characters.
fn text_width(s: &str) -> usize {
    (s.chars().count() * 6).saturating_sub(1)
}

#[test]
fn a_current_reading_shows_charge_state_and_the_machine() {
    let s = ups("on-mains", Some(87), None);
    let p = page(&input(Some(&s)), "10:38");
    assert_eq!(p.title, "UPS 87%");
    assert_eq!(p.state, "MAINS");
    assert_eq!(p.bar, Some(87));
    assert_eq!(p.lines, vec!["CPU 45C  FAN OFF".to_owned()]);
}

#[test]
fn a_stale_file_shows_no_percentage_and_no_bar() {
    // The case display frozen on "MAINS 95%" after argond died would be the same false
    // reassurance the tray guards against.
    let s = ups("on-mains", Some(95), None);
    let mut i = input(Some(&s));
    i.now = at(1_000 + STALE_AFTER + 1);
    let p = page(&i, "10:38");
    assert_eq!(p.state, "STALE");
    assert_eq!(p.bar, None);
    assert!(
        !p.title.contains("95"),
        "showed a stale percentage: {}",
        p.title
    );
    assert!(p.lines.iter().all(|l| !l.contains("95")));
    assert!(p.lines.iter().any(|l| l.contains("NOT watched")));
}

#[test]
fn a_pending_poweroff_says_when_and_how_to_stop_it() {
    let s = ups("critical", Some(9), Some(2_000));
    let p = page(&input(Some(&s)), "10:38");
    assert_eq!(p.lines[0], "POWER OFF AT 10:38");
    assert!(p.lines.iter().any(|l| l.contains("mains")));
}

#[test]
fn missing_and_failed_are_distinguished() {
    assert_eq!(page(&input(None), "10:38").state, "NO DATA");
    let s = ups("unknown", Some(80), None);
    let p = page(&input(Some(&s)), "10:38");
    assert_eq!(p.state, "READ FAIL");
    assert_eq!(p.bar, None, "drew a bar from a failed read");
}

#[test]
fn every_line_the_page_can_produce_fits_the_panel() {
    // Enumerated from the page's own outputs, not a hand-written list of strings, so a
    // new message that is too long fails here rather than being cut off on the case.
    let long_ago = at(1_000 + 9_999_999);
    let cases = [
        (None, at(1_005)),
        (Some(ups("on-mains", Some(100), None)), at(1_005)),
        (Some(ups("on-battery", Some(55), None)), at(1_005)),
        (Some(ups("low", Some(18), None)), at(1_005)),
        (Some(ups("critical", Some(9), None)), at(1_005)),
        (Some(ups("critical", Some(9), Some(2_000))), at(1_005)),
        (Some(ups("unknown", None, None)), at(1_005)),
        (Some(ups("on-mains", Some(100), None)), long_ago),
    ];
    for (status, now) in &cases {
        let mut i = input(status.as_ref());
        i.now = *now;
        i.fan = Some(FanReading {
            pwm: 255,
            rpm: Some(12_345),
        });
        i.cpu_decicelsius = Some(1_050);
        let p = page(&i, "23:59");
        let title_and_state = text_width(&p.title) + 6 + text_width(&p.state);
        assert!(title_and_state <= CONTENT_WIDTH, "top line too long: {p:?}");
        for line in &p.lines {
            assert!(
                line.chars().count() <= LINE_CHARS,
                "line too long: {line:?}"
            );
        }
        assert!(p.lines.len() <= MAX_LINES);
    }
}

#[test]
fn ages_use_the_largest_unit_that_stays_short() {
    assert_eq!(short_age(Duration::from_secs(61)), "61s");
    assert_eq!(short_age(Duration::from_secs(600)), "10min");
    assert_eq!(short_age(Duration::from_secs(5 * 3_600)), "5h");
    assert_eq!(short_age(Duration::from_secs(400 * 86_400)), "400d");
}

#[test]
fn the_shift_orbits_within_bounds_and_changes_the_pixels() {
    let mut seen = std::collections::HashSet::new();
    for step in 0..16 {
        let (dx, dy) = shift_at(Duration::from_secs(SHIFT_PERIOD * step));
        assert!(dx <= MAX_SHIFT && dy <= MAX_SHIFT);
        seen.insert((dx, dy));
    }
    assert_eq!(seen.len(), 8, "the orbit does not visit every position");

    let s = ups("on-mains", Some(87), None);
    let p = page(&input(Some(&s)), "10:38");
    let a = draw(&p, (0, 0), text_width("MAINS"));
    let b = draw(&p, (2, 2), text_width("MAINS"));
    assert_ne!(a, b, "shifting did not move anything");
    // Every mark moves by the shift, and nothing else about it changes.
    let moved: Vec<Mark> = a
        .into_iter()
        .map(|m| match m {
            Mark::Rect {
                x,
                y,
                width,
                height,
            } => Mark::Rect {
                x: x + 2,
                y: y + 2,
                width,
                height,
            },
            Mark::Text { x, y, text } => Mark::Text {
                x: x + 2,
                y: y + 2,
                text,
            },
            Mark::Bar {
                x,
                y,
                width,
                height,
                percent,
            } => Mark::Bar {
                x: x + 2,
                y: y + 2,
                width,
                height,
                percent,
            },
        })
        .collect();
    assert_eq!(moved, b, "shifting clipped part of the page");
}

#[test]
fn nothing_is_drawn_outside_the_margin() {
    // A one-pixel frame is kept clear at every offset; lit pixels there would mean the
    // layout arithmetic has drifted and content is being clipped by the panel edge.
    let s = ups("critical", Some(100), Some(2_000));
    let mut i = input(Some(&s));
    i.fan = Some(FanReading {
        pwm: 255,
        rpm: Some(12_345),
    });
    let p = page(&i, "23:59");
    for shift in [(0, 0), (MAX_SHIFT, MAX_SHIFT)] {
        for mark in draw(&p, shift, text_width(clip(&p.state))) {
            let (x, y, w, h) = match &mark {
                Mark::Rect {
                    x,
                    y,
                    width,
                    height,
                } => (*x, *y, *width, *height),
                // Seven rows of pixels to a character.
                Mark::Text { x, y, text } => (*x, *y, text_width(text), 7),
                Mark::Bar {
                    x,
                    y,
                    width,
                    height,
                    ..
                } => (*x, *y, *width, *height),
            };
            assert!(x >= 1, "on the left edge: {mark:?}");
            assert!(y >= 1, "on the top edge: {mark:?}");
            assert!(x + w <= WIDTH - 1, "on the right edge: {mark:?}");
            assert!(y + h <= HEIGHT - 1, "on the bottom edge: {mark:?}");
        }
    }
}

#[test]
fn a_line_that_is_too_long_is_cut() {
    assert_eq!(clip("exactly twenty chars"), "exactly twenty chars");
    assert_eq!(clip("twenty-one characters"), "twenty-one character");
}

#[test]
fn a_turning_fan_shows_its_speed() {
    let s = ups("on-battery", Some(55), None);
    let mut i = input(Some(&s));
    i.fan = Some(FanReading {
        pwm: 128,
        rpm: Some(3_120),
    });
    let p = page(&i, "10:38");
    assert_eq!(p.state, "BATTERY");
    assert_eq!(p.lines, vec!["CPU 45C  FAN 3120".to_owned()]);
}

#[test]
fn a_frame_goes_out_window_first_then_in_chunks() {
    let window = [0x21, 0, 127];
    let pixels: Vec<u8> = (0..WIDTH * HEIGHT / 8).map(|i| (i % 251) as u8).collect();
    let writes = flush_writes(0x00, 0x40, &window, &pixels);
    assert_eq!(writes[0], vec![0x00, 0x21, 0, 127]);
    assert_eq!(writes.len(), 1 + pixels.len() / DATA_CHUNK);
    let mut sent = Vec::new();
    for w in &writes[1..] {
        assert_eq!(w[0], 0x40);
        assert_eq!(w.len(), DATA_CHUNK + 1);
        sent.extend_from_slice(&w[1..]);
    }
    assert_eq!(sent, pixels, "the panel did not get the whole frame");
}

#[test]
fn a_command_carries_its_control_byte() {
    assert_eq!(command_write(0x00, &[0xae]), vec![0x00, 0xae]);
    assert_eq!(
        init_writes(0x00, &[1, 2], &[3]),
        vec![vec![0x00, 1, 2], vec![0x00, 3]]
    );
}

#[test]
fn switching_off_clears_the_memory_first() {
    let writes = off_writes(0x00, 0x40, &[0x21], &[0; 4], 0xae);
    assert_eq!(
        writes,
        vec![vec![0x00, 0x21], vec![0x40, 0, 0, 0, 0], vec![0x00, 0xae]]
    );
}

#[test]
fn the_pattern_borders_the_whole_edge() {
    let marks = test_pattern();
    assert!(marks.contains(&Mark::Rect {
        x: 0,
        y: 0,
        width: 128,
        height: 1
    }));
    assert!(marks.contains(&Mark::Rect {
        x: 0,
        y: 63,
        width: 128,
        height: 1
    }));
    assert!(marks
        .iter()
        .any(|m| matches!(m, Mark::Bar { percent: 60, .. })));
}
