use argon_utils::daemon::button::MESSAGE;
use argon_utils::device::power::{
    parse_scheduled_shutdown, poweroff_minutes, shutdown_argument, Action, Advice, Next,
    ShutdownCoordinator, SHUTDOWN_MESSAGE,
};
use argon_utils::device::wake::{park_at, poweroff_message};
use argon_utils::time::{Duration, SystemTime};

fn at(n: u64) -> SystemTime {
    SystemTime::from_unix(n)
}

fn minutes(n: u64) -> Duration {
    Duration::from_secs(n * 60)
}

#[test]
fn critical_advice_schedules_one_poweroff_and_mains_cancels_it() {
    let mut c = ShutdownCoordinator::new(minutes(2), false);
    assert_eq!(c.on_advice(Advice::Shutdown, at(1_000)), Next::AskPending);
    assert_eq!(
        c.on_pending(Some(None)),
        Next::Schedule { delay: minutes(2), message: SHUTDOWN_MESSAGE }
    );
    assert_eq!(
        c.on_scheduled(Ok(at(1_120)), false),
        Action::Scheduled { at: at(1_120) }
    );
    assert_eq!(c.scheduled_at(), Some(at(1_120)));

    // The advice stands: asked again, found pending, nothing more.
    assert_eq!(c.on_advice(Advice::Shutdown, at(1_010)), Next::AskPending);
    assert_eq!(
        c.on_pending(Some(Some(at(1_120)))),
        Next::Done(Action::Nothing)
    );

    assert_eq!(c.on_advice(Advice::Nothing, at(1_020)), Next::AskPending);
    assert_eq!(c.on_pending(Some(Some(at(1_120)))), Next::Cancel);
    assert_eq!(c.on_cancelled(Ok(())), Action::Cancelled);
    assert_eq!(c.scheduled_at(), None);
}

#[test]
fn an_operators_cancel_is_respected_until_the_advice_clears() {
    let mut c = ShutdownCoordinator::new(minutes(2), false);
    c.on_advice(Advice::Shutdown, at(1_000));
    c.on_pending(Some(None));
    c.on_scheduled(Ok(at(1_120)), false);
    c.on_advice(Advice::Shutdown, at(1_010));
    assert_eq!(
        c.on_pending(Some(None)),
        Next::Done(Action::OverriddenByOperator)
    );
    assert_eq!(
        c.on_advice(Advice::Shutdown, at(1_020)),
        Next::Done(Action::Nothing)
    );
    assert_eq!(
        c.on_advice(Advice::Nothing, at(1_030)),
        Next::Done(Action::Nothing)
    );
    assert_eq!(c.on_advice(Advice::Shutdown, at(1_040)), Next::AskPending);
}

#[test]
fn someone_elses_poweroff_is_left_alone() {
    let mut c = ShutdownCoordinator::new(minutes(2), false);
    c.on_advice(Advice::Shutdown, at(1_000));
    assert_eq!(
        c.on_pending(Some(Some(at(5_000)))),
        Next::Done(Action::AlreadyPending { at: at(5_000) })
    );
    assert_eq!(
        c.on_advice(Advice::Nothing, at(1_010)),
        Next::Done(Action::Nothing)
    );
}

#[test]
fn a_schedule_that_cannot_be_read_is_no_cancellation_and_no_obstacle() {
    let mut c = ShutdownCoordinator::new(minutes(2), false);
    c.on_advice(Advice::Shutdown, at(1_000));
    assert_eq!(c.on_pending(None), Next::Schedule { delay: minutes(2), message: SHUTDOWN_MESSAGE });
    c.on_scheduled(Ok(at(1_120)), false);
    c.on_advice(Advice::Shutdown, at(1_010));
    assert_eq!(c.on_pending(None), Next::Done(Action::Nothing));
}

#[test]
fn a_failure_is_tried_again() {
    let mut c = ShutdownCoordinator::new(minutes(2), false);
    c.on_advice(Advice::Shutdown, at(1_000));
    c.on_pending(Some(None));
    assert_eq!(
        c.on_scheduled(Err("denied".to_owned()), false),
        Action::Failed("denied".to_owned())
    );
    assert_eq!(c.scheduled_at(), None);
    assert_eq!(c.on_advice(Advice::Shutdown, at(1_010)), Next::AskPending);
    c.on_pending(Some(None));
    c.on_scheduled(Ok(at(1_120)), false);
    c.on_advice(Advice::Nothing, at(1_020));
    assert_eq!(c.on_pending(Some(Some(at(1_120)))), Next::Cancel);
    assert_eq!(
        c.on_cancelled(Err("busy".to_owned())),
        Action::Failed("busy".to_owned())
    );
    assert_eq!(c.on_advice(Advice::Nothing, at(1_030)), Next::AskPending);
    assert_eq!(c.on_pending(Some(Some(at(1_120)))), Next::Cancel);
}

/// A coordinator with a poweroff of its own for `at(1_120)`.
fn with_ours() -> ShutdownCoordinator {
    let mut c = ShutdownCoordinator::new(minutes(2), false);
    c.on_advice(Advice::Shutdown, at(1_000));
    c.on_pending(Some(None));
    c.on_scheduled(Ok(at(1_120)), false);
    c
}

#[test]
fn a_poweroff_that_replaced_ours_is_not_cancelled() {
    let mut c = with_ours();
    // The operator put their own in its place.
    c.on_advice(Advice::Shutdown, at(1_010));
    assert_eq!(
        c.on_pending(Some(Some(at(5_000)))),
        Next::Done(Action::Nothing)
    );
    assert_eq!(c.on_advice(Advice::Nothing, at(1_020)), Next::AskPending);
    assert_eq!(
        c.on_pending(Some(Some(at(5_000)))),
        Next::Done(Action::Nothing)
    );
    assert_eq!(c.scheduled_at(), None);
    // Ours is forgotten: nothing is left to cancel.
    assert_eq!(
        c.on_advice(Advice::Nothing, at(1_030)),
        Next::Done(Action::Nothing)
    );
}

#[test]
fn a_poweroff_that_is_gone_when_the_advice_clears_is_forgotten() {
    let mut c = with_ours();
    assert_eq!(
        c.on_advice(
            Advice::HeldForUptime {
                remaining: minutes(1)
            },
            at(1_020)
        ),
        Next::AskPending
    );
    assert_eq!(c.on_pending(Some(None)), Next::Done(Action::Nothing));
    assert_eq!(c.scheduled_at(), None);
    // It was no operator's cancellation under standing advice: the next one is scheduled.
    assert_eq!(c.on_advice(Advice::Shutdown, at(1_030)), Next::AskPending);
    assert_eq!(
        c.on_pending(Some(None)),
        Next::Schedule { delay: minutes(2), message: SHUTDOWN_MESSAGE }
    );
}

#[test]
fn ours_is_cancelled_where_what_is_pending_cannot_be_read() {
    let mut c = with_ours();
    assert_eq!(c.on_advice(Advice::Nothing, at(1_020)), Next::AskPending);
    assert_eq!(c.on_pending(None), Next::Cancel);
    // Until the cancellation is through, ours still stands.
    assert_eq!(c.scheduled_at(), Some(at(1_120)));
    assert_eq!(c.on_cancelled(Ok(())), Action::Cancelled);
    assert_eq!(c.scheduled_at(), None);
    // Without a poweroff of ours, nothing is asked for, and nothing is cancelled.
    assert_eq!(
        c.on_advice(Advice::Nothing, at(1_030)),
        Next::Done(Action::Nothing)
    );
}

#[test]
fn a_time_that_was_worked_out_need_not_be_met_to_the_second() {
    for (pending, next) in [
        (1_120, Next::Cancel),
        (1_119, Next::Cancel),
        (1_210, Next::Cancel),
        (1_211, Next::Done(Action::Nothing)),
        (1_000, Next::Done(Action::Nothing)),
    ] {
        let mut c = ShutdownCoordinator::new(minutes(2), false);
        c.on_advice(Advice::Shutdown, at(1_000));
        c.on_pending(Some(None));
        c.on_scheduled(Ok(at(1_120)), true);
        c.on_advice(Advice::Nothing, at(1_020));
        assert_eq!(c.on_pending(Some(Some(at(pending)))), next, "{pending}");
    }
    // One that was reported has to be.
    let mut c = with_ours();
    c.on_advice(Advice::Nothing, at(1_020));
    assert_eq!(
        c.on_pending(Some(Some(at(1_119)))),
        Next::Done(Action::Nothing)
    );
}

#[test]
fn the_answer_is_held_against_the_advice_that_was_last_heard() {
    let mut c = with_ours();
    c.on_advice(Advice::Nothing, at(1_020));
    assert_eq!(c.on_pending(None), Next::Cancel);
    c.on_cancelled(Err("busy".to_owned()));
    // The advice is back: what is pending is left standing.
    assert_eq!(c.on_advice(Advice::Shutdown, at(1_030)), Next::AskPending);
    assert_eq!(
        c.on_pending(Some(Some(at(1_120)))),
        Next::Done(Action::Nothing)
    );
    assert_eq!(c.scheduled_at(), Some(at(1_120)));
}

#[test]
fn after_a_restart_our_own_poweroff_is_taken_back_over() {
    let mut c = ShutdownCoordinator::new(minutes(2), false);
    assert_eq!(
        c.recognise(Some(at(1_120)), Some(SHUTDOWN_MESSAGE)),
        Action::Adopted { at: at(1_120) }
    );
    assert_eq!(c.scheduled_at(), Some(at(1_120)));
    // Known already: nothing more to take over.
    assert_eq!(
        c.recognise(Some(at(1_120)), Some(SHUTDOWN_MESSAGE)),
        Action::Nothing
    );
    assert_eq!(c.on_advice(Advice::Nothing, at(1_020)), Next::AskPending);
    assert_eq!(c.on_pending(Some(Some(at(1_120)))), Next::Cancel);
}

#[test]
fn nothing_else_is_taken_over() {
    let wake = poweroff_message(park_at());
    for message in [None, Some("Going down for maintenance"), Some(MESSAGE), Some(&wake)] {
        let mut c = ShutdownCoordinator::new(minutes(2), false);
        assert_eq!(c.recognise(Some(at(1_120)), message), Action::Nothing);
        assert_eq!(c.scheduled_at(), None);
    }
    let mut c = ShutdownCoordinator::new(minutes(2), false);
    assert_eq!(c.recognise(None, Some(SHUTDOWN_MESSAGE)), Action::Nothing);
    assert_eq!(c.scheduled_at(), None);
    let mut c = ShutdownCoordinator::new(minutes(2), true);
    assert_eq!(
        c.recognise(Some(at(1_120)), Some(SHUTDOWN_MESSAGE)),
        Action::Nothing
    );
    assert_eq!(c.scheduled_at(), None);
}

#[test]
fn repeated_advice_keeps_the_poweroff_where_it_is() {
    let mut c = with_ours();
    for n in 0..5u64 {
        assert_eq!(
            c.on_advice(Advice::Shutdown, at(1_010 + n)),
            Next::AskPending
        );
        let pending = if n % 2 == 0 { Some(Some(at(1_120))) } else { None };
        assert_eq!(c.on_pending(pending), Next::Done(Action::Nothing));
        assert_eq!(c.scheduled_at(), Some(at(1_120)));
    }
}

#[test]
fn a_time_beyond_the_clock_is_only_added_to_by_a_dry_run() {
    let end = SystemTime::from_unix(u64::MAX);
    let mut c = ShutdownCoordinator::new(minutes(2), false);
    assert_eq!(c.on_advice(Advice::Shutdown, end), Next::AskPending);
    let mut c = ShutdownCoordinator::new(minutes(2), true);
    assert_eq!(
        c.on_advice(Advice::Nothing, end),
        Next::Done(Action::Nothing)
    );
}

#[test]
fn a_dry_run_asks_for_nothing() {
    let mut c = ShutdownCoordinator::new(minutes(2), true);
    assert_eq!(
        c.on_advice(Advice::Shutdown, at(1_000)),
        Next::Done(Action::WouldSchedule)
    );
    assert_eq!(c.scheduled_at(), Some(at(1_120)));
    assert_eq!(
        c.on_advice(Advice::Shutdown, at(1_010)),
        Next::Done(Action::Nothing)
    );
    assert_eq!(
        c.on_advice(Advice::Nothing, at(1_020)),
        Next::Done(Action::WouldCancel)
    );
    assert_eq!(
        c.on_advice(Advice::Nothing, at(1_030)),
        Next::Done(Action::Nothing)
    );
    assert_eq!(
        c.on_advice(Advice::Shutdown, at(1_040)),
        Next::Done(Action::WouldSchedule)
    );
    assert_eq!(c.scheduled_at(), Some(at(1_160)));
}

#[test]
fn a_delay_is_rounded_up_to_whole_minutes() {
    assert_eq!(poweroff_minutes(Duration::from_secs(0)), 1);
    assert_eq!(poweroff_minutes(Duration::from_secs(60)), 1);
    assert_eq!(poweroff_minutes(Duration::from_secs(61)), 2);
    assert_eq!(shutdown_argument(Duration::from_secs(120)), "+2");
}

#[test]
fn what_logind_prints_is_taken_apart() {
    assert_eq!(
        parse_scheduled_shutdown("(st) \"poweroff\" 1789728000000000\n"),
        Some(("poweroff".to_owned(), at(1_789_728_000)))
    );
    assert_eq!(parse_scheduled_shutdown("(st) \"\" 0\n"), None);
    assert_eq!(parse_scheduled_shutdown("nonsense"), None);
}
