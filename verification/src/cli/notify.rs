//! `argonctl notify-agent`: desktop notifications for UPS events.

use crate::device::status::{Notice, Urgency};
use crate::text::{join, texts, trim, trimmed};
use vstd::prelude::*;

verus! {

/// The notice that checks that delivery works on this desktop.
pub fn test_notice() -> (n: Notice)
    ensures
        n.urgency == Urgency::Normal,
        n.text@ == "argon-utils: notification test, no action needed."@,
{
    Notice {
        urgency: Urgency::Normal,
        text: "argon-utils: notification test, no action needed.".to_owned(),
    }
}

/// How the panel calls an urgency.
pub open spec fn panel_word(u: Urgency) -> Seq<char> {
    match u {
        Urgency::Normal => "notify"@,
        Urgency::Critical => "critical"@,
    }
}

/// How `notify-send` calls an urgency.
pub open spec fn urgency_word(u: Urgency) -> Seq<char> {
    match u {
        Urgency::Normal => "normal"@,
        Urgency::Critical => "critical"@,
    }
}

/// The arguments of `busctl` that show a notice on the Raspberry Pi panel. The panel's method sends
/// no reply, so waiting for one only produces a timeout error.
pub fn panel_args(n: &Notice) -> (v: Vec<String>)
    ensures
        texts(v@) == seq![
            "--user"@,
            "call"@,
            "--expect-reply=no"@,
            "org.wayfire.wfpanel"@,
            "/org/wayfire/wfpanel"@,
            "org.wayfire.wfpanel"@,
            "command"@,
            "ss"@,
            panel_word(n.urgency),
            n.text@,
        ],
{
    let word: &str = match n.urgency {
        Urgency::Normal => "notify",
        Urgency::Critical => "critical",
    };
    let v: Vec<String> = vec![
        "--user".to_owned(),
        "call".to_owned(),
        "--expect-reply=no".to_owned(),
        "org.wayfire.wfpanel".to_owned(),
        "/org/wayfire/wfpanel".to_owned(),
        "org.wayfire.wfpanel".to_owned(),
        "command".to_owned(),
        "ss".to_owned(),
        word.to_owned(),
        n.text.as_str().to_owned(),
    ];
    assert(texts(v@) =~= seq![
        "--user"@,
        "call"@,
        "--expect-reply=no"@,
        "org.wayfire.wfpanel"@,
        "/org/wayfire/wfpanel"@,
        "org.wayfire.wfpanel"@,
        "command"@,
        "ss"@,
        panel_word(n.urgency),
        n.text@,
    ]);
    v
}

/// The arguments of `notify-send` that show a notice with this title, on other desktops.
pub fn send_args(title: &str, n: &Notice) -> (v: Vec<String>)
    ensures
        texts(v@) == seq![
            "--urgency"@,
            urgency_word(n.urgency),
            "--app-name"@,
            "argon-utils"@,
            title@,
            n.text@,
        ],
{
    let word: &str = match n.urgency {
        Urgency::Normal => "normal",
        Urgency::Critical => "critical",
    };
    let v: Vec<String> = vec![
        "--urgency".to_owned(),
        word.to_owned(),
        "--app-name".to_owned(),
        "argon-utils".to_owned(),
        title.to_owned(),
        n.text.as_str().to_owned(),
    ];
    assert(texts(v@) =~= seq![
        "--urgency"@,
        urgency_word(n.urgency),
        "--app-name"@,
        "argon-utils"@,
        title@,
        n.text@,
    ]);
    v
}

/// What to do about delivering a notice.
#[derive(Clone, Debug, PartialEq, Eq)]
pub enum Delivery {
    /// It was delivered, this way.
    Done(&'static str),
    /// Try `notify-send`, and hand what became of it to `after_send`.
    TrySend,
    /// It was not delivered, for this reason.
    Failed(String),
}

/// Goes on once the panel was tried: first of all, since the Pi desktop has no standard
/// notification daemon.
pub fn after_panel(accepted: bool) -> (d: Delivery)
    ensures
        match d {
            Delivery::Done(how) => accepted && how@ == "the Pi panel"@,
            Delivery::TrySend => !accepted,
            Delivery::Failed(_) => false,
        },
{
    if accepted {
        Delivery::Done("the Pi panel")
    } else {
        Delivery::TrySend
    }
}

/// Goes on once `notify-send` was tried. `panel` is what the panel said.
pub fn after_send(accepted: bool, panel: &str) -> (d: Delivery)
    ensures
        match d {
            Delivery::Done(how) => accepted && how@ == "notify-send"@,
            Delivery::TrySend => false,
            Delivery::Failed(e) => !accepted && e@
                == "no notification service accepted it (panel: "@ + trimmed(panel@) + ")"@,
        },
{
    if accepted {
        return Delivery::Done("notify-send");
    }
    let mut e: String = join("no notification service accepted it (panel: ", trim(panel));
    e.append(")");
    Delivery::Failed(e)
}

/// Seconds between two looks at the status file: at least one.
pub fn interval(asked: u64) -> (s: u64)
    ensures
        s == if asked < 1 {
            1
        } else {
            asked
        },
{
    if asked < 1 {
        1
    } else {
        asked
    }
}

/// A notice is handed on with its text, whole and last, and as critical exactly where it is.
pub proof fn law_a_notice_keeps_its_text_and_urgency(
    title: &str,
    n: &Notice,
    panel: Vec<String>,
    send: Vec<String>,
)
    requires
        call_ensures(panel_args, (n,), panel),
        call_ensures(send_args, (title, n), send),
    ensures
        panel@.len() == 10 && send@.len() == 6,
        panel@[9]@ == n.text@,
        send@[5]@ == n.text@,
        send@[4]@ == title@,
        panel@[8]@ == "critical"@ <==> n.urgency == Urgency::Critical,
        panel@[8]@ == "notify"@ <==> n.urgency == Urgency::Normal,
        send@[1]@ == "critical"@ <==> n.urgency == Urgency::Critical,
        send@[1]@ == "normal"@ <==> n.urgency == Urgency::Normal,
{
    reveal_strlit("critical");
    reveal_strlit("notify");
    reveal_strlit("normal");
    assert("critical"@.len() == 8 && "notify"@.len() == 6 && "normal"@.len() == 6);
    assert("critical"@[0] == 'c' && "notify"@[2] == 't' && "normal"@[2] == 'r');
    assert(texts(panel@).len() == panel@.len() && texts(send@).len() == send@.len());
    assert(texts(panel@)[8] == panel@[8]@ && texts(panel@)[9] == panel@[9]@);
    assert(texts(send@)[1] == send@[1]@ && texts(send@)[4] == send@[4]@ && texts(send@)[5]
        == send@[5]@);
}

/// The panel is tried first, then `notify-send`, and a notice has failed exactly where neither took
/// it.
pub proof fn law_a_notice_is_delivered_where_anyone_takes_it(
    by_panel: bool,
    by_send: bool,
    said: &str,
    a: Delivery,
    b: Delivery,
)
    requires
        call_ensures(after_panel, (by_panel,), a),
        call_ensures(after_send, (by_send, said), b),
    ensures
        a is Done <==> by_panel,
        a is TrySend <==> !by_panel,
        b is Done <==> by_send,
        b is Failed <==> !by_send,
{
}

/// The status is looked at as often as was asked for, and never in a busy loop.
pub proof fn law_a_look_is_at_least_a_second_apart(asked: u64, s: u64)
    requires
        call_ensures(interval, (asked,), s),
    ensures
        s >= 1,
        asked >= 1 ==> s == asked,
{
}

} // verus!
