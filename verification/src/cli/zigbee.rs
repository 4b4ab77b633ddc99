//! `argonctl zigbee`: which device the Zigbee module is, and whether its firmware answers.
//!
//! The probe sends exactly two side-effect-free requests, after first listening in silence. An
//! announcement of a restart in that window is an observation of the wiring: opening the port
//! restarted the radio.

use crate::cli::rtc::{hex, upper_words};
use crate::text::{
    begins, decimal, decimal_of, hex as hex_byte, hex_of, holds, join, joined, left_aligned,
    pad_right, stands_at,
};
use vstd::prelude::*;

verus! {

/// The line rate of the firmware.
pub const BAUD: u32 = 115_200;

/// How long to listen, sending nothing, after opening, in seconds.
pub const LISTEN_S: u64 = 3;

/// How long to wait for each reply, in seconds.
pub const REPLY_S: u64 = 1;

/// A firmware version.
#[derive(Clone, Copy, Debug, PartialEq, Eq, Structural)]
pub struct Version {
    /// The revision of the transport protocol.
    pub transport_rev: u8,
    /// The product.
    pub product: u8,
    /// The release: major.
    pub major: u8,
    /// The release: minor.
    pub minor: u8,
    /// The release: maintenance.
    pub maint: u8,
    /// The revision, where the firmware sends one.
    pub revision: Option<u32>,
}

/// What came out of the frame reader for a byte.
#[derive(Clone, Debug, PartialEq, Eq)]
pub enum Event {
    /// The announcement of a restart, with its data.
    Reset(Vec<u8>),
    /// A reply to a ping, with its data.
    Pong(Vec<u8>),
    /// A reply to a question for the version; `None` where it does not decode.
    VersionReply(Option<Version>),
    /// Another frame.
    Other,
    /// A frame that failed its check byte.
    Rejected,
}

/// What one probe heard.
#[derive(Clone, Debug, PartialEq, Eq)]
pub struct Capture {
    /// How many bytes arrived while listening.
    pub listened_bytes: usize,
    /// What they held.
    pub listened: Vec<Event>,
    /// What came back after the ping.
    pub ping: Vec<Event>,
    /// What came back after the question for the version.
    pub version: Vec<Event>,
}

/// What the probe established.
#[derive(Clone, Copy, Debug, PartialEq, Eq, Structural)]
pub struct Findings {
    /// The announcement of a restart arrived while listening: opening the port restarted the radio.
    /// Its reason byte, if one was sent.
    pub reset_on_open: Option<u8>,
    /// Any bytes at all arrived while listening.
    pub heard_anything: bool,
    /// The capability bits in the reply to the ping, if it answered.
    pub ping: Option<u16>,
    /// The firmware version, if it answered.
    pub version: Option<Version>,
    /// Frames that failed their check byte, across the whole probe.
    pub rejected: usize,
}

impl Default for Findings {
    fn default() -> (f: Self)
        ensures
            f == (Findings {
                reset_on_open: None,
                heard_anything: false,
                ping: None,
                version: None,
                rejected: 0,
            }),
    {
        Findings {
            reset_on_open: None,
            heard_anything: false,
            ping: None,
            version: None,
            rejected: 0,
        }
    }
}

/// The reason byte of the first announcement of a restart.
pub open spec fn first_reset(v: Seq<Event>) -> Option<u8>
    decreases v.len(),
{
    if v.len() == 0 {
        None
    } else {
        match v[0] {
            Event::Reset(data) => Some(
                if data@.len() > 0 {
                    data@[0]
                } else {
                    0xffu8
                },
            ),
            _ => first_reset(v.skip(1)),
        }
    }
}

/// The capability bits in the first reply to a ping, where it holds exactly two bytes.
pub open spec fn first_pong(v: Seq<Event>) -> Option<int>
    decreases v.len(),
{
    if v.len() == 0 {
        None
    } else {
        match v[0] {
            Event::Pong(data) => if data@.len() == 2 {
                Some(data@[0] + 256 * data@[1])
            } else {
                None
            },
            _ => first_pong(v.skip(1)),
        }
    }
}

/// What the first reply to a question for the version holds.
pub open spec fn first_version(v: Seq<Event>) -> Option<Version>
    decreases v.len(),
{
    if v.len() == 0 {
        None
    } else {
        match v[0] {
            Event::VersionReply(version) => version,
            _ => first_version(v.skip(1)),
        }
    }
}

/// How many frames failed their check byte.
pub open spec fn rejected_in(v: Seq<Event>) -> nat
    decreases v.len(),
{
    if v.len() == 0 {
        0
    } else {
        rejected_in(v.drop_last()) + if v.last() is Rejected {
            1nat
        } else {
            0nat
        }
    }
}

fn find_reset(v: &Vec<Event>) -> (r: Option<u8>)
    ensures
        r == first_reset(v@),
{
    let mut i: usize = 0;
    assert(v@.skip(0) =~= v@);
    while i < v.len()
        invariant
            i <= v.len(),
            first_reset(v@) == first_reset(v@.skip(i as int)),
        decreases v.len() - i,
    {
        assert(v@.skip(i as int)[0] == v@[i as int]);
        assert(v@.skip(i as int).skip(1) =~= v@.skip(i + 1));
        if let Event::Reset(data) = &v[i] {
            return Some(
                if data.len() > 0 {
                    data[0]
                } else {
                    0xff
                },
            );
        }
        i = i + 1;
    }
    None
}

fn find_pong(v: &Vec<Event>) -> (r: Option<u16>)
    ensures
        match r {
            Some(caps) => first_pong(v@) == Some(caps as int),
            None => first_pong(v@) is None,
        },
{
    let mut i: usize = 0;
    assert(v@.skip(0) =~= v@);
    while i < v.len()
        invariant
            i <= v.len(),
            first_pong(v@) == first_pong(v@.skip(i as int)),
        decreases v.len() - i,
    {
        assert(v@.skip(i as int)[0] == v@[i as int]);
        assert(v@.skip(i as int).skip(1) =~= v@.skip(i + 1));
        if let Event::Pong(data) = &v[i] {
            return if data.len() == 2 {
                Some(data[0] as u16 + 256 * data[1] as u16)
            } else {
                None
            };
        }
        i = i + 1;
    }
    None
}

fn find_version(v: &Vec<Event>) -> (r: Option<Version>)
    ensures
        r == first_version(v@),
{
    let mut i: usize = 0;
    assert(v@.skip(0) =~= v@);
    while i < v.len()
        invariant
            i <= v.len(),
            first_version(v@) == first_version(v@.skip(i as int)),
        decreases v.len() - i,
    {
        assert(v@.skip(i as int)[0] == v@[i as int]);
        assert(v@.skip(i as int).skip(1) =~= v@.skip(i + 1));
        if let Event::VersionReply(version) = &v[i] {
            return *version;
        }
        i = i + 1;
    }
    None
}

fn count_rejected(v: &Vec<Event>) -> (n: usize)
    ensures
        n == rejected_in(v@),
        n <= v@.len(),
{
    let mut n: usize = 0;
    let mut i: usize = 0;
    assert(v@.take(0) =~= Seq::<Event>::empty());
    while i < v.len()
        invariant
            i <= v.len(),
            n <= i,
            n == rejected_in(v@.take(i as int)),
        decreases v.len() - i,
    {
        assert(v@.take(i + 1).drop_last() =~= v@.take(i as int));
        assert(v@.take(i + 1).last() == v@[i as int]);
        if let Event::Rejected = &v[i] {
            n = n + 1;
        }
        i = i + 1;
    }
    assert(v@.take(i as int) =~= v@);
    n
}

/// Makes out what the probe established. Only the reply that belongs to a request answers it, and
/// what failed its check byte is counted, not believed.
pub fn interpret(c: &Capture) -> (f: Findings)
    requires
        c.listened@.len() + c.ping@.len() + c.version@.len() <= usize::MAX,
    ensures
        f.reset_on_open == first_reset(c.listened@),
        f.heard_anything == (c.listened_bytes > 0),
        match f.ping {
            Some(caps) => first_pong(c.ping@) == Some(caps as int),
            None => first_pong(c.ping@) is None,
        },
        f.version == first_version(c.version@),
        f.rejected == rejected_in(c.listened@) + rejected_in(c.ping@) + rejected_in(c.version@),
{
    Findings {
        reset_on_open: find_reset(&c.listened),
        heard_anything: c.listened_bytes > 0,
        ping: find_pong(&c.ping),
        version: find_version(&c.version),
        rejected: count_rejected(&c.listened) + count_rejected(&c.ping) + count_rejected(
            &c.version,
        ),
    }
}

/// Bytes that were sent or received, in words.
pub open spec fn bytes_words(label: Seq<char>, bytes: Seq<u8>) -> Seq<char> {
    "  "@ + pad_right(label, 16) + (if bytes.len() == 0 {
        " nothing"@
    } else {
        " "@ + joined(upper_words(bytes), " "@) + " ("@ + decimal(bytes.len()) + " bytes)"@
    })
}

/// What is printed of bytes that were sent or received.
pub fn bytes_line(label: &str, bytes: &[u8]) -> (s: String)
    ensures
        s@ == bytes_words(label@, bytes@),
{
    let mut s: String = join("  ", left_aligned(label, 16).as_str());
    let shown: String = if bytes.len() == 0 {
        " nothing".to_owned()
    } else {
        let mut w: String = join(" ", hex(bytes).as_str());
        w.append(" (");
        w.append(decimal_of(bytes.len() as u64).as_str());
        w.append(" bytes)");
        w
    };
    s.append(shown.as_str());
    s
}

/// What is printed of who uses the port. `sees_all` is whether every process could be seen.
pub fn owner_line(owner: Option<(u32, &str)>, sees_all: bool) -> (s: String)
    ensures
        s@ == "  in use by        "@ + match owner {
            Some((pid, comm)) => "pid "@ + decimal(pid as nat) + " ("@ + comm@ + ")"@,
            None => if sees_all {
                "nothing"@
            } else {
                "nothing visible (run under sudo to see every process)"@
            },
        },
{
    let shown: String = match owner {
        Some((pid, comm)) => {
            let mut w: String = join("pid ", decimal_of(pid as u64).as_str());
            w.append(" (");
            w.append(comm);
            w.append(")");
            w
        },
        None => if sees_all {
            "nothing".to_owned()
        } else {
            "nothing visible (run under sudo to see every process)".to_owned()
        },
    };
    join("  in use by        ", shown.as_str())
}

/// What is said where something else holds the port: a coordinator belongs to whatever runs the
/// network, and probing it would inject frames into a live session.
pub fn held_line(path: &str, pid: u32, comm: &str) -> (s: String)
    ensures
        s@ == "\nargonctl: "@ + path@ + " is held by pid "@ + decimal(pid as nat) + " ("@ + comm@
            + "); not probing a coordinator that something else is running."@,
{
    let mut s: String = join("\nargonctl: ", path);
    s.append(" is held by pid ");
    s.append(decimal_of(pid as u64).as_str());
    s.append(" (");
    s.append(comm);
    s.append("); not probing a coordinator that something else is running.");
    s
}

/// A version, in words.
pub open spec fn version_words(v: Version) -> Seq<char> {
    "  Firmware version: product "@ + decimal(v.product as nat) + ", release "@ + decimal(
        v.major as nat,
    ) + "."@ + decimal(v.minor as nat) + "."@ + decimal(v.maint as nat) + ", transport rev "@
        + decimal(v.transport_rev as nat) + (match v.revision {
        Some(r) => ", revision "@ + decimal(r as nat),
        None => Seq::empty(),
    }) + "\n"@
}

fn version_text(v: Version) -> (s: String)
    ensures
        s@ == version_words(v),
{
    let mut s: String = join(
        "  Firmware version: product ",
        decimal_of(v.product as u64).as_str(),
    );
    s.append(", release ");
    s.append(decimal_of(v.major as u64).as_str());
    s.append(".");
    s.append(decimal_of(v.minor as u64).as_str());
    s.append(".");
    s.append(decimal_of(v.maint as u64).as_str());
    s.append(", transport rev ");
    s.append(decimal_of(v.transport_rev as u64).as_str());
    let revision: String = match v.revision {
        Some(r) => join(", revision ", decimal_of(r as u64).as_str()),
        None => String::new(),
    };
    s.append(revision.as_str());
    s.append("\n");
    s
}

/// What is said of a restart.
pub open spec fn restart_words(f: Findings) -> Seq<char> {
    match f.reset_on_open {
        Some(reason) => "  Opening the port RESTARTED the radio (SYS_RESET_IND, reason 0x"@
            + hex_byte(reason) + "): DTR/RTS reach its reset line.\n"@,
        None => if f.heard_anything {
            "  Bytes arrived while listening, but no restart announcement among them.\n"@
        } else {
            "  No restart announcement: opening the port did not visibly restart it.\n"@
        },
    }
}

/// What is said of the answer to the ping.
pub open spec fn ping_words(ping: Option<u16>) -> Seq<char> {
    match ping {
        Some(caps) => "  Firmware ANSWERS: SYS_PING replied, capabilities 0x"@ + hex_byte(
            (caps / 256) as u8,
        ) + hex_byte((caps % 256) as u8) + ".\n"@,
        None => "  NO ANSWER to SYS_PING.\n  Possible causes, none tested: a line rate other than 115200, firmware that\n  does not speak Z-Stack MT, or a radio held in reset or in its bootloader.\n  Nothing else was sent. DTR and RTS were left low.\n"@,
    }
}

/// What is printed of what the probe established.
pub open spec fn report_words(f: Findings) -> Seq<char> {
    "\nT16 RESULT\n"@ + restart_words(f) + ping_words(f.ping) + (match f.version {
        Some(v) => version_words(v),
        None => if f.ping is Some {
            "  SYS_VERSION did not return a decodable reply.\n"@
        } else {
            Seq::empty()
        },
    }) + (if f.rejected > 0 {
        "  "@ + decimal(f.rejected as nat) + " frame(s) failed their check byte.\n"@
    } else {
        Seq::empty()
    })
}

/// What is printed of what the probe established.
pub fn report(f: &Findings) -> (s: String)
    ensures
        s@ == report_words(*f),
{
    let restart: String = match f.reset_on_open {
        Some(reason) => {
            let mut w: String = join(
                "  Opening the port RESTARTED the radio (SYS_RESET_IND, reason 0x",
                hex_of(reason).as_str(),
            );
            w.append("): DTR/RTS reach its reset line.\n");
            w
        },
        None => if f.heard_anything {
            "  Bytes arrived while listening, but no restart announcement among them.\n".to_owned()
        } else {
            "  No restart announcement: opening the port did not visibly restart it.\n".to_owned()
        },
    };
    let ping: String = match f.ping {
        Some(caps) => {
            let mut w: String = join(
                "  Firmware ANSWERS: SYS_PING replied, capabilities 0x",
                hex_of((caps / 256) as u8).as_str(),
            );
            w.append(hex_of((caps % 256) as u8).as_str());
            w.append(".\n");
            w
        },
        None => "  NO ANSWER to SYS_PING.\n  Possible causes, none tested: a line rate other than 115200, firmware that\n  does not speak Z-Stack MT, or a radio held in reset or in its bootloader.\n  Nothing else was sent. DTR and RTS were left low.\n".to_owned(),
    };
    let version: String = match f.version {
        Some(v) => version_text(v),
        None => if f.ping.is_some() {
            "  SYS_VERSION did not return a decodable reply.\n".to_owned()
        } else {
            String::new()
        },
    };
    let rejected: String = if f.rejected > 0 {
        let mut w: String = join("  ", decimal_of(f.rejected as u64).as_str());
        w.append(" frame(s) failed their check byte.\n");
        w
    } else {
        String::new()
    };
    let mut s: String = join("\nT16 RESULT\n", restart.as_str());
    s.append(ping.as_str());
    s.append(version.as_str());
    s.append(rejected.as_str());
    s
}

/// A frame that failed its check byte never changes what was established, beyond being counted.
pub proof fn law_rejected_frames_are_not_believed(v: Seq<Event>)
    ensures
        first_reset(seq![Event::Rejected] + v) == first_reset(v),
        first_pong(seq![Event::Rejected] + v) == first_pong(v),
        first_version(seq![Event::Rejected] + v) == first_version(v),
{
    let w = seq![Event::Rejected] + v;
    assert(w[0] == Event::Rejected);
    assert(w.skip(1) =~= v);
}

/// A restart is believed exactly where one was announced while listening, and its reason is the first
/// byte of the first announcement.
pub proof fn law_a_restart_is_believed_where_it_was_announced(
    c: &Capture,
    f: Findings,
    i: int,
    data: Vec<u8>,
)
    requires
        call_ensures(interpret, (c,), f),
        0 <= i < c.listened@.len(),
        c.listened@[i] == Event::Reset(data),
        forall|k: int| 0 <= k < i ==> !(#[trigger] c.listened@[k] is Reset),
    ensures
        f.reset_on_open is Some,
        data@.len() > 0 ==> f.reset_on_open == Some(data@[0]),
{
    lemma_first_reset(c.listened@, i);
}

proof fn lemma_first_reset(v: Seq<Event>, i: int)
    requires
        0 <= i < v.len(),
        v[i] is Reset,
        forall|k: int| 0 <= k < i ==> !(#[trigger] v[k] is Reset),
    ensures
        first_reset(v) == first_reset(v.skip(i)),
        v.skip(i)[0] == v[i],
    decreases i,
{
    if i > 0 {
        assert(!(v[0] is Reset));
        assert forall|k: int| 0 <= k < i - 1 implies !(#[trigger] v.skip(1)[k] is Reset) by {
            assert(v.skip(1)[k] == v[k + 1]);
        }
        assert(v.skip(1)[i - 1] == v[i]);
        lemma_first_reset(v.skip(1), i - 1);
        assert(v.skip(1).skip(i - 1) =~= v.skip(i));
    } else {
        assert(v.skip(0) =~= v);
    }
}

/// Without an announcement there was no restart, without a reply no answer, and without a version none
/// is told.
pub proof fn law_nothing_is_made_up(c: &Capture, f: Findings)
    requires
        call_ensures(interpret, (c,), f),
    ensures
        (forall|k: int| 0 <= k < c.listened@.len() ==> !(#[trigger] c.listened@[k] is Reset))
            ==> f.reset_on_open is None,
        (forall|k: int| 0 <= k < c.ping@.len() ==> !(#[trigger] c.ping@[k] is Pong)) ==> f.ping
            is None,
        (forall|k: int| 0 <= k < c.version@.len() ==> !(#[trigger] c.version@[k] is VersionReply))
            ==> f.version is None,
        f.heard_anything <==> c.listened_bytes > 0,
{
    lemma_nothing(c.listened@);
    lemma_nothing(c.ping@);
    lemma_nothing(c.version@);
}

proof fn lemma_nothing(v: Seq<Event>)
    ensures
        (forall|k: int| 0 <= k < v.len() ==> !(#[trigger] v[k] is Reset)) ==> first_reset(v) is None,
        (forall|k: int| 0 <= k < v.len() ==> !(#[trigger] v[k] is Pong)) ==> first_pong(v) is None,
        (forall|k: int| 0 <= k < v.len() ==> !(#[trigger] v[k] is VersionReply)) ==> first_version(v)
            is None,
    decreases v.len(),
{
    if v.len() > 0 {
        let w = v.skip(1);
        lemma_nothing(w);
        assert forall|k: int| 0 <= k < w.len() implies #[trigger] w[k] == v[k + 1] by {}
        assert(!(v[0] is Reset) || exists|k: int| 0 <= k < v.len() && #[trigger] v[k] is Reset);
    }
}

/// The answer to the ping is the first one that came, two bytes with the low one first; the version is
/// that of the first reply to its question. What came before them does not matter.
pub proof fn law_the_first_reply_is_the_answer(
    c: &Capture,
    f: Findings,
    i: int,
    data: Vec<u8>,
    j: int,
    version: Option<Version>,
)
    requires
        call_ensures(interpret, (c,), f),
        0 <= i < c.ping@.len(),
        c.ping@[i] == Event::Pong(data),
        forall|k: int| 0 <= k < i ==> !(#[trigger] c.ping@[k] is Pong),
        0 <= j < c.version@.len(),
        c.version@[j] == Event::VersionReply(version),
        forall|k: int| 0 <= k < j ==> !(#[trigger] c.version@[k] is VersionReply),
    ensures
        f.ping is Some <==> data@.len() == 2,
        f.ping is Some ==> (f.ping->0) % 256 == data@[0] && (f.ping->0) / 256 == data@[1],
        f.version == version,
{
    lemma_first_pong(c.ping@, i);
    lemma_first_version(c.version@, j);
}

proof fn lemma_first_pong(v: Seq<Event>, i: int)
    requires
        0 <= i < v.len(),
        v[i] is Pong,
        forall|k: int| 0 <= k < i ==> !(#[trigger] v[k] is Pong),
    ensures
        first_pong(v) == first_pong(v.skip(i)),
        v.skip(i)[0] == v[i],
    decreases i,
{
    if i > 0 {
        assert(!(v[0] is Pong));
        assert forall|k: int| 0 <= k < i - 1 implies !(#[trigger] v.skip(1)[k] is Pong) by {
            assert(v.skip(1)[k] == v[k + 1]);
        }
        assert(v.skip(1)[i - 1] == v[i]);
        lemma_first_pong(v.skip(1), i - 1);
        assert(v.skip(1).skip(i - 1) =~= v.skip(i));
    } else {
        assert(v.skip(0) =~= v);
    }
}

proof fn lemma_first_version(v: Seq<Event>, i: int)
    requires
        0 <= i < v.len(),
        v[i] is VersionReply,
        forall|k: int| 0 <= k < i ==> !(#[trigger] v[k] is VersionReply),
    ensures
        first_version(v) == first_version(v.skip(i)),
        v.skip(i)[0] == v[i],
    decreases i,
{
    if i > 0 {
        assert(!(v[0] is VersionReply));
        assert forall|k: int| 0 <= k < i - 1 implies !(#[trigger] v.skip(1)[k] is VersionReply) by {
            assert(v.skip(1)[k] == v[k + 1]);
        }
        assert(v.skip(1)[i - 1] == v[i]);
        lemma_first_version(v.skip(1), i - 1);
        assert(v.skip(1).skip(i - 1) =~= v.skip(i));
    } else {
        assert(v.skip(0) =~= v);
    }
}

/// Every frame that failed its check byte is counted, wherever it came.
pub proof fn law_every_rejected_frame_is_counted(v: Seq<Event>, e: Event)
    ensures
        rejected_in(Seq::<Event>::empty()) == 0,
        rejected_in(v.push(e)) == rejected_in(v) + if e is Rejected {
            1nat
        } else {
            0nat
        },
{
    assert(v.push(e).drop_last() =~= v);
}

/// What is printed says whether the radio was restarted, whether the firmware answers, and with what.
pub proof fn law_the_report_says_what_was_found(f: &Findings, s: String)
    requires
        call_ensures(report, (f,), s),
    ensures
        f.reset_on_open matches Some(reason) ==> begins(
            s@,
            "\nT16 RESULT\n"@
                + "  Opening the port RESTARTED the radio (SYS_RESET_IND, reason 0x"@ + hex_byte(
                reason,
            ),
        ),
        f.reset_on_open is None && !f.heard_anything ==> begins(
            s@,
            "\nT16 RESULT\n"@
                + "  No restart announcement: opening the port did not visibly restart it.\n"@,
        ),
        ping_words(f.ping) == ping_words(None) <==> f.ping is None,
        holds(s@, ping_words(f.ping)),
        f.version matches Some(v) ==> holds(s@, version_words(v)),
{
    reveal_strlit("  Firmware ANSWERS: SYS_PING replied, capabilities 0x");
    reveal_strlit("  NO ANSWER to SYS_PING.\n  Possible causes, none tested: a line rate other than 115200, firmware that\n  does not speak Z-Stack MT, or a radio held in reset or in its bootloader.\n  Nothing else was sent. DTR and RTS were left low.\n");
    assert(ping_words(None)[2] == 'N');
    assert(f.ping is Some ==> ping_words(f.ping)[2] == 'F');
    let head = "\nT16 RESULT\n"@;
    let restart = restart_words(*f);
    let ping = ping_words(f.ping);
    if let Some(reason) = f.reset_on_open {
        let h = head + "  Opening the port RESTARTED the radio (SYS_RESET_IND, reason 0x"@ + hex_byte(
            reason,
        );
        assert(s@.take(h.len() as int) =~= h);
    } else if !f.heard_anything {
        let h = head + "  No restart announcement: opening the port did not visibly restart it.\n"@;
        assert(s@.take(h.len() as int) =~= h);
    }
    let at = (head + restart).len() as int;
    assert(s@.subrange(at, at + ping.len()) =~= ping);
    assert(stands_at(s@, ping, at));
    if let Some(v) = f.version {
        let w = version_words(v);
        let b = at + ping.len();
        assert(s@.subrange(b, b + w.len()) =~= w);
        assert(stands_at(s@, w, b));
    }
}

/// Who uses the module is told, and that nobody is seen to only as far as one can see.
pub proof fn law_the_user_of_the_module_is_told(
    pid: u32,
    comm: &str,
    sees_all: bool,
    some: String,
    none: String,
    blind: String,
)
    requires
        call_ensures(owner_line, (Some((pid, comm)), sees_all), some),
        call_ensures(owner_line, (None::<(u32, &str)>, true), none),
        call_ensures(owner_line, (None::<(u32, &str)>, false), blind),
    ensures
        some@ == "  in use by        "@ + ("pid "@ + decimal(pid as nat) + " ("@ + comm@ + ")"@),
        none@ == "  in use by        "@ + "nothing"@,
        blind@ == "  in use by        "@ + "nothing visible (run under sudo to see every process)"@,
{
}

/// The cause of the first restart is its first byte, and unknown where it has none.
pub proof fn law_the_cause_is_the_first_byte(v: Seq<Event>, data: Vec<u8>)
    requires
        v.len() > 0,
        v[0] == Event::Reset(data),
    ensures
        data@.len() > 0 ==> first_reset(v) == Some(data@[0]),
        data@.len() == 0 ==> first_reset(v) == Some(255u8),
{
}

} // verus!
