//! `argonctl oled`: brings up the case display. Previews in the terminal by default, and touches
//! nothing.

use crate::device::oled::{HEIGHT, WIDTH};
use crate::text::{join, repeat, run_of};
use vstd::prelude::*;

verus! {

/// What a command comes to.
#[derive(Clone, Copy, Debug, PartialEq, Eq, Structural)]
pub enum Intent {
    /// Nothing: this is the stop hook on a machine that does not use the display.
    Skip,
    /// Print a preview.
    Preview,
    /// Blank the panel and switch it off.
    SwitchOff,
    /// Send the frame.
    Send,
}

/// What a command comes to. `if_enabled` is whether it only counts where the configuration enables
/// the display: the stop hook blanks a display that was driven, and leaves one that was not alone.
pub fn intent(if_enabled: bool, enabled: bool, write: bool, off: bool) -> (i: Intent)
    ensures
        i == if if_enabled && !enabled {
            Intent::Skip
        } else if off {
            Intent::SwitchOff
        } else if write {
            Intent::Send
        } else {
            Intent::Preview
        },
{
    if if_enabled && !enabled {
        Intent::Skip
    } else if off {
        Intent::SwitchOff
    } else if write {
        Intent::Send
    } else {
        Intent::Preview
    }
}

/// What is printed before a preview.
pub fn preview_head(status: bool) -> (s: &'static str)
    ensures
        s@ == if status {
            "Preview of argond's status page, from its status file (nothing is sent to the panel):\n"@
        } else {
            "Preview of the test pattern (nothing is sent to the panel):\n"@
        },
{
    if status {
        "Preview of argond's status page, from its status file (nothing is sent to the panel):\n"
    } else {
        "Preview of the test pattern (nothing is sent to the panel):\n"
    }
}

/// What is printed after a preview.
pub fn preview_tail(status: bool) -> (s: &'static str)
    ensures
        s@ == if status {
            "\nSend it with:  argonctl oled --status --write"@
        } else {
            "\nSend it with:  argonctl oled --write"@
        },
{
    if status {
        "\nSend it with:  argonctl oled --status --write"
    } else {
        "\nSend it with:  argonctl oled --write"
    }
}

/// The half-block character for two pixels, one above the other.
pub open spec fn half_block(upper: bool, lower: bool) -> char {
    if upper && lower {
        '\u{2588}'
    } else if upper {
        '\u{2580}'
    } else if lower {
        '\u{2584}'
    } else {
        ' '
    }
}

/// The characters of two rows of pixels, up to a column. The frame holds its pixels row by row.
pub open spec fn row_chars(frame: Seq<bool>, y: int, columns: nat) -> Seq<char> {
    Seq::new(
        columns,
        |x: int| half_block(frame[y * WIDTH + x], frame[(y + 1) * WIDTH + x]),
    )
}

/// The lines of the first `n` pairs of rows.
pub open spec fn preview_lines(frame: Seq<bool>, n: int) -> Seq<char>
    decreases n,
{
    if n <= 0 {
        Seq::empty()
    } else {
        preview_lines(frame, n - 1) + "  |"@ + row_chars(frame, 2 * (n - 1), WIDTH as nat) + "|\n"@
    }
}

/// The border above and below a preview.
pub open spec fn border() -> Seq<char> {
    "  +"@ + run_of('-', WIDTH as nat) + "+\n"@
}

/// A frame in half-block characters, two pixel rows per terminal row.
pub fn preview(frame: &Vec<bool>) -> (s: String)
    requires
        frame@.len() == WIDTH * HEIGHT,
    ensures
        s@ == border() + preview_lines(frame@, HEIGHT as int / 2) + border(),
{
    let mut edge: String = join("  +", repeat('-', WIDTH).as_str());
    edge.append("+\n");
    let mut lines: String = String::new();
    let mut n: usize = 0;
    while n < HEIGHT / 2
        invariant
            n <= HEIGHT / 2,
            frame@.len() == WIDTH * HEIGHT,
            lines@ == preview_lines(frame@, n as int),
        decreases HEIGHT / 2 - n,
    {
        let y: usize = 2 * n;
        let mut line: String = String::new();
        let mut x: usize = 0;
        assert(line@ =~= row_chars(frame@, y as int, 0));
        while x < WIDTH
            invariant
                x <= WIDTH,
                y == 2 * n,
                n < HEIGHT / 2,
                frame@.len() == WIDTH * HEIGHT,
                line@ == row_chars(frame@, y as int, x as nat),
            decreases WIDTH - x,
        {
            let upper: bool = frame[y * WIDTH + x];
            let lower: bool = frame[(y + 1) * WIDTH + x];
            let c: char = if upper && lower {
                '\u{2588}'
            } else if upper {
                '\u{2580}'
            } else if lower {
                '\u{2584}'
            } else {
                ' '
            };
            line.push(c);
            assert(row_chars(frame@, y as int, (x + 1) as nat) =~= row_chars(
                frame@,
                y as int,
                x as nat,
            ).push(c));
            x = x + 1;
        }
        lines.append("  |");
        lines.append(line.as_str());
        lines.append("|\n");
        n = n + 1;
    }
    let mut s: String = join(edge.as_str(), lines.as_str());
    s.append(edge.as_str());
    s
}

/// What is said where the vendor's daemon runs, which also has code that drives this display.
pub fn vendor_holds_display(active: bool) -> (r: Option<&'static str>)
    ensures
        match r {
            Some(s) => active && s@
                == "argonctl: argononed.service is running and also has code that drives this display.\nStop it for the test, and start it again afterwards:\n\n    sudo systemctl stop argononed\n    argonctl oled --write\n    ...\n    argonctl oled --off\n    sudo systemctl start argononed\n\nOn an Argon ONE V5 with a Pi 5 stopping it costs nothing: its fan and button code has\nno hardware to drive there."@,
            None => !active,
        },
{
    if active {
        Some(
            "argonctl: argononed.service is running and also has code that drives this display.\nStop it for the test, and start it again afterwards:\n\n    sudo systemctl stop argononed\n    argonctl oled --write\n    ...\n    argonctl oled --off\n    sudo systemctl start argononed\n\nOn an Argon ONE V5 with a Pi 5 stopping it costs nothing: its fan and button code has\nno hardware to drive there.",
        )
    } else {
        None
    }
}

/// What is printed once the frame was sent.
pub fn sent_text(status: bool, address: &str, bus: &str, flip: bool) -> (s: String)
    ensures
        s@ == (if status {
            "status page"@
        } else {
            "test pattern"@
        }) + " sent to "@ + address@ + " on "@ + bus@ + (if flip {
            " (rotated 180)"@
        } else {
            ""@
        }) + "\nblank it again with:  argonctl oled --off\n"@,
{
    let mut s: String = join(
        if status {
            "status page"
        } else {
            "test pattern"
        },
        " sent to ",
    );
    s.append(address);
    s.append(" on ");
    s.append(bus);
    s.append(
        if flip {
            " (rotated 180)"
        } else {
            ""
        },
    );
    s.append("\nblank it again with:  argonctl oled --off\n");
    s
}

/// Nothing is sent to the panel unless that was asked for; and nothing at all is done for a display
/// that is not used, where that is the condition.
pub proof fn law_a_preview_sends_nothing(if_enabled: bool, enabled: bool, write: bool, off: bool, i: Intent)
    requires
        call_ensures(intent, (if_enabled, enabled, write, off), i),
    ensures
        i == Intent::Skip <==> if_enabled && !enabled,
        i == Intent::SwitchOff <==> off && !(if_enabled && !enabled),
        i == Intent::Send <==> write && !off && !(if_enabled && !enabled),
        i == Intent::Preview <==> !write && !off && !(if_enabled && !enabled),
{
}

/// Each character of a preview shows two pixels, and which of them are lit.
pub proof fn law_a_half_block_shows_its_pixels(upper: bool, lower: bool, frame: Seq<bool>, y: int, x: int)
    requires
        0 <= x < 128,
    ensures
        half_block(upper, lower) == '\u{2588}' <==> upper && lower,
        half_block(upper, lower) == '\u{2580}' <==> upper && !lower,
        half_block(upper, lower) == '\u{2584}' <==> !upper && lower,
        half_block(upper, lower) == ' ' <==> !upper && !lower,
        row_chars(frame, y, 128)[x] == half_block(frame[y * 128 + x], frame[y * 128 + 128 + x]),
{
    assert((y + 1) * 128 + x == y * 128 + 128 + x);
}

/// A display that the vendor's daemon drives is left to it.
pub proof fn law_the_vendors_display_is_left_to_it(active: bool, r: Option<&'static str>)
    requires
        call_ensures(vendor_holds_display, (active,), r),
    ensures
        r is Some <==> active,
{
}

/// The preview shows each two rows of pixels as one line between its borders, pixel over pixel.
pub proof fn law_the_preview_shows_every_pixel(frame: &Vec<bool>, s: String, n: int, x: int)
    requires
        call_ensures(preview, (frame,), s),
        frame@.len() == 128 * 64,
        0 <= n < 32,
        0 <= x < 128,
    ensures
        s@ == "  +"@ + run_of('-', 128) + "+\n"@ + preview_lines(frame@, 32) + ("  +"@ + run_of(
            '-',
            128,
        ) + "+\n"@),
        preview_lines(frame@, n + 1) == preview_lines(frame@, n) + "  |"@ + row_chars(
            frame@,
            2 * n,
            128,
        ) + "|\n"@,
        preview_lines(frame@, 0).len() == 0,
        row_chars(frame@, 2 * n, 128)[x] == half_block(
            frame@[256 * n + x],
            frame@[256 * n + 128 + x],
        ),
{
}

/// What was shown or sent is named as what it is, the status page or the test pattern, and a panel that
/// is turned round is said.
pub proof fn law_what_was_sent_is_named(
    address: &str,
    bus: &str,
    status: String,
    turned: String,
    pattern: String,
    a: &'static str,
    b: &'static str,
    c: &'static str,
    d: &'static str,
)
    requires
        call_ensures(sent_text, (true, address, bus, false), status),
        call_ensures(sent_text, (true, address, bus, true), turned),
        call_ensures(sent_text, (false, address, bus, false), pattern),
        call_ensures(preview_head, (true,), a),
        call_ensures(preview_head, (false,), b),
        call_ensures(preview_tail, (true,), c),
        call_ensures(preview_tail, (false,), d),
    ensures
        status@ == "status page"@ + " sent to "@ + address@ + " on "@ + bus@
            + "\nblank it again with:  argonctl oled --off\n"@,
        turned@ == "status page"@ + " sent to "@ + address@ + " on "@ + bus@ + " (rotated 180)"@
            + "\nblank it again with:  argonctl oled --off\n"@,
        pattern@ == "test pattern"@ + " sent to "@ + address@ + " on "@ + bus@
            + "\nblank it again with:  argonctl oled --off\n"@,
        a@
            == "Preview of argond's status page, from its status file (nothing is sent to the panel):\n"@,
        b@ == "Preview of the test pattern (nothing is sent to the panel):\n"@,
        c@ == "\nSend it with:  argonctl oled --status --write"@,
        d@ == "\nSend it with:  argonctl oled --write"@,
{
    reveal_strlit("");
    let h = "status page"@ + " sent to "@ + address@ + " on "@ + bus@;
    let p = "test pattern"@ + " sent to "@ + address@ + " on "@ + bus@;
    assert(h + ""@ =~= h);
    assert(p + ""@ =~= p);
}

} // verus!
