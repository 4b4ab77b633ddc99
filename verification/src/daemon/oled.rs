//! The daemon's OLED thread: when the status page is drawn, and when the panel is dark.

use crate::device::config::{requested, requested_mode, Config};
use crate::device::mode::Mode;
use crate::device::ups_service::has_unit;
use crate::text::{decimal, decimal_of, join, same, texts};
use vstd::prelude::*;

verus! {

/// What to do about remembering that the page was switched off.
#[derive(Clone, Copy, Debug, PartialEq, Eq, Structural)]
pub enum Remember {
    /// Nothing: there is nowhere to remember it.
    Nowhere,
    /// Remove the marker: the page is on.
    RemoveMarker,
    /// Write the marker: the page is off.
    WriteMarker,
}

/// The status page's on/off switch.
///
/// The choice survives restarts and reboots: switched off, a marker file sits in the daemon's state
/// directory, and the page stays dark until switched on again.
pub struct OledControl {
    available: bool,
    on: bool,
    remembered: bool,
}

/// What the switch says.
pub open spec fn switch_word(available: bool, on: bool) -> Seq<char> {
    if !available {
        "na"@
    } else if on {
        "on"@
    } else {
        "off"@
    }
}

impl OledControl {
    /// Whether a panel is being driven.
    pub closed spec fn available(self) -> bool {
        self.available
    }

    /// Whether the page is wanted on.
    pub closed spec fn wanted(self) -> bool {
        self.on
    }

    /// Whether there is somewhere to remember the choice.
    pub closed spec fn remembers(self) -> bool {
        self.remembered
    }

    /// A switch: on unless its marker exists. `marker` is whether it does; `None` where there is
    /// nowhere to remember the choice.
    pub fn new(marker: Option<bool>) -> (c: Self)
        ensures
            !c.available(),
            c.wanted() == comes_up_on(marker),
            c.remembers() == marker is Some,
    {
        OledControl {
            available: false,
            on: !matches!(marker, Some(true)),
            remembered: marker.is_some(),
        }
    }

    /// "on", "off", or "na" when no panel is being driven.
    pub fn state(&self) -> (s: &'static str)
        ensures
            s@ == switch_word(self.available(), self.wanted()),
    {
        if !self.available {
            "na"
        } else if self.on {
            "on"
        } else {
            "off"
        }
    }

    /// Switches the page on or off, and says what to do to remember it. Fails when no panel is
    /// being driven.
    pub fn set(&mut self, on: bool) -> (r: Result<Remember, String>)
        ensures
            final(self).available() == old(self).available(),
            final(self).remembers() == old(self).remembers(),
            match r {
                Ok(what) => old(self).available() && final(self).wanted() == on && what
                    == to_remember(old(self).remembers(), on),
                Err(e) => !old(self).available() && final(self).wanted() == old(self).wanted()
                    && e@ == "no case display is being driven (see [oled] in the config)"@,
            },
    {
        if !self.available {
            return Err("no case display is being driven (see [oled] in the config)".to_owned());
        }
        self.on = on;
        Ok(
            if !self.remembered {
                Remember::Nowhere
            } else if on {
                Remember::RemoveMarker
            } else {
                Remember::WriteMarker
            },
        )
    }

    /// Whether the page is wanted on.
    pub fn is_on(&self) -> (r: bool)
        ensures
            r == self.wanted(),
    {
        self.on
    }

    /// Notes whether a panel is being driven.
    pub fn mark_available(&mut self, available: bool)
        ensures
            final(self).available() == available,
            final(self).wanted() == old(self).wanted(),
            final(self).remembers() == old(self).remembers(),
    {
        self.available = available;
    }
}

/// What to do to remember that the page was switched on or off.
pub open spec fn to_remember(remembers: bool, on: bool) -> Remember {
    if !remembers {
        Remember::Nowhere
    } else if on {
        Remember::RemoveMarker
    } else {
        Remember::WriteMarker
    }
}

/// Whether the marker exists after that was done.
pub open spec fn marker_after(what: Remember, before: bool) -> bool {
    match what {
        Remember::Nowhere => before,
        Remember::RemoveMarker => false,
        Remember::WriteMarker => true,
    }
}

/// Whether a new switch comes up on.
pub open spec fn comes_up_on(marker: Option<bool>) -> bool {
    marker != Some(true)
}

/// The choice survives a restart: a new switch comes up the way the old one was left, whatever it
/// was before.
pub proof fn law_the_switch_survives_a_restart(on: bool, before: bool)
    ensures
        comes_up_on(Some(marker_after(to_remember(true, on), before))) == on,
{
}

/// Why the status page is not started, or what it needs next.
#[derive(Clone, Debug, PartialEq, Eq)]
pub enum Start {
    /// It is not drawn, for this reason.
    No(String),
    /// Look for a panel on this bus; `None` stands for the one to be discovered.
    Look(Option<String>),
}

/// Decides whether the status page is drawn at all: it has to be enabled, the configured mode has
/// to allow device writes, and the vendor's daemon, which has its own code for this display, must
/// not be running. The configured mode, not the fan's possibly-degraded one: MCU contention says
/// nothing about whether this display may be written.
pub fn start(config: &Config, active_units: &[String]) -> (s: Start)
    ensures
        match s {
            Start::No(why) => if !config.oled.enabled {
                why@
                    == "argond: oled: not enabled ([oled] enabled = true switches the status page on)"@
            } else if !requested_mode(*config).writes() {
                why@ == "argond: oled: enabled, but mode is "@ + requested_mode(*config).name()
                    + "; drawing on the display is a device write, so it stays off"@
            } else {
                texts(active_units@).contains("argononed.service"@) && why@
                    == "argond: oled: argononed is running and has its own code for this display; not drawing, so the two do not overwrite each other"@
            },
            Start::Look(bus) => {
                &&& config.oled.enabled
                &&& requested_mode(*config).writes()
                &&& !texts(active_units@).contains("argononed.service"@)
                &&& match bus {
                    Some(b) => config.mcu.bus@ != "auto"@ && b@ == config.mcu.bus@,
                    None => config.mcu.bus@ == "auto"@,
                }
            },
        },
{
    if !config.oled.enabled {
        // Said out loud: otherwise "the tray shows no display switch" has no visible cause.
        return Start::No(
            "argond: oled: not enabled ([oled] enabled = true switches the status page on)".to_owned(),
        );
    }
    let mode: Mode = requested(config);
    if !mode.allows_writes() {
        let mut why: String = join("argond: oled: enabled, but mode is ", mode.as_str());
        why.append("; drawing on the display is a device write, so it stays off");
        return Start::No(why);
    }
    if has_unit(active_units, "argononed.service") {
        return Start::No(
            "argond: oled: argononed is running and has its own code for this display; not drawing, so the two do not overwrite each other".to_owned(),
        );
    }
    if same(config.mcu.bus.as_str(), "auto") {
        Start::Look(None)
    } else {
        Start::Look(Some(config.mcu.bus.clone()))
    }
}

/// What is logged when a panel answers on a bus.
pub fn started_line(bus: &str, address: &str, contrast: u8, refresh_s: u64) -> (s: String)
    ensures
        s@ == "argond: oled: status page on "@ + bus@ + " @ "@ + address@ + ", contrast "@ + decimal(
            contrast as nat,
        ) + ", redraw every "@ + decimal(refresh_s as nat) + "s"@,
{
    let mut s: String = join("argond: oled: status page on ", bus);
    s.append(" @ ");
    s.append(address);
    s.append(", contrast ");
    s.append(decimal_of(contrast as u64).as_str());
    s.append(", redraw every ");
    s.append(decimal_of(refresh_s).as_str());
    s.append("s");
    s
}

/// What the drawing thread does next.
#[derive(Clone, Copy, Debug, PartialEq, Eq, Structural)]
pub enum Turn {
    /// Switch the panel off, and sleep until it is wanted on.
    SwitchOff,
    /// Sleep until it is wanted on.
    StayDark,
    /// Compose the page. `woken` is whether the panel was dark until now.
    Draw {
        /// Whether the panel was dark until now.
        woken: bool,
    },
}

/// What the drawing thread remembers between two redraws.
pub struct Panel {
    /// Whether a picture is known to be on the panel.
    shown: bool,
    needs_init: bool,
    error_logged: bool,
    dark: bool,
}

/// What the drawing thread remembers between two redraws.
pub struct PanelView {
    /// Whether a picture is known to be on the panel.
    pub shown: bool,
    /// Whether the next write has to start from the init sequence.
    pub needs_init: bool,
    /// Whether a failure was logged and has not ended since.
    pub error_logged: bool,
    /// Whether the panel was switched off.
    pub dark: bool,
}

impl View for Panel {
    type V = PanelView;

    closed spec fn view(&self) -> PanelView {
        PanelView {
            shown: self.shown,
            needs_init: self.needs_init,
            error_logged: self.error_logged,
            dark: self.dark,
        }
    }
}

impl PanelView {
    /// What is remembered, and done next, at the start of a turn.
    pub open spec fn turned(self, wanted: bool) -> (PanelView, Turn) {
        if !wanted {
            if self.dark {
                (self, Turn::StayDark)
            } else {
                (PanelView { dark: true, shown: false, ..self }, Turn::SwitchOff)
            }
        } else if self.dark {
            (PanelView { dark: false, needs_init: true, ..self }, Turn::Draw { woken: true })
        } else {
            (self, Turn::Draw { woken: false })
        }
    }

    /// Whether a picture has to be written, given whether it is the one on the panel.
    pub open spec fn must_write(self, unchanged: bool) -> bool {
        self.needs_init || !self.shown || !unchanged
    }

    /// What is remembered after a write. A panel that was unplugged has lost its configuration, so
    /// after a failure the next attempt starts from the init sequence.
    pub open spec fn wrote(self, failed: bool) -> PanelView {
        if failed {
            PanelView { needs_init: true, shown: false, error_logged: true, ..self }
        } else {
            PanelView { needs_init: false, shown: true, error_logged: false, ..self }
        }
    }
}

impl Panel {
    /// A panel that was not written yet.
    pub fn new() -> (p: Self)
        ensures
            p@ == (PanelView { shown: false, needs_init: true, error_logged: false, dark: false }),
    {
        Panel { shown: false, needs_init: true, error_logged: false, dark: false }
    }

    /// What to do next, given whether the page is wanted on.
    pub fn turn(&mut self, wanted: bool) -> (t: Turn)
        ensures
            (final(self)@, t) == old(self)@.turned(wanted),
    {
        if !wanted {
            if self.dark {
                Turn::StayDark
            } else {
                self.dark = true;
                self.shown = false;
                Turn::SwitchOff
            }
        } else if self.dark {
            self.dark = false;
            self.needs_init = true;
            Turn::Draw { woken: true }
        } else {
            Turn::Draw { woken: false }
        }
    }

    /// Whether to write a picture, given whether it is the same as the last one written. Most
    /// redraws change nothing, and the bus is shared.
    pub fn wants_write(&self, unchanged: bool) -> (r: bool)
        ensures
            r == self@.must_write(unchanged),
    {
        self.needs_init || !self.shown || !unchanged
    }

    /// Whether the write has to start from the init sequence.
    pub fn wants_init(&self) -> (r: bool)
        ensures
            r == self@.needs_init,
    {
        self.needs_init
    }

    /// Takes what became of a write, and returns what to log: a failure and its end are each said
    /// once.
    pub fn wrote(&mut self, failure: Option<&str>) -> (log: Option<String>)
        ensures
            final(self)@ == old(self)@.wrote(failure is Some),
            match log {
                Some(s) => if failure is Some {
                    !old(self)@.error_logged && s@
                        == "argond: oled: write failed, will keep retrying: "@ + (failure->0)@
                } else {
                    old(self)@.error_logged && s@ == "argond: oled: display back"@
                },
                None => (failure is Some) == old(self)@.error_logged,
            },
    {
        match failure {
            None => {
                self.shown = true;
                self.needs_init = false;
                if self.error_logged {
                    self.error_logged = false;
                    Some("argond: oled: display back".to_owned())
                } else {
                    None
                }
            },
            Some(e) => {
                self.needs_init = true;
                self.shown = false;
                if !self.error_logged {
                    self.error_logged = true;
                    Some(join("argond: oled: write failed, will keep retrying: ", e))
                } else {
                    None
                }
            },
        }
    }
}

/// A panel that was switched off or failed is initialised again before anything is drawn on it.
pub proof fn law_a_panel_is_initialised_before_it_is_drawn(p: PanelView)
    ensures
        p.turned(false).0.turned(true).0.needs_init || !p.turned(false).0.dark,
        p.wrote(true).needs_init,
        p.wrote(true).must_write(true),
{
}

/// The panel is switched off once: while it stays unwanted, the next turn only sleeps.
pub proof fn law_the_panel_is_switched_off_once(p: PanelView)
    ensures
        p.turned(false).0.turned(false).1 == Turn::StayDark,
{
}

/// The switch says what it is: that there is no panel, or whether the page is wanted on.
pub proof fn law_the_switch_says_what_it_is(c: &OledControl, s: &'static str)
    requires
        call_ensures(OledControl::state, (c,), s),
    ensures
        s@ == "na"@ <==> !c.available(),
        s@ == "on"@ <==> c.available() && c.wanted(),
        s@ == "off"@ <==> c.available() && !c.wanted(),
{
    reveal_strlit("na");
    reveal_strlit("on");
    reveal_strlit("off");
    assert("na"@.len() == 2 && "on"@.len() == 2 && "off"@.len() == 3);
    assert("na"@[0] == 'n' && "on"@[0] == 'o');
}

/// Switching a panel that is there leaves it as it was asked for, and says to remember exactly that:
/// the marker stands for a page that was switched off. Without a panel nothing changes.
pub proof fn law_a_switched_panel_is_remembered(on: bool)
    ensures
        forall|c: &mut OledControl, r: Result<Remember, String>| #[trigger]
            call_ensures(OledControl::set, (c, on), r) ==> {
                &&& r is Ok <==> c.available()
                &&& c.available() ==> final(c).wanted() == on
                &&& !c.available() ==> final(c).wanted() == c.wanted()
                &&& r matches Ok(what) ==> {
                    &&& what == Remember::Nowhere <==> !c.remembers()
                    &&& what == Remember::WriteMarker <==> c.remembers() && !on
                    &&& what == Remember::RemoveMarker <==> c.remembers() && on
                }
                &&& final(c).available() == c.available()
            },
        forall|c: OledControl, m: Option<bool>| #[trigger]
            call_ensures(OledControl::new, (m,), c) ==> (c.wanted() <==> m != Some(true))
                && !c.available() && (c.remembers() <==> m is Some),
{
}

/// The page is drawn exactly where it was enabled, the configured mode writes, and the vendor's daemon
/// does not run; on the bus that was configured.
pub proof fn law_the_page_is_drawn_where_it_may_be(config: &Config, active_units: &[String], s: Start)
    requires
        call_ensures(start, (config, active_units), s),
    ensures
        s is Look <==> config.oled.enabled && (config.mode@ == "managed"@ || config.mode@ == "full"@)
            && !texts(active_units@).contains("argononed.service"@),
        s matches Start::Look(bus) ==> (bus is None <==> config.mcu.bus@ == "auto"@) && (bus is Some
            ==> (bus->0)@ == config.mcu.bus@),
{
    reveal_strlit("read-only");
    reveal_strlit("managed");
    reveal_strlit("full");
    assert("read-only"@.len() == 9 && "managed"@.len() == 7 && "full"@.len() == 4);
}

/// A panel that is wanted is drawn, and one that is not is switched off, once; one that was dark is
/// brought up again from its initialisation.
pub proof fn law_a_wanted_panel_is_drawn(p: PanelView)
    ensures
        p.turned(true).1 is Draw,
        p.turned(true).1 == (Turn::Draw { woken: p.dark }),
        !p.turned(true).0.dark,
        p.dark ==> p.turned(true).0.needs_init,
        !(p.turned(false).1 is Draw),
        p.turned(false).1 == Turn::SwitchOff <==> !p.dark,
        p.turned(false).0.dark,
        !p.dark ==> !p.turned(false).0.shown,
{
}

/// A page that has not changed is not written again, unless the panel has to be initialised or shows
/// nothing; one that has changed is always written. A write that succeeded is shown.
pub proof fn law_only_a_changed_page_is_written(p: PanelView)
    ensures
        p.must_write(false),
        p.must_write(true) <==> p.needs_init || !p.shown,
        !p.wrote(false).must_write(true),
        p.wrote(false).shown && !p.wrote(false).needs_init,
        p.wrote(true).must_write(true) && p.wrote(true).must_write(false),
        p.wrote(true).dark == p.dark && p.wrote(false).dark == p.dark,
{
}

/// A failure to draw, and its end, are each said once.
pub proof fn law_a_failed_display_is_said_once(e: &str)
    ensures
        forall|p: &mut Panel, log: Option<String>| #[trigger]
            call_ensures(Panel::wrote, (p, Some(e)), log) ==> (log is Some <==> !p@.error_logged)
                && final(p)@.error_logged && final(p)@.needs_init,
        forall|p: &mut Panel, log: Option<String>| #[trigger]
            call_ensures(Panel::wrote, (p, None::<&str>), log) ==> (log is Some <==> p@.error_logged)
                && !final(p)@.error_logged && final(p)@.shown,
{
}

} // verus!
