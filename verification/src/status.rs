//! Whole-mod status snapshot: every subsystem's state in one report.
//!
//! The report is rendered as a few human-readable comment lines followed
//! by a JSON object; the reader overwrites its file on each refresh, so
//! only the latest snapshot is kept.

use vstd::prelude::*;
use crate::text::{decimal, hex, json_quoted, push_decimal, push_hex};

verus! {

/// State of one subsystem (aligned with issue severity).
#[derive(Debug, Clone, Copy, PartialEq, Eq, Structural)]
pub enum State {
    /// Fully working.
    Okay,
    /// Partly working, not fatal (such as a shared-memory fallback).
    Degraded,
    /// A key function failed.
    Error,
    /// Switched off by the user.
    Disabled,
    /// Not in use.
    NotApplicable,
}

/// The name of a state in the report.
pub open spec fn state_name(s: State) -> Seq<char> {
    match s {
        State::Okay => "ok"@,
        State::Degraded => "degraded"@,
        State::Error => "error"@,
        State::Disabled => "disabled"@,
        State::NotApplicable => "n/a"@,
    }
}

impl State {
    /// The name of the state in the report.
    pub fn as_str(self) -> (res: &'static str)
        ensures
            res@ == state_name(self),
    {
        match self {
            State::Okay => "ok",
            State::Degraded => "degraded",
            State::Error => "error",
            State::Disabled => "disabled",
            State::NotApplicable => "n/a",
        }
    }
}

/// Report of one subsystem.
#[derive(Debug)]
pub struct SubEntry {
    pub state: State,
    pub details: String,
}

impl SubEntry {
    pub fn ok(details: String) -> (res: Self)
        ensures
            res.state == State::Okay,
            res.details@ == details@,
    {
        SubEntry { state: State::Okay, details }
    }

    pub fn degraded(details: String) -> (res: Self)
        ensures
            res.state == State::Degraded,
            res.details@ == details@,
    {
        SubEntry { state: State::Degraded, details }
    }

    pub fn error(details: String) -> (res: Self)
        ensures
            res.state == State::Error,
            res.details@ == details@,
    {
        SubEntry { state: State::Error, details }
    }

    pub fn disabled(details: String) -> (res: Self)
        ensures
            res.state == State::Disabled,
            res.details@ == details@,
    {
        SubEntry { state: State::Disabled, details }
    }

    pub fn na(details: String) -> (res: Self)
        ensures
            res.state == State::NotApplicable,
            res.details@ == details@,
    {
        SubEntry { state: State::NotApplicable, details }
    }
}

/// One recent error.
#[derive(Debug)]
pub struct ErrorEntry {
    pub ts: String,
    pub level: String,
    pub msg: String,
}

/// The complete status report.
pub struct StatusReport {
    pub mod_version: &'static str,
    pub native_version: &'static str,
    pub uptime_s: u64,
    pub java_thread: String,
    pub subsystems: Vec<(&'static str, SubEntry)>,
    pub metrics: Vec<(&'static str, String)>,
    pub errors: Vec<ErrorEntry>,
}

/// Health of the host input-method bridge, when there is one.
#[derive(Debug, Clone, Copy)]
pub struct BridgeHealth {
    pub ready: bool,
    pub dead: bool,
}

/// What the compositor knows when a report is gathered.
pub struct StatusFacts {
    pub egl_display: u64,
    pub host_bridge: Option<BridgeHealth>,
    /// The X display of the running Xwayland satellite.
    pub satellite_display: Option<String>,
    pub ime_has_focus: bool,
    pub ti3_instances: usize,
    pub xim_clients: usize,
    pub dmabuf: bool,
    pub socket: String,
    pub uptime_s: u64,
    pub toplevels: usize,
    pub popups: usize,
    pub errors: Vec<ErrorEntry>,
    pub native_version: &'static str,
}

/// A subsystem line as plain values: name, state, details.
pub type SubView = (Seq<char>, State, Seq<char>);

pub open spec fn subs_view(s: Seq<(&'static str, SubEntry)>) -> Seq<SubView> {
    s.map_values(|p: (&'static str, SubEntry)| (p.0@, p.1.state, p.1.details@))
}

pub open spec fn metrics_view(m: Seq<(&'static str, String)>) -> Seq<(Seq<char>, Seq<char>)> {
    m.map_values(|p: (&'static str, String)| (p.0@, p.1@))
}

/// The host bridge line.
pub open spec fn bridge_line(hb: Option<BridgeHealth>) -> SubView {
    match hb {
        Some(h) => if h.ready {
            ("host_bridge"@, State::Okay, "dbus-ibus → active"@)
        } else if h.dead {
            ("host_bridge"@, State::Error, "worker channel closed; ibus disconnected"@)
        } else {
            ("host_bridge"@, State::Degraded, "not ready (transient init)"@)
        },
        None => ("host_bridge"@, State::Error, "host_bridge = None; ibus/fcitx5 not bridged"@),
    }
}

/// The Xwayland satellite line.
pub open spec fn satellite_line(display: Option<Seq<char>>) -> SubView {
    match display {
        Some(d) => ("xwayland_satellite"@, State::Okay, "DISPLAY="@ + d),
        None => ("xwayland_satellite"@, State::Degraded, "not started; X11 apps can't connect via :2"@),
    }
}

/// The text-input line: degraded while a focused app has ti3 instances.
pub open spec fn ti3_line(focus: bool, instances: nat) -> SubView {
    if focus {
        if instances > 0 {
            (
                "ime_ti3"@,
                State::Degraded,
                decimal(instances) + " ti3 instance(s) enabled; ibus may not respond (issue #1)"@,
            )
        } else {
            ("ime_ti3"@, State::Okay, "focused but no ti3 client bound"@)
        }
    } else {
        ("ime_ti3"@, State::Disabled, "no focus"@)
    }
}

pub open spec fn xim_line(clients: nat) -> SubView {
    if clients > 0 {
        ("ime_xim"@, State::Okay, decimal(clients) + " XIM clients"@)
    } else {
        ("ime_xim"@, State::Disabled, "no XIM clients bound"@)
    }
}

pub open spec fn dmabuf_line(available: bool) -> SubView {
    if available {
        ("dmabuf"@, State::Okay, "DmabufGlobal available"@)
    } else {
        ("dmabuf"@, State::Degraded, "no render node; shm fallback used"@)
    }
}

/// The subsystem lines of a report, in order.
pub open spec fn gathered_subsystems(f: StatusFacts) -> Seq<SubView> {
    seq![
        ("native_lib"@, State::Okay, "loaded libwaylandcraft-linux-gnu-x86_64.so"@),
        ("egl_display"@, State::Okay, "0x"@ + hex(f.egl_display as nat)),
        ("wayland_display"@, State::NotApplicable, "see Java side log"@),
        bridge_line(f.host_bridge),
        satellite_line(
            match f.satellite_display {
                Some(d) => Some(d@),
                None => None,
            },
        ),
        ("seat"@, State::Okay, "WlSeat global + keyboard + pointer"@),
        ti3_line(f.ime_has_focus, f.ti3_instances as nat),
        xim_line(f.xim_clients as nat),
        ("audio_capture"@, State::NotApplicable, "see waylandcraft-audio.log"@),
        ("portal_capture"@, State::NotApplicable, "see waylandcraft-launch.log"@),
        ("egl_context"@, State::Okay, "Mesa llvmpipe / Intel / AMD (per system)"@),
        ("shm"@, State::Okay, "ShmState registered"@),
        ("xdg_shell"@, State::Okay, "XdgShellState registered"@),
        ("viewporter"@, State::Okay, "global v1"@),
        ("single_pixel"@, State::Okay, "global v3"@),
        dmabuf_line(f.dmabuf),
        ("cursor_shape"@, State::Okay, "WpCursorShapeManagerV1 v2"@),
        ("pointer_constraints"@, State::Okay, "ZwpPointerConstraintsV1 v1"@),
        ("relative_pointer"@, State::Okay, "ZwpRelativePointerManagerV1 v1"@),
    ]
}

/// The metrics of a report, in order.
pub open spec fn gathered_metrics(f: StatusFacts) -> Seq<(Seq<char>, Seq<char>)> {
    seq![
        ("wlc_socket"@, f.socket@),
        ("uptime_s"@, decimal(f.uptime_s as nat)),
        ("toplevels"@, decimal(f.toplevels as nat)),
        ("popups"@, decimal(f.popups as nat)),
    ]
}

/// The number of subsystems in state `st`.
pub open spec fn count_state(subs: Seq<SubView>, st: State) -> nat
    decreases subs.len(),
{
    if subs.len() == 0 {
        0
    } else {
        count_state(subs.drop_last(), st) + if subs.last().1 == st { 1nat } else { 0nat }
    }
}

/// Every subsystem is counted in exactly one state of the summary.
pub proof fn law_summary_counts_every_subsystem(subs: Seq<SubView>)
    ensures
        count_state(subs, State::Okay) + count_state(subs, State::Degraded) + count_state(subs, State::Error)
            + count_state(subs, State::Disabled) + count_state(subs, State::NotApplicable) == subs.len(),
    decreases subs.len(),
{
    if subs.len() > 0 {
        law_summary_counts_every_subsystem(subs.drop_last());
    }
}

/// The one-line summary: how many subsystems are in each state.
pub open spec fn summary_text(subs: Seq<SubView>) -> Seq<char> {
    decimal(count_state(subs, State::Okay)) + " ok, "@ + decimal(count_state(subs, State::Degraded))
        + " degraded, "@ + decimal(count_state(subs, State::Error)) + " error, "@ + decimal(
        count_state(subs, State::Disabled),
    ) + " disabled, "@ + decimal(count_state(subs, State::NotApplicable)) + " n/a"@
}

/// A comma after every entry but the last.
pub open spec fn comma(i: int, len: int) -> Seq<char> {
    if i + 1 < len { ","@ } else { ""@ }
}

pub open spec fn sub_line(s: SubView, c: Seq<char>) -> Seq<char> {
    "    \""@ + s.0 + "\": { \"state\": \""@ + state_name(s.1) + "\", \"details\": "@ + json_quoted(s.2)
        + " }"@ + c + "\n"@
}

/// The first `k` subsystem lines.
pub open spec fn sub_lines(subs: Seq<SubView>, k: int) -> Seq<char>
    decreases k,
{
    if k <= 0 {
        Seq::empty()
    } else {
        sub_lines(subs, k - 1) + sub_line(subs[k - 1], comma(k - 1, subs.len() as int))
    }
}

pub open spec fn metric_line(m: (Seq<char>, Seq<char>), c: Seq<char>) -> Seq<char> {
    "    \""@ + m.0 + "\": "@ + json_quoted(m.1) + c + "\n"@
}

pub open spec fn metric_lines(ms: Seq<(Seq<char>, Seq<char>)>, k: int) -> Seq<char>
    decreases k,
{
    if k <= 0 {
        Seq::empty()
    } else {
        metric_lines(ms, k - 1) + metric_line(ms[k - 1], comma(k - 1, ms.len() as int))
    }
}

pub open spec fn error_line(e: ErrorEntry, c: Seq<char>) -> Seq<char> {
    "    { \"ts\": "@ + json_quoted(e.ts@) + ", \"level\": "@ + json_quoted(e.level@) + ", \"msg\": "@
        + json_quoted(e.msg@) + " }"@ + c + "\n"@
}

pub open spec fn error_lines(es: Seq<ErrorEntry>, k: int) -> Seq<char>
    decreases k,
{
    if k <= 0 {
        Seq::empty()
    } else {
        error_lines(es, k - 1) + error_line(es[k - 1], comma(k - 1, es.len() as int))
    }
}

/// A rendered report: comment lines with the versions, the state summary,
/// the Java thread and the error count, a blank line, then the JSON object.
pub open spec fn rendered(r: StatusReport) -> Seq<char> {
    let subs = subs_view(r.subsystems@);
    let ms = metrics_view(r.metrics@);
    "# WaylandCraft Status v"@ + r.mod_version@ + " (native v"@ + r.native_version@
        + ") — overwritten each refresh\n"@ + "# Subsystems: "@ + summary_text(subs) + "\n"@
        + "# Java thread: "@ + r.java_thread@ + "\n"@ + "# Errors: "@ + decimal(r.errors@.len()) + "\n"@
        + "\n"@ + "{\n"@ + "  \"version\": \""@ + r.mod_version@ + "\",\n"@ + "  \"native_version\": \""@
        + r.native_version@ + "\",\n"@ + "  \"uptime_s\": "@ + decimal(r.uptime_s as nat) + ",\n"@
        + "  \"java_thread\": \""@ + r.java_thread@ + "\",\n"@ + "  \"subsystems\": {\n"@ + sub_lines(
        subs,
        subs.len() as int,
    ) + "  },\n"@ + "  \"metrics\": {\n"@ + metric_lines(ms, ms.len() as int) + "  },\n"@
        + "  \"errors\": [\n"@ + error_lines(r.errors@, r.errors@.len() as int) + "  ]\n"@ + "}\n"@
}

fn push_decimal_usize(s: &mut String, n: usize)
    ensures
        final(s)@ == old(s)@ + decimal(n as nat),
{
    push_decimal(s, n as u64);
}

fn push_sub_line(out: &mut String, name: &str, e: &SubEntry, c: &str)
    ensures
        final(out)@ == old(out)@ + sub_line((name@, e.state, e.details@), c@),
{
    out.append("    \"");
    out.append(name);
    out.append("\": { \"state\": \"");
    out.append(e.state.as_str());
    out.append("\", \"details\": ");
    let q = crate::text::escape_json(e.details.as_str());
    out.append(q.as_str());
    out.append(" }");
    out.append(c);
    out.append("\n");
    assert(final(out)@ =~= old(out)@ + sub_line((name@, e.state, e.details@), c@));
}

fn push_metric_line(out: &mut String, k: &str, v: &str, c: &str)
    ensures
        final(out)@ == old(out)@ + metric_line((k@, v@), c@),
{
    out.append("    \"");
    out.append(k);
    out.append("\": ");
    let q = crate::text::escape_json(v);
    out.append(q.as_str());
    out.append(c);
    out.append("\n");
    assert(final(out)@ =~= old(out)@ + metric_line((k@, v@), c@));
}

fn push_error_line(out: &mut String, e: &ErrorEntry, c: &str)
    ensures
        final(out)@ == old(out)@ + error_line(*e, c@),
{
    out.append("    { \"ts\": ");
    let q = crate::text::escape_json(e.ts.as_str());
    out.append(q.as_str());
    out.append(", \"level\": ");
    let q = crate::text::escape_json(e.level.as_str());
    out.append(q.as_str());
    out.append(", \"msg\": ");
    let q = crate::text::escape_json(e.msg.as_str());
    out.append(q.as_str());
    out.append(" }");
    out.append(c);
    out.append("\n");
    assert(final(out)@ =~= old(out)@ + error_line(*e, c@));
}

fn comma_str(i: usize, len: usize) -> (res: &'static str)
    requires
        i < len,
    ensures
        res@ == comma(i as int, len as int),
{
    if i + 1 < len { "," } else { "" }
}

impl StatusReport {
    /// Builds the report from what the compositor knows: the fixed list of
    /// subsystems with the states that the facts decide, and the metrics.
    pub fn gather(facts: StatusFacts, java_thread: String, mod_version: &'static str) -> (res: Self)
        ensures
            subs_view(res.subsystems@) == gathered_subsystems(facts),
            metrics_view(res.metrics@) == gathered_metrics(facts),
            res.mod_version == mod_version,
            res.native_version == facts.native_version,
            res.uptime_s == facts.uptime_s,
            res.java_thread@ == java_thread@,
            res.errors@ == facts.errors@,
    {
        let ghost f = facts;
        let mut subsystems: Vec<(&'static str, SubEntry)> = Vec::new();
        subsystems.push(("native_lib", SubEntry::ok(String::from_str("loaded libwaylandcraft-linux-gnu-x86_64.so"))));
        let mut egl = String::from_str("0x");
        push_hex(&mut egl, facts.egl_display);
        subsystems.push(("egl_display", SubEntry::ok(egl)));
        subsystems.push(("wayland_display", SubEntry::na(String::from_str("see Java side log"))));
        let bridge = match facts.host_bridge {
            Some(hb) => if hb.ready {
                SubEntry::ok(String::from_str("dbus-ibus → active"))
            } else if hb.dead {
                SubEntry::error(String::from_str("worker channel closed; ibus disconnected"))
            } else {
                SubEntry::degraded(String::from_str("not ready (transient init)"))
            },
            None => SubEntry::error(String::from_str("host_bridge = None; ibus/fcitx5 not bridged")),
        };
        subsystems.push(("host_bridge", bridge));
        let sat = match &facts.satellite_display {
            Some(d) => {
                let mut s = String::from_str("DISPLAY=");
                s.append(d.as_str());
                SubEntry::ok(s)
            },
            None => SubEntry::degraded(String::from_str("not started; X11 apps can't connect via :2")),
        };
        subsystems.push(("xwayland_satellite", sat));
        subsystems.push(("seat", SubEntry::ok(String::from_str("WlSeat global + keyboard + pointer"))));
        let ti3 = if facts.ime_has_focus {
            if facts.ti3_instances > 0 {
                let mut s = String::new();
                push_decimal_usize(&mut s, facts.ti3_instances);
                s.append(" ti3 instance(s) enabled; ibus may not respond (issue #1)");
                SubEntry::degraded(s)
            } else {
                SubEntry::ok(String::from_str("focused but no ti3 client bound"))
            }
        } else {
            SubEntry::disabled(String::from_str("no focus"))
        };
        subsystems.push(("ime_ti3", ti3));
        let xim = if facts.xim_clients > 0 {
            let mut s = String::new();
            push_decimal_usize(&mut s, facts.xim_clients);
            s.append(" XIM clients");
            SubEntry::ok(s)
        } else {
            SubEntry::disabled(String::from_str("no XIM clients bound"))
        };
        subsystems.push(("ime_xim", xim));
        subsystems.push(("audio_capture", SubEntry::na(String::from_str("see waylandcraft-audio.log"))));
        subsystems.push(("portal_capture", SubEntry::na(String::from_str("see waylandcraft-launch.log"))));
        subsystems.push(("egl_context", SubEntry::ok(String::from_str("Mesa llvmpipe / Intel / AMD (per system)"))));
        subsystems.push(("shm", SubEntry::ok(String::from_str("ShmState registered"))));
        subsystems.push(("xdg_shell", SubEntry::ok(String::from_str("XdgShellState registered"))));
        subsystems.push(("viewporter", SubEntry::ok(String::from_str("global v1"))));
        subsystems.push(("single_pixel", SubEntry::ok(String::from_str("global v3"))));
        let dmabuf = if facts.dmabuf {
            SubEntry::ok(String::from_str("DmabufGlobal available"))
        } else {
            SubEntry::degraded(String::from_str("no render node; shm fallback used"))
        };
        subsystems.push(("dmabuf", dmabuf));
        subsystems.push(("cursor_shape", SubEntry::ok(String::from_str("WpCursorShapeManagerV1 v2"))));
        subsystems.push(("pointer_constraints", SubEntry::ok(String::from_str("ZwpPointerConstraintsV1 v1"))));
        subsystems.push(("relative_pointer", SubEntry::ok(String::from_str("ZwpRelativePointerManagerV1 v1"))));
        assert(subs_view(subsystems@) =~= gathered_subsystems(f));

        let mut metrics: Vec<(&'static str, String)> = Vec::new();
        metrics.push(("wlc_socket", facts.socket));
        let mut up = String::new();
        push_decimal(&mut up, facts.uptime_s);
        metrics.push(("uptime_s", up));
        let mut tl = String::new();
        push_decimal_usize(&mut tl, facts.toplevels);
        metrics.push(("toplevels", tl));
        let mut pp = String::new();
        push_decimal_usize(&mut pp, facts.popups);
        metrics.push(("popups", pp));
        assert(metrics_view(metrics@) =~= gathered_metrics(f));

        StatusReport {
            mod_version,
            native_version: facts.native_version,
            uptime_s: facts.uptime_s,
            java_thread,
            subsystems,
            metrics,
            errors: facts.errors,
        }
    }

    /// The one-line summary of subsystem states:
    /// `"{ok} ok, {degraded} degraded, {error} error, {disabled} disabled, {n/a} n/a"`.
    pub fn subsystem_summary(&self) -> (res: String)
        ensures
            res@ == summary_text(subs_view(self.subsystems@)),
    {
        let ghost subs = subs_view(self.subsystems@);
        let mut counts: [usize; 5] = [0, 0, 0, 0, 0];
        let n = self.subsystems.len();
        let mut i: usize = 0;
        while i < n
            invariant
                n == self.subsystems@.len(),
                subs == subs_view(self.subsystems@),
                i <= n,
                counts@.len() == 5,
                counts@[0] == count_state(subs.take(i as int), State::Okay),
                counts@[1] == count_state(subs.take(i as int), State::Degraded),
                counts@[2] == count_state(subs.take(i as int), State::Error),
                counts@[3] == count_state(subs.take(i as int), State::Disabled),
                counts@[4] == count_state(subs.take(i as int), State::NotApplicable),
                forall|k: int| 0 <= k < 5 ==> counts@[k] <= i,
            decreases n - i,
        {
            proof {
                assert(subs.take(i + 1).drop_last() =~= subs.take(i as int));
                assert(subs.take(i + 1).last() == subs[i as int]);
            }
            let slot: usize = match self.subsystems[i].1.state {
                State::Okay => 0,
                State::Degraded => 1,
                State::Error => 2,
                State::Disabled => 3,
                State::NotApplicable => 4,
            };
            counts.set(slot, counts[slot] + 1);
            i = i + 1;
        }
        assert(subs.take(n as int) =~= subs);
        let mut out = String::new();
        push_decimal_usize(&mut out, counts[0]);
        out.append(" ok, ");
        push_decimal_usize(&mut out, counts[1]);
        out.append(" degraded, ");
        push_decimal_usize(&mut out, counts[2]);
        out.append(" error, ");
        push_decimal_usize(&mut out, counts[3]);
        out.append(" disabled, ");
        push_decimal_usize(&mut out, counts[4]);
        out.append(" n/a");
        assert(out@ =~= summary_text(subs));
        out
    }

    fn render_subsystems(&self, out: &mut String)
        ensures
            final(out)@ == old(out)@ + sub_lines(
                subs_view(self.subsystems@),
                self.subsystems@.len() as int,
            ),
    {
        let ghost subs = subs_view(self.subsystems@);
        let ghost start = out@;
        let n = self.subsystems.len();
        let mut i: usize = 0;
        assert(start + sub_lines(subs, 0) =~= start);
        while i < n
            invariant
                n == self.subsystems@.len(),
                subs == subs_view(self.subsystems@),
                i <= n,
                out@ == start + sub_lines(subs, i as int),
            decreases n - i,
        {
            let (name, e) = &self.subsystems[i];
            let c = comma_str(i, n);
            push_sub_line(out, name, e, c);
            assert(subs[i as int] == (name@, e.state, e.details@));
            assert(out@ =~= start + sub_lines(subs, i + 1));
            i = i + 1;
        }
    }

    fn render_metrics(&self, out: &mut String)
        ensures
            final(out)@ == old(out)@ + metric_lines(metrics_view(self.metrics@), self.metrics@.len() as int),
    {
        let ghost ms = metrics_view(self.metrics@);
        let ghost start = out@;
        let n = self.metrics.len();
        let mut i: usize = 0;
        assert(start + metric_lines(ms, 0) =~= start);
        while i < n
            invariant
                n == self.metrics@.len(),
                ms == metrics_view(self.metrics@),
                i <= n,
                out@ == start + metric_lines(ms, i as int),
            decreases n - i,
        {
            let (k, v) = &self.metrics[i];
            let c = comma_str(i, n);
            push_metric_line(out, k, v.as_str(), c);
            assert(ms[i as int] == (k@, v@));
            assert(out@ =~= start + metric_lines(ms, i + 1));
            i = i + 1;
        }
    }

    fn render_errors(&self, out: &mut String)
        ensures
            final(out)@ == old(out)@ + error_lines(self.errors@, self.errors@.len() as int),
    {
        let ghost start = out@;
        let n = self.errors.len();
        let mut i: usize = 0;
        assert(start + error_lines(self.errors@, 0) =~= start);
        while i < n
            invariant
                n == self.errors@.len(),
                i <= n,
                out@ == start + error_lines(self.errors@, i as int),
            decreases n - i,
        {
            let c = comma_str(i, n);
            push_error_line(out, &self.errors[i], c);
            assert(out@ =~= start + error_lines(self.errors@, i + 1));
            i = i + 1;
        }
    }

    /// Renders the report (see [`rendered`]).
    pub fn to_json(&self) -> (res: String)
        ensures
            res@ == rendered(*self),
    {
        let mut out = String::from_str("# WaylandCraft Status v");
        out.append(self.mod_version);
        out.append(" (native v");
        out.append(self.native_version);
        out.append(") — overwritten each refresh\n");
        out.append("# Subsystems: ");
        let summary = self.subsystem_summary();
        out.append(summary.as_str());
        out.append("\n");
        out.append("# Java thread: ");
        out.append(self.java_thread.as_str());
        out.append("\n");
        out.append("# Errors: ");
        push_decimal_usize(&mut out, self.errors.len());
        out.append("\n");
        out.append("\n");
        out.append("{\n");
        out.append("  \"version\": \"");
        out.append(self.mod_version);
        out.append("\",\n");
        out.append("  \"native_version\": \"");
        out.append(self.native_version);
        out.append("\",\n");
        out.append("  \"uptime_s\": ");
        push_decimal(&mut out, self.uptime_s);
        out.append(",\n");
        out.append("  \"java_thread\": \"");
        out.append(self.java_thread.as_str());
        out.append("\",\n");
        out.append("  \"subsystems\": {\n");
        self.render_subsystems(&mut out);
        out.append("  },\n");
        out.append("  \"metrics\": {\n");
        self.render_metrics(&mut out);
        out.append("  },\n");
        out.append("  \"errors\": [\n");
        self.render_errors(&mut out);
        out.append("  ]\n");
        out.append("}\n");
        out
    }
}

} // verus!
