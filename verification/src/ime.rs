//! Input-method facade state of the compositor.
//!
//! Text-input (ti3) decisions of the nested application are turned into
//! downward events for the host bridge; upward batches from the host input
//! method are reduced to what is delivered to the active ti3 instance: the
//! last preedit, the last deletion and the last commit of the batch, in
//! that order, followed by `done`. Candidate windows are kept as a
//! snapshot that the Java side polls.

use vstd::prelude::*;
use crate::ime_event::{
    CursorRect, DownEvent, DownEventView, FocusChange, LookupTableView, PreeditView, SurroundingText,
    SurroundingView, UpEvent, UpEventView, strings_view, up_events_view,
};
use crate::keyboard::KeyboardAction;
use crate::host_ime::probe::joined;
use crate::text::{decimal, json_quoted, push_decimal, push_escaped};

verus! {

/// Candidate-window snapshot (normalised host input-method data).
#[derive(Debug, Clone, PartialEq)]
pub struct LookupTableSnapshot {
    pub candidates: Vec<String>,
    pub labels: Vec<String>,
    pub cursor_pos: u32,
    pub cursor_visible: bool,
    pub page_size: u32,
    pub orientation: u32,
    pub visible: bool,
}

impl View for LookupTableSnapshot {
    type V = LookupTableView;

    open spec fn view(&self) -> LookupTableView {
        LookupTableView {
            candidates: strings_view(self.candidates@),
            labels: strings_view(self.labels@),
            cursor_pos: self.cursor_pos,
            cursor_visible: self.cursor_visible,
            page_size: self.page_size,
            orientation: self.orientation,
            visible: self.visible,
        }
    }
}

/// The empty, hidden candidate window.
pub open spec fn empty_table() -> LookupTableView {
    LookupTableView {
        candidates: Seq::empty(),
        labels: Seq::empty(),
        cursor_pos: 0,
        cursor_visible: false,
        page_size: 0,
        orientation: 0,
        visible: false,
    }
}

impl Default for LookupTableSnapshot {
    fn default() -> (res: Self)
        ensures
            res@ == empty_table(),
    {
        let res = LookupTableSnapshot {
            candidates: Vec::new(),
            labels: Vec::new(),
            cursor_pos: 0,
            cursor_visible: false,
            page_size: 0,
            orientation: 0,
            visible: false,
        };
        assert(strings_view(Seq::<String>::empty()) =~= Seq::<Seq<char>>::empty());
        res
    }
}

/// State of a ti3 instance as committed by the application.
#[derive(Debug, Clone)]
pub struct Ti3Snapshot {
    pub surrounding_text: String,
    pub cursor: u32,
    pub anchor: u32,
    /// Cursor rectangle `(x, y, w, h)`, when the application gave one.
    pub cursor_rect: Option<(i32, i32, i32, i32)>,
}

/// Protocol-independent decision on a ti3 commit.
#[derive(Debug, Clone)]
pub enum Ti3Outcome {
    /// The commit belongs to an instance that is not focused, known or active.
    Ignored,
    /// The instance asks to be enabled, with its state.
    Enabled(Ti3Snapshot),
    /// The active instance asks to be disabled.
    Disabled,
    /// An inactive instance asks to be disabled (no effect).
    DisabledInactive,
    /// A state commit while active, with the latest state.
    State(Ti3Snapshot),
}

/// Lifecycle of the input-method bridge.
///
/// Normal flow: Disconnected → Connecting → Connected → Focused → Idle;
/// composing: Idle → Composing → Candidate → Idle, or
/// Idle → Composing → Committing → Idle. Errors: any → Error → Recovering
/// → Connected.
#[derive(Debug, Clone, Copy, PartialEq, Eq, Structural)]
pub enum ImeStateMachine {
    /// The host bridge is not started.
    Disconnected,
    /// The host bridge is being probed.
    Connecting,
    /// The host bridge is ready, no application has focus.
    Connected,
    /// The application enabled ti3 and can receive keys.
    Focused,
    Idle,
    Composing,
    Candidate,
    Committing,
    Error,
    Recovering,
}

impl Default for ImeStateMachine {
    fn default() -> (res: Self)
        ensures
            res == ImeStateMachine::Disconnected,
    {
        ImeStateMachine::Disconnected
    }
}

/// The name of a state, as its `Debug` form writes it.
pub open spec fn state_name(s: ImeStateMachine) -> Seq<char> {
    match s {
        ImeStateMachine::Disconnected => "Disconnected"@,
        ImeStateMachine::Connecting => "Connecting"@,
        ImeStateMachine::Connected => "Connected"@,
        ImeStateMachine::Focused => "Focused"@,
        ImeStateMachine::Idle => "Idle"@,
        ImeStateMachine::Composing => "Composing"@,
        ImeStateMachine::Candidate => "Candidate"@,
        ImeStateMachine::Committing => "Committing"@,
        ImeStateMachine::Error => "Error"@,
        ImeStateMachine::Recovering => "Recovering"@,
    }
}

/// The log line of a move between two states.
pub open spec fn transition_line(from: ImeStateMachine, to: ImeStateMachine) -> Seq<char> {
    "IME_STATE: "@ + state_name(from) + " -> "@ + state_name(to)
}

impl ImeStateMachine {
    /// The name of the state.
    pub fn state_name(&self) -> (res: &'static str)
        ensures
            res@ == state_name(*self),
    {
        match self {
            ImeStateMachine::Disconnected => "Disconnected",
            ImeStateMachine::Connecting => "Connecting",
            ImeStateMachine::Connected => "Connected",
            ImeStateMachine::Focused => "Focused",
            ImeStateMachine::Idle => "Idle",
            ImeStateMachine::Composing => "Composing",
            ImeStateMachine::Candidate => "Candidate",
            ImeStateMachine::Committing => "Committing",
            ImeStateMachine::Error => "Error",
            ImeStateMachine::Recovering => "Recovering",
        }
    }

    /// Moves to `to`. A real move gives its log line
    /// (`IME_STATE: <from> -> <to>`); a move to the same state changes
    /// nothing and gives none.
    pub fn transition(&mut self, to: Self) -> (line: Option<String>)
        ensures
            *final(self) == to,
            match line {
                Some(l) => *old(self) != to && l@ == transition_line(*old(self), to),
                None => *old(self) == to,
            },
    {
        if *self != to {
            let mut l = String::from_str("IME_STATE: ");
            l.append(self.state_name());
            l.append(" -> ");
            l.append(to.state_name());
            *self = to;
            Some(l)
        } else {
            None
        }
    }
}

/// Input-method state of the compositor, as plain values.
pub struct ImeView {
    pub app_active: bool,
    pub state: ImeStateMachine,
    pub has_focus: bool,
    pub lookup_table: Option<LookupTableView>,
    pub grabbed: bool,
}

/// Input-method facade state.
pub struct ImeState {
    /// Whether a text-input session is active (ti3 enabled and focused).
    app_active: bool,
    state: ImeStateMachine,
    /// Whether keyboard focus is on a text-input surface.
    has_focus: bool,
    /// The latest candidate-window snapshot, until it is taken.
    lookup_table: Option<LookupTableSnapshot>,
    /// Whether an input-method grab holds the keyboard.
    im2_grab_active: bool,
}

pub open spec fn snapshot_view(o: Option<LookupTableSnapshot>) -> Option<LookupTableView> {
    match o {
        Some(s) => Some(s@),
        None => None,
    }
}

impl View for ImeState {
    type V = ImeView;

    closed spec fn view(&self) -> ImeView {
        ImeView {
            app_active: self.app_active,
            state: self.state,
            has_focus: self.has_focus,
            lookup_table: snapshot_view(self.lookup_table),
            grabbed: self.im2_grab_active,
        }
    }
}

/// The initial state: nothing active, focused or grabbed, no snapshot.
pub open spec fn initial_ime() -> ImeView {
    ImeView {
        app_active: false,
        state: ImeStateMachine::Disconnected,
        has_focus: false,
        lookup_table: None,
        grabbed: false,
    }
}

impl Default for ImeState {
    fn default() -> (res: Self)
        ensures
            res@ == initial_ime(),
    {
        ImeState {
            app_active: false,
            state: ImeStateMachine::Disconnected,
            has_focus: false,
            lookup_table: None,
            im2_grab_active: false,
        }
    }
}

/// The events that tell the host bridge a ti3 state: the surrounding text
/// when there is text or a selection, then the cursor rectangle when known.
pub open spec fn state_events(s: Ti3Snapshot) -> Seq<DownEventView> {
    (if s.surrounding_text@.len() > 0 || s.cursor != s.anchor {
        seq![DownEventView::Surrounding(SurroundingView { text: s.surrounding_text@, cursor: s.cursor, anchor: s.anchor })]
    } else {
        Seq::empty()
    }) + match s.cursor_rect {
        Some((x, y, w, h)) => seq![DownEventView::CursorRect(CursorRect { x, y, w, h })],
        None => Seq::empty(),
    }
}

/// The downward events of a ti3 outcome for a ready host bridge.
pub open spec fn outcome_events(o: Ti3Outcome) -> Seq<DownEventView> {
    match o {
        Ti3Outcome::Enabled(s) => seq![DownEventView::State(FocusChange::Activate)] + state_events(s),
        Ti3Outcome::Disabled => seq![DownEventView::State(FocusChange::Deactivate)],
        Ti3Outcome::State(s) => state_events(s),
        _ => Seq::empty(),
    }
}

/// Whether the application session is active after an outcome.
pub open spec fn active_after(o: Ti3Outcome, active: bool) -> bool {
    match o {
        Ti3Outcome::Enabled(_) => true,
        Ti3Outcome::Disabled => false,
        _ => active,
    }
}

pub open spec fn down_events_view(v: Seq<DownEvent>) -> Seq<DownEventView> {
    v.map_values(|e: DownEvent| e@)
}

/// What a batch delivers to the active ti3 instance (before its `done`).
pub struct Ti3Delivery {
    /// Preedit text (`None` clears it) and cursor.
    pub preedit: Option<(Option<String>, i32, i32)>,
    pub delete: Option<(u32, u32)>,
    pub commit: Option<String>,
}

/// The last candidate window of a batch.
pub open spec fn last_lookup(evs: Seq<UpEventView>) -> Option<LookupTableView>
    decreases evs.len(),
{
    if evs.len() == 0 {
        None
    } else {
        match evs.last() {
            UpEventView::LookupTable(t) => Some(t),
            _ => last_lookup(evs.drop_last()),
        }
    }
}

/// The last preedit of a batch.
pub open spec fn last_preedit(evs: Seq<UpEventView>) -> Option<PreeditView>
    decreases evs.len(),
{
    if evs.len() == 0 {
        None
    } else {
        match evs.last() {
            UpEventView::Preedit(p) => Some(p),
            _ => last_preedit(evs.drop_last()),
        }
    }
}

/// The last commit of a batch.
pub open spec fn last_commit(evs: Seq<UpEventView>) -> Option<Seq<char>>
    decreases evs.len(),
{
    if evs.len() == 0 {
        None
    } else {
        match evs.last() {
            UpEventView::Commit(t) => Some(t),
            _ => last_commit(evs.drop_last()),
        }
    }
}

/// The last deletion of a batch.
pub open spec fn last_delete(evs: Seq<UpEventView>) -> Option<(u32, u32)>
    decreases evs.len(),
{
    if evs.len() == 0 {
        None
    } else {
        match evs.last() {
            UpEventView::DeleteSurrounding(d) => Some((d.before_length, d.after_length)),
            _ => last_delete(evs.drop_last()),
        }
    }
}

/// The preedit as delivered: an empty text is delivered as none.
pub open spec fn delivered_preedit(p: Option<PreeditView>) -> Option<(Option<Seq<char>>, i32, i32)> {
    match p {
        Some(p) => Some((if p.text.len() == 0 { None } else { Some(p.text) }, p.cursor_begin, p.cursor_end)),
        None => None,
    }
}

pub open spec fn delivery_preedit_view(p: Option<(Option<String>, i32, i32)>) -> Option<(Option<Seq<char>>, i32, i32)> {
    match p {
        Some((t, b, e)) => Some(
            (
                match t {
                    Some(s) => Some(s@),
                    None => None,
                },
                b,
                e,
            ),
        ),
        None => None,
    }
}

fn surrounding_and_rect(s: Ti3Snapshot, out: &mut Vec<DownEvent>)
    ensures
        down_events_view(final(out)@) == down_events_view(old(out)@) + state_events(s),
{
    let ghost s0 = s;
    let ghost start = down_events_view(out@);
    if s.surrounding_text.unicode_len() > 0 || s.cursor != s.anchor {
        out.push(DownEvent::Surrounding(SurroundingText { text: s.surrounding_text, cursor: s.cursor, anchor: s.anchor }));
    }
    let ghost mid = down_events_view(out@);
    match s.cursor_rect {
        Some((x, y, w, h)) => {
            out.push(DownEvent::CursorRect(CursorRect { x, y, w, h }));
        },
        None => {},
    }
    assert(down_events_view(out@) =~= start + state_events(s0));
}

impl ImeState {
    /// Takes the candidate-window snapshot (none when there was no update).
    pub fn take_lookup_table(&mut self) -> (res: Option<LookupTableSnapshot>)
        ensures
            snapshot_view(res) == old(self)@.lookup_table,
            final(self)@ == (ImeView { lookup_table: None, ..old(self)@ }),
    {
        self.lookup_table.take()
    }

    /// Whether a text-input session is active.
    pub fn app_active(&self) -> (res: bool)
        ensures
            res == self@.app_active,
    {
        self.app_active
    }

    /// Whether an input-method grab holds the keyboard.
    pub fn keyboard_grabbed(&self) -> (res: bool)
        ensures
            res == self@.grabbed,
    {
        self.im2_grab_active
    }

    /// Whether keyboard focus is on a text-input surface.
    pub fn has_focus(&self) -> (res: bool)
        ensures
            res == self@.has_focus,
    {
        self.has_focus
    }

    /// The lifecycle state.
    pub fn state(&self) -> (res: ImeStateMachine)
        ensures
            res == self@.state,
    {
        self.state
    }

    /// Replaces the candidate-window snapshot.
    pub fn set_lookup_table(&mut self, snap: LookupTableSnapshot)
        ensures
            final(self)@ == (ImeView { lookup_table: Some(snap@), ..old(self)@ }),
    {
        self.lookup_table = Some(snap);
    }

    /// Keyboard focus moved to a surface.
    pub fn set_focus(&mut self)
        ensures
            final(self)@ == (ImeView { has_focus: true, ..old(self)@ }),
    {
        self.has_focus = true;
    }

    /// Keyboard focus left. The session stops; when a ti3 instance was
    /// focused and the host bridge is ready, the bridge is told to deactivate.
    pub fn clear_focus(&mut self, was_focused: bool, bridge_ready: bool) -> (events: Vec<DownEvent>)
        ensures
            final(self)@ == (ImeView { has_focus: false, app_active: false, ..old(self)@ }),
            down_events_view(events@) == (if was_focused && bridge_ready {
                seq![DownEventView::State(FocusChange::Deactivate)]
            } else {
                Seq::empty()
            }),
    {
        let mut events: Vec<DownEvent> = Vec::new();
        if was_focused && bridge_ready {
            events.push(DownEvent::State(FocusChange::Deactivate));
        }
        self.has_focus = false;
        self.app_active = false;
        assert(down_events_view(events@) =~= (if was_focused && bridge_ready {
            seq![DownEventView::State(FocusChange::Deactivate)]
        } else {
            Seq::empty()
        }));
        events
    }

    /// Applies a ti3 decision: enabling starts the session, disabling stops
    /// it; the returned events, for a ready host bridge only, tell the bridge
    /// (see [`outcome_events`]).
    pub fn apply_ti3_outcome(&mut self, outcome: Ti3Outcome, bridge_ready: bool) -> (events: Vec<DownEvent>)
        ensures
            final(self)@ == (ImeView { app_active: active_after(outcome, old(self)@.app_active), ..old(self)@ }),
            down_events_view(events@) == (if bridge_ready { outcome_events(outcome) } else { Seq::empty() }),
    {
        let ghost o = outcome;
        let mut events: Vec<DownEvent> = Vec::new();
        match outcome {
            Ti3Outcome::Ignored | Ti3Outcome::DisabledInactive => {},
            Ti3Outcome::Enabled(snap) => {
                self.app_active = true;
                if bridge_ready {
                    events.push(DownEvent::State(FocusChange::Activate));
                    surrounding_and_rect(snap, &mut events);
                }
            },
            Ti3Outcome::Disabled => {
                self.app_active = false;
                if bridge_ready {
                    events.push(DownEvent::State(FocusChange::Deactivate));
                }
            },
            Ti3Outcome::State(snap) => {
                if bridge_ready {
                    surrounding_and_rect(snap, &mut events);
                }
            },
        }
        assert(down_events_view(events@) =~= (if bridge_ready { outcome_events(o) } else { Seq::empty() }));
        events
    }

    /// An input-method grab took the keyboard.
    pub fn note_im2_grab(&mut self)
        ensures
            final(self)@ == (ImeView { grabbed: true, ..old(self)@ }),
    {
        self.im2_grab_active = true;
    }

    /// The input-method grab released the keyboard.
    pub fn note_im2_release(&mut self)
        ensures
            final(self)@ == (ImeView { grabbed: false, ..old(self)@ }),
    {
        self.im2_grab_active = false;
    }

    /// Keys are never consumed here: the host bridge takes them over, so
    /// the seat delivers them as usual.
    pub fn handle_key(&mut self, key: u32, action: KeyboardAction, mods: (u32, u32, u32, u32)) -> (res: bool)
        ensures
            !res,
            final(self)@ == old(self)@,
    {
        false
    }

    /// Applies a batch of upward events: the last candidate window becomes
    /// the snapshot; the last preedit, deletion and commit are returned for
    /// delivery to the active ti3 instance.
    pub fn apply_up_events(&mut self, events: Vec<UpEvent>) -> (res: Ti3Delivery)
        ensures
            final(self)@ == (ImeView {
                lookup_table: match last_lookup(up_events_view(events@)) {
                    Some(t) => Some(t),
                    None => old(self)@.lookup_table,
                },
                ..old(self)@
            }),
            delivery_preedit_view(res.preedit) == delivered_preedit(last_preedit(up_events_view(events@))),
            res.delete == last_delete(up_events_view(events@)),
            match res.commit {
                Some(t) => last_commit(up_events_view(events@)) == Some(t@),
                None => last_commit(up_events_view(events@)) is None,
            },
    {
        let ghost evs = up_events_view(events@);
        let ghost old_table = snapshot_view(self.lookup_table);
        let mut preedit: Option<(String, i32, i32)> = None;
        let mut commit: Option<String> = None;
        let mut delete: Option<(u32, u32)> = None;
        let mut seen_table = false;
        for ev in it: events.into_iter()
            invariant
                it.seq() == events@,
                evs == up_events_view(events@),
                seen_table == last_lookup(evs.take(it.index() as int)) is Some,
                seen_table ==> snapshot_view(self.lookup_table) == last_lookup(evs.take(it.index() as int)),
                !seen_table ==> snapshot_view(self.lookup_table) == old_table,
                self.app_active == old(self).app_active,
                self.state == old(self).state,
                self.has_focus == old(self).has_focus,
                self.im2_grab_active == old(self).im2_grab_active,
                match preedit {
                    Some((t, b, e)) => last_preedit(evs.take(it.index() as int)) == Some(
                        PreeditView { text: t@, cursor_begin: b, cursor_end: e },
                    ),
                    None => last_preedit(evs.take(it.index() as int)) is None,
                },
                match commit {
                    Some(t) => last_commit(evs.take(it.index() as int)) == Some(t@),
                    None => last_commit(evs.take(it.index() as int)) is None,
                },
                delete == last_delete(evs.take(it.index() as int)),
        {
            let ghost k = it.index();
            proof {
                assert(evs.take(k + 1).drop_last() =~= evs.take(k as int));
                assert(evs.take(k + 1).last() == ev@);
            }
            match ev {
                UpEvent::LookupTable(lt) => {
                    self.lookup_table = Some(
                        LookupTableSnapshot {
                            candidates: lt.candidates,
                            labels: lt.labels,
                            cursor_pos: lt.cursor_pos,
                            cursor_visible: lt.cursor_visible,
                            page_size: lt.page_size,
                            orientation: lt.orientation,
                            visible: lt.visible,
                        },
                    );
                    seen_table = true;
                },
                UpEvent::Preedit(p) => {
                    preedit = Some((p.text, p.cursor_begin, p.cursor_end));
                },
                UpEvent::Commit(c) => {
                    commit = Some(c.text);
                },
                UpEvent::DeleteSurrounding(d) => {
                    delete = Some((d.before_length, d.after_length));
                },
                UpEvent::Done(_) => {},
                UpEvent::ForwardKey { .. } => {},
            }
        }
        assert(evs.take(evs.len() as int) =~= evs);
        let delivered = match preedit {
            Some((text, b, e)) => {
                if text.unicode_len() == 0 {
                    Some((None, b, e))
                } else {
                    Some((Some(text), b, e))
                }
            },
            None => None,
        };
        Ti3Delivery { preedit: delivered, delete, commit }
    }
}

/// The JSON literal of a boolean.
pub open spec fn bool_text(b: bool) -> Seq<char> {
    if b { "true"@ } else { "false"@ }
}

/// A list of texts as JSON strings separated by commas (no brackets).
pub open spec fn quoted_list(v: Seq<Seq<char>>) -> Seq<char> {
    joined(v.map_values(|s: Seq<char>| json_quoted(s)), ","@)
}

/// The compact JSON of a candidate window.
pub open spec fn table_json(t: LookupTableView) -> Seq<char> {
    "{\"visible\":"@ + bool_text(t.visible) + ",\"cursor\":"@ + decimal(t.cursor_pos as nat)
        + ",\"page_size\":"@ + decimal(t.page_size as nat) + ",\"orientation\":"@ + decimal(
        t.orientation as nat,
    ) + ",\"candidates\":["@ + quoted_list(t.candidates) + "],\"labels\":["@ + quoted_list(t.labels)
        + "]}"@
}

fn push_quoted_list(out: &mut String, v: &Vec<String>)
    ensures
        final(out)@ == old(out)@ + quoted_list(strings_view(v@)),
{
    let ghost sv = strings_view(v@);
    let ghost start = out@;
    let n = v.len();
    let mut i: usize = 0;
    assert(sv.take(0).map_values(|s: Seq<char>| json_quoted(s)) =~= Seq::<Seq<char>>::empty());
    assert(start + quoted_list(sv.take(0)) =~= start);
    while i < n
        invariant
            n == v@.len(),
            sv == strings_view(v@),
            i <= n,
            out@ == start + quoted_list(sv.take(i as int)),
        decreases n - i,
    {
        let ghost q = sv.take(i + 1).map_values(|s: Seq<char>| json_quoted(s));
        proof {
            assert(q.drop_last() =~= sv.take(i as int).map_values(|s: Seq<char>| json_quoted(s)));
            assert(q.last() == json_quoted(v@[i as int]@));
        }
        if i > 0 {
            out.append(",");
        }
        crate::text::push_char(out, '"');
        push_escaped(out, v[i].as_str());
        crate::text::push_char(out, '"');
        proof {
            if i == 0 {
                assert(q.len() == 1);
                assert(out@ =~= start + q[0]);
            } else {
                assert(out@ =~= start + quoted_list(sv.take(i as int)) + ","@ + q.last());
            }
        }
        i = i + 1;
    }
    assert(sv.take(n as int) =~= sv);
}

/// Renders a candidate window as compact JSON (see [`table_json`]).
pub fn lookup_table_to_json(lt: &LookupTableSnapshot) -> (res: String)
    ensures
        res@ == table_json(lt@),
{
    let mut out = String::from_str("{\"visible\":");
    out.append(if lt.visible { "true" } else { "false" });
    out.append(",\"cursor\":");
    push_decimal(&mut out, lt.cursor_pos as u64);
    out.append(",\"page_size\":");
    push_decimal(&mut out, lt.page_size as u64);
    out.append(",\"orientation\":");
    push_decimal(&mut out, lt.orientation as u64);
    out.append(",\"candidates\":[");
    push_quoted_list(&mut out, &lt.candidates);
    out.append("],\"labels\":[");
    push_quoted_list(&mut out, &lt.labels);
    out.append("]}");
    out
}

/// Enabling then disabling a ti3 instance leaves the session inactive, and
/// a ready bridge is told Activate first and Deactivate last.
pub proof fn law_enable_then_disable(active: bool, snap: Ti3Snapshot)
    ensures
        !active_after(Ti3Outcome::Disabled, active_after(Ti3Outcome::Enabled(snap), active)),
        outcome_events(Ti3Outcome::Enabled(snap))[0] == DownEventView::State(FocusChange::Activate),
        outcome_events(Ti3Outcome::Disabled) == seq![DownEventView::State(FocusChange::Deactivate)],
{
}

/// Ignored outcomes change nothing and send nothing.
pub proof fn law_ignored_outcomes_are_noops(active: bool)
    ensures
        active_after(Ti3Outcome::Ignored, active) == active,
        active_after(Ti3Outcome::DisabledInactive, active) == active,
        outcome_events(Ti3Outcome::Ignored).len() == 0,
        outcome_events(Ti3Outcome::DisabledInactive).len() == 0,
{
}

} // verus!
