//! fcitx5 backend of the host bridge (same event interface as ibus; only
//! the D-Bus protocol differs: `ProcessKeyEvent` takes a release flag and a
//! timestamp, and the signals are `CommitString`, `UpdateFormattedPreedit`,
//! `UpdateClientSideUI`, `DeleteSurroundingText`).

use vstd::prelude::*;
use std::sync::mpsc::{Receiver, Sender, TryRecvError};
use crate::channel::{receipt_of, Receipt, Received};
use crate::ime_event::{
    Commit, CursorRect, DeleteSurrounding, Done, DownEvent, DownEventView, FocusChange,
    LookupTable, LookupTableView, PreeditUpdate, PreeditView, UpEvent, UpEventView, cleared_preedit,
    strings_view,
};
use crate::keyboard::KeyboardAction;
use super::HostBridge;
use super::dbus_ibus::{IBUS_RELEASE_MASK, channel_closed, evdev_of};

verus! {

/// Command for the fcitx5 D-Bus worker thread.
#[derive(Debug)]
pub enum ToWorker {
    ProcessKey { keysym: u32, evdev: u32, state: u32, release: bool },
    SetSurrounding { text: String, cursor: u32, anchor: u32 },
    SetCursorRect { x: i32, y: i32, w: i32, h: i32 },
    FocusIn,
    FocusOut,
}

pub enum ToWorkerView {
    ProcessKey { keysym: u32, evdev: u32, state: u32, release: bool },
    SetSurrounding { text: Seq<char>, cursor: u32, anchor: u32 },
    SetCursorRect { x: i32, y: i32, w: i32, h: i32 },
    FocusIn,
    FocusOut,
}

impl View for ToWorker {
    type V = ToWorkerView;

    open spec fn view(&self) -> ToWorkerView {
        match self {
            ToWorker::ProcessKey { keysym, evdev, state, release } => ToWorkerView::ProcessKey {
                keysym: *keysym,
                evdev: *evdev,
                state: *state,
                release: *release,
            },
            ToWorker::SetSurrounding { text, cursor, anchor } => ToWorkerView::SetSurrounding {
                text: text@,
                cursor: *cursor,
                anchor: *anchor,
            },
            ToWorker::SetCursorRect { x, y, w, h } => ToWorkerView::SetCursorRect { x: *x, y: *y, w: *w, h: *h },
            ToWorker::FocusIn => ToWorkerView::FocusIn,
            ToWorker::FocusOut => ToWorkerView::FocusOut,
        }
    }
}

/// Message from the fcitx5 worker thread.
#[derive(Debug)]
pub enum FromWorker {
    Commit(String),
    Preedit { text: String, cursor: i32 },
    DeleteSurrounding { before: u32, after: u32 },
    LookupTable { candidates: Vec<String>, cursor_pos: u32, visible: bool },
    Done,
    Fatal(String),
}

/// Mathematical form of a fcitx5 [`FromWorker`] message.
pub enum Fcitx5Msg {
    Commit(Seq<char>),
    Preedit { text: Seq<char>, cursor: i32 },
    DeleteSurrounding { before: u32, after: u32 },
    LookupTable { candidates: Seq<Seq<char>>, cursor_pos: u32, visible: bool },
    Done,
    Fatal(Seq<char>),
}

impl View for FromWorker {
    type V = Fcitx5Msg;

    open spec fn view(&self) -> Fcitx5Msg {
        match self {
            FromWorker::Commit(t) => Fcitx5Msg::Commit(t@),
            FromWorker::Preedit { text, cursor } => Fcitx5Msg::Preedit { text: text@, cursor: *cursor },
            FromWorker::DeleteSurrounding { before, after } => Fcitx5Msg::DeleteSurrounding {
                before: *before,
                after: *after,
            },
            FromWorker::LookupTable { candidates, cursor_pos, visible } => Fcitx5Msg::LookupTable {
                candidates: strings_view(candidates@),
                cursor_pos: *cursor_pos,
                visible: *visible,
            },
            FromWorker::Done => Fcitx5Msg::Done,
            FromWorker::Fatal(m) => Fcitx5Msg::Fatal(m@),
        }
    }
}

/// The worker command of a downward event (keysym 0; release flag and
/// release mask set only for a release).
pub open spec fn fcitx5_command(ev: DownEventView) -> ToWorkerView {
    match ev {
        DownEventView::State(FocusChange::Activate) => ToWorkerView::FocusIn,
        DownEventView::State(FocusChange::Deactivate) => ToWorkerView::FocusOut,
        DownEventView::Key(k) => ToWorkerView::ProcessKey {
            keysym: 0,
            evdev: evdev_of(k.keycode),
            state: if k.action == KeyboardAction::Release { IBUS_RELEASE_MASK } else { 0 },
            release: k.action == KeyboardAction::Release,
        },
        DownEventView::Surrounding(s) => ToWorkerView::SetSurrounding {
            text: s.text,
            cursor: s.cursor,
            anchor: s.anchor,
        },
        DownEventView::CursorRect(r) => ToWorkerView::SetCursorRect { x: r.x, y: r.y, w: r.w, h: r.h },
    }
}

/// Builds the worker command of a downward event.
pub fn fcitx5_command_for(ev: DownEvent) -> (cmd: ToWorker)
    ensures
        cmd@ == fcitx5_command(ev@),
{
    match ev {
        DownEvent::State(FocusChange::Activate) => ToWorker::FocusIn,
        DownEvent::State(FocusChange::Deactivate) => ToWorker::FocusOut,
        DownEvent::Key(k) => {
            let evdev = if k.keycode >= 8 { k.keycode - 8 } else { 0 };
            let release = match k.action {
                KeyboardAction::Release => true,
                KeyboardAction::Press => false,
                KeyboardAction::Repeat => false,
            };
            let state = if release { IBUS_RELEASE_MASK } else { 0 };
            ToWorker::ProcessKey { keysym: 0, evdev, state, release }
        },
        DownEvent::Surrounding(s) => ToWorker::SetSurrounding { text: s.text, cursor: s.cursor, anchor: s.anchor },
        DownEvent::CursorRect(r) => ToWorker::SetCursorRect { x: r.x, y: r.y, w: r.w, h: r.h },
    }
}

/// The upward event of a worker message (none for `Fatal`). An empty
/// preedit clears it; candidate lists come without labels, with a page
/// size of ten.
pub open spec fn fcitx5_up_event(msg: Fcitx5Msg) -> Option<UpEventView> {
    match msg {
        Fcitx5Msg::Commit(t) => Some(UpEventView::Commit(t)),
        Fcitx5Msg::Preedit { text, cursor } => if text.len() == 0 {
            Some(UpEventView::Preedit(cleared_preedit()))
        } else {
            Some(UpEventView::Preedit(PreeditView { text, cursor_begin: cursor, cursor_end: cursor }))
        },
        Fcitx5Msg::DeleteSurrounding { before, after } => Some(
            UpEventView::DeleteSurrounding(DeleteSurrounding { before_length: before, after_length: after }),
        ),
        Fcitx5Msg::LookupTable { candidates, cursor_pos, visible } => Some(
            UpEventView::LookupTable(
                LookupTableView {
                    candidates,
                    labels: Seq::empty(),
                    cursor_pos,
                    cursor_visible: true,
                    page_size: 10,
                    orientation: 0,
                    visible,
                },
            ),
        ),
        Fcitx5Msg::Done => Some(UpEventView::Done(Done { batch_id: 0 })),
        Fcitx5Msg::Fatal(_) => None,
    }
}

/// Whether a receive outcome is a message that does not end a drain.
pub open spec fn fcitx5_continues(r: Receipt<Fcitx5Msg>) -> bool {
    r matches Receipt::Message(m) && !(m is Fatal)
}

/// The upward events of a drain that read `rs`, in arrival order.
pub open spec fn fcitx5_drain_events(rs: Seq<Receipt<Fcitx5Msg>>) -> Seq<UpEventView>
    decreases rs.len(),
{
    if rs.len() == 0 {
        Seq::empty()
    } else {
        fcitx5_drain_events(rs.drop_last()) + match rs.last() {
            Receipt::Message(m) => match fcitx5_up_event(m) {
                Some(e) => seq![e],
                None => Seq::empty(),
            },
            _ => Seq::empty(),
        }
    }
}

/// The failure recorded after a drain that read `rs` from a live bridge:
/// the reason of a final `Fatal`, or the closed channel.
pub open spec fn fcitx5_drain_dead(rs: Seq<Receipt<Fcitx5Msg>>) -> Option<Seq<char>> {
    if rs.len() == 0 {
        None
    } else {
        match rs.last() {
            Receipt::Message(Fcitx5Msg::Fatal(t)) => Some(t),
            Receipt::Disconnected => Some(channel_closed()),
            _ => None,
        }
    }
}

/// What a drain reads: at least one outcome; every outcome but the last is a
/// message that does not end the drain; the last one ends it (empty channel,
/// closed channel or `Fatal`) unless the read limit of `u64::MAX` was hit.
pub open spec fn fcitx5_drain_shape(rs: Seq<Receipt<Fcitx5Msg>>) -> bool {
    &&& rs.len() > 0
    &&& forall|i: int| 0 <= i < rs.len() - 1 ==> fcitx5_continues(#[trigger] rs[i])
    &&& (fcitx5_continues(rs.last()) ==> rs.len() == u64::MAX)
}

/// Mathematical state of a [`DbusFcitx5Bridge`].
pub struct Fcitx5BridgeView {
    pub ready: bool,
    pub dead: Option<Seq<char>>,
    /// The commands handed to the worker channel so far, oldest first, each
    /// with whether the channel took it.
    pub sends: Seq<(ToWorkerView, bool)>,
    /// The outcomes of the receives on the event channel so far, oldest first.
    pub received: Seq<Receipt<Fcitx5Msg>>,
}

pub open spec fn fcitx5_ready(v: Fcitx5BridgeView) -> bool {
    v.ready && v.dead is None
}

/// The commands handed to a command sender so far, oldest first, each with
/// whether the channel took it (`false` once the worker end is gone).
pub uninterp spec fn fcitx5_bridge_sends(tx: Sender<ToWorker>) -> Seq<(ToWorkerView, bool)>;

/// Calls `Sender::send` with a command. `Ok` means the worker end has not
/// hung up and the command is in the channel; `Err` means the worker is
/// gone and the command was not delivered. Which happens depends on the
/// worker thread; the command and the outcome are appended to the history.
#[verifier::external_body]
fn send_command(tx: &mut Sender<ToWorker>, cmd: ToWorker) -> (ok: bool)
    ensures
        fcitx5_bridge_sends(*final(tx)) == fcitx5_bridge_sends(*old(tx)).push((cmd@, ok)),
{
    tx.send(cmd).is_ok()
}

/// The outcomes of the receives made on a fcitx5 event receiver so far,
/// oldest first: each message by its view, or that the channel was empty or
/// closed.
pub uninterp spec fn fcitx5_bridge_receipts(rx: Receiver<FromWorker>) -> Seq<Receipt<Fcitx5Msg>>;

/// Calls `Receiver::try_recv` once and tells its outcomes apart: the next
/// waiting message, `Empty` when none is waiting, `Disconnected` when the
/// worker end is gone. Which of them comes depends on the worker thread; the
/// outcome is appended to the receiver's history.
#[verifier::external_body]
fn receive_message(rx: &mut Receiver<FromWorker>) -> (res: Received<FromWorker>)
    ensures
        fcitx5_bridge_receipts(*final(rx)) == fcitx5_bridge_receipts(*old(rx)).push(receipt_of(res)),
{
    match rx.try_recv() {
        Ok(m) => Received::Message(m),
        Err(TryRecvError::Empty) => Received::Empty,
        Err(TryRecvError::Disconnected) => Received::Disconnected,
    }
}

/// `submit(ev)` from state `old`: a bridge that is not ready changes
/// nothing and sends nothing; a ready one hands the command of `ev` to the
/// worker channel once, and becomes dead exactly when the channel refused it
/// (the worker is gone).
pub open spec fn fcitx5_submit_step(old: Fcitx5BridgeView, ev: DownEventView, new: Fcitx5BridgeView) -> bool {
    if !fcitx5_ready(old) {
        new == old
    } else {
        let ok = new.sends.last().1;
        &&& new.sends == old.sends.push((fcitx5_command(ev), ok))
        &&& new == Fcitx5BridgeView { sends: new.sends, dead: if ok { old.dead } else { Some(channel_closed()) }, ..old }
    }
}

/// The command that reports a cursor rectangle.
pub open spec fn fcitx5_cursor_command(r: CursorRect) -> ToWorkerView {
    ToWorkerView::SetCursorRect { x: r.x, y: r.y, w: r.w, h: r.h }
}

/// `update_cursor_rect(r)` from state `old`: a ready bridge hands the
/// rectangle to the worker channel once (a refusal is recorded in the
/// history and changes nothing else); a bridge that is not ready changes
/// nothing and sends nothing.
pub open spec fn fcitx5_cursor_step(old: Fcitx5BridgeView, r: CursorRect, new: Fcitx5BridgeView) -> bool {
    if !fcitx5_ready(old) {
        new == old
    } else {
        new == Fcitx5BridgeView { sends: old.sends.push((fcitx5_cursor_command(r), new.sends.last().1)), ..old }
    }
}

/// `take_up_events` from state `old`, giving the events `out`: a bridge
/// that is not ready gives nothing, reads nothing and changes nothing. A
/// ready one reads the outcomes `rs` (appended to its receive history),
/// gives the upward events of the messages among them in arrival order, and
/// is dead afterwards exactly when the last outcome was `Fatal` (its reason)
/// or a closed channel. Nothing is sent.
pub open spec fn fcitx5_drain_step(old: Fcitx5BridgeView, out: Seq<UpEventView>, new: Fcitx5BridgeView) -> bool {
    if !fcitx5_ready(old) {
        new == old && out.len() == 0
    } else {
        let rs = new.received.skip(old.received.len() as int);
        &&& old.received.len() <= new.received.len()
        &&& new.received.take(old.received.len() as int) == old.received
        &&& fcitx5_drain_shape(rs)
        &&& out == fcitx5_drain_events(rs)
        &&& new == Fcitx5BridgeView { dead: fcitx5_drain_dead(rs), received: new.received, ..old }
    }
}

/// fcitx5 host bridge: the main-thread side of the worker channels.
pub struct DbusFcitx5Bridge {
    cmd_tx: Sender<ToWorker>,
    ev_rx: Receiver<FromWorker>,
    ready: bool,
    dead: Option<String>,
}

impl View for DbusFcitx5Bridge {
    type V = Fcitx5BridgeView;

    closed spec fn view(&self) -> Fcitx5BridgeView {
        Fcitx5BridgeView {
            ready: self.ready,
            dead: match self.dead {
                Some(s) => Some(s@),
                None => None,
            },
            sends: fcitx5_bridge_sends(self.cmd_tx),
            received: fcitx5_bridge_receipts(self.ev_rx),
        }
    }
}

impl DbusFcitx5Bridge {
    /// A ready bridge over the given worker channels.
    pub fn from_channels(cmd_tx: Sender<ToWorker>, ev_rx: Receiver<FromWorker>) -> (res: Self)
        ensures
            res@ == (Fcitx5BridgeView {
                ready: true,
                dead: None,
                sends: fcitx5_bridge_sends(cmd_tx),
                received: fcitx5_bridge_receipts(ev_rx),
            }),
    {
        DbusFcitx5Bridge { cmd_tx, ev_rx, ready: true, dead: None }
    }

    /// The command that `submit` sends for `ev`: none when the bridge is not ready.
    pub fn command_for(&self, ev: DownEvent) -> (res: Option<ToWorker>)
        ensures
            match res {
                Some(c) => fcitx5_ready(self@) && c@ == fcitx5_command(ev@),
                None => !fcitx5_ready(self@),
            },
    {
        if !(self.ready && self.dead.is_none()) {
            return None;
        }
        Some(fcitx5_command_for(ev))
    }

    /// Applies one worker message: returns its upward event and whether
    /// the drain stops (it stops at `Fatal`, which marks the bridge dead).
    pub fn absorb(&mut self, msg: FromWorker) -> (res: (Option<UpEvent>, bool))
        ensures
            match res.0 {
                Some(e) => fcitx5_up_event(msg@) == Some(e@),
                None => fcitx5_up_event(msg@) is None,
            },
            res.1 == (msg is Fatal),
            final(self)@.ready == old(self)@.ready,
            final(self)@.sends == old(self)@.sends,
            final(self)@.received == old(self)@.received,
            final(self)@.dead == (match msg {
                FromWorker::Fatal(m) => Some(m@),
                _ => old(self)@.dead,
            }),
    {
        match msg {
            FromWorker::Commit(text) => (Some(UpEvent::Commit(Commit { text })), false),
            FromWorker::Preedit { text, cursor } => {
                if text.as_str().is_empty() {
                    (Some(UpEvent::Preedit(PreeditUpdate::clear())), false)
                } else {
                    (Some(UpEvent::Preedit(PreeditUpdate { text, cursor_begin: cursor, cursor_end: cursor })), false)
                }
            },
            FromWorker::DeleteSurrounding { before, after } => (
                Some(UpEvent::DeleteSurrounding(DeleteSurrounding { before_length: before, after_length: after })),
                false,
            ),
            FromWorker::LookupTable { candidates, cursor_pos, visible } => {
                let labels: Vec<String> = Vec::new();
                proof {
                    assert(strings_view(labels@) =~= Seq::<Seq<char>>::empty());
                }
                (
                    Some(
                        UpEvent::LookupTable(
                            LookupTable {
                                candidates,
                                labels,
                                cursor_pos,
                                cursor_visible: true,
                                page_size: 10,
                                orientation: 0,
                                visible,
                            },
                        ),
                    ),
                    false,
                )
            },
            FromWorker::Done => (Some(UpEvent::Done(Done { batch_id: 0 })), false),
            FromWorker::Fatal(m) => {
                self.dead = Some(m);
                (None, true)
            },
        }
    }
}

impl HostBridge for DbusFcitx5Bridge {
    open spec fn bridge_ready(&self) -> bool {
        fcitx5_ready(self@)
    }

    open spec fn bridge_dead(&self) -> bool {
        self@.dead is Some
    }

    open spec fn bridge_name(&self) -> Seq<char> {
        "dbus-fcitx5"@
    }

    open spec fn submitted(&self, ev: DownEvent, after: &Self) -> bool {
        fcitx5_submit_step(self@, ev@, after@)
    }

    open spec fn cursor_reported(&self, rect: CursorRect, after: &Self) -> bool {
        fcitx5_cursor_step(self@, rect, after@)
    }

    open spec fn drained(&self, out: Seq<UpEvent>, after: &Self) -> bool {
        fcitx5_drain_step(self@, crate::ime_event::up_events_view(out), after@)
    }

    fn name(&self) -> (res: &'static str) {
        "dbus-fcitx5"
    }

    fn is_ready(&self) -> (res: bool) {
        self.ready && self.dead.is_none()
    }

    fn is_dead(&self) -> (res: bool) {
        self.dead.is_some()
    }

    /// Sends the command of `ev` to the worker; a not-ready bridge drops
    /// the event, and a closed channel marks the bridge dead.
    fn submit(&mut self, ev: DownEvent)
        ensures
            fcitx5_submit_step(old(self)@, ev@, final(self)@),
    {
        match self.command_for(ev) {
            Some(cmd) => {
                if !send_command(&mut self.cmd_tx, cmd) {
                    self.dead = Some(String::from_str("worker channel closed"));
                }
            },
            None => {},
        }
    }

    /// Drains the worker messages into upward events, in arrival order
    /// (each translated by [`DbusFcitx5Bridge::absorb`]); stops at an empty
    /// channel, at `Fatal` or at a closed channel (both make the bridge
    /// dead). A bridge that is not ready returns nothing and reads nothing.
    fn take_up_events(&mut self) -> (out: Vec<UpEvent>)
        ensures
            fcitx5_drain_step(old(self)@, crate::ime_event::up_events_view(out@), final(self)@),
    {
        let mut out: Vec<UpEvent> = Vec::new();
        if !(self.ready && self.dead.is_none()) {
            return out;
        }
        let ghost start = self@;
        let ghost n0 = start.received.len() as int;
        assert(crate::ime_event::up_events_view(out@) =~= Seq::<UpEventView>::empty());
        assert(self@.received.skip(n0) =~= Seq::<Receipt<Fcitx5Msg>>::empty());
        let mut budget: u64 = u64::MAX;
        while budget > 0
            invariant
                start == old(self)@,
                fcitx5_ready(start),
                n0 == start.received.len(),
                self@ == (Fcitx5BridgeView { received: self@.received, ..start }),
                n0 <= self@.received.len(),
                self@.received.take(n0) == start.received,
                self@.received.len() - n0 + budget == u64::MAX,
                forall|i: int| 0 <= i < self@.received.skip(n0).len() ==> fcitx5_continues(#[trigger] self@.received.skip(n0)[i]),
                crate::ime_event::up_events_view(out@) == fcitx5_drain_events(self@.received.skip(n0)),
            ensures
                fcitx5_drain_step(start, crate::ime_event::up_events_view(out@), self@),
            decreases budget,
        {
            budget = budget - 1;
            let ghost rs = self@.received.skip(n0);
            let ghost evs = crate::ime_event::up_events_view(out@);
            let got = receive_message(&mut self.ev_rx);
            let ghost r = receipt_of(got);
            proof {
                assert(self@.received.skip(n0) =~= rs.push(r));
                assert(self@.received.skip(n0).drop_last() =~= rs);
                assert(self@.received.take(n0) =~= start.received);
            }
            match got {
                Received::Message(msg) => {
                    let (ev, stop) = self.absorb(msg);
                    match ev {
                        Some(e) => {
                            out.push(e);
                            assert(crate::ime_event::up_events_view(out@) =~= evs + seq![e@]);
                        },
                        None => {
                            assert(crate::ime_event::up_events_view(out@) =~= evs + Seq::<UpEventView>::empty());
                        },
                    }
                    if stop {
                        return out;
                    }
                },
                Received::Empty => {
                    assert(crate::ime_event::up_events_view(out@) =~= evs + Seq::<UpEventView>::empty());
                    return out;
                },
                Received::Disconnected => {
                    self.dead = Some(String::from_str("worker channel closed"));
                    assert(crate::ime_event::up_events_view(out@) =~= evs + Seq::<UpEventView>::empty());
                    return out;
                },
            }
        }
        out
    }

    /// Sends the cursor rectangle to the worker when the bridge is ready.
    fn update_cursor_rect(&mut self, rect: CursorRect)
        ensures
            fcitx5_cursor_step(old(self)@, rect, final(self)@),
    {
        if !(self.ready && self.dead.is_none()) {
            return;
        }
        let _ = send_command(&mut self.cmd_tx, ToWorker::SetCursorRect { x: rect.x, y: rect.y, w: rect.w, h: rect.h });
    }
}

} // verus!
