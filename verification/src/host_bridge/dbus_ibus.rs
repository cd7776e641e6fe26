//! ibus backend of the host bridge.
//!
//! Downward events map to InputContext calls (fire-and-forget):
//! `State(Activate|Deactivate)` → `FocusIn`/`FocusOut`, `Key` →
//! `ProcessKeyEvent`, `Surrounding` → `SetSurroundingText`, `CursorRect` →
//! `SetCursorLocationRelative`. The worker thread turns ibus signals into
//! [`FromWorker`] messages, which become upward events here; each signal is
//! followed by a `Done` that closes its batch.

use vstd::prelude::*;
use std::sync::mpsc::{Receiver, Sender, TryRecvError};
use crate::channel::{receipt_of, Receipt, Received};
use crate::ime_event::{
    Commit, CursorRect, DeleteSurrounding, Done, DownEvent, DownEventView, FocusChange,
    LookupTable, LookupTableView, PreeditUpdate, PreeditView, UpEvent, UpEventView, cleared_preedit,
    strings_view,
};
use crate::keyboard::KeyboardAction;
use super::HostBridge;

verus! {

/// ibus `ProcessKeyEvent` state bit of a key release (IBUS_RELEASE_MASK).
pub const IBUS_RELEASE_MASK: u32 = 0x4000_0000u32;

/// Command for the D-Bus worker thread.
#[derive(Debug)]
pub enum ToWorker {
    ProcessKey { keysym: u32, evdev: u32, state: u32 },
    SetSurroundingText { text: String, cursor_pos: u32, anchor_pos: u32 },
    SetCursorLocationRelative { x: i32, y: i32, w: i32, h: i32 },
    FocusIn,
    FocusOut,
    /// Diagnostic no-op.
    Ping,
}

pub enum ToWorkerView {
    ProcessKey { keysym: u32, evdev: u32, state: u32 },
    SetSurroundingText { text: Seq<char>, cursor_pos: u32, anchor_pos: u32 },
    SetCursorLocationRelative { x: i32, y: i32, w: i32, h: i32 },
    FocusIn,
    FocusOut,
    Ping,
}

impl View for ToWorker {
    type V = ToWorkerView;

    open spec fn view(&self) -> ToWorkerView {
        match self {
            ToWorker::ProcessKey { keysym, evdev, state } => ToWorkerView::ProcessKey {
                keysym: *keysym,
                evdev: *evdev,
                state: *state,
            },
            ToWorker::SetSurroundingText { text, cursor_pos, anchor_pos } => {
                ToWorkerView::SetSurroundingText {
                    text: text@,
                    cursor_pos: *cursor_pos,
                    anchor_pos: *anchor_pos,
                }
            },
            ToWorker::SetCursorLocationRelative { x, y, w, h } => {
                ToWorkerView::SetCursorLocationRelative { x: *x, y: *y, w: *w, h: *h }
            },
            ToWorker::FocusIn => ToWorkerView::FocusIn,
            ToWorker::FocusOut => ToWorkerView::FocusOut,
            ToWorker::Ping => ToWorkerView::Ping,
        }
    }
}

/// Message from the D-Bus worker thread.
pub enum FromWorker {
    Commit(String),
    Preedit {
        text: String,
        cursor_begin: i32,
        cursor_end: i32,
        /// True for `HidePreeditText` (clear the preedit).
        clear: bool,
    },
    DeleteSurrounding { before: u32, after: u32 },
    LookupTable {
        candidates: Vec<String>,
        labels: Vec<String>,
        cursor_pos: u32,
        cursor_visible: bool,
        page_size: u32,
        orientation: u32,
        visible: bool,
    },
    /// End of the batch of one signal.
    Done(u32),
    /// A key the engine did not consume (`ForwardKeyEvent`).
    ForwardKey { keycode: u32, is_release: bool },
    /// The connection is gone.
    Fatal(String),
}

/// Mathematical form of a [`FromWorker`] message.
pub enum WorkerMsg {
    Commit(Seq<char>),
    Preedit { text: Seq<char>, cursor_begin: i32, cursor_end: i32, clear: bool },
    DeleteSurrounding { before: u32, after: u32 },
    LookupTable {
        candidates: Seq<Seq<char>>,
        labels: Seq<Seq<char>>,
        cursor_pos: u32,
        cursor_visible: bool,
        page_size: u32,
        orientation: u32,
        visible: bool,
    },
    Done(u32),
    ForwardKey { keycode: u32, is_release: bool },
    Fatal(Seq<char>),
}

impl View for FromWorker {
    type V = WorkerMsg;

    open spec fn view(&self) -> WorkerMsg {
        match self {
            FromWorker::Commit(t) => WorkerMsg::Commit(t@),
            FromWorker::Preedit { text, cursor_begin, cursor_end, clear } => WorkerMsg::Preedit {
                text: text@,
                cursor_begin: *cursor_begin,
                cursor_end: *cursor_end,
                clear: *clear,
            },
            FromWorker::DeleteSurrounding { before, after } => WorkerMsg::DeleteSurrounding {
                before: *before,
                after: *after,
            },
            FromWorker::LookupTable {
                candidates,
                labels,
                cursor_pos,
                cursor_visible,
                page_size,
                orientation,
                visible,
            } => WorkerMsg::LookupTable {
                candidates: strings_view(candidates@),
                labels: strings_view(labels@),
                cursor_pos: *cursor_pos,
                cursor_visible: *cursor_visible,
                page_size: *page_size,
                orientation: *orientation,
                visible: *visible,
            },
            FromWorker::Done(n) => WorkerMsg::Done(*n),
            FromWorker::ForwardKey { keycode, is_release } => WorkerMsg::ForwardKey {
                keycode: *keycode,
                is_release: *is_release,
            },
            FromWorker::Fatal(m) => WorkerMsg::Fatal(m@),
        }
    }
}

/// The evdev code of an XKB keycode (saturating at zero).
pub open spec fn evdev_of(keycode: u32) -> u32 {
    if keycode >= 8 { (keycode - 8) as u32 } else { 0 }
}

/// The ibus state mask of an action; a repeat is sent as a press.
pub open spec fn ibus_state_of(action: KeyboardAction) -> u32 {
    if action == KeyboardAction::Release { IBUS_RELEASE_MASK } else { 0 }
}

/// The worker command of a downward event. Key events carry no keysym, so
/// the keysym sent is 0.
pub open spec fn ibus_command(ev: DownEventView) -> ToWorkerView {
    match ev {
        DownEventView::State(FocusChange::Activate) => ToWorkerView::FocusIn,
        DownEventView::State(FocusChange::Deactivate) => ToWorkerView::FocusOut,
        DownEventView::Key(k) => ToWorkerView::ProcessKey {
            keysym: 0,
            evdev: evdev_of(k.keycode),
            state: ibus_state_of(k.action),
        },
        DownEventView::Surrounding(s) => ToWorkerView::SetSurroundingText {
            text: s.text,
            cursor_pos: s.cursor,
            anchor_pos: s.anchor,
        },
        DownEventView::CursorRect(r) => ToWorkerView::SetCursorLocationRelative {
            x: r.x,
            y: r.y,
            w: r.w,
            h: r.h,
        },
    }
}

/// Builds the worker command of a downward event.
pub fn ibus_command_for(ev: DownEvent) -> (cmd: ToWorker)
    ensures
        cmd@ == ibus_command(ev@),
{
    match ev {
        DownEvent::State(FocusChange::Activate) => ToWorker::FocusIn,
        DownEvent::State(FocusChange::Deactivate) => ToWorker::FocusOut,
        DownEvent::Key(k) => {
            let evdev = if k.keycode >= 8 { k.keycode - 8 } else { 0 };
            let state = match k.action {
                KeyboardAction::Release => IBUS_RELEASE_MASK,
                KeyboardAction::Press => 0u32,
                KeyboardAction::Repeat => 0u32,
            };
            ToWorker::ProcessKey { keysym: 0, evdev, state }
        },
        DownEvent::Surrounding(s) => ToWorker::SetSurroundingText {
            text: s.text,
            cursor_pos: s.cursor,
            anchor_pos: s.anchor,
        },
        DownEvent::CursorRect(r) => ToWorker::SetCursorLocationRelative { x: r.x, y: r.y, w: r.w, h: r.h },
    }
}

/// A call that the worker thread makes on the ibus input context.
#[derive(Debug)]
pub enum IcCall {
    SetEngine(String),
    /// Reads the attached engine back (its reply is only reported).
    GetEngine,
    FocusIn,
    FocusOut,
    SetCursorLocationRelative { x: i32, y: i32, w: i32, h: i32 },
    ProcessKeyEvent { keysym: u32, evdev: u32, state: u32 },
}

pub enum IcCallView {
    SetEngine(Seq<char>),
    GetEngine,
    FocusIn,
    FocusOut,
    SetCursorLocationRelative { x: i32, y: i32, w: i32, h: i32 },
    ProcessKeyEvent { keysym: u32, evdev: u32, state: u32 },
}

impl View for IcCall {
    type V = IcCallView;

    open spec fn view(&self) -> IcCallView {
        match self {
            IcCall::SetEngine(e) => IcCallView::SetEngine(e@),
            IcCall::GetEngine => IcCallView::GetEngine,
            IcCall::FocusIn => IcCallView::FocusIn,
            IcCall::FocusOut => IcCallView::FocusOut,
            IcCall::SetCursorLocationRelative { x, y, w, h } => IcCallView::SetCursorLocationRelative {
                x: *x,
                y: *y,
                w: *w,
                h: *h,
            },
            IcCall::ProcessKeyEvent { keysym, evdev, state } => IcCallView::ProcessKeyEvent {
                keysym: *keysym,
                evdev: *evdev,
                state: *state,
            },
        }
    }
}

pub open spec fn ic_calls_view(v: Seq<IcCall>) -> Seq<IcCallView> {
    v.map_values(|c: IcCall| c@)
}

/// The input-context calls of one worker command, and whether the engine is
/// set afterwards. The first `FocusIn` first attaches the detected global
/// engine (`SetEngine`, then `GetEngine` to read it back); surrounding text
/// is not passed on, and `Ping` makes no call.
pub open spec fn worker_calls(engine_set: bool, engine: Option<Seq<char>>, cmd: ToWorkerView) -> (bool, Seq<IcCallView>) {
    match cmd {
        ToWorkerView::FocusIn => if engine_set {
            (true, seq![IcCallView::FocusIn])
        } else {
            match engine {
                Some(e) => (true, seq![IcCallView::SetEngine(e), IcCallView::GetEngine, IcCallView::FocusIn]),
                None => (true, seq![IcCallView::FocusIn]),
            }
        },
        ToWorkerView::FocusOut => (engine_set, seq![IcCallView::FocusOut]),
        ToWorkerView::SetCursorLocationRelative { x, y, w, h } => (
            engine_set,
            seq![IcCallView::SetCursorLocationRelative { x, y, w, h }],
        ),
        ToWorkerView::SetSurroundingText { .. } => (engine_set, Seq::empty()),
        ToWorkerView::ProcessKey { keysym, evdev, state } => (
            engine_set,
            seq![IcCallView::ProcessKeyEvent { keysym, evdev, state }],
        ),
        ToWorkerView::Ping => (engine_set, Seq::empty()),
    }
}

/// Plans the input-context calls of one worker command (see
/// [`worker_calls`]); `engine_set` is updated.
pub fn plan_worker_calls(engine_set: &mut bool, engine: &Option<String>, cmd: ToWorker) -> (calls: Vec<IcCall>)
    ensures
        (*final(engine_set), ic_calls_view(calls@)) == worker_calls(
            *old(engine_set),
            match engine {
                Some(e) => Some(e@),
                None => None,
            },
            cmd@,
        ),
{
    let mut calls: Vec<IcCall> = Vec::new();
    match cmd {
        ToWorker::FocusIn => {
            if !*engine_set {
                *engine_set = true;
                match engine {
                    Some(e) => {
                        calls.push(IcCall::SetEngine(e.clone()));
                        calls.push(IcCall::GetEngine);
                    },
                    None => {},
                }
            }
            calls.push(IcCall::FocusIn);
        },
        ToWorker::FocusOut => calls.push(IcCall::FocusOut),
        ToWorker::SetCursorLocationRelative { x, y, w, h } => calls.push(
            IcCall::SetCursorLocationRelative { x, y, w, h },
        ),
        ToWorker::SetSurroundingText { .. } => {},
        ToWorker::ProcessKey { keysym, evdev, state } => calls.push(IcCall::ProcessKeyEvent { keysym, evdev, state }),
        ToWorker::Ping => {},
    }
    assert(ic_calls_view(calls@) =~= worker_calls(
        *old(engine_set),
        match engine {
            Some(e) => Some(e@),
            None => None,
        },
        cmd@,
    ).1);
    calls
}

/// Mathematical state of a [`DbusIbusBridge`].
pub struct IbusBridgeView {
    pub next_batch: u32,
    pub ready: bool,
    pub dead: Option<Seq<char>>,
    /// The commands handed to the worker channel so far, oldest first, each
    /// with whether the channel took it.
    pub sends: Seq<(ToWorkerView, bool)>,
    /// The outcomes of the receives on the event channel so far, oldest first.
    pub received: Seq<Receipt<WorkerMsg>>,
}

/// The commands handed to a command sender so far, oldest first, each with
/// whether the channel took it (`false` once the worker end is gone).
pub uninterp spec fn ibus_bridge_sends(tx: Sender<ToWorker>) -> Seq<(ToWorkerView, bool)>;

/// Calls `Sender::send` with a command. `Ok` means the worker end has not
/// hung up and the command is in the channel; `Err` means the worker is
/// gone and the command was not delivered. Which happens depends on the
/// worker thread; the command and the outcome are appended to the history.
#[verifier::external_body]
fn send_command(tx: &mut Sender<ToWorker>, cmd: ToWorker) -> (ok: bool)
    ensures
        ibus_bridge_sends(*final(tx)) == ibus_bridge_sends(*old(tx)).push((cmd@, ok)),
{
    tx.send(cmd).is_ok()
}

/// The outcomes of the receives made on an event receiver so far, oldest
/// first: each message by its view, or that the channel was empty or closed.
pub uninterp spec fn ibus_bridge_receipts(rx: Receiver<FromWorker>) -> Seq<Receipt<WorkerMsg>>;

/// Calls `Receiver::try_recv` once and tells its outcomes apart: the next
/// waiting message, `Empty` when none is waiting, `Disconnected` when the
/// worker end is gone. Which of them comes depends on the worker thread; the
/// outcome is appended to the receiver's history.
#[verifier::external_body]
fn receive_message(rx: &mut Receiver<FromWorker>) -> (res: Received<FromWorker>)
    ensures
        ibus_bridge_receipts(*final(rx)) == ibus_bridge_receipts(*old(rx)).push(receipt_of(res)),
{
    match rx.try_recv() {
        Ok(m) => Received::Message(m),
        Err(TryRecvError::Empty) => Received::Empty,
        Err(TryRecvError::Disconnected) => Received::Disconnected,
    }
}

/// `submit(ev)` from state `old`: a bridge that is not ready changes
/// nothing and sends nothing; a ready one hands the command of `ev` to the
/// worker channel once, and becomes dead exactly when the channel refused it
/// (the worker is gone).
pub open spec fn ibus_submit_step(old: IbusBridgeView, ev: DownEventView, new: IbusBridgeView) -> bool {
    if !ibus_ready(old) {
        new == old
    } else {
        let ok = new.sends.last().1;
        &&& new.sends == old.sends.push((ibus_command(ev), ok))
        &&& new == IbusBridgeView { sends: new.sends, dead: if ok { old.dead } else { Some(channel_closed()) }, ..old }
    }
}

/// The command that reports a cursor rectangle.
pub open spec fn ibus_cursor_command(r: CursorRect) -> ToWorkerView {
    ToWorkerView::SetCursorLocationRelative { x: r.x, y: r.y, w: r.w, h: r.h }
}

/// `update_cursor_rect(r)` from state `old`: a ready bridge hands the
/// rectangle to the worker channel once (a refusal is recorded in the
/// history and changes nothing else); a bridge that is not ready changes
/// nothing and sends nothing.
pub open spec fn ibus_cursor_step(old: IbusBridgeView, r: CursorRect, new: IbusBridgeView) -> bool {
    if !ibus_ready(old) {
        new == old
    } else {
        new == IbusBridgeView { sends: old.sends.push((ibus_cursor_command(r), new.sends.last().1)), ..old }
    }
}

pub open spec fn ibus_ready(v: IbusBridgeView) -> bool {
    v.ready && v.dead is None
}

/// The batch counter after one more batch (wrapping).
pub open spec fn next_batch_id(n: u32) -> u32 {
    if n == u32::MAX { 0 } else { (n + 1) as u32 }
}

/// The reason recorded when the worker channel is gone.
pub open spec fn channel_closed() -> Seq<char> {
    "worker channel closed"@
}

/// The upward event of a worker message (none for `Fatal`).
pub open spec fn ibus_up_event(next_batch: u32, msg: WorkerMsg) -> Option<UpEventView> {
    match msg {
        WorkerMsg::Commit(t) => Some(UpEventView::Commit(t)),
        WorkerMsg::Preedit { text, cursor_begin, cursor_end, clear } => if clear {
            Some(UpEventView::Preedit(cleared_preedit()))
        } else {
            Some(UpEventView::Preedit(PreeditView { text, cursor_begin, cursor_end }))
        },
        WorkerMsg::DeleteSurrounding { before, after } => Some(
            UpEventView::DeleteSurrounding(DeleteSurrounding { before_length: before, after_length: after }),
        ),
        WorkerMsg::LookupTable {
            candidates,
            labels,
            cursor_pos,
            cursor_visible,
            page_size,
            orientation,
            visible,
        } => Some(
            UpEventView::LookupTable(
                LookupTableView { candidates, labels, cursor_pos, cursor_visible, page_size, orientation, visible },
            ),
        ),
        WorkerMsg::Done(_) => Some(UpEventView::Done(Done { batch_id: next_batch_id(next_batch) })),
        WorkerMsg::ForwardKey { keycode, is_release } => Some(UpEventView::ForwardKey { keycode, is_release }),
        WorkerMsg::Fatal(_) => None,
    }
}

/// Whether a receive outcome is a message that does not end a drain.
pub open spec fn ibus_continues(r: Receipt<WorkerMsg>) -> bool {
    r matches Receipt::Message(m) && !(m is Fatal)
}

/// The batch counter after a drain that read `rs`: one more per `Done`.
pub open spec fn ibus_drain_batch(next: u32, rs: Seq<Receipt<WorkerMsg>>) -> u32
    decreases rs.len(),
{
    if rs.len() == 0 {
        next
    } else {
        let n = ibus_drain_batch(next, rs.drop_last());
        if rs.last() matches Receipt::Message(WorkerMsg::Done(_)) { next_batch_id(n) } else { n }
    }
}

/// The upward events of a drain that read `rs`, in arrival order.
pub open spec fn ibus_drain_events(next: u32, rs: Seq<Receipt<WorkerMsg>>) -> Seq<UpEventView>
    decreases rs.len(),
{
    if rs.len() == 0 {
        Seq::empty()
    } else {
        let n = ibus_drain_batch(next, rs.drop_last());
        ibus_drain_events(next, rs.drop_last()) + match rs.last() {
            Receipt::Message(m) => match ibus_up_event(n, m) {
                Some(e) => seq![e],
                None => Seq::empty(),
            },
            _ => Seq::empty(),
        }
    }
}

/// The failure recorded after a drain that read `rs` from a live bridge:
/// the reason of a final `Fatal`, or the closed channel.
pub open spec fn ibus_drain_dead(rs: Seq<Receipt<WorkerMsg>>) -> Option<Seq<char>> {
    if rs.len() == 0 {
        None
    } else {
        match rs.last() {
            Receipt::Message(WorkerMsg::Fatal(t)) => Some(t),
            Receipt::Disconnected => Some(channel_closed()),
            _ => None,
        }
    }
}

/// What a drain reads: at least one outcome; every outcome but the last is a
/// message that does not end the drain; the last one ends it (empty channel,
/// closed channel or `Fatal`) unless the read limit of `u64::MAX` was hit.
pub open spec fn ibus_drain_shape(rs: Seq<Receipt<WorkerMsg>>) -> bool {
    &&& rs.len() > 0
    &&& forall|i: int| 0 <= i < rs.len() - 1 ==> ibus_continues(#[trigger] rs[i])
    &&& (ibus_continues(rs.last()) ==> rs.len() == u64::MAX)
}

/// `take_up_events` from state `old`, giving the events `out`: a bridge
/// that is not ready gives nothing, reads nothing and changes nothing. A
/// ready one reads the outcomes `rs` (appended to its receive history),
/// gives the upward events of the messages among them in arrival order,
/// advances its batch counter once per `Done`, and is dead afterwards
/// exactly when the last outcome was `Fatal` (its reason) or a closed
/// channel. Nothing is sent.
pub open spec fn ibus_drain_step(old: IbusBridgeView, out: Seq<UpEventView>, new: IbusBridgeView) -> bool {
    if !ibus_ready(old) {
        new == old && out.len() == 0
    } else {
        let rs = new.received.skip(old.received.len() as int);
        &&& old.received.len() <= new.received.len()
        &&& new.received.take(old.received.len() as int) == old.received
        &&& ibus_drain_shape(rs)
        &&& out == ibus_drain_events(old.next_batch, rs)
        &&& new == IbusBridgeView {
            next_batch: ibus_drain_batch(old.next_batch, rs),
            dead: ibus_drain_dead(rs),
            received: new.received,
            ..old
        }
    }
}

/// ibus host bridge: the main-thread side of the worker channels.
pub struct DbusIbusBridge {
    cmd_tx: Sender<ToWorker>,
    ev_rx: Receiver<FromWorker>,
    next_batch: u32,
    ready: bool,
    dead: Option<String>,
}

impl View for DbusIbusBridge {
    type V = IbusBridgeView;

    closed spec fn view(&self) -> IbusBridgeView {
        IbusBridgeView {
            next_batch: self.next_batch,
            ready: self.ready,
            dead: match self.dead {
                Some(s) => Some(s@),
                None => None,
            },
            sends: ibus_bridge_sends(self.cmd_tx),
            received: ibus_bridge_receipts(self.ev_rx),
        }
    }
}

impl DbusIbusBridge {
    /// A ready bridge over the given worker channels.
    pub fn from_channels(cmd_tx: Sender<ToWorker>, ev_rx: Receiver<FromWorker>) -> (res: Self)
        ensures
            res@ == (IbusBridgeView {
                next_batch: 0,
                ready: true,
                dead: None,
                sends: ibus_bridge_sends(cmd_tx),
                received: ibus_bridge_receipts(ev_rx),
            }),
    {
        DbusIbusBridge { cmd_tx, ev_rx, next_batch: 0, ready: true, dead: None }
    }

    /// Records that the connection is lost.
    pub fn mark_dead(&mut self, reason: String)
        ensures
            final(self)@ == (IbusBridgeView { dead: Some(reason@), ..old(self)@ }),
    {
        self.dead = Some(reason);
    }

    /// The command that `submit` sends for `ev`: none when the bridge is not ready.
    pub fn command_for(&self, ev: DownEvent) -> (res: Option<ToWorker>)
        ensures
            match res {
                Some(c) => ibus_ready(self@) && c@ == ibus_command(ev@),
                None => !ibus_ready(self@),
            },
    {
        if !(self.ready && self.dead.is_none()) {
            return None;
        }
        Some(ibus_command_for(ev))
    }

    /// Applies one worker message: returns its upward event and whether
    /// the drain stops (it stops at `Fatal`, which marks the bridge dead).
    /// A `Done` advances the batch counter and carries its new value.
    pub fn absorb(&mut self, msg: FromWorker) -> (res: (Option<UpEvent>, bool))
        ensures
            match res.0 {
                Some(e) => ibus_up_event(old(self)@.next_batch, msg@) == Some(e@),
                None => ibus_up_event(old(self)@.next_batch, msg@) is None,
            },
            res.1 == (msg is Fatal),
            final(self)@.ready == old(self)@.ready,
            final(self)@.sends == old(self)@.sends,
            final(self)@.received == old(self)@.received,
            final(self)@.next_batch == (if msg is Done { next_batch_id(old(self)@.next_batch) } else {
                old(self)@.next_batch
            }),
            final(self)@.dead == (match msg {
                FromWorker::Fatal(m) => Some(m@),
                _ => old(self)@.dead,
            }),
    {
        match msg {
            FromWorker::Commit(text) => (Some(UpEvent::Commit(Commit { text })), false),
            FromWorker::Preedit { text, cursor_begin, cursor_end, clear } => {
                if clear {
                    (Some(UpEvent::Preedit(PreeditUpdate::clear())), false)
                } else {
                    (Some(UpEvent::Preedit(PreeditUpdate { text, cursor_begin, cursor_end })), false)
                }
            },
            FromWorker::DeleteSurrounding { before, after } => (
                Some(UpEvent::DeleteSurrounding(DeleteSurrounding { before_length: before, after_length: after })),
                false,
            ),
            FromWorker::LookupTable {
                candidates,
                labels,
                cursor_pos,
                cursor_visible,
                page_size,
                orientation,
                visible,
            } => (
                Some(
                    UpEvent::LookupTable(
                        LookupTable {
                            candidates,
                            labels,
                            cursor_pos,
                            cursor_visible,
                            page_size,
                            orientation,
                            visible,
                        },
                    ),
                ),
                false,
            ),
            FromWorker::ForwardKey { keycode, is_release } => (Some(UpEvent::ForwardKey { keycode, is_release }), false),
            FromWorker::Done(_) => {
                self.next_batch = if self.next_batch == u32::MAX { 0 } else { self.next_batch + 1 };
                (Some(UpEvent::Done(Done { batch_id: self.next_batch })), false)
            },
            FromWorker::Fatal(m) => {
                self.dead = Some(m);
                (None, true)
            },
        }
    }
}

impl HostBridge for DbusIbusBridge {
    open spec fn bridge_ready(&self) -> bool {
        ibus_ready(self@)
    }

    open spec fn bridge_dead(&self) -> bool {
        self@.dead is Some
    }

    open spec fn bridge_name(&self) -> Seq<char> {
        "dbus-ibus"@
    }

    open spec fn submitted(&self, ev: DownEvent, after: &Self) -> bool {
        ibus_submit_step(self@, ev@, after@)
    }

    open spec fn cursor_reported(&self, rect: CursorRect, after: &Self) -> bool {
        ibus_cursor_step(self@, rect, after@)
    }

    open spec fn drained(&self, out: Seq<UpEvent>, after: &Self) -> bool {
        ibus_drain_step(self@, crate::ime_event::up_events_view(out), after@)
    }

    fn name(&self) -> (res: &'static str) {
        "dbus-ibus"
    }

    fn is_ready(&self) -> (res: bool) {
        self.ready && self.dead.is_none()
    }

    fn is_dead(&self) -> (res: bool) {
        self.dead.is_some()
    }

    /// Sends the command of `ev` to the worker; a not-ready bridge drops
    /// the event, and a closed channel marks the bridge dead.
    fn submit(&mut self, ev: DownEvent)
        ensures
            ibus_submit_step(old(self)@, ev@, final(self)@),
    {
        match self.command_for(ev) {
            Some(cmd) => {
                if !send_command(&mut self.cmd_tx, cmd) {
                    self.dead = Some(String::from_str("worker channel closed"));
                }
            },
            None => {},
        }
    }

    /// Drains the worker messages into upward events, in arrival order
    /// (each translated by [`DbusIbusBridge::absorb`]). The drain stops at
    /// an empty channel, at `Fatal` (the bridge becomes dead) or at a
    /// closed channel (the bridge becomes dead). A bridge that is not ready
    /// returns nothing and reads nothing.
    fn take_up_events(&mut self) -> (out: Vec<UpEvent>)
        ensures
            ibus_drain_step(old(self)@, crate::ime_event::up_events_view(out@), final(self)@),
    {
        let mut out: Vec<UpEvent> = Vec::new();
        if !(self.ready && self.dead.is_none()) {
            return out;
        }
        let ghost start = self@;
        let ghost n0 = start.received.len() as int;
        assert(crate::ime_event::up_events_view(out@) =~= Seq::<UpEventView>::empty());
        assert(self@.received.skip(n0) =~= Seq::<Receipt<WorkerMsg>>::empty());
        let mut budget: u64 = u64::MAX;
        while budget > 0
            invariant
                start == old(self)@,
                ibus_ready(start),
                n0 == start.received.len(),
                self@ == (IbusBridgeView {
                    next_batch: self@.next_batch,
                    received: self@.received,
                    ..start
                }),
                n0 <= self@.received.len(),
                self@.received.take(n0) == start.received,
                self@.received.len() - n0 + budget == u64::MAX,
                forall|i: int| 0 <= i < self@.received.skip(n0).len() ==> ibus_continues(#[trigger] self@.received.skip(n0)[i]),
                crate::ime_event::up_events_view(out@) == ibus_drain_events(start.next_batch, self@.received.skip(n0)),
                self@.next_batch == ibus_drain_batch(start.next_batch, self@.received.skip(n0)),
            ensures
                ibus_drain_step(start, crate::ime_event::up_events_view(out@), self@),
            decreases budget,
        {
            budget = budget - 1;
            let ghost rs = self@.received.skip(n0);
            let ghost evs = crate::ime_event::up_events_view(out@);
            let got = receive_message(&mut self.ev_rx);
            let ghost r = receipt_of(got);
            proof {
                assert(self@.received.skip(n0) =~= rs.push(r));
                assert(self@.received.skip(n0).drop_last() =~= rs);
                assert(self@.received.take(n0) =~= start.received);
            }
            match got {
                Received::Message(msg) => {
                    let (ev, stop) = self.absorb(msg);
                    match ev {
                        Some(e) => {
                            out.push(e);
                            assert(crate::ime_event::up_events_view(out@) =~= evs + seq![e@]);
                        },
                        None => {
                            assert(crate::ime_event::up_events_view(out@) =~= evs + Seq::<UpEventView>::empty());
                        },
                    }
                    if stop {
                        return out;
                    }
                },
                Received::Empty => {
                    assert(crate::ime_event::up_events_view(out@) =~= evs + Seq::<UpEventView>::empty());
                    return out;
                },
                Received::Disconnected => {
                    self.dead = Some(String::from_str("worker channel closed"));
                    assert(crate::ime_event::up_events_view(out@) =~= evs + Seq::<UpEventView>::empty());
                    return out;
                },
            }
        }
        out
    }

    /// Sends the cursor rectangle to the worker when the bridge is ready.
    fn update_cursor_rect(&mut self, rect: CursorRect)
        ensures
            ibus_cursor_step(old(self)@, rect, final(self)@),
    {
        if !(self.ready && self.dead.is_none()) {
            return;
        }
        let _ = send_command(
            &mut self.cmd_tx,
            ToWorker::SetCursorLocationRelative { x: rect.x, y: rect.y, w: rect.w, h: rect.h },
        );
    }
}

} // verus!
