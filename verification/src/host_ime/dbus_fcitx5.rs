//! fcitx5 backend: same key arbitration in FIFO order as ibus (without the
//! pairing of releases), with the fcitx5 D-Bus protocol on the worker side
//! (`ProcessKeyEvent` takes a release flag and a timestamp).

use vstd::prelude::*;
use std::sync::mpsc::{Receiver, Sender, TryRecvError};
use crate::channel::{receipt_of, Receipt, Received};
use crate::keyboard::KeyboardAction;
use crate::relay::{ImeCommand, ImeCommandView, commands_view};
use super::{
    ForwardedKey, HostEvent, HostEventView, HostImBackend, SubmittedKey, WorkerMsgView, host_events_view, opt_seq,
    poll_continues, poll_shape, sends_extend, sent_commands,
};
use super::dbus_ibus::{PendingKey, lemma_filter_take_step};

verus! {

/// Command for the fcitx5 worker thread.
#[derive(Debug, Clone, Copy, PartialEq, Eq, Structural)]
pub enum ToWorker {
    FocusIn,
    FocusOut,
    SetCursorRect(i32, i32, i32, i32),
    /// keyval, evdev, ibus-style state, release flag and timestamp (ms) of the key `seq`.
    Key { seq: u64, keysym: u32, evdev: u32, state: u32, release: bool, time_ms: u32 },
}

/// Message from the fcitx5 worker threads.
#[derive(Debug)]
pub enum FromWorker {
    Ready,
    KeyReply { seq: u64, consumed: bool },
    Ev(HostEvent),
    Forward(ForwardedKey),
    Fatal(String),
}

impl View for FromWorker {
    type V = super::WorkerMsgView;

    open spec fn view(&self) -> super::WorkerMsgView {
        match self {
            FromWorker::Ready => super::WorkerMsgView::Ready,
            FromWorker::KeyReply { seq, consumed } => super::WorkerMsgView::KeyReply { seq: *seq, consumed: *consumed },
            FromWorker::Ev(e) => super::WorkerMsgView::Ev(e@),
            FromWorker::Forward(f) => super::WorkerMsgView::Forward(*f),
            FromWorker::Fatal(m) => super::WorkerMsgView::Fatal(m@),
        }
    }
}

/// Mathematical state of a [`DbusFcitx5Backend`].
pub struct Fcitx5BackendView {
    pub events: Seq<HostEventView>,
    pub pending: Seq<PendingKey>,
    pub forwards: Seq<ForwardedKey>,
    pub ready: bool,
    pub dead: Option<Seq<char>>,
    pub want_enabled: bool,
    pub focused: bool,
    pub last_cursor: Option<(i32, i32, i32, i32)>,
    /// The commands handed to the worker channel so far, oldest first, each
    /// with whether the channel took it.
    pub sends: Seq<(ToWorker, bool)>,
    /// The outcomes of the receives on the event channel so far, oldest first.
    pub received: Seq<Receipt<WorkerMsgView>>,
}

/// A key submitted to the backend: taken over and sent to the worker when
/// the backend is ready.
pub open spec fn fcitx5_submit(v: Fcitx5BackendView, sk: SubmittedKey) -> (Fcitx5BackendView, bool, Option<ToWorker>) {
    if !v.ready || v.dead is Some {
        (v, false, None)
    } else {
        (
            Fcitx5BackendView {
                pending: v.pending.push(PendingKey { seq: sk.seq, key: sk.key, action: sk.action }),
                ..v
            },
            true,
            Some(
                ToWorker::Key {
                    seq: sk.seq,
                    keysym: sk.keysym,
                    evdev: sk.evdev,
                    state: sk.state,
                    release: sk.action == KeyboardAction::Release,
                    time_ms: 0,
                },
            ),
        )
    }
}

/// The decision for the key `seq`: the oldest pending key, when it matches,
/// is released unless consumed; a decision out of order removes the entries
/// with that sequence number.
pub open spec fn fcitx5_key_reply(v: Fcitx5BackendView, seq: u64, consumed: bool) -> Fcitx5BackendView {
    if v.pending.len() > 0 && v.pending[0].seq == seq {
        let p = v.pending[0];
        Fcitx5BackendView {
            pending: v.pending.drop_first(),
            forwards: if consumed { v.forwards } else { v.forwards.push(ForwardedKey { key: p.key, action: p.action }) },
            ..v
        }
    } else {
        Fcitx5BackendView { pending: v.pending.filter(|p: PendingKey| p.seq != seq), ..v }
    }
}

/// One message from the worker; the flag tells whether polling stops.
pub open spec fn fcitx5_receive(v: Fcitx5BackendView, msg: WorkerMsgView) -> (Fcitx5BackendView, bool) {
    match msg {
        WorkerMsgView::Ready => (Fcitx5BackendView { ready: true, ..v }, false),
        WorkerMsgView::KeyReply { seq, consumed } => (fcitx5_key_reply(v, seq, consumed), false),
        WorkerMsgView::Ev(e) => (Fcitx5BackendView { events: v.events.push(e), ..v }, false),
        WorkerMsgView::Forward(f) => (Fcitx5BackendView { forwards: v.forwards.push(f), ..v }, false),
        WorkerMsgView::Fatal(m) => (Fcitx5BackendView { dead: Some(m), ..v }, true),
    }
}

/// The state after a poll that read the outcomes `rs` in order: each
/// message is received, and a closed channel marks the backend dead.
pub open spec fn fcitx5_poll_state(v: Fcitx5BackendView, rs: Seq<Receipt<WorkerMsgView>>) -> Fcitx5BackendView
    decreases rs.len(),
{
    if rs.len() == 0 {
        v
    } else {
        let v1 = fcitx5_poll_state(v, rs.drop_last());
        match rs.last() {
            Receipt::Message(m) => fcitx5_receive(v1, m).0,
            Receipt::Empty => v1,
            Receipt::Disconnected => Fcitx5BackendView { dead: Some(super::channel_closed()), ..v1 },
        }
    }
}

/// `poll` from state `old`: a dead backend reads nothing and changes
/// nothing. A live one reads the outcomes `rs` (appended to its receive
/// history) and ends in the state after them; nothing is sent.
pub open spec fn fcitx5_poll_step(old: Fcitx5BackendView, new: Fcitx5BackendView) -> bool {
    if old.dead is Some {
        new == old
    } else {
        let rs = new.received.skip(old.received.len() as int);
        &&& old.received.len() <= new.received.len()
        &&& new.received.take(old.received.len() as int) == old.received
        &&& poll_shape(rs)
        &&& new == Fcitx5BackendView { received: new.received, ..fcitx5_poll_state(old, rs) }
    }
}

/// A cursor rectangle: sent unless it is the one sent last.
pub open spec fn fcitx5_cursor(v: Fcitx5BackendView, rect: (i32, i32, i32, i32)) -> (Fcitx5BackendView, Seq<ToWorker>) {
    if v.last_cursor == Some(rect) {
        (v, Seq::empty())
    } else {
        (
            Fcitx5BackendView { last_cursor: Some(rect), ..v },
            seq![ToWorker::SetCursorRect(rect.0, rect.1, rect.2, rect.3)],
        )
    }
}

/// One relay command: `Activate` focuses when needed and sends the
/// cursor; `PushState` sends the cursor; `Deactivate` unfocuses.
pub open spec fn fcitx5_command_step(v: Fcitx5BackendView, cmd: ImeCommandView) -> (Fcitx5BackendView, Seq<ToWorker>) {
    match cmd {
        ImeCommandView::Activate(st) => {
            let v1 = Fcitx5BackendView { want_enabled: true, ..v };
            let (v2, c1) = if !v1.focused {
                (Fcitx5BackendView { focused: true, ..v1 }, seq![ToWorker::FocusIn])
            } else {
                (v1, Seq::empty())
            };
            match st.rect {
                Some(r) => {
                    let (v3, c2) = fcitx5_cursor(v2, r);
                    (v3, c1 + c2)
                },
                None => (v2, c1),
            }
        },
        ImeCommandView::PushState(st) => match st.rect {
            Some(r) => fcitx5_cursor(v, r),
            None => (v, Seq::empty()),
        },
        ImeCommandView::Deactivate => {
            let v1 = Fcitx5BackendView { want_enabled: false, ..v };
            if v1.focused {
                (Fcitx5BackendView { focused: false, ..v1 }, seq![ToWorker::FocusOut])
            } else {
                (v1, Seq::empty())
            }
        },
    }
}

/// A sequence of relay commands, in order (nothing once the backend is dead).
pub open spec fn fcitx5_commands(v: Fcitx5BackendView, cmds: Seq<ImeCommandView>) -> (Fcitx5BackendView, Seq<ToWorker>)
    decreases cmds.len(),
{
    if v.dead is Some || cmds.len() == 0 {
        (v, Seq::empty())
    } else {
        let (v1, c1) = fcitx5_commands(v, cmds.drop_last());
        let (v2, c2) = fcitx5_command_step(v1, cmds.last());
        (v2, c1 + c2)
    }
}

/// The game session becomes active or inactive (focus follows); setting
/// the current value does nothing.
pub open spec fn fcitx5_set_active(v: Fcitx5BackendView, active: bool) -> (Fcitx5BackendView, Option<ToWorker>) {
    if v.want_enabled == active {
        (v, None)
    } else {
        (
            Fcitx5BackendView { want_enabled: active, focused: active, ..v },
            Some(if active { ToWorker::FocusIn } else { ToWorker::FocusOut }),
        )
    }
}

/// fcitx5 host input-method backend (main-thread side).
pub struct DbusFcitx5Backend {
    cmd_tx: Sender<ToWorker>,
    ev_rx: Receiver<FromWorker>,
    events: Vec<HostEvent>,
    pending: std::collections::VecDeque<PendingKey>,
    forwards: Vec<ForwardedKey>,
    ready: bool,
    dead: Option<String>,
    want_enabled: bool,
    focused: bool,
    last_cursor: Option<(i32, i32, i32, i32)>,
}

impl View for DbusFcitx5Backend {
    type V = Fcitx5BackendView;

    closed spec fn view(&self) -> Fcitx5BackendView {
        Fcitx5BackendView {
            events: host_events_view(self.events@),
            pending: self.pending@,
            forwards: self.forwards@,
            ready: self.ready,
            dead: match self.dead {
                Some(s) => Some(s@),
                None => None,
            },
            want_enabled: self.want_enabled,
            focused: self.focused,
            last_cursor: self.last_cursor,
            sends: fcitx5_backend_sends(self.cmd_tx),
            received: fcitx5_backend_receipts(self.ev_rx),
        }
    }
}

/// The commands handed to a fcitx5 command sender so far, oldest first, each
/// with whether the channel took it.
pub uninterp spec fn fcitx5_backend_sends(tx: Sender<ToWorker>) -> Seq<(ToWorker, bool)>;

/// Calls `Sender::send` with a command. `Ok` means the worker end has not
/// hung up and the command is in the channel; `Err` means the worker is gone
/// and the command was not delivered. Which happens depends on the worker
/// thread; the command and the outcome are appended to the history.
#[verifier::external_body]
fn send_command(tx: &mut Sender<ToWorker>, cmd: ToWorker) -> (ok: bool)
    ensures
        fcitx5_backend_sends(*final(tx)) == fcitx5_backend_sends(*old(tx)).push((cmd, ok)),
{
    tx.send(cmd).is_ok()
}

/// The outcomes of the receives made on a fcitx5 event receiver so far,
/// oldest first: each message by its view, or that the channel was empty or
/// closed.
pub uninterp spec fn fcitx5_backend_receipts(rx: Receiver<FromWorker>) -> Seq<Receipt<WorkerMsgView>>;

/// Calls `Receiver::try_recv` once and tells its outcomes apart: the next
/// waiting message, `Empty` when none is waiting, `Disconnected` when every
/// worker end is gone. Which of them comes depends on the worker threads;
/// the outcome is appended to the receiver's history.
#[verifier::external_body]
fn receive_message(rx: &mut Receiver<FromWorker>) -> (res: Received<FromWorker>)
    ensures
        fcitx5_backend_receipts(*final(rx)) == fcitx5_backend_receipts(*old(rx)).push(receipt_of(res)),
{
    match rx.try_recv() {
        Ok(m) => Received::Message(m),
        Err(TryRecvError::Empty) => Received::Empty,
        Err(TryRecvError::Disconnected) => Received::Disconnected,
    }
}

impl DbusFcitx5Backend {
    /// A ready backend over the given worker channels (`ready` says whether
    /// the worker has already reported its input context).
    pub fn from_parts(cmd_tx: Sender<ToWorker>, ev_rx: Receiver<FromWorker>) -> (res: Self)
        ensures
            res@.ready,
            res@.dead is None,
            res@.events.len() == 0,
            res@.pending.len() == 0,
            res@.forwards.len() == 0,
            !res@.want_enabled,
            !res@.focused,
            res@.last_cursor is None,
            res@.sends == fcitx5_backend_sends(cmd_tx),
            res@.received == fcitx5_backend_receipts(ev_rx),
    {
        DbusFcitx5Backend {
            cmd_tx,
            ev_rx,
            events: Vec::new(),
            pending: std::collections::VecDeque::new(),
            forwards: Vec::new(),
            ready: true,
            dead: None,
            want_enabled: false,
            focused: false,
            last_cursor: None,
        }
    }

    /// A backend whose worker still has to create the input context: like
    /// [`DbusFcitx5Backend::from_parts`], but not ready (it takes no key over)
    /// until the worker reports `Ready`.
    pub fn awaiting_ready(cmd_tx: Sender<ToWorker>, ev_rx: Receiver<FromWorker>) -> (res: Self)
        ensures
            !res@.ready,
            res@.dead is None,
            res@.events.len() == 0,
            res@.pending.len() == 0,
            res@.forwards.len() == 0,
            !res@.want_enabled,
            !res@.focused,
            res@.last_cursor is None,
            res@.sends == fcitx5_backend_sends(cmd_tx),
            res@.received == fcitx5_backend_receipts(ev_rx),
    {
        let mut b = DbusFcitx5Backend::from_parts(cmd_tx, ev_rx);
        b.set_ready(false);
        b
    }

    /// Overrides the readiness flag (normally set by the worker's `Ready`).
    pub fn set_ready(&mut self, ready: bool)
        ensures
            final(self)@ == (Fcitx5BackendView { ready, ..old(self)@ }),
    {
        self.ready = ready;
    }

    /// Number of keys waiting for a decision.
    pub fn pending_len(&self) -> (res: usize)
        ensures
            res == self@.pending.len(),
    {
        self.pending.len()
    }

    /// Decides a submitted key (see [`fcitx5_submit`]).
    pub fn decide_key(&mut self, sk: SubmittedKey) -> (res: (bool, Option<ToWorker>))
        ensures
            (final(self)@, res.0, res.1) == fcitx5_submit(old(self)@, sk),
    {
        if !self.ready || self.dead.is_some() {
            return (false, None);
        }
        self.pending.push_back(PendingKey { seq: sk.seq, key: sk.key, action: sk.action });
        let release = match sk.action {
            KeyboardAction::Release => true,
            KeyboardAction::Press => false,
            KeyboardAction::Repeat => false,
        };
        (
            true,
            Some(ToWorker::Key { seq: sk.seq, keysym: sk.keysym, evdev: sk.evdev, state: sk.state, release, time_ms: 0 }),
        )
    }

    fn remove_seq(&mut self, seq: u64)
        ensures
            final(self)@ == (Fcitx5BackendView {
                pending: old(self)@.pending.filter(|p: PendingKey| p.seq != seq),
                ..old(self)@
            }),
    {
        let mut kept: std::collections::VecDeque<PendingKey> = std::collections::VecDeque::new();
        let n = self.pending.len();
        let mut i: usize = 0;
        while i < n
            invariant
                n == self@.pending.len(),
                self == old(self),
                i <= n,
                kept@ == self@.pending.take(i as int).filter(|p: PendingKey| p.seq != seq),
            decreases n - i,
        {
            proof {
                lemma_filter_take_step(self@.pending, seq, i as int);
            }
            let p = self.pending[i];
            if p.seq != seq {
                kept.push_back(p);
            }
            i = i + 1;
        }
        assert(self@.pending.take(n as int) =~= self@.pending);
        self.pending = kept;
    }

    /// Applies the decision of the key `seq` (see [`fcitx5_key_reply`]).
    pub fn apply_key_reply(&mut self, seq: u64, consumed: bool)
        ensures
            final(self)@ == fcitx5_key_reply(old(self)@, seq, consumed),
    {
        if self.pending.len() > 0 && self.pending[0].seq == seq {
            let p = self.pending[0];
            let _ = self.pending.pop_front();
            assert(self@.pending =~= old(self)@.pending.drop_first());
            if !consumed {
                self.forwards.push(ForwardedKey { key: p.key, action: p.action });
            }
        } else {
            self.remove_seq(seq);
        }
    }

    /// Applies one worker message (see [`fcitx5_receive`]); true when polling stops.
    pub fn receive(&mut self, msg: FromWorker) -> (stop: bool)
        ensures
            (final(self)@, stop) == fcitx5_receive(old(self)@, msg@),
    {
        match msg {
            FromWorker::Ready => {
                self.ready = true;
                false
            },
            FromWorker::KeyReply { seq, consumed } => {
                self.apply_key_reply(seq, consumed);
                false
            },
            FromWorker::Ev(e) => {
                self.events.push(e);
                assert(self@.events =~= old(self)@.events.push(e@));
                false
            },
            FromWorker::Forward(f) => {
                self.forwards.push(f);
                false
            },
            FromWorker::Fatal(m) => {
                self.dead = Some(m);
                true
            },
        }
    }

    fn cursor_step(&mut self, rect: (i32, i32, i32, i32), out: &mut Vec<ToWorker>)
        ensures
            (final(self)@, final(out)@) == ({
                let (v, c) = fcitx5_cursor(old(self)@, rect);
                (v, old(out)@ + c)
            }),
    {
        let same = match self.last_cursor {
            Some(r) => r.0 == rect.0 && r.1 == rect.1 && r.2 == rect.2 && r.3 == rect.3,
            None => false,
        };
        if same {
            assert(old(out)@ + Seq::<ToWorker>::empty() =~= out@);
            return;
        }
        self.last_cursor = Some(rect);
        out.push(ToWorker::SetCursorRect(rect.0, rect.1, rect.2, rect.3));
        assert(out@ =~= old(out)@ + seq![ToWorker::SetCursorRect(rect.0, rect.1, rect.2, rect.3)]);
    }

    fn command_step(&mut self, cmd: &ImeCommand, out: &mut Vec<ToWorker>)
        ensures
            (final(self)@, final(out)@) == ({
                let (v, c) = fcitx5_command_step(old(self)@, cmd@);
                (v, old(out)@ + c)
            }),
    {
        match cmd {
            ImeCommand::Activate(st) => {
                self.want_enabled = true;
                let ghost out0 = out@;
                if !self.focused {
                    out.push(ToWorker::FocusIn);
                    self.focused = true;
                }
                let ghost out1 = out@;
                match st.cursor_rect {
                    Some(r) => {
                        self.cursor_step(r, out);
                        assert(out@ =~= out0 + (out1.subrange(out0.len() as int, out1.len() as int)
                            + out@.subrange(out1.len() as int, out@.len() as int)));
                    },
                    None => {},
                }
                proof {
                    if st.cursor_rect is None {
                        assert(out@ =~= out0 + out@.subrange(out0.len() as int, out@.len() as int));
                    }
                }
            },
            ImeCommand::PushState(st) => {
                match st.cursor_rect {
                    Some(r) => self.cursor_step(r, out),
                    None => {
                        assert(old(out)@ + Seq::<ToWorker>::empty() =~= out@);
                    },
                }
            },
            ImeCommand::Deactivate => {
                self.want_enabled = false;
                if self.focused {
                    out.push(ToWorker::FocusOut);
                    self.focused = false;
                    assert(out@ =~= old(out)@ + seq![ToWorker::FocusOut]);
                } else {
                    assert(old(out)@ + Seq::<ToWorker>::empty() =~= out@);
                }
            },
        }
    }

    /// The worker commands for a sequence of relay commands (see
    /// [`fcitx5_commands`]); a dead backend plans nothing.
    pub fn plan_commands(&mut self, commands: &Vec<ImeCommand>) -> (out: Vec<ToWorker>)
        ensures
            (final(self)@, out@) == fcitx5_commands(old(self)@, commands_view(commands@)),
    {
        let mut out: Vec<ToWorker> = Vec::new();
        if self.dead.is_some() {
            return out;
        }
        let n = commands.len();
        let mut i: usize = 0;
        while i < n
            invariant
                n == commands@.len(),
                i <= n,
                self@.dead is None,
                (self@, out@) == fcitx5_commands(old(self)@, commands_view(commands@).take(i as int)),
            decreases n - i,
        {
            proof {
                assert(commands_view(commands@).take(i + 1).drop_last() =~= commands_view(commands@).take(i as int));
            }
            self.command_step(&commands[i], &mut out);
            i = i + 1;
        }
        assert(commands_view(commands@).take(n as int) =~= commands_view(commands@));
        out
    }

    /// The worker command for a change of the session state (see [`fcitx5_set_active`]).
    pub fn plan_set_active(&mut self, active: bool) -> (cmd: Option<ToWorker>)
        ensures
            (final(self)@, cmd) == fcitx5_set_active(old(self)@, active),
    {
        if self.want_enabled == active {
            return None;
        }
        self.want_enabled = active;
        self.focused = active;
        Some(if active { ToWorker::FocusIn } else { ToWorker::FocusOut })
    }
}

/// Sends commands to the worker in order, each once, whatever the outcome
/// of the others.
fn send_all(tx: &mut Sender<ToWorker>, cmds: &Vec<ToWorker>)
    ensures
        sends_extend(fcitx5_backend_sends(*old(tx)), fcitx5_backend_sends(*final(tx)), cmds@),
{
    let ghost log0 = fcitx5_backend_sends(*tx);
    let n = cmds.len();
    let mut i: usize = 0;
    assert(fcitx5_backend_sends(*tx).skip(log0.len() as int) =~= Seq::<(ToWorker, bool)>::empty());
    assert(fcitx5_backend_sends(*tx).take(log0.len() as int) =~= log0);
    assert(sent_commands(Seq::<(ToWorker, bool)>::empty()) =~= cmds@.take(0));
    while i < n
        invariant
            n == cmds@.len(),
            i <= n,
            log0 == fcitx5_backend_sends(*old(tx)),
            sends_extend(log0, fcitx5_backend_sends(*tx), cmds@.take(i as int)),
        decreases n - i,
    {
        let ghost before = fcitx5_backend_sends(*tx);
        let ok = send_command(tx, cmds[i]);
        proof {
            let after = fcitx5_backend_sends(*tx);
            assert(after.skip(log0.len() as int) =~= before.skip(log0.len() as int).push((cmds@[i as int], ok)));
            assert(after.take(log0.len() as int) =~= before.take(log0.len() as int));
            assert(cmds@.take(i + 1) =~= cmds@.take(i as int).push(cmds@[i as int]));
            assert(sent_commands(after.skip(log0.len() as int)) =~= sent_commands(before.skip(log0.len() as int)).push(
                cmds@[i as int],
            ));
        }
        i = i + 1;
    }
    assert(cmds@.take(n as int) =~= cmds@);
}

/// Receiving a message does not depend on, nor change, the receive history.
proof fn lemma_fcitx5_receive_frame(v: Fcitx5BackendView, m: WorkerMsgView, r: Seq<Receipt<WorkerMsgView>>)
    ensures
        fcitx5_receive(Fcitx5BackendView { received: r, ..v }, m) == (
            Fcitx5BackendView { received: r, ..fcitx5_receive(v, m).0 },
            fcitx5_receive(v, m).1,
        ),
{
    let w = Fcitx5BackendView { received: r, ..v };
    match m {
        WorkerMsgView::KeyReply { seq, consumed } => {
            assert(fcitx5_key_reply(w, seq, consumed) == Fcitx5BackendView {
                received: r,
                ..fcitx5_key_reply(v, seq, consumed)
            });
        },
        _ => {},
    }
}

/// Planning relay commands leaves the channel histories alone.
proof fn lemma_fcitx5_commands_keep_channels(v: Fcitx5BackendView, cmds: Seq<ImeCommandView>)
    ensures
        fcitx5_commands(v, cmds).0.sends == v.sends,
        fcitx5_commands(v, cmds).0.received == v.received,
    decreases cmds.len(),
{
    if !(v.dead is Some || cmds.len() == 0) {
        lemma_fcitx5_commands_keep_channels(v, cmds.drop_last());
    }
}

impl HostImBackend for DbusFcitx5Backend {
    open spec fn backend_ready(&self) -> bool {
        self@.ready && self@.dead is None
    }

    open spec fn backend_dead(&self) -> bool {
        self@.dead is Some
    }

    fn name(&self) -> (res: &'static str)
        ensures
            res@ == "dbus-fcitx5"@,
    {
        "dbus-fcitx5"
    }

    fn is_ready(&self) -> (res: bool) {
        self.ready && self.dead.is_none()
    }

    /// Focuses or unfocuses the input context when the session state
    /// changes (see [`fcitx5_set_active`]); the command goes to the worker.
    fn set_active(&mut self, active: bool)
        ensures
            final(self)@ == (Fcitx5BackendView { sends: final(self)@.sends, ..fcitx5_set_active(old(self)@, active).0 }),
            sends_extend(old(self)@.sends, final(self)@.sends, opt_seq(fcitx5_set_active(old(self)@, active).1)),
    {
        let ghost log0 = self@.sends;
        let cmd = self.plan_set_active(active);
        let mut ok = false;
        match cmd {
            Some(c) => {
                ok = send_command(&mut self.cmd_tx, c);
            },
            None => {},
        }
        proof {
            super::lemma_sends_extend_opt(log0, cmd, self@.sends, ok);
        }
    }

    /// Plans the worker commands of the relay commands (see
    /// [`fcitx5_commands`]) and sends them in order.
    fn execute_commands(&mut self, commands: Vec<ImeCommand>)
        ensures
            final(self)@ == (Fcitx5BackendView {
                sends: final(self)@.sends,
                ..fcitx5_commands(old(self)@, commands_view(commands@)).0
            }),
            sends_extend(old(self)@.sends, final(self)@.sends, fcitx5_commands(old(self)@, commands_view(commands@)).1),
    {
        proof {
            lemma_fcitx5_commands_keep_channels(self@, commands_view(commands@));
        }
        let out = self.plan_commands(&commands);
        send_all(&mut self.cmd_tx, &out);
    }

    /// Receives every waiting worker message in order (see [`fcitx5_receive`]);
    /// stops at an empty channel, at `Fatal` or at a closed channel (both
    /// make the backend dead). A dead backend reads nothing.
    fn poll(&mut self)
        ensures
            fcitx5_poll_step(old(self)@, final(self)@),
    {
        if self.dead.is_some() {
            return;
        }
        let ghost start = self@;
        let ghost n0 = start.received.len() as int;
        assert(self@.received.skip(n0) =~= Seq::<Receipt<WorkerMsgView>>::empty());
        let mut budget: u64 = u64::MAX;
        while budget > 0
            invariant
                start == old(self)@,
                start.dead is None,
                n0 == start.received.len(),
                n0 <= self@.received.len(),
                self@.received.take(n0) == start.received,
                self@.received.len() - n0 + budget == u64::MAX,
                forall|i: int| 0 <= i < self@.received.skip(n0).len() ==> poll_continues(#[trigger] self@.received.skip(n0)[i]),
                self@ == (Fcitx5BackendView {
                    received: self@.received,
                    ..fcitx5_poll_state(start, self@.received.skip(n0))
                }),
            ensures
                fcitx5_poll_step(start, self@),
            decreases budget,
        {
            budget = budget - 1;
            let ghost rs = self@.received.skip(n0);
            let got = receive_message(&mut self.ev_rx);
            proof {
                assert(self@.received.skip(n0) =~= rs.push(receipt_of(got)));
                assert(self@.received.skip(n0).drop_last() =~= rs);
                assert(self@.received.take(n0) =~= start.received);
            }
            match got {
                Received::Message(msg) => {
                    proof {
                        lemma_fcitx5_receive_frame(fcitx5_poll_state(start, rs), msg@, self@.received);
                    }
                    if self.receive(msg) {
                        return;
                    }
                },
                Received::Empty => {
                    return;
                },
                Received::Disconnected => {
                    self.dead = Some(String::from_str("worker channel closed"));
                    return;
                },
            }
        }
    }

    fn take_events(&mut self) -> (res: Vec<HostEvent>)
        ensures
            host_events_view(res@) == old(self)@.events,
            final(self)@ == (Fcitx5BackendView { events: Seq::empty(), ..old(self)@ }),
    {
        let mut taken: Vec<HostEvent> = Vec::new();
        std::mem::swap(&mut taken, &mut self.events);
        assert(self@.events =~= Seq::<HostEventView>::empty());
        taken
    }

    fn take_forwarded_keys(&mut self) -> (res: Vec<ForwardedKey>)
        ensures
            res@ == old(self)@.forwards,
            final(self)@ == (Fcitx5BackendView { forwards: Seq::empty(), ..old(self)@ }),
    {
        let mut taken: Vec<ForwardedKey> = Vec::new();
        std::mem::swap(&mut taken, &mut self.forwards);
        taken
    }

    /// Takes a raw key over when ready (see [`fcitx5_submit`]) and sends it to the worker.
    fn submit_key(&mut self, sk: SubmittedKey) -> (taken: bool)
        ensures
            (final(self)@, taken) == ({
                let (v, t, _) = fcitx5_submit(old(self)@, sk);
                (Fcitx5BackendView { sends: final(self)@.sends, ..v }, t)
            }),
            sends_extend(old(self)@.sends, final(self)@.sends, opt_seq(fcitx5_submit(old(self)@, sk).2)),
    {
        let ghost log0 = self@.sends;
        let (taken, cmd) = self.decide_key(sk);
        let mut ok = false;
        match cmd {
            Some(c) => {
                ok = send_command(&mut self.cmd_tx, c);
            },
            None => {},
        }
        proof {
            super::lemma_sends_extend_opt(log0, cmd, self@.sends, ok);
        }
        taken
    }

    fn is_dead(&self) -> (res: bool) {
        self.dead.is_some()
    }

    /// Sends a cursor rectangle unless it is the one sent last.
    fn update_cursor_rect(&mut self, rect: (i32, i32, i32, i32))
        ensures
            final(self)@ == (Fcitx5BackendView { sends: final(self)@.sends, ..fcitx5_cursor(old(self)@, rect).0 }),
            sends_extend(old(self)@.sends, final(self)@.sends, fcitx5_cursor(old(self)@, rect).1),
    {
        let mut out: Vec<ToWorker> = Vec::new();
        self.cursor_step(rect, &mut out);
        assert(Seq::<ToWorker>::empty() + fcitx5_cursor(old(self)@, rect).1 =~= fcitx5_cursor(old(self)@, rect).1);
        send_all(&mut self.cmd_tx, &out);
    }
}

/// A backend that is not ready (or dead) takes no key over and changes nothing.
pub proof fn law_fcitx5_not_ready_takes_no_key(v: Fcitx5BackendView, sk: SubmittedKey)
    requires
        !v.ready || v.dead is Some,
    ensures
        fcitx5_submit(v, sk) == (v, false, Option::<ToWorker>::None),
{
}

/// Keys whose decisions arrive in submission order are released in that
/// order when not consumed.
pub proof fn law_fcitx5_fifo_forwarding(v: Fcitx5BackendView, a: SubmittedKey, b: SubmittedKey)
    requires
        v.ready,
        v.dead is None,
        v.pending.len() == 0,
        a.seq != b.seq,
    ensures
        ({
            let v1 = fcitx5_submit(fcitx5_submit(v, a).0, b).0;
            let v2 = fcitx5_key_reply(fcitx5_key_reply(v1, a.seq, false), b.seq, false);
            &&& v2.forwards == v.forwards.push(ForwardedKey { key: a.key, action: a.action }).push(
                ForwardedKey { key: b.key, action: b.action },
            )
            &&& v2.pending.len() == 0
        }),
{
    let v1 = fcitx5_submit(fcitx5_submit(v, a).0, b).0;
    assert(v1.pending =~= seq![
        PendingKey { seq: a.seq, key: a.key, action: a.action },
        PendingKey { seq: b.seq, key: b.key, action: b.action },
    ]);
    assert(v1.pending.drop_first() =~= seq![PendingKey { seq: b.seq, key: b.key, action: b.action }]);
}

} // verus!
