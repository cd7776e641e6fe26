//! ibus backend: the main-thread side of the key arbitration and of the
//! worker channels.
//!
//! `submit_key` queues a key for `ProcessKeyEvent` and answers at once that
//! it took the key over; the worker's `KeyReply` for that key, matched in
//! FIFO order, decides it: consumed keys are dropped, others are released
//! to the application. A release follows the decision of its press: after a
//! consumed press it is eaten; while the press is undecided it waits and is
//! then released or dropped together with the press.

use vstd::prelude::*;
use std::collections::{HashSet, VecDeque};
use std::sync::mpsc::{Receiver, Sender, TryRecvError};
use crate::channel::{receipt_of, Receipt, Received};
use crate::keyboard::KeyboardAction;
use crate::relay::{ImeCommand, ImeCommandView, commands_view};
use super::{
    ForwardedKey, HostEvent, HostEventView, HostImBackend, SubmittedKey, WorkerMsgView, host_events_view, opt_seq,
    poll_continues, poll_shape, sends_extend, sent_commands,
};

verus! {

broadcast use vstd::std_specs::hash::group_hash_axioms;

/// Command for the ibus worker thread (order-sensitive: one consumer).
#[derive(Debug, Clone, Copy, PartialEq, Eq, Structural)]
pub enum ToWorker {
    FocusIn,
    FocusOut,
    SetCursorRect(i32, i32, i32, i32),
    /// keysym, evdev keycode and ibus state mask of the key `seq`.
    Key { seq: u64, keysym: u32, evdev: u32, state: u32 },
}

/// Message from the ibus worker threads.
#[derive(Debug)]
pub enum FromWorker {
    /// The input context is ready.
    Ready,
    /// Decision of `ProcessKeyEvent` for the key `seq`.
    KeyReply { seq: u64, consumed: bool },
    /// Ordered host event.
    Ev(HostEvent),
    /// Key handed back by the engine (`ForwardKeyEvent`).
    Forward(ForwardedKey),
    /// The connection ended.
    Fatal(String),
}

impl View for FromWorker {
    type V = super::WorkerMsgView;

    open spec fn view(&self) -> super::WorkerMsgView {
        match self {
            FromWorker::Ready => super::WorkerMsgView::Ready,
            FromWorker::KeyReply { seq, consumed } => super::WorkerMsgView::KeyReply { seq: *seq, consumed: *consumed },
            FromWorker::Ev(e) => super::WorkerMsgView::Ev(e@),
            FromWorker::Forward(f) => super::WorkerMsgView::Forward(*f),
            FromWorker::Fatal(m) => super::WorkerMsgView::Fatal(m@),
        }
    }
}

/// A key waiting for its decision.
#[derive(Debug, Clone, Copy, PartialEq, Eq, Structural)]
pub struct PendingKey {
    pub seq: u64,
    pub key: u32,
    pub action: KeyboardAction,
}

/// Index of the first occurrence of `k` in `s`, or -1.
pub open spec fn first_pos(s: Seq<u32>, k: u32) -> int
    decreases s.len(),
{
    if s.len() == 0 {
        -1
    } else if s[0] == k {
        0
    } else {
        let r = first_pos(s.drop_first(), k);
        if r < 0 { -1 } else { r + 1 }
    }
}

pub proof fn lemma_first_pos(s: Seq<u32>, k: u32)
    ensures
        first_pos(s, k) >= 0 <==> s.contains(k),
        first_pos(s, k) >= 0 ==> first_pos(s, k) < s.len() && s[first_pos(s, k)] == k,
        forall|j: int| 0 <= j < first_pos(s, k) ==> s[j] != k,
        first_pos(s, k) < 0 ==> forall|j: int| 0 <= j < s.len() ==> s[j] != k,
    decreases s.len(),
{
    if s.len() > 0 {
        lemma_first_pos(s.drop_first(), k);
        if s[0] != k {
            assert forall|j: int| 0 < j < s.len() implies s[j] == s.drop_first()[j - 1] by {}
            if s.drop_first().contains(k) {
                let j = choose|j: int| 0 <= j < s.drop_first().len() && s.drop_first()[j] == k;
                assert(s[j + 1] == k);
            }
            if s.contains(k) {
                let j = choose|j: int| 0 <= j < s.len() && s[j] == k;
                assert(s.drop_first()[j - 1] == k);
            }
        }
    }
}

/// Removes the first occurrence of `k`; tells whether there was one.
pub open spec fn take_first(s: Seq<u32>, k: u32) -> (Seq<u32>, bool) {
    if first_pos(s, k) >= 0 {
        (s.remove(first_pos(s, k)), true)
    } else {
        (s, false)
    }
}

/// The key of the first pending entry with sequence number `seq`.
pub open spec fn key_of_seq(s: Seq<PendingKey>, seq: u64) -> Option<u32>
    decreases s.len(),
{
    if s.len() == 0 {
        None
    } else if s[0].seq == seq {
        Some(s[0].key)
    } else {
        key_of_seq(s.drop_first(), seq)
    }
}

/// Whether a press (or repeat) of `key` still waits for its decision.
pub open spec fn press_undecided(s: Seq<PendingKey>, key: u32) -> bool {
    exists|i: int| 0 <= i < s.len() && s[i].key == key && s[i].action != KeyboardAction::Release
}

/// Mathematical state of a [`DbusIbusBackend`].
pub struct IbusBackendView {
    pub events: Seq<HostEventView>,
    pub pending: Seq<PendingKey>,
    pub consumed: Set<u32>,
    pub release_waiting: Seq<u32>,
    pub forwards: Seq<ForwardedKey>,
    pub ready: bool,
    pub dead: Option<Seq<char>>,
    pub want_enabled: bool,
    pub focused: bool,
    pub last_cursor: Option<(i32, i32, i32, i32)>,
    pub prefer_ti3: bool,
    /// The commands handed to the worker channel so far, oldest first, each
    /// with whether the channel took it.
    pub sends: Seq<(ToWorker, bool)>,
    /// The outcomes of the receives on the event channel so far, oldest first.
    pub received: Seq<Receipt<WorkerMsgView>>,
}

/// A key submitted to the backend: whether it is taken over, and the
/// command for the worker, if any.
pub open spec fn ibus_submit(v: IbusBackendView, sk: SubmittedKey) -> (IbusBackendView, bool, Option<ToWorker>) {
    if !v.ready || v.dead is Some {
        (v, false, None)
    } else if sk.action == KeyboardAction::Release && v.consumed.contains(sk.key) {
        (IbusBackendView { consumed: v.consumed.remove(sk.key), ..v }, true, None)
    } else if sk.action == KeyboardAction::Release && press_undecided(v.pending, sk.key) {
        (IbusBackendView { release_waiting: v.release_waiting.push(sk.key), ..v }, true, None)
    } else {
        (
            IbusBackendView {
                pending: v.pending.push(PendingKey { seq: sk.seq, key: sk.key, action: sk.action }),
                ..v
            },
            true,
            Some(ToWorker::Key { seq: sk.seq, keysym: sk.keysym, evdev: sk.evdev, state: sk.state }),
        )
    }
}

/// The decision `consumed` for the key `seq` arrives.
///
/// When it matches the oldest pending key, that key is decided: released
/// (with a waiting release of the same key right after it) or consumed
/// (remembered so that its release is eaten; a waiting release is
/// dropped). A decision out of order removes every pending entry with that
/// sequence number, and a release waiting for that key is released so
/// that the key cannot stay pressed.
pub open spec fn ibus_key_reply(v: IbusBackendView, seq: u64, consumed: bool) -> IbusBackendView {
    if v.pending.len() > 0 && v.pending[0].seq == seq {
        let p = v.pending[0];
        let (rw, found) = take_first(v.release_waiting, p.key);
        if !consumed {
            let fw = v.forwards.push(ForwardedKey { key: p.key, action: p.action });
            IbusBackendView {
                pending: v.pending.drop_first(),
                release_waiting: rw,
                forwards: if found { fw.push(ForwardedKey { key: p.key, action: KeyboardAction::Release }) } else { fw },
                ..v
            }
        } else {
            IbusBackendView {
                pending: v.pending.drop_first(),
                release_waiting: rw,
                consumed: v.consumed.insert(p.key),
                ..v
            }
        }
    } else {
        let pending = v.pending.filter(|p: PendingKey| p.seq != seq);
        match key_of_seq(v.pending, seq) {
            Some(k) => {
                let (rw, found) = take_first(v.release_waiting, k);
                if found {
                    IbusBackendView {
                        pending,
                        release_waiting: rw,
                        forwards: v.forwards.push(ForwardedKey { key: k, action: KeyboardAction::Release }),
                        ..v
                    }
                } else {
                    IbusBackendView { pending, ..v }
                }
            },
            None => IbusBackendView { pending, ..v },
        }
    }
}

/// One message from the worker; the flag tells whether polling stops.
pub open spec fn ibus_receive(v: IbusBackendView, msg: WorkerMsgView) -> (IbusBackendView, bool) {
    match msg {
        WorkerMsgView::Ready => (IbusBackendView { ready: true, ..v }, false),
        WorkerMsgView::KeyReply { seq, consumed } => (ibus_key_reply(v, seq, consumed), false),
        WorkerMsgView::Ev(e) => (IbusBackendView { events: v.events.push(e), ..v }, false),
        WorkerMsgView::Forward(f) => (IbusBackendView { forwards: v.forwards.push(f), ..v }, false),
        WorkerMsgView::Fatal(m) => (IbusBackendView { dead: Some(m), ..v }, true),
    }
}

/// The state after a poll that read the outcomes `rs` in order: each
/// message is received, and a closed channel marks the backend dead.
pub open spec fn ibus_poll_state(v: IbusBackendView, rs: Seq<Receipt<WorkerMsgView>>) -> IbusBackendView
    decreases rs.len(),
{
    if rs.len() == 0 {
        v
    } else {
        let v1 = ibus_poll_state(v, rs.drop_last());
        match rs.last() {
            Receipt::Message(m) => ibus_receive(v1, m).0,
            Receipt::Empty => v1,
            Receipt::Disconnected => IbusBackendView { dead: Some(super::channel_closed()), ..v1 },
        }
    }
}

/// `poll` from state `old`: a dead backend reads nothing and changes
/// nothing. A live one reads the outcomes `rs` (appended to its receive
/// history) and ends in the state after them; nothing is sent.
pub open spec fn ibus_poll_step(old: IbusBackendView, new: IbusBackendView) -> bool {
    if old.dead is Some {
        new == old
    } else {
        let rs = new.received.skip(old.received.len() as int);
        &&& old.received.len() <= new.received.len()
        &&& new.received.take(old.received.len() as int) == old.received
        &&& poll_shape(rs)
        &&& new == IbusBackendView { received: new.received, ..ibus_poll_state(old, rs) }
    }
}

/// The cursor rectangle from the text-input session: sent unless it is
/// the one sent last.
pub open spec fn ibus_cursor_from_ti3(v: IbusBackendView, rect: (i32, i32, i32, i32)) -> (IbusBackendView, Seq<ToWorker>) {
    if v.last_cursor == Some(rect) {
        (v, Seq::empty())
    } else {
        (
            IbusBackendView { last_cursor: Some(rect), ..v },
            seq![ToWorker::SetCursorRect(rect.0, rect.1, rect.2, rect.3)],
        )
    }
}

/// One relay command. `Activate` makes the session cursor the source of
/// the candidate-window position, focuses the context when needed and
/// sends the session cursor; `PushState` sends the session cursor while it
/// is the source; `Deactivate` returns the source to the game and unfocuses.
pub open spec fn ibus_command_step(v: IbusBackendView, cmd: ImeCommandView) -> (IbusBackendView, Seq<ToWorker>) {
    match cmd {
        ImeCommandView::Activate(st) => {
            let v1 = IbusBackendView { want_enabled: true, prefer_ti3: true, ..v };
            let (v2, c1) = if !v1.focused {
                (IbusBackendView { focused: true, ..v1 }, seq![ToWorker::FocusIn])
            } else {
                (v1, Seq::empty())
            };
            match st.rect {
                Some(r) => {
                    let (v3, c2) = ibus_cursor_from_ti3(v2, r);
                    (v3, c1 + c2)
                },
                None => (v2, c1),
            }
        },
        ImeCommandView::PushState(st) => {
            if v.prefer_ti3 && st.rect is Some {
                ibus_cursor_from_ti3(v, st.rect->0)
            } else {
                (v, Seq::empty())
            }
        },
        ImeCommandView::Deactivate => {
            let v1 = IbusBackendView { want_enabled: false, prefer_ti3: false, ..v };
            if v1.focused {
                (IbusBackendView { focused: false, ..v1 }, seq![ToWorker::FocusOut])
            } else {
                (v1, Seq::empty())
            }
        },
    }
}

/// A sequence of relay commands, in order (nothing once the backend is dead).
pub open spec fn ibus_commands(v: IbusBackendView, cmds: Seq<ImeCommandView>) -> (IbusBackendView, Seq<ToWorker>)
    decreases cmds.len(),
{
    if v.dead is Some || cmds.len() == 0 {
        (v, Seq::empty())
    } else {
        let (v1, c1) = ibus_commands(v, cmds.drop_last());
        let (v2, c2) = ibus_command_step(v1, cmds.last());
        (v2, c1 + c2)
    }
}

/// The game session becomes active or inactive: the cursor source follows,
/// and the context is focused or unfocused. Setting the current value does nothing.
pub open spec fn ibus_set_active(v: IbusBackendView, active: bool) -> (IbusBackendView, Option<ToWorker>) {
    if v.want_enabled == active {
        (v, None)
    } else {
        (
            IbusBackendView { want_enabled: active, prefer_ti3: active, focused: active, ..v },
            Some(if active { ToWorker::FocusIn } else { ToWorker::FocusOut }),
        )
    }
}

/// A cursor rectangle reported by the game: ignored while the session
/// cursor is the source, and not resent when unchanged.
pub open spec fn ibus_java_cursor(v: IbusBackendView, rect: (i32, i32, i32, i32)) -> (IbusBackendView, Option<ToWorker>) {
    if v.prefer_ti3 || v.last_cursor == Some(rect) {
        (v, None)
    } else {
        (
            IbusBackendView { last_cursor: Some(rect), ..v },
            Some(ToWorker::SetCursorRect(rect.0, rect.1, rect.2, rect.3)),
        )
    }
}

/// ibus host input-method backend (main-thread side).
pub struct DbusIbusBackend {
    cmd_tx: Sender<ToWorker>,
    ev_rx: Receiver<FromWorker>,
    events: Vec<HostEvent>,
    pending: VecDeque<PendingKey>,
    ime_consumed: HashSet<u32>,
    release_waiting: VecDeque<u32>,
    forwards: Vec<ForwardedKey>,
    ready: bool,
    dead: Option<String>,
    want_enabled: bool,
    focused: bool,
    last_cursor: Option<(i32, i32, i32, i32)>,
    cursor_prefer_ti3: bool,
}

impl View for DbusIbusBackend {
    type V = IbusBackendView;

    closed spec fn view(&self) -> IbusBackendView {
        IbusBackendView {
            events: host_events_view(self.events@),
            pending: self.pending@,
            consumed: self.ime_consumed@,
            release_waiting: self.release_waiting@,
            forwards: self.forwards@,
            ready: self.ready,
            dead: match self.dead {
                Some(s) => Some(s@),
                None => None,
            },
            want_enabled: self.want_enabled,
            focused: self.focused,
            last_cursor: self.last_cursor,
            prefer_ti3: self.cursor_prefer_ti3,
            sends: ibus_backend_sends(self.cmd_tx),
            received: ibus_backend_receipts(self.ev_rx),
        }
    }
}

/// The state of a freshly connected backend whose channels have the given
/// histories.
pub open spec fn fresh_ibus_backend(sends: Seq<(ToWorker, bool)>, received: Seq<Receipt<WorkerMsgView>>) -> IbusBackendView {
    IbusBackendView {
        events: Seq::empty(),
        pending: Seq::empty(),
        consumed: Set::empty(),
        release_waiting: Seq::empty(),
        forwards: Seq::empty(),
        ready: true,
        dead: None,
        want_enabled: false,
        focused: false,
        last_cursor: None,
        prefer_ti3: false,
        sends,
        received,
    }
}

/// The commands handed to an ibus command sender so far, oldest first, each
/// with whether the channel took it.
pub uninterp spec fn ibus_backend_sends(tx: Sender<ToWorker>) -> Seq<(ToWorker, bool)>;

/// Calls `Sender::send` with a command. `Ok` means the worker end has not
/// hung up and the command is in the channel; `Err` means the worker is gone
/// and the command was not delivered. Which happens depends on the worker
/// thread; the command and the outcome are appended to the history.
#[verifier::external_body]
fn send_command(tx: &mut Sender<ToWorker>, cmd: ToWorker) -> (ok: bool)
    ensures
        ibus_backend_sends(*final(tx)) == ibus_backend_sends(*old(tx)).push((cmd, ok)),
{
    tx.send(cmd).is_ok()
}

/// The outcomes of the receives made on an ibus event receiver so far,
/// oldest first: each message by its view, or that the channel was empty or
/// closed.
pub uninterp spec fn ibus_backend_receipts(rx: Receiver<FromWorker>) -> Seq<Receipt<WorkerMsgView>>;

/// Calls `Receiver::try_recv` once and tells its outcomes apart: the next
/// waiting message, `Empty` when none is waiting, `Disconnected` when every
/// worker end is gone. Which of them comes depends on the worker threads;
/// the outcome is appended to the receiver's history.
#[verifier::external_body]
fn receive_message(rx: &mut Receiver<FromWorker>) -> (res: Received<FromWorker>)
    ensures
        ibus_backend_receipts(*final(rx)) == ibus_backend_receipts(*old(rx)).push(receipt_of(res)),
{
    match rx.try_recv() {
        Ok(m) => Received::Message(m),
        Err(TryRecvError::Empty) => Received::Empty,
        Err(TryRecvError::Disconnected) => Received::Disconnected,
    }
}

/// The messages handed to an ibus event sender (worker side) so far, oldest
/// first, by their views, each with whether the channel took it.
pub uninterp spec fn ibus_worker_sends(tx: Sender<FromWorker>) -> Seq<(WorkerMsgView, bool)>;

/// Calls `Sender::send` with a worker message; `Ok` means the main thread's
/// receiver is still there. The message and the outcome are appended to the
/// history.
#[verifier::external_body]
fn send_message(tx: &mut Sender<FromWorker>, msg: FromWorker) -> (ok: bool)
    ensures
        ibus_worker_sends(*final(tx)) == ibus_worker_sends(*old(tx)).push((msg@, ok)),
{
    tx.send(msg).is_ok()
}

/// Position of the first `k` in `v`.
fn position_of(v: &VecDeque<u32>, k: u32) -> (res: Option<usize>)
    ensures
        match res {
            Some(i) => first_pos(v@, k) == i as int,
            None => first_pos(v@, k) < 0,
        },
{
    proof {
        lemma_first_pos(v@, k);
    }
    let n = v.len();
    let mut i: usize = 0;
    while i < n
        invariant
            n == v@.len(),
            i <= n,
            forall|j: int| 0 <= j < i ==> v@[j] != k,
            first_pos(v@, k) >= 0 ==> first_pos(v@, k) >= i,
        decreases n - i,
    {
        proof {
            lemma_first_pos(v@, k);
        }
        if v[i] == k {
            assert(v@.contains(k));
            return Some(i);
        }
        i = i + 1;
    }
    proof {
        lemma_first_pos(v@, k);
        if v@.contains(k) {
            let j = choose|j: int| 0 <= j < v@.len() && v@[j] == k;
            assert(v@[j] != k);
        }
    }
    None
}

proof fn lemma_key_of_seq_skip(s: Seq<PendingKey>, seq: u64, i: int)
    requires
        0 <= i <= s.len(),
        forall|j: int| 0 <= j < i ==> s[j].seq != seq,
    ensures
        key_of_seq(s, seq) == key_of_seq(s.subrange(i, s.len() as int), seq),
    decreases i,
{
    if i > 0 {
        assert(s.drop_first().subrange(i - 1, s.drop_first().len() as int) =~= s.subrange(i, s.len() as int));
        lemma_key_of_seq_skip(s.drop_first(), seq, i - 1);
    } else {
        assert(s.subrange(0, s.len() as int) =~= s);
    }
}

pub proof fn lemma_filter_take_step(s: Seq<PendingKey>, seq: u64, i: int)
    requires
        0 <= i < s.len(),
    ensures
        s.take(i + 1).filter(|p: PendingKey| p.seq != seq) == if s[i].seq != seq {
            s.take(i).filter(|p: PendingKey| p.seq != seq).push(s[i])
        } else {
            s.take(i).filter(|p: PendingKey| p.seq != seq)
        },
{
    reveal(Seq::filter);
    assert(s.take(i + 1).drop_last() =~= s.take(i));
    assert(s.take(i + 1).last() == s[i]);
}

impl DbusIbusBackend {
    /// A ready backend over the given worker channels.
    pub fn from_parts(cmd_tx: Sender<ToWorker>, ev_rx: Receiver<FromWorker>) -> (res: Self)
        ensures
            res@ == fresh_ibus_backend(ibus_backend_sends(cmd_tx), ibus_backend_receipts(ev_rx)),
    {
        let res = DbusIbusBackend {
            cmd_tx,
            ev_rx,
            events: Vec::new(),
            pending: VecDeque::new(),
            ime_consumed: HashSet::new(),
            release_waiting: VecDeque::new(),
            forwards: Vec::new(),
            ready: true,
            dead: None,
            want_enabled: false,
            focused: false,
            last_cursor: None,
            cursor_prefer_ti3: false,
        };
        assert(res@.events =~= Seq::<HostEventView>::empty());
        res
    }

    /// Overrides the readiness flag (normally set by the worker's `Ready`).
    pub fn set_ready(&mut self, ready: bool)
        ensures
            final(self)@ == (IbusBackendView { ready, ..old(self)@ }),
    {
        self.ready = ready;
    }

    /// Number of keys waiting for a decision.
    pub fn pending_len(&self) -> (res: usize)
        ensures
            res == self@.pending.len(),
    {
        self.pending.len()
    }

    /// Whether a key with sequence number `seq` waits for a decision.
    pub fn pending_has_seq(&self, seq: u64) -> (res: bool)
        ensures
            res == exists|i: int| 0 <= i < self@.pending.len() && self@.pending[i].seq == seq,
    {
        let n = self.pending.len();
        let mut i: usize = 0;
        while i < n
            invariant
                n == self@.pending.len(),
                i <= n,
                forall|j: int| 0 <= j < i ==> self@.pending[j].seq != seq,
            decreases n - i,
        {
            if self.pending[i].seq == seq {
                return true;
            }
            i = i + 1;
        }
        false
    }

    /// Number of releases waiting for the decision of their press.
    pub fn release_waiting_len(&self) -> (res: usize)
        ensures
            res == self@.release_waiting.len(),
    {
        self.release_waiting.len()
    }

    /// Whether `key` was consumed by the input method and awaits its release.
    pub fn is_consumed(&self, key: u32) -> (res: bool)
        ensures
            res == self@.consumed.contains(key),
    {
        self.ime_consumed.contains(&key)
    }

    fn press_undecided_exec(&self, key: u32) -> (res: bool)
        ensures
            res == press_undecided(self@.pending, key),
    {
        let n = self.pending.len();
        let mut i: usize = 0;
        while i < n
            invariant
                n == self@.pending.len(),
                i <= n,
                forall|j: int|
                    0 <= j < i ==> !(self@.pending[j].key == key && self@.pending[j].action
                        != KeyboardAction::Release),
            decreases n - i,
        {
            let p = self.pending[i];
            if p.key == key && p.action != KeyboardAction::Release {
                return true;
            }
            i = i + 1;
        }
        false
    }

    /// Decides a submitted key (see [`ibus_submit`]): whether it is taken
    /// over, and the command for the worker.
    pub fn decide_key(&mut self, sk: SubmittedKey) -> (res: (bool, Option<ToWorker>))
        ensures
            (final(self)@, res.0, res.1) == ibus_submit(old(self)@, sk),
    {
        if !self.ready || self.dead.is_some() {
            return (false, None);
        }
        if sk.action == KeyboardAction::Release {
            if self.ime_consumed.contains(&sk.key) {
                self.ime_consumed.remove(&sk.key);
                return (true, None);
            }
            if self.press_undecided_exec(sk.key) {
                self.release_waiting.push_back(sk.key);
                return (true, None);
            }
        }
        self.pending.push_back(PendingKey { seq: sk.seq, key: sk.key, action: sk.action });
        (true, Some(ToWorker::Key { seq: sk.seq, keysym: sk.keysym, evdev: sk.evdev, state: sk.state }))
    }

    fn key_of_seq_exec(&self, seq: u64) -> (res: Option<u32>)
        ensures
            res == key_of_seq(self@.pending, seq),
    {
        let n = self.pending.len();
        let mut i: usize = 0;
        while i < n
            invariant
                n == self@.pending.len(),
                i <= n,
                forall|j: int| 0 <= j < i ==> self@.pending[j].seq != seq,
            decreases n - i,
        {
            if self.pending[i].seq == seq {
                proof {
                    lemma_key_of_seq_skip(self@.pending, seq, i as int);
                }
                return Some(self.pending[i].key);
            }
            i = i + 1;
        }
        proof {
            lemma_key_of_seq_skip(self@.pending, seq, n as int);
        }
        None
    }

    fn remove_seq(&mut self, seq: u64)
        ensures
            final(self)@ == (IbusBackendView {
                pending: old(self)@.pending.filter(|p: PendingKey| p.seq != seq),
                ..old(self)@
            }),
    {
        let mut kept: VecDeque<PendingKey> = VecDeque::new();
        let n = self.pending.len();
        let mut i: usize = 0;
        while i < n
            invariant
                n == self@.pending.len(),
                self == old(self),
                i <= n,
                kept@ == self@.pending.take(i as int).filter(|p: PendingKey| p.seq != seq),
            decreases n - i,
        {
            proof {
                lemma_filter_take_step(self@.pending, seq, i as int);
            }
            let p = self.pending[i];
            if p.seq != seq {
                kept.push_back(p);
            }
            i = i + 1;
        }
        assert(self@.pending.take(n as int) =~= self@.pending);
        self.pending = kept;
    }

    fn take_waiting_release(&mut self, key: u32) -> (found: bool)
        ensures
            (final(self)@.release_waiting, found) == take_first(old(self)@.release_waiting, key),
            final(self)@ == (IbusBackendView { release_waiting: final(self)@.release_waiting, ..old(self)@ }),
    {
        proof {
            lemma_first_pos(self@.release_waiting, key);
        }
        match position_of(&self.release_waiting, key) {
            Some(i) => {
                let _ = self.release_waiting.remove(i);
                true
            },
            None => false,
        }
    }

    /// Applies the decision of the key `seq` (see [`ibus_key_reply`]).
    pub fn apply_key_reply(&mut self, seq: u64, consumed: bool)
        ensures
            final(self)@ == ibus_key_reply(old(self)@, seq, consumed),
    {
        if self.pending.len() > 0 && self.pending[0].seq == seq {
            let p = self.pending[0];
            let _ = self.pending.pop_front();
            assert(self@.pending =~= old(self)@.pending.drop_first());
            let found = self.take_waiting_release(p.key);
            if !consumed {
                self.forwards.push(ForwardedKey { key: p.key, action: p.action });
                if found {
                    self.forwards.push(ForwardedKey { key: p.key, action: KeyboardAction::Release });
                }
            } else {
                self.ime_consumed.insert(p.key);
            }
        } else {
            let lost = self.key_of_seq_exec(seq);
            self.remove_seq(seq);
            match lost {
                Some(key) => {
                    let found = self.take_waiting_release(key);
                    if found {
                        self.forwards.push(ForwardedKey { key, action: KeyboardAction::Release });
                    }
                },
                None => {},
            }
        }
    }

    fn set_cursor_from_ti3(&mut self, rect: (i32, i32, i32, i32), out: &mut Vec<ToWorker>)
        ensures
            (final(self)@, final(out)@) == ({
                let (v, c) = ibus_cursor_from_ti3(old(self)@, rect);
                (v, old(out)@ + c)
            }),
    {
        let same = match self.last_cursor {
            Some(r) => r.0 == rect.0 && r.1 == rect.1 && r.2 == rect.2 && r.3 == rect.3,
            None => false,
        };
        if same {
            assert(old(out)@ + Seq::<ToWorker>::empty() =~= out@);
            return;
        }
        self.last_cursor = Some(rect);
        out.push(ToWorker::SetCursorRect(rect.0, rect.1, rect.2, rect.3));
        assert(out@ =~= old(out)@ + seq![ToWorker::SetCursorRect(rect.0, rect.1, rect.2, rect.3)]);
    }

    fn command_step(&mut self, cmd: &ImeCommand, out: &mut Vec<ToWorker>)
        ensures
            (final(self)@, final(out)@) == ({
                let (v, c) = ibus_command_step(old(self)@, cmd@);
                (v, old(out)@ + c)
            }),
    {
        match cmd {
            ImeCommand::Activate(st) => {
                self.want_enabled = true;
                self.cursor_prefer_ti3 = true;
                let ghost out0 = out@;
                if !self.focused {
                    out.push(ToWorker::FocusIn);
                    self.focused = true;
                }
                let ghost out1 = out@;
                match st.cursor_rect {
                    Some(r) => {
                        self.set_cursor_from_ti3(r, out);
                        assert(out@ =~= out0 + (out1.subrange(out0.len() as int, out1.len() as int)
                            + out@.subrange(out1.len() as int, out@.len() as int)));
                    },
                    None => {},
                }
                proof {
                    if st.cursor_rect is None {
                        assert(out@ =~= out0 + out@.subrange(out0.len() as int, out@.len() as int));
                    }
                }
            },
            ImeCommand::PushState(st) => {
                if self.cursor_prefer_ti3 {
                    match st.cursor_rect {
                        Some(r) => self.set_cursor_from_ti3(r, out),
                        None => {
                            assert(old(out)@ + Seq::<ToWorker>::empty() =~= out@);
                        },
                    }
                } else {
                    assert(old(out)@ + Seq::<ToWorker>::empty() =~= out@);
                }
            },
            ImeCommand::Deactivate => {
                self.want_enabled = false;
                self.cursor_prefer_ti3 = false;
                if self.focused {
                    out.push(ToWorker::FocusOut);
                    self.focused = false;
                    assert(out@ =~= old(out)@ + seq![ToWorker::FocusOut]);
                } else {
                    assert(old(out)@ + Seq::<ToWorker>::empty() =~= out@);
                }
            },
        }
    }

    /// The worker commands for a sequence of relay commands (see
    /// [`ibus_commands`]); a dead backend plans nothing.
    pub fn plan_commands(&mut self, commands: &Vec<ImeCommand>) -> (out: Vec<ToWorker>)
        ensures
            (final(self)@, out@) == ibus_commands(old(self)@, commands_view(commands@)),
    {
        let mut out: Vec<ToWorker> = Vec::new();
        if self.dead.is_some() {
            return out;
        }
        let n = commands.len();
        let mut i: usize = 0;
        while i < n
            invariant
                n == commands@.len(),
                i <= n,
                self@.dead is None,
                (self@, out@) == ibus_commands(old(self)@, commands_view(commands@).take(i as int)),
            decreases n - i,
        {
            proof {
                assert(commands_view(commands@).take(i + 1).drop_last() =~= commands_view(commands@).take(i as int));
            }
            self.command_step(&commands[i], &mut out);
            i = i + 1;
        }
        assert(commands_view(commands@).take(n as int) =~= commands_view(commands@));
        out
    }

    /// The worker command for a change of the session state (see [`ibus_set_active`]).
    pub fn plan_set_active(&mut self, active: bool) -> (cmd: Option<ToWorker>)
        ensures
            (final(self)@, cmd) == ibus_set_active(old(self)@, active),
    {
        if self.want_enabled == active {
            return None;
        }
        self.want_enabled = active;
        self.cursor_prefer_ti3 = active;
        self.focused = active;
        Some(if active { ToWorker::FocusIn } else { ToWorker::FocusOut })
    }

    /// The worker command for a cursor rectangle reported by the game (see [`ibus_java_cursor`]).
    pub fn plan_java_cursor(&mut self, rect: (i32, i32, i32, i32)) -> (cmd: Option<ToWorker>)
        ensures
            (final(self)@, cmd) == ibus_java_cursor(old(self)@, rect),
    {
        let same = match self.last_cursor {
            Some(r) => r.0 == rect.0 && r.1 == rect.1 && r.2 == rect.2 && r.3 == rect.3,
            None => false,
        };
        if self.cursor_prefer_ti3 || same {
            return None;
        }
        self.last_cursor = Some(rect);
        Some(ToWorker::SetCursorRect(rect.0, rect.1, rect.2, rect.3))
    }

    /// Applies one worker message (see [`ibus_receive`]); true when polling stops.
    pub fn receive(&mut self, msg: FromWorker) -> (stop: bool)
        ensures
            (final(self)@, stop) == ibus_receive(old(self)@, msg@),
    {
        match msg {
            FromWorker::Ready => {
                self.ready = true;
                false
            },
            FromWorker::KeyReply { seq, consumed } => {
                self.apply_key_reply(seq, consumed);
                false
            },
            FromWorker::Ev(e) => {
                self.events.push(e);
                assert(self@.events =~= old(self)@.events.push(e@));
                false
            },
            FromWorker::Forward(f) => {
                self.forwards.push(f);
                false
            },
            FromWorker::Fatal(m) => {
                self.dead = Some(m);
                true
            },
        }
    }
}

/// Sends commands to the worker in order, each once, whatever the outcome
/// of the others (a gone worker shows up as a disconnected channel at the
/// next poll).
fn send_all(tx: &mut Sender<ToWorker>, cmds: &Vec<ToWorker>)
    ensures
        sends_extend(ibus_backend_sends(*old(tx)), ibus_backend_sends(*final(tx)), cmds@),
{
    let ghost log0 = ibus_backend_sends(*tx);
    let n = cmds.len();
    let mut i: usize = 0;
    assert(ibus_backend_sends(*tx).skip(log0.len() as int) =~= Seq::<(ToWorker, bool)>::empty());
    assert(ibus_backend_sends(*tx).take(log0.len() as int) =~= log0);
    assert(sent_commands(Seq::<(ToWorker, bool)>::empty()) =~= cmds@.take(0));
    while i < n
        invariant
            n == cmds@.len(),
            i <= n,
            log0 == ibus_backend_sends(*old(tx)),
            sends_extend(log0, ibus_backend_sends(*tx), cmds@.take(i as int)),
        decreases n - i,
    {
        let ghost before = ibus_backend_sends(*tx);
        let ok = send_command(tx, cmds[i]);
        proof {
            let after = ibus_backend_sends(*tx);
            assert(after.skip(log0.len() as int) =~= before.skip(log0.len() as int).push((cmds@[i as int], ok)));
            assert(after.take(log0.len() as int) =~= before.take(log0.len() as int));
            assert(cmds@.take(i + 1) =~= cmds@.take(i as int).push(cmds@[i as int]));
            assert(sent_commands(after.skip(log0.len() as int)) =~= sent_commands(before.skip(log0.len() as int)).push(
                cmds@[i as int],
            ));
        }
        i = i + 1;
    }
    assert(cmds@.take(n as int) =~= cmds@);
}

/// Sends the worker messages of one signal: the event, then the `Done`
/// that closes its batch. Both are handed to the channel whatever the
/// outcome of the first.
pub fn push_with_done(ev_tx: &mut Sender<FromWorker>, ev: HostEvent)
    ensures
        sends_extend(
            ibus_worker_sends(*old(ev_tx)),
            ibus_worker_sends(*final(ev_tx)),
            seq![WorkerMsgView::Ev(ev@), WorkerMsgView::Ev(HostEventView::Done(0))],
        ),
{
    let ghost log0 = ibus_worker_sends(*ev_tx);
    let ghost e = ev@;
    let ok1 = send_message(ev_tx, FromWorker::Ev(ev));
    let ok2 = send_message(ev_tx, FromWorker::Ev(HostEvent::Done(0)));
    proof {
        let after = ibus_worker_sends(*ev_tx);
        assert(after.take(log0.len() as int) =~= log0);
        assert(after.skip(log0.len() as int) =~= seq![(WorkerMsgView::Ev(e), ok1), (WorkerMsgView::Ev(HostEventView::Done(0)), ok2)]);
        assert(sent_commands(after.skip(log0.len() as int)) =~= seq![WorkerMsgView::Ev(e), WorkerMsgView::Ev(HostEventView::Done(0))]);
    }
}

impl HostImBackend for DbusIbusBackend {
    open spec fn backend_ready(&self) -> bool {
        self@.ready && self@.dead is None
    }

    open spec fn backend_dead(&self) -> bool {
        self@.dead is Some
    }

    fn name(&self) -> (res: &'static str)
        ensures
            res@ == "dbus-ibus"@,
    {
        "dbus-ibus"
    }

    fn is_ready(&self) -> (res: bool) {
        self.ready && self.dead.is_none()
    }

    /// Focuses or unfocuses the input context when the session state
    /// changes (see [`ibus_set_active`]); the command goes to the worker.
    fn set_active(&mut self, active: bool)
        ensures
            final(self)@ == (IbusBackendView { sends: final(self)@.sends, ..ibus_set_active(old(self)@, active).0 }),
            sends_extend(old(self)@.sends, final(self)@.sends, opt_seq(ibus_set_active(old(self)@, active).1)),
    {
        let ghost log0 = self@.sends;
        let cmd = self.plan_set_active(active);
        let mut ok = false;
        match cmd {
            Some(c) => {
                ok = send_command(&mut self.cmd_tx, c);
            },
            None => {},
        }
        proof {
            super::lemma_sends_extend_opt(log0, cmd, self@.sends, ok);
        }
    }

    /// Plans the worker commands of the relay commands (see
    /// [`ibus_commands`]) and sends them in order.
    fn execute_commands(&mut self, commands: Vec<ImeCommand>)
        ensures
            final(self)@ == (IbusBackendView {
                sends: final(self)@.sends,
                ..ibus_commands(old(self)@, commands_view(commands@)).0
            }),
            sends_extend(old(self)@.sends, final(self)@.sends, ibus_commands(old(self)@, commands_view(commands@)).1),
    {
        proof {
            lemma_ibus_commands_keep_channels(self@, commands_view(commands@));
        }
        let out = self.plan_commands(&commands);
        send_all(&mut self.cmd_tx, &out);
    }

    /// The ibus portal has no candidate methods; navigation goes through keys.
    fn candidate_nav(&mut self, nav: super::CandidateNav)
        ensures
            final(self)@ == old(self)@,
    {
    }

    /// Receives every waiting worker message in order (see [`ibus_receive`]);
    /// stops at an empty channel, at `Fatal` or at a closed channel (both
    /// make the backend dead). A dead backend reads nothing.
    fn poll(&mut self)
        ensures
            ibus_poll_step(old(self)@, final(self)@),
    {
        if self.dead.is_some() {
            return;
        }
        let ghost start = self@;
        let ghost n0 = start.received.len() as int;
        assert(self@.received.skip(n0) =~= Seq::<Receipt<WorkerMsgView>>::empty());
        let mut budget: u64 = u64::MAX;
        while budget > 0
            invariant
                start == old(self)@,
                start.dead is None,
                n0 == start.received.len(),
                n0 <= self@.received.len(),
                self@.received.take(n0) == start.received,
                self@.received.len() - n0 + budget == u64::MAX,
                forall|i: int| 0 <= i < self@.received.skip(n0).len() ==> poll_continues(#[trigger] self@.received.skip(n0)[i]),
                self@ == (IbusBackendView {
                    received: self@.received,
                    ..ibus_poll_state(start, self@.received.skip(n0))
                }),
            ensures
                ibus_poll_step(start, self@),
            decreases budget,
        {
            budget = budget - 1;
            let ghost rs = self@.received.skip(n0);
            let got = receive_message(&mut self.ev_rx);
            proof {
                assert(self@.received.skip(n0) =~= rs.push(receipt_of(got)));
                assert(self@.received.skip(n0).drop_last() =~= rs);
                assert(self@.received.take(n0) =~= start.received);
            }
            match got {
                Received::Message(msg) => {
                    proof {
                        lemma_ibus_receive_frame(ibus_poll_state(start, rs), msg@, self@.received);
                    }
                    if self.receive(msg) {
                        return;
                    }
                },
                Received::Empty => {
                    return;
                },
                Received::Disconnected => {
                    self.dead = Some(String::from_str("worker channel closed"));
                    return;
                },
            }
        }
    }

    fn take_events(&mut self) -> (res: Vec<HostEvent>)
        ensures
            host_events_view(res@) == old(self)@.events,
            final(self)@ == (IbusBackendView { events: Seq::empty(), ..old(self)@ }),
    {
        let mut taken: Vec<HostEvent> = Vec::new();
        std::mem::swap(&mut taken, &mut self.events);
        assert(self@.events =~= Seq::<HostEventView>::empty());
        taken
    }

    fn take_forwarded_keys(&mut self) -> (res: Vec<ForwardedKey>)
        ensures
            res@ == old(self)@.forwards,
            final(self)@ == (IbusBackendView { forwards: Seq::empty(), ..old(self)@ }),
    {
        let mut taken: Vec<ForwardedKey> = Vec::new();
        std::mem::swap(&mut taken, &mut self.forwards);
        taken
    }

    /// Takes a raw key over (see [`ibus_submit`]); a key that goes to the
    /// daemon is sent to the worker.
    fn submit_key(&mut self, sk: SubmittedKey) -> (taken: bool)
        ensures
            (final(self)@, taken) == ({
                let (v, t, _) = ibus_submit(old(self)@, sk);
                (IbusBackendView { sends: final(self)@.sends, ..v }, t)
            }),
            sends_extend(old(self)@.sends, final(self)@.sends, opt_seq(ibus_submit(old(self)@, sk).2)),
    {
        let ghost log0 = self@.sends;
        let (taken, cmd) = self.decide_key(sk);
        let mut ok = false;
        match cmd {
            Some(c) => {
                ok = send_command(&mut self.cmd_tx, c);
            },
            None => {},
        }
        proof {
            super::lemma_sends_extend_opt(log0, cmd, self@.sends, ok);
        }
        taken
    }

    fn is_dead(&self) -> (res: bool) {
        self.dead.is_some()
    }

    /// A cursor rectangle reported by the game (see [`ibus_java_cursor`]).
    fn update_cursor_rect(&mut self, rect: (i32, i32, i32, i32))
        ensures
            final(self)@ == (IbusBackendView { sends: final(self)@.sends, ..ibus_java_cursor(old(self)@, rect).0 }),
            sends_extend(old(self)@.sends, final(self)@.sends, opt_seq(ibus_java_cursor(old(self)@, rect).1)),
    {
        let ghost log0 = self@.sends;
        let cmd = self.plan_java_cursor(rect);
        let mut ok = false;
        match cmd {
            Some(c) => {
                ok = send_command(&mut self.cmd_tx, c);
            },
            None => {},
        }
        proof {
            super::lemma_sends_extend_opt(log0, cmd, self@.sends, ok);
        }
    }
}

/// Receiving a message does not depend on, nor change, the receive history.
proof fn lemma_ibus_receive_frame(v: IbusBackendView, m: WorkerMsgView, r: Seq<Receipt<WorkerMsgView>>)
    ensures
        ibus_receive(IbusBackendView { received: r, ..v }, m) == (
            IbusBackendView { received: r, ..ibus_receive(v, m).0 },
            ibus_receive(v, m).1,
        ),
{
    let w = IbusBackendView { received: r, ..v };
    match m {
        WorkerMsgView::KeyReply { seq, consumed } => {
            assert(ibus_key_reply(w, seq, consumed) == IbusBackendView { received: r, ..ibus_key_reply(v, seq, consumed) });
        },
        _ => {},
    }
}

/// Planning relay commands leaves the channel histories alone.
proof fn lemma_ibus_commands_keep_channels(v: IbusBackendView, cmds: Seq<ImeCommandView>)
    ensures
        ibus_commands(v, cmds).0.sends == v.sends,
        ibus_commands(v, cmds).0.received == v.received,
    decreases cmds.len(),
{
    if !(v.dead is Some || cmds.len() == 0) {
        lemma_ibus_commands_keep_channels(v, cmds.drop_last());
    }
}

/// A backend that is not ready (or dead) takes no key over and changes
/// nothing: the key goes straight to the application.
pub proof fn law_not_ready_takes_no_key(v: IbusBackendView, sk: SubmittedKey)
    requires
        !v.ready || v.dead is Some,
    ensures
        ibus_submit(v, sk) == (v, false, Option::<ToWorker>::None),
{
}

/// A press that the input method does not consume reaches the application
/// once its decision arrives, and only then.
pub proof fn law_unconsumed_press_is_forwarded(v: IbusBackendView, sk: SubmittedKey)
    requires
        v.ready,
        v.dead is None,
        v.pending.len() == 0,
        sk.action == KeyboardAction::Press,
        !v.release_waiting.contains(sk.key),
    ensures
        ({
            let (v1, taken, cmd) = ibus_submit(v, sk);
            let v2 = ibus_key_reply(v1, sk.seq, false);
            &&& taken
            &&& cmd == Some(ToWorker::Key { seq: sk.seq, keysym: sk.keysym, evdev: sk.evdev, state: sk.state })
            &&& v1.forwards == v.forwards
            &&& v2.forwards == v.forwards.push(ForwardedKey { key: sk.key, action: KeyboardAction::Press })
            &&& v2.pending.len() == 0
        }),
{
    let v1 = ibus_submit(v, sk).0;
    assert(v1.pending =~= seq![PendingKey { seq: sk.seq, key: sk.key, action: sk.action }]);
    lemma_first_pos(v.release_waiting, sk.key);
}

/// The release of a press that the input method consumed is eaten: it is
/// taken over, sent nowhere, forwarded never, and the key is forgotten.
pub proof fn law_release_of_consumed_press_is_eaten(v: IbusBackendView, press: SubmittedKey, release: SubmittedKey)
    requires
        v.ready,
        v.dead is None,
        v.pending.len() == 0,
        press.action == KeyboardAction::Press,
        release.action == KeyboardAction::Release,
        release.key == press.key,
    ensures
        ({
            let v1 = ibus_submit(v, press).0;
            let v2 = ibus_key_reply(v1, press.seq, true);
            let (v3, taken, cmd) = ibus_submit(v2, release);
            &&& taken
            &&& cmd is None
            &&& v3.forwards == v.forwards
            &&& v3.pending.len() == 0
            &&& !v3.consumed.contains(press.key)
        }),
{
    let v1 = ibus_submit(v, press).0;
    assert(v1.pending =~= seq![PendingKey { seq: press.seq, key: press.key, action: press.action }]);
}

/// A release that arrives while its press waits for a decision follows the
/// decision: released right after the press when the press is not consumed,
/// dropped with it when it is.
pub proof fn law_waiting_release_follows_press(
    v: IbusBackendView,
    press: SubmittedKey,
    release: SubmittedKey,
    consumed: bool,
)
    requires
        v.ready,
        v.dead is None,
        v.pending.len() == 0,
        v.release_waiting.len() == 0,
        !v.consumed.contains(press.key),
        press.action == KeyboardAction::Press,
        release.action == KeyboardAction::Release,
        release.key == press.key,
    ensures
        ({
            let v1 = ibus_submit(v, press).0;
            let (v2, taken, cmd) = ibus_submit(v1, release);
            let v3 = ibus_key_reply(v2, press.seq, consumed);
            &&& taken
            &&& cmd is None
            &&& v2.release_waiting.len() == 1
            &&& v2.pending.len() == 1
            &&& v3.release_waiting.len() == 0
            &&& v3.pending.len() == 0
            &&& v3.forwards == (if consumed {
                v.forwards
            } else {
                v.forwards.push(ForwardedKey { key: press.key, action: KeyboardAction::Press }).push(
                    ForwardedKey { key: press.key, action: KeyboardAction::Release },
                )
            })
        }),
{
    let v1 = ibus_submit(v, press).0;
    assert(v1.pending =~= seq![PendingKey { seq: press.seq, key: press.key, action: press.action }]);
    assert(v1.pending[0].key == release.key);
    assert(press_undecided(v1.pending, release.key));
    let v2 = ibus_submit(v1, release).0;
    assert(v2.release_waiting =~= seq![release.key]);
    lemma_first_pos(v2.release_waiting, press.key);
    assert(v2.release_waiting.remove(0) =~= Seq::<u32>::empty());
}

/// While the text-input session is active its cursor is the only source of
/// the candidate-window position: cursor reports of the game are ignored.
pub proof fn law_session_cursor_has_priority(v: IbusBackendView, rect: (i32, i32, i32, i32))
    requires
        !v.want_enabled,
    ensures
        ({
            let v1 = ibus_set_active(v, true).0;
            ibus_java_cursor(v1, rect) == (v1, Option::<ToWorker>::None)
        }),
{
}

} // verus!
