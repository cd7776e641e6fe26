//! Host desktop input-method backends (ibus and fcitx5 over D-Bus).
//!
//! A backend that needs raw keys takes them over through `submit_key`: the
//! caller holds the key back, the backend asks the daemon asynchronously
//! and, one poll later, either drops the key (consumed by the input method)
//! or releases it to the application through `take_forwarded_keys`, in the
//! order they were submitted in. Text produced by the daemon arrives as [`HostEvent`]s,
//! each batch closed by `Done`.

use vstd::prelude::*;
use crate::channel::Receipt;
use crate::ime_event::LookupTableView;
use crate::keyboard::KeyboardAction;
use crate::relay::ImeCommand;

pub mod dbus_ibus;
pub mod dbus_fcitx5;
pub mod ibus_signal;
pub mod fcitx5_signal;
pub mod probe;

verus! {

/// ibus `ProcessKeyEvent` state bit of a key release (IBUS_RELEASE_MASK).
pub const IBUS_RELEASE_MASK: u32 = 0x4000_0000u32;

/// A raw key taken over by a backend.
#[derive(Debug, Clone, Copy, PartialEq)]
pub struct SubmittedKey {
    pub seq: u64,
    /// XKB keycode (evdev + 8).
    pub key: u32,
    /// Keysym resolved with the current modifiers and layout (ibus keyval).
    pub keysym: u32,
    /// evdev keycode (ibus keycode).
    pub evdev: u32,
    /// ibus state bit mask (bit 30 = release).
    pub state: u32,
    pub action: KeyboardAction,
    pub mods: (u32, u32, u32, u32),
}

/// A key that the backend releases to the application.
#[derive(Debug, Clone, Copy, PartialEq, Eq, Structural)]
pub struct ForwardedKey {
    pub key: u32,
    pub action: KeyboardAction,
}

/// Candidate-window action from the user interface.
#[derive(Debug, Clone, Copy, PartialEq, Eq, Structural)]
pub enum CandidateNav {
    /// Select by index inside the current page.
    SelectCandidate(u32),
    PrevPage,
    NextPage,
}

/// Ordered event from the host input method.
#[derive(Debug, Clone, PartialEq)]
pub enum HostEvent {
    Enter,
    Leave,
    CommitString(String),
    PreeditString(String, i32, i32),
    DeleteSurroundingText(u32, u32),
    /// End of a batch; the serial is diagnostic only.
    Done(u32),
    /// Candidate window data; no candidates with `visible == false` hides it.
    LookupTable {
        candidates: Vec<String>,
        labels: Vec<String>,
        /// Highlighted candidate, as an index inside the current page.
        cursor_pos: u32,
        cursor_visible: bool,
        page_size: u32,
        /// 0 = horizontal, 1 = vertical, 2 = system.
        orientation: u32,
        visible: bool,
    },
}

pub enum HostEventView {
    Enter,
    Leave,
    CommitString(Seq<char>),
    PreeditString(Seq<char>, i32, i32),
    DeleteSurroundingText(u32, u32),
    Done(u32),
    LookupTable(LookupTableView),
}

impl View for HostEvent {
    type V = HostEventView;

    open spec fn view(&self) -> HostEventView {
        match self {
            HostEvent::Enter => HostEventView::Enter,
            HostEvent::Leave => HostEventView::Leave,
            HostEvent::CommitString(t) => HostEventView::CommitString(t@),
            HostEvent::PreeditString(t, b, e) => HostEventView::PreeditString(t@, *b, *e),
            HostEvent::DeleteSurroundingText(b, a) => HostEventView::DeleteSurroundingText(*b, *a),
            HostEvent::Done(s) => HostEventView::Done(*s),
            HostEvent::LookupTable {
                candidates,
                labels,
                cursor_pos,
                cursor_visible,
                page_size,
                orientation,
                visible,
            } => HostEventView::LookupTable(
                LookupTableView {
                    candidates: crate::ime_event::strings_view(candidates@),
                    labels: crate::ime_event::strings_view(labels@),
                    cursor_pos: *cursor_pos,
                    cursor_visible: *cursor_visible,
                    page_size: *page_size,
                    orientation: *orientation,
                    visible: *visible,
                },
            ),
        }
    }
}

pub open spec fn host_events_view(v: Seq<HostEvent>) -> Seq<HostEventView> {
    v.map_values(|e: HostEvent| e@)
}

/// Mathematical value of a message from a backend's worker threads.
pub enum WorkerMsgView {
    Ready,
    KeyReply { seq: u64, consumed: bool },
    Ev(HostEventView),
    Forward(ForwardedKey),
    Fatal(Seq<char>),
}

/// The reason recorded when a worker channel is found closed.
pub open spec fn channel_closed() -> Seq<char> {
    "worker channel closed"@
}

/// Whether a receive outcome is a message that does not end a poll.
pub open spec fn poll_continues(r: Receipt<WorkerMsgView>) -> bool {
    r matches Receipt::Message(m) && !(m is Fatal)
}

/// What a poll reads: at least one outcome; every outcome but the last is a
/// message that does not end the poll; the last one ends it (empty channel,
/// closed channel or `Fatal`) unless the read limit of `u64::MAX` was hit.
pub open spec fn poll_shape(rs: Seq<Receipt<WorkerMsgView>>) -> bool {
    &&& rs.len() > 0
    &&& forall|i: int| 0 <= i < rs.len() - 1 ==> poll_continues(#[trigger] rs[i])
    &&& (poll_continues(rs.last()) ==> rs.len() == u64::MAX)
}

/// The commands of a send history, without the outcomes.
pub open spec fn sent_commands<C>(log: Seq<(C, bool)>) -> Seq<C> {
    log.map_values(|p: (C, bool)| p.0)
}

/// The send history `new` is `old` followed by one send of each command of
/// `cmds`, in order (each with its outcome).
pub open spec fn sends_extend<C>(old: Seq<(C, bool)>, new: Seq<(C, bool)>, cmds: Seq<C>) -> bool {
    &&& old.len() <= new.len()
    &&& new.take(old.len() as int) == old
    &&& sent_commands(new.skip(old.len() as int)) == cmds
}

/// The commands of an optional command: none or one.
pub open spec fn opt_seq<C>(c: Option<C>) -> Seq<C> {
    match c {
        Some(x) => seq![x],
        None => Seq::empty(),
    }
}

/// A history extended by one send of at most one command.
pub proof fn lemma_sends_extend_opt<C>(log: Seq<(C, bool)>, c: Option<C>, new: Seq<(C, bool)>, ok: bool)
    requires
        new == (match c {
            Some(x) => log.push((x, ok)),
            None => log,
        }),
    ensures
        sends_extend(log, new, opt_seq(c)),
{
    assert(new.take(log.len() as int) =~= log);
    match c {
        Some(x) => {
            assert(new.skip(log.len() as int) =~= seq![(x, ok)]);
            assert(sent_commands(new.skip(log.len() as int)) =~= seq![x]);
        },
        None => {
            assert(new.skip(log.len() as int) =~= Seq::<(C, bool)>::empty());
            assert(sent_commands(new.skip(log.len() as int)) =~= Seq::<C>::empty());
        },
    }
}

/// Outcome of connecting a backend.
pub enum ImeInit<B> {
    Ready(B),
    /// Temporary failure, may be retried.
    Transient(String),
    /// Structural lack of support; retrying is pointless.
    Unsupported(String),
}

/// A host input-method backend driven once per frame.
pub trait HostImBackend {
    spec fn backend_ready(&self) -> bool;

    spec fn backend_dead(&self) -> bool;

    fn name(&self) -> &'static str;

    fn is_ready(&self) -> (res: bool)
        ensures
            res == self.backend_ready(),
    ;

    /// Whether the game has an active text session (enable gate).
    fn set_active(&mut self, active: bool);

    /// Executes abstract commands of the relay.
    fn execute_commands(&mut self, commands: Vec<ImeCommand>);

    /// Candidate-window navigation; ignored by default.
    fn candidate_nav(&mut self, nav: CandidateNav) {
    }

    /// The game window regained the OS keyboard focus; nothing by default.
    fn notify_host_focus_gained(&mut self) {
    }

    /// Per-frame drive: receive messages and decide pending keys.
    fn poll(&mut self);

    /// Takes the ordered host events.
    fn take_events(&mut self) -> Vec<HostEvent>;

    /// Takes the keys released to the application, in order; none by default.
    fn take_forwarded_keys(&mut self) -> (res: Vec<ForwardedKey>)
        default_ensures
            res@.len() == 0,
            final(self).backend_ready() == old(self).backend_ready(),
            final(self).backend_dead() == old(self).backend_dead(),
    {
        Vec::new()
    }

    /// Submits a raw key; true when the backend took it over (the caller
    /// must not deliver it). By default no key is taken over.
    fn submit_key(&mut self, key: SubmittedKey) -> (res: bool)
        default_ensures
            !res,
            final(self).backend_ready() == old(self).backend_ready(),
            final(self).backend_dead() == old(self).backend_dead(),
    {
        false
    }

    fn is_dead(&self) -> (res: bool)
        ensures
            res == self.backend_dead(),
    ;

    /// Reports the cursor rectangle; nothing by default.
    fn update_cursor_rect(&mut self, rect: (i32, i32, i32, i32)) {
    }
}

} // verus!
