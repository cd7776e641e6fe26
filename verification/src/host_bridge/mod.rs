//! Bridge to the host desktop input-method daemon (ibus or fcitx5 over D-Bus).
//!
//! Downward events are turned into commands for a D-Bus worker thread;
//! the worker's signals come back as upward events. Upward events are a
//! stream that is applied in batches closed by `Done`.

use vstd::prelude::*;
use crate::ime_event::{CursorRect, DownEvent, UpEvent};
use crate::text::{contains_seq, str_contains};

pub mod dbus_ibus;
pub mod dbus_fcitx5;
pub mod ibus_signal;
pub mod fcitx5_signal;

verus! {

/// Outcome of probing a host input-method backend.
pub enum BridgeInit<B> {
    /// The backend is connected and ready.
    Ready(B),
    /// Temporary failure (no bus yet and the like); may be retried later.
    Transient(String),
    /// Structural lack of support (no daemon, protocol mismatch).
    Unsupported(String),
}

/// Whether an ibus connection error shows a structural lack of support
/// (missing method, object, interface or service).
pub open spec fn structural_ibus_error(e: Seq<char>) -> bool {
    contains_seq(e, "UnknownMethod"@) || contains_seq(e, "UnknownObject"@) || contains_seq(
        e,
        "InterfaceNotFound"@,
    ) || contains_seq(e, "ServiceUnknown"@) || contains_seq(e, "NameHasNoOwner"@)
}

/// Whether a fcitx5 connection error shows a missing method or object.
pub open spec fn structural_fcitx5_error(e: Seq<char>) -> bool {
    contains_seq(e, "UnknownMethod"@) || contains_seq(e, "UnknownObject"@)
}

/// The outcome of a failed ibus input-context setup: `Unsupported` for a
/// structural error, `Transient` otherwise, with the error as its message.
pub fn classify_init_error<B>(e: &str) -> (res: BridgeInit<B>)
    ensures
        match res {
            BridgeInit::Unsupported(m) => structural_ibus_error(e@) && m@ == e@,
            BridgeInit::Transient(m) => !structural_ibus_error(e@) && m@ == e@,
            BridgeInit::Ready(_) => false,
        },
{
    if str_contains(e, "UnknownMethod") || str_contains(e, "UnknownObject") || str_contains(
        e,
        "InterfaceNotFound",
    ) || str_contains(e, "ServiceUnknown") || str_contains(e, "NameHasNoOwner") {
        BridgeInit::Unsupported(String::from_str(e))
    } else {
        BridgeInit::Transient(String::from_str(e))
    }
}

/// The outcome of a failed fcitx5 input-context setup: `Unsupported` for a
/// missing method or object, `Transient` otherwise.
pub fn classify_fcitx5_init_error<B>(e: &str) -> (res: BridgeInit<B>)
    ensures
        match res {
            BridgeInit::Unsupported(m) => structural_fcitx5_error(e@) && m@ == e@,
            BridgeInit::Transient(m) => !structural_fcitx5_error(e@) && m@ == e@,
            BridgeInit::Ready(_) => false,
        },
{
    if str_contains(e, "UnknownMethod") || str_contains(e, "UnknownObject") {
        BridgeInit::Unsupported(String::from_str(e))
    } else {
        BridgeInit::Transient(String::from_str(e))
    }
}

/// Whether a failed activation ping shows that no service can own the name.
pub open spec fn no_activation_service(msg: Seq<char>) -> bool {
    contains_seq(msg, "ServiceUnknown"@) || contains_seq(msg, "NameHasNoOwner"@)
}

/// The outcome when the activation ping of an unowned `name` fails with
/// `msg`: `Unsupported` when no service can own the name, else `Transient`
/// (activation still pending).
pub fn ping_failure<B>(name: &str, msg: &str) -> (res: BridgeInit<B>)
    ensures
        match res {
            BridgeInit::Unsupported(m) => no_activation_service(msg@) && m@ == name@
                + ": no owner 且无 activation service（"@ + msg@ + "）"@,
            BridgeInit::Transient(m) => !no_activation_service(msg@) && m@ == name@
                + ": activation pending（"@ + msg@ + "）"@,
            BridgeInit::Ready(_) => false,
        },
{
    let mut m = String::from_str(name);
    if str_contains(msg, "ServiceUnknown") || str_contains(msg, "NameHasNoOwner") {
        m.append(": no owner 且无 activation service（");
        m.append(msg);
        m.append("）");
        BridgeInit::Unsupported(m)
    } else {
        m.append(": activation pending（");
        m.append(msg);
        m.append("）");
        BridgeInit::Transient(m)
    }
}

/// The global engine named by the output of `ibus engine`: the trimmed
/// output, unless it is empty or reports that there is no engine or an error.
pub open spec fn engine_of_output(out: Seq<char>) -> Option<Seq<char>> {
    let name = crate::diagnostic::trimmed(out);
    if name.len() == 0 || contains_seq(name, "No engine"@) || contains_seq(name, "error"@) {
        None
    } else {
        Some(name)
    }
}

/// Reads the global engine from the output of `ibus engine` (see [`engine_of_output`]).
pub fn global_engine_name(output: &str) -> (res: Option<String>)
    ensures
        match res {
            Some(n) => engine_of_output(output@) == Some(n@),
            None => engine_of_output(output@) is None,
        },
{
    let name = crate::diagnostic::trim(output);
    if name.unicode_len() == 0 || str_contains(name.as_str(), "No engine") || str_contains(name.as_str(), "error") {
        None
    } else {
        Some(name)
    }
}

/// A host input-method backend. Both D-Bus backends of this crate implement it.
pub trait HostBridge {
    /// Whether the backend is initialised and alive.
    spec fn bridge_ready(&self) -> bool;

    /// Whether the connection is lost for good.
    spec fn bridge_dead(&self) -> bool;

    /// The backend's name.
    spec fn bridge_name(&self) -> Seq<char>;

    /// Backend name, for diagnostics.
    fn name(&self) -> (res: &'static str)
        ensures
            res@ == self.bridge_name(),
    ;

    fn is_ready(&self) -> (res: bool)
        ensures
            res == self.bridge_ready(),
    ;

    fn is_dead(&self) -> (res: bool)
        ensures
            res == self.bridge_dead(),
    ;

    /// Whether `after` is this backend after `submit(ev)`.
    spec fn submitted(&self, ev: DownEvent, after: &Self) -> bool;

    /// Whether `after` is this backend after `update_cursor_rect(rect)`.
    spec fn cursor_reported(&self, rect: CursorRect, after: &Self) -> bool;

    /// Whether `take_up_events` may give `out` and leave `after`.
    spec fn drained(&self, out: Seq<UpEvent>, after: &Self) -> bool;

    /// Hands a downward event to the backend (non-blocking).
    fn submit(&mut self, ev: DownEvent)
        ensures
            old(self).submitted(ev, final(self)),
    ;

    /// Drains the upward events received from the daemon.
    fn take_up_events(&mut self) -> (out: Vec<UpEvent>)
        ensures
            old(self).drained(out@, final(self)),
    ;

    /// Reports the cursor rectangle for placing the candidate window.
    fn update_cursor_rect(&mut self, rect: CursorRect)
        ensures
            old(self).cursor_reported(rect, final(self)),
    ;
}

/// The batches of a sequence of vectors.
pub open spec fn batches_view(b: Seq<Vec<UpEvent>>) -> Seq<Seq<UpEvent>> {
    b.map_values(|v: Vec<UpEvent>| v@)
}

/// `batches` is `events` cut right after every `Done`: together they give
/// back `events` in order, no batch is empty, every batch but the last ends
/// with `Done`, and no batch holds a `Done` before its end.
pub open spec fn split_after_done(events: Seq<UpEvent>, batches: Seq<Seq<UpEvent>>) -> bool {
    &&& batches.flatten() == events
    &&& forall|i: int| 0 <= i < batches.len() ==> (#[trigger] batches[i]).len() > 0
    &&& forall|i: int| 0 <= i < batches.len() - 1 ==> (#[trigger] batches[i]).last() is Done
    &&& forall|i: int, j: int|
        0 <= i < batches.len() && 0 <= j < batches[i].len() - 1 ==> !(#[trigger] batches[i][j] is Done)
}

/// Cuts an event stream into batches closed by `Done`; a last batch
/// without `Done` is kept, so no event is lost.
pub fn split_batches(events: Vec<UpEvent>) -> (batches: Vec<Vec<UpEvent>>)
    ensures
        split_after_done(events@, batches_view(batches@)),
{
    let ghost evs = events@;
    let mut batches: Vec<Vec<UpEvent>> = Vec::new();
    let mut current: Vec<UpEvent> = Vec::new();
    for ev in it: events.into_iter()
        invariant
            it.seq() == evs,
            batches_view(batches@).flatten_alt() + current@ == evs.take(it.index() as int),
            forall|i: int| 0 <= i < batches@.len() ==> (#[trigger] batches@[i])@.len() > 0,
            forall|i: int| 0 <= i < batches@.len() ==> (#[trigger] batches@[i])@.last() is Done,
            forall|i: int, j: int|
                0 <= i < batches@.len() && 0 <= j < batches@[i]@.len() - 1 ==> !(
                #[trigger] batches@[i]@[j] is Done),
            forall|j: int| 0 <= j < current@.len() ==> !(#[trigger] current@[j] is Done),
    {
        let is_done = match &ev {
            UpEvent::Done(_) => true,
            _ => false,
        };
        let ghost k = it.index();
        assert(ev == evs[k as int]);
        let ghost old_cur = current@;
        let ghost old_b = batches_view(batches@);
        current.push(ev);
        assert(evs.take(k + 1) =~= evs.take(k as int).push(ev));
        assert(old_b.flatten_alt() + current@ =~= (old_b.flatten_alt() + old_cur).push(ev));
        if is_done {
            let finished = current;
            current = Vec::new();
            batches.push(finished);
            assert(batches_view(batches@) =~= old_b.push(finished@));
            assert(batches_view(batches@).drop_last() =~= old_b);
            assert(batches_view(batches@).flatten_alt() + current@ =~= old_b.flatten_alt() + finished@);
        }
    }
    assert(evs.take(evs.len() as int) =~= evs);
    if current.len() > 0 {
        let ghost old_b = batches_view(batches@);
        let ghost cur = current@;
        batches.push(current);
        assert(batches_view(batches@) =~= old_b.push(cur));
        assert(batches_view(batches@).drop_last() =~= old_b);
    } else {
        assert(batches_view(batches@).flatten_alt() + current@ =~= batches_view(batches@).flatten_alt());
    }
    proof {
        batches_view(batches@).lemma_flatten_and_flatten_alt_are_equivalent();
    }
    batches
}

/// Taking all upward events from `old` gave `events` and left `new`: the
/// backend's drain first, then the local buffer, which is emptied.
pub open spec fn took_all<B: HostBridge>(old: HostBridgeHandle<B>, events: Seq<UpEvent>, new: HostBridgeHandle<B>) -> bool {
    let n = events.len() - old.buffered().len();
    &&& n >= 0
    &&& old.backend().drained(events.take(n), &new.backend())
    &&& events.skip(n) == old.buffered()
    &&& new.buffered().len() == 0
}

/// Main-thread handle of a backend, with a local buffer of upward events.
pub struct HostBridgeHandle<B: HostBridge> {
    backend: Box<B>,
    pending: Vec<UpEvent>,
}

impl<B: HostBridge> HostBridgeHandle<B> {
    /// The wrapped backend.
    pub closed spec fn backend(&self) -> B {
        *self.backend
    }

    /// Upward events held in the local buffer.
    pub closed spec fn buffered(&self) -> Seq<UpEvent> {
        self.pending@
    }

    /// Wraps a ready backend.
    pub fn new(backend: Box<B>) -> (res: Self)
        ensures
            res.backend() == *backend,
            res.buffered().len() == 0,
    {
        HostBridgeHandle { backend, pending: Vec::new() }
    }

    /// Backend name, for diagnostics.
    pub fn name(&self) -> (res: &'static str)
        ensures
            res@ == self.backend().bridge_name(),
    {
        self.backend.name()
    }

    pub fn is_ready(&self) -> (res: bool)
        ensures
            res == self.backend().bridge_ready(),
    {
        self.backend.is_ready()
    }

    pub fn is_dead(&self) -> (res: bool)
        ensures
            res == self.backend().bridge_dead(),
    {
        self.backend.is_dead()
    }

    /// Hands a downward event to the backend.
    pub fn submit(&mut self, ev: DownEvent)
        ensures
            old(self).backend().submitted(ev, &final(self).backend()),
            final(self).buffered() == old(self).buffered(),
    {
        self.backend.submit(ev);
    }

    /// Takes all upward events: the backend's first, then the local buffer's.
    pub fn take_up_events(&mut self) -> (events: Vec<UpEvent>)
        ensures
            took_all(*old(self), events@, *final(self)),
    {
        let mut events = self.backend.take_up_events();
        let ghost drained = events@;
        events.append(&mut self.pending);
        assert(events@.take(drained.len() as int) =~= drained);
        assert(events@.skip(drained.len() as int) =~= old(self).buffered());
        events
    }

    /// Reports the cursor rectangle to the backend.
    pub fn update_cursor_rect(&mut self, rect: CursorRect)
        ensures
            old(self).backend().cursor_reported(rect, &final(self).backend()),
            final(self).buffered() == old(self).buffered(),
    {
        self.backend.update_cursor_rect(rect);
    }

    /// Takes all upward events cut into batches closed by `Done`; a last
    /// batch without `Done` is kept.
    pub fn take_up_events_batched(&mut self) -> (batches: Vec<Vec<UpEvent>>)
        ensures
            took_all(*old(self), batches_view(batches@).flatten(), *final(self)),
            split_after_done(batches_view(batches@).flatten(), batches_view(batches@)),
    {
        let events = self.take_up_events();
        if events.len() == 0 {
            let empty: Vec<Vec<UpEvent>> = Vec::new();
            assert(batches_view(empty@) =~= Seq::<Seq<UpEvent>>::empty());
            assert(batches_view(empty@).flatten() =~= events@);
            return empty;
        }
        split_batches(events)
    }
}

} // verus!
