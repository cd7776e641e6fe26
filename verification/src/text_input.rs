//! Server-side bookkeeping of `zwp_text_input_v3` objects.
//!
//! Each text-input object double-buffers its requests until `commit`, and
//! counts its own commits: the serial of a `done` sent to it must equal
//! that count, so counters are per object, never shared. `enter` goes to
//! every object of the focused client, and `leave` to the same objects when
//! the focus goes. Objects, clients and surfaces are identified by number;
//! the caller writes the events on the wire.

use vstd::prelude::*;
use crate::ime::{Ti3Outcome, Ti3Snapshot};

verus! {

/// A request of a text-input object other than `commit`.
#[derive(Debug, Clone)]
pub enum Ti3Request {
    Enable,
    Disable,
    SetSurroundingText(String, i32, i32),
    SetTextChangeCause,
    SetContentType,
    SetCursorRectangle(i32, i32, i32, i32),
    Destroy,
}

/// The double-buffered state of an object, applied at `commit`.
#[derive(Debug, Clone)]
pub struct Ti3Pending {
    pub enable: Option<bool>,
    pub surrounding_text: Option<String>,
    pub surrounding_cursor: u32,
    pub surrounding_anchor: u32,
    pub cursor_rectangle: Option<(i32, i32, i32, i32)>,
}

pub struct PendingView {
    pub enable: Option<bool>,
    pub text: Option<Seq<char>>,
    pub cursor: u32,
    pub anchor: u32,
    pub rect: Option<(i32, i32, i32, i32)>,
}

impl View for Ti3Pending {
    type V = PendingView;

    open spec fn view(&self) -> PendingView {
        PendingView {
            enable: self.enable,
            text: match self.surrounding_text {
                Some(t) => Some(t@),
                None => None,
            },
            cursor: self.surrounding_cursor,
            anchor: self.surrounding_anchor,
            rect: self.cursor_rectangle,
        }
    }
}

/// Nothing requested since the last commit.
pub open spec fn empty_pending() -> PendingView {
    PendingView { enable: None, text: None, cursor: 0, anchor: 0, rect: None }
}

impl Default for Ti3Pending {
    fn default() -> (res: Self)
        ensures
            res@ == empty_pending(),
    {
        Ti3Pending {
            enable: None,
            surrounding_text: None,
            surrounding_cursor: 0,
            surrounding_anchor: 0,
            cursor_rectangle: None,
        }
    }
}

/// A text-input object: its id, its client (none once the client is
/// gone), its pending state and its commit count.
#[derive(Debug, Clone)]
pub struct Ti3Instance {
    pub object: u64,
    pub client: Option<u64>,
    pub pending: Ti3Pending,
    pub commit_count: u32,
}

pub struct InstanceView {
    pub object: u64,
    pub client: Option<u64>,
    pub pending: PendingView,
    pub commits: u32,
}

impl View for Ti3Instance {
    type V = InstanceView;

    open spec fn view(&self) -> InstanceView {
        InstanceView {
            object: self.object,
            client: self.client,
            pending: self.pending@,
            commits: self.commit_count,
        }
    }
}

pub open spec fn instances_view(v: Seq<Ti3Instance>) -> Seq<InstanceView> {
    v.map_values(|i: Ti3Instance| i@)
}

/// A surface that can hold the text-input focus, with its client as it was
/// when the surface got the focus (none when the client was gone).
#[derive(Debug, Clone, Copy, PartialEq, Eq, Structural)]
pub struct FocusSurface {
    pub surface: u64,
    pub client: Option<u64>,
}

pub struct TextInputView {
    pub instances: Seq<InstanceView>,
    pub focus: Option<FocusSurface>,
}

/// The text-input objects and the surface that holds the focus.
pub struct TextInputV3State {
    instances: Vec<Ti3Instance>,
    focus_surface: Option<FocusSurface>,
}

impl View for TextInputV3State {
    type V = TextInputView;

    closed spec fn view(&self) -> TextInputView {
        TextInputView { instances: instances_view(self.instances@), focus: self.focus_surface }
    }
}

/// The objects of client `c`, in order.
pub open spec fn client_objects(is: Seq<InstanceView>, c: u64) -> Seq<u64>
    decreases is.len(),
{
    if is.len() == 0 {
        Seq::empty()
    } else if is.last().client == Some(c) {
        client_objects(is.drop_last(), c).push(is.last().object)
    } else {
        client_objects(is.drop_last(), c)
    }
}

/// Whether `i` is the first object with id `obj`.
pub open spec fn first_match(is: Seq<InstanceView>, obj: u64, i: int) -> bool {
    0 <= i < is.len() && is[i].object == obj && forall|j: int| 0 <= j < i ==> (#[trigger] is[j]).object != obj
}

pub open spec fn no_match(is: Seq<InstanceView>, obj: u64) -> bool {
    forall|j: int| 0 <= j < is.len() ==> (#[trigger] is[j]).object != obj
}

/// The client of the focused surface.
pub open spec fn focused_client_of(v: TextInputView) -> Option<u64> {
    match v.focus {
        Some(f) => f.client,
        None => None,
    }
}

/// Whether `i` is the first object of client `c`.
pub open spec fn first_of_client(is: Seq<InstanceView>, c: Option<u64>, i: int) -> bool {
    0 <= i < is.len() && c is Some && is[i].client == c && forall|j: int| 0 <= j < i ==> (#[trigger] is[j]).client != c
}

pub open spec fn no_object_of(is: Seq<InstanceView>, c: Option<u64>) -> bool {
    forall|j: int| 0 <= j < is.len() ==> (#[trigger] is[j]).client != c
}

/// Losing the focus: whether there was one, the objects that get `leave`
/// (those of the focused surface's client) and the state after.
pub open spec fn leave_step(v: TextInputView) -> (bool, Seq<u64>, TextInputView) {
    match v.focus {
        None => (false, Seq::empty(), v),
        Some(f) => (
            true,
            match f.client {
                Some(c) => client_objects(v.instances, c),
                None => Seq::empty(),
            },
            TextInputView { focus: None, ..v },
        ),
    }
}

/// Giving the focus to `s`: nothing when it already has it; otherwise the
/// old focus is left, and, when `s` has a client, the focus is recorded
/// and the objects of that client get `enter`. Returns whether the focus
/// changed, the objects that get `leave`, those that get `enter`, and the
/// state after.
pub open spec fn enter_step(v: TextInputView, s: FocusSurface) -> (bool, Seq<u64>, Seq<u64>, TextInputView) {
    if v.focus is Some && v.focus->Some_0.surface == s.surface {
        (false, Seq::empty(), Seq::empty(), v)
    } else {
        let (_, left, v1) = leave_step(v);
        match s.client {
            None => (true, left, Seq::empty(), v1),
            Some(c) => (true, left, client_objects(v1.instances, c), TextInputView { focus: Some(s), ..v1 }),
        }
    }
}

/// The pending state after a request.
pub open spec fn pending_after(p: PendingView, req: Ti3Request) -> PendingView {
    match req {
        Ti3Request::Enable => PendingView { enable: Some(true), ..p },
        Ti3Request::Disable => PendingView { enable: Some(false), ..p },
        Ti3Request::SetSurroundingText(t, c, a) => PendingView {
            text: Some(t@),
            cursor: c as u32,
            anchor: a as u32,
            ..p
        },
        Ti3Request::SetCursorRectangle(x, y, w, h) => PendingView { rect: Some((x, y, w, h)), ..p },
        _ => p,
    }
}

/// Whether a snapshot carries a pending state (absent text as empty).
pub open spec fn snapshot_of(s: Ti3Snapshot, p: PendingView) -> bool {
    &&& s.surrounding_text@ == (match p.text {
        Some(t) => t,
        None => Seq::<char>::empty(),
    })
    &&& s.cursor == p.cursor
    &&& s.anchor == p.anchor
    &&& s.cursor_rect == p.rect
}

/// The decision on a commit: enable with the state, disable, or a state
/// update, as the pending `enable` says.
pub open spec fn commit_outcome(o: Ti3Outcome, p: PendingView) -> bool {
    match p.enable {
        Some(true) => o matches Ti3Outcome::Enabled(s) && snapshot_of(s, p),
        Some(false) => o is Disabled,
        None => o matches Ti3Outcome::State(s) && snapshot_of(s, p),
    }
}

/// An object after its commit: one more commit, nothing pending.
pub open spec fn committed(i: InstanceView) -> InstanceView {
    InstanceView { commits: (i.commits + 1) as u32, pending: empty_pending(), ..i }
}

fn snapshot(p: &Ti3Pending) -> (res: Ti3Snapshot)
    ensures
        snapshot_of(res, p@),
{
    Ti3Snapshot {
        surrounding_text: match &p.surrounding_text {
            Some(t) => t.clone(),
            None => String::new(),
        },
        cursor: p.surrounding_cursor,
        anchor: p.surrounding_anchor,
        cursor_rect: p.cursor_rectangle,
    }
}

impl TextInputV3State {
    /// No object and no focus.
    pub fn new() -> (res: Self)
        ensures
            res@.instances == Seq::<InstanceView>::empty(),
            res@.focus is None,
    {
        let res = TextInputV3State { instances: Vec::new(), focus_surface: None };
        assert(instances_view(res.instances@) =~= Seq::<InstanceView>::empty());
        res
    }

    fn objects_of(&self, c: u64) -> (res: Vec<u64>)
        ensures
            res@ == client_objects(self@.instances, c),
    {
        let ghost is = self@.instances;
        let mut out: Vec<u64> = Vec::new();
        let mut i: usize = 0;
        while i < self.instances.len()
            invariant
                is == instances_view(self.instances@),
                i <= self.instances@.len(),
                out@ == client_objects(is.take(i as int), c),
            decreases self.instances@.len() - i,
        {
            proof {
                assert(is.take(i + 1).drop_last() =~= is.take(i as int));
                assert(is.take(i + 1).last() == self.instances@[i as int]@);
            }
            if self.instances[i].client == Some(c) {
                out.push(self.instances[i].object);
            }
            i = i + 1;
        }
        assert(is.take(self.instances@.len() as int) =~= is);
        out
    }

    /// The focus goes (see [`leave_step`]): whether there was one, and the
    /// objects to send `leave` to.
    pub fn leave(&mut self) -> (res: (bool, Vec<u64>))
        ensures
            ({
                let (had, left, after) = leave_step(old(self)@);
                &&& res.0 == had
                &&& res.1@ == left
                &&& final(self)@ == after
            }),
    {
        match self.focus_surface {
            None => (false, Vec::new()),
            Some(f) => {
                let left = match f.client {
                    Some(c) => self.objects_of(c),
                    None => Vec::new(),
                };
                self.focus_surface = None;
                (true, left)
            },
        }
    }

    /// The focus goes to surface `s` (see [`enter_step`]): whether it
    /// changed, the objects to send `leave` to, then those to send `enter` to.
    pub fn enter(&mut self, s: FocusSurface) -> (res: (bool, Vec<u64>, Vec<u64>))
        ensures
            ({
                let (changed, left, entered, after) = enter_step(old(self)@, s);
                &&& res.0 == changed
                &&& res.1@ == left
                &&& res.2@ == entered
                &&& final(self)@ == after
            }),
    {
        match self.focus_surface {
            Some(f) => {
                if f.surface == s.surface {
                    return (false, Vec::new(), Vec::new());
                }
            },
            None => {},
        }
        let (_, left) = self.leave();
        match s.client {
            None => (true, left, Vec::new()),
            Some(c) => {
                self.focus_surface = Some(s);
                let entered = self.objects_of(c);
                (true, left, entered)
            },
        }
    }

    /// The surface that holds the focus.
    pub fn focus_surface(&self) -> (res: Option<FocusSurface>)
        ensures
            res == self@.focus,
    {
        self.focus_surface
    }

    /// Whether some surface holds the focus.
    pub fn has_active(&self) -> (res: bool)
        ensures
            res == (self@.focus is Some),
    {
        self.focus_surface.is_some()
    }

    /// The number of live objects.
    pub fn instance_count(&self) -> (res: usize)
        ensures
            res == self@.instances.len(),
    {
        self.instances.len()
    }

    /// The client of the focused surface.
    pub fn focused_client(&self) -> (res: Option<u64>)
        ensures
            res == focused_client_of(self@),
    {
        match self.focus_surface {
            Some(f) => f.client,
            None => None,
        }
    }

    /// The first object of the focused surface's client: the one events
    /// of the input method are sent to.
    pub fn active_instance_for_focus(&self) -> (res: Option<&Ti3Instance>)
        ensures
            match res {
                Some(inst) => exists|i: int|
                    first_of_client(self@.instances, focused_client_of(self@), i) && inst@ == #[trigger] self@.instances[i],
                None => focused_client_of(self@) is None || no_object_of(self@.instances, focused_client_of(self@)),
            },
    {
        let c = match self.focused_client() {
            Some(c) => c,
            None => return None,
        };
        let ghost is = self@.instances;
        let mut i: usize = 0;
        while i < self.instances.len()
            invariant
                is == instances_view(self.instances@),
                i <= self.instances@.len(),
                Some(c) == focused_client_of(self@),
                forall|j: int| 0 <= j < i ==> (#[trigger] is[j]).client != Some(c),
            decreases self.instances@.len() - i,
        {
            assert(is[i as int] == self.instances@[i as int]@);
            if self.instances[i].client == Some(c) {
                assert(first_of_client(is, Some(c), i as int));
                assert(self@.instances[i as int] == self.instances@[i as int]@);
                return Some(&self.instances[i]);
            }
            i = i + 1;
        }
        None
    }

    /// A new object of a client, with nothing pending and no commit.
    pub fn push_instance(&mut self, inst: Ti3Instance)
        ensures
            final(self)@ == (TextInputView { instances: old(self)@.instances.push(inst@), ..old(self)@ }),
    {
        let ghost before = self.instances@;
        self.instances.push(inst);
        assert(instances_view(self.instances@) =~= instances_view(before).push(inst@));
    }

    fn find(&self, obj: u64) -> (res: Option<usize>)
        ensures
            match res {
                Some(i) => first_match(self@.instances, obj, i as int),
                None => no_match(self@.instances, obj),
            },
    {
        let ghost is = self@.instances;
        let mut i: usize = 0;
        while i < self.instances.len()
            invariant
                is == instances_view(self.instances@),
                i <= self.instances@.len(),
                forall|j: int| 0 <= j < i ==> (#[trigger] is[j]).object != obj,
            decreases self.instances@.len() - i,
        {
            assert(is[i as int] == self.instances@[i as int]@);
            if self.instances[i].object == obj {
                return Some(i);
            }
            i = i + 1;
        }
        None
    }

    /// A request other than `commit` updates the pending state of the first
    /// object with that id (see [`pending_after`]); unknown objects are ignored.
    pub fn request(&mut self, obj: u64, req: Ti3Request)
        ensures
            no_match(old(self)@.instances, obj) ==> final(self)@ == old(self)@,
            forall|i: int|
                first_match(old(self)@.instances, obj, i) ==> final(self)@ == (TextInputView {
                    instances: old(self)@.instances.update(
                        i,
                        InstanceView { pending: pending_after(old(self)@.instances[i].pending, req), ..old(self)@.instances[i] },
                    ),
                    ..old(self)@
                }),
    {
        let ghost r = req;
        let i = match self.find(obj) {
            Some(i) => i,
            None => return,
        };
        let ghost before = self.instances@;
        let mut inst = self.instances.remove(i);
        match req {
            Ti3Request::Enable => inst.pending.enable = Some(true),
            Ti3Request::Disable => inst.pending.enable = Some(false),
            Ti3Request::SetSurroundingText(text, cursor, anchor) => {
                inst.pending.surrounding_text = Some(text);
                inst.pending.surrounding_cursor = cursor as u32;
                inst.pending.surrounding_anchor = anchor as u32;
            },
            Ti3Request::SetCursorRectangle(x, y, w, h) => inst.pending.cursor_rectangle = Some((x, y, w, h)),
            _ => {},
        }
        self.instances.insert(i, inst);
        proof {
            assert(self.instances@ =~= before.update(i as int, inst));
            assert(instances_view(self.instances@) =~= instances_view(before).update(i as int, inst@));
            assert forall|k: int| first_match(instances_view(before), obj, k) implies k == i by {
                if k < i {
                    assert(instances_view(before)[k].object != obj);
                } else if k > i {
                    assert(instances_view(before)[i as int].object != obj);
                }
            }
        }
    }

    /// A `commit` of object `obj`: its count goes up by one and its pending
    /// state is applied (see [`commit_outcome`]); `Ignored` for an unknown object.
    pub fn commit_instance(&mut self, obj: u64) -> (res: Ti3Outcome)
        requires
            forall|i: int| first_match(old(self)@.instances, obj, i) ==> old(self)@.instances[i].commits < u32::MAX,
        ensures
            no_match(old(self)@.instances, obj) ==> res is Ignored && final(self)@ == old(self)@,
            forall|i: int|
                first_match(old(self)@.instances, obj, i) ==> {
                    &&& commit_outcome(res, old(self)@.instances[i].pending)
                    &&& final(self)@ == (TextInputView {
                        instances: old(self)@.instances.update(i, committed(old(self)@.instances[i])),
                        ..old(self)@
                    })
                },
    {
        let i = match self.find(obj) {
            Some(i) => i,
            None => return Ti3Outcome::Ignored,
        };
        let ghost before = self.instances@;
        assert(instances_view(before)[i as int] == before[i as int]@);
        let mut inst = self.instances.remove(i);
        inst.commit_count = inst.commit_count + 1;
        let mut pending = Ti3Pending::default();
        std::mem::swap(&mut pending, &mut inst.pending);
        self.instances.insert(i, inst);
        proof {
            assert(self.instances@ =~= before.update(i as int, inst));
            assert(instances_view(self.instances@) =~= instances_view(before).update(i as int, inst@));
            assert forall|k: int| first_match(instances_view(before), obj, k) implies k == i by {
                if k < i {
                    assert(instances_view(before)[k].object != obj);
                } else if k > i {
                    assert(instances_view(before)[i as int].object != obj);
                }
            }
        }
        match pending.enable {
            Some(true) => Ti3Outcome::Enabled(snapshot(&pending)),
            Some(false) => Ti3Outcome::Disabled,
            None => Ti3Outcome::State(snapshot(&pending)),
        }
    }

    /// Removes every object with id `obj`; whether one was removed.
    pub fn remove_instance(&mut self, obj: u64) -> (res: bool)
        ensures
            final(self)@ == (TextInputView {
                instances: old(self)@.instances.filter(|i: InstanceView| i.object != obj),
                ..old(self)@
            }),
            res == !no_match(old(self)@.instances, obj),
    {
        let ghost is = self@.instances;
        let ghost f = |i: InstanceView| i.object != obj;
        let mut kept: Vec<Ti3Instance> = Vec::new();
        let mut removed = false;
        let mut old_instances: Vec<Ti3Instance> = Vec::new();
        std::mem::swap(&mut old_instances, &mut self.instances);
        let ghost all = old_instances@;
        assert(instances_view(all) == is);
        for inst in it: old_instances.into_iter()
            invariant
                it.seq() == all,
                is == instances_view(all),
                f == (|i: InstanceView| i.object != obj),
                instances_view(kept@) == is.take(it.index() as int).filter(f),
                removed == !no_match(is.take(it.index() as int), obj),
        {
            let ghost idx = it.index();
            proof {
                assert(all[idx as int] == inst);
                assert(is[idx as int] == inst@);
                assert(is.take(idx + 1) =~= is.take(idx as int).push(inst@));
                is.take(idx as int).lemma_filter_push(inst@, f);
            }
            let ghost kv = kept@;
            let ghost iv = inst@;
            if inst.object != obj {
                kept.push(inst);
                assert(f(iv));
                assert(instances_view(kept@) =~= instances_view(kv).push(iv));
            } else {
                assert(!f(iv));
                removed = true;
                assert(is.take(idx + 1)[idx as int].object == obj);
            }
            proof {
                if !removed {
                    assert forall|j: int| 0 <= j < idx + 1 implies (#[trigger] is.take(idx + 1)[j]).object != obj by {
                        if j < idx {
                            assert(is.take(idx + 1)[j] == is.take(idx as int)[j]);
                        }
                    }
                }
            }
        }
        assert(is.take(is.len() as int) =~= is);
        self.instances = kept;
        removed
    }
}

/// Giving the focus to the surface that has it changes nothing.
pub proof fn law_enter_focused_surface_is_noop(v: TextInputView, s: FocusSurface)
    requires
        v.focus == Some(s),
    ensures
        enter_step(v, s) == (false, Seq::<u64>::empty(), Seq::<u64>::empty(), v),
{
}

/// When the focus goes, `leave` reaches exactly the objects that got
/// `enter` when it came (with no object created or destroyed in between).
pub proof fn law_leave_reaches_entered_objects(v: TextInputView, s: FocusSurface)
    requires
        v.focus is None,
        s.client is Some,
    ensures
        leave_step(enter_step(v, s).3).1 == enter_step(v, s).2,
{
}

/// A commit counts for its own object only: every other object keeps its
/// count.
pub proof fn law_commit_counts_are_per_object(is: Seq<InstanceView>, obj: u64, i: int, j: int)
    requires
        first_match(is, obj, i),
        0 <= j < is.len(),
        j != i,
    ensures
        is.update(i, committed(is[i]))[j] == is[j],
        is[i].commits < u32::MAX ==> is.update(i, committed(is[i]))[i].commits == is[i].commits + 1,
{
}

} // verus!
