//! Input-method relay state machine: the single arbiter between a
//! text-input-v3 application and an input-method endpoint.
//!
//! It keeps the serial accounting required by the protocols (the endpoint
//! echoes the number of `done` events it has received), the enable/disable
//! life cycle, and the atomic buffering of input-method text operations:
//! operations only reach the application when a batch is flushed with the
//! right serial.

use vstd::prelude::*;

verus! {

/// Committed text state of the application (after text-input-v3 double buffering).
#[derive(Clone, Debug, PartialEq, Eq)]
pub struct AppState {
    /// Text around the cursor; empty when the application reported none.
    pub surrounding_text: String,
    pub surrounding_cursor: u32,
    /// Selection anchor; equal to the cursor when nothing is selected.
    pub surrounding_anchor: u32,
    /// Raw `content_hint` bit mask.
    pub content_hint: u32,
    /// Raw `content_purpose` value.
    pub content_purpose: u32,
    /// Raw `text_change_cause` value.
    pub change_cause: u32,
    /// Cursor rectangle (x, y, width, height); `None` when not reported.
    pub cursor_rect: Option<(i32, i32, i32, i32)>,
}

/// Mathematical value of an [`AppState`].
pub struct AppStateView {
    pub text: Seq<char>,
    pub cursor: u32,
    pub anchor: u32,
    pub hint: u32,
    pub purpose: u32,
    pub cause: u32,
    pub rect: Option<(i32, i32, i32, i32)>,
}

impl View for AppState {
    type V = AppStateView;

    open spec fn view(&self) -> AppStateView {
        AppStateView {
            text: self.surrounding_text@,
            cursor: self.surrounding_cursor,
            anchor: self.surrounding_anchor,
            hint: self.content_hint,
            purpose: self.content_purpose,
            cause: self.change_cause,
            rect: self.cursor_rect,
        }
    }
}

/// The state with no text, zero values and no cursor rectangle.
pub open spec fn empty_app_state() -> AppStateView {
    AppStateView {
        text: Seq::empty(),
        cursor: 0,
        anchor: 0,
        hint: 0,
        purpose: 0,
        cause: 0,
        rect: None,
    }
}

/// A state carries meaningful context when it has surrounding text, a
/// content type, a cursor rectangle or a change cause.
pub open spec fn meaningful(s: AppStateView) -> bool {
    s.text.len() > 0 || s.hint != 0 || s.purpose != 0 || s.rect is Some || s.cause != 0
}

impl Default for AppState {
    fn default() -> (res: Self)
        ensures
            res@ == empty_app_state(),
    {
        AppState {
            surrounding_text: String::new(),
            surrounding_cursor: 0,
            surrounding_anchor: 0,
            content_hint: 0,
            content_purpose: 0,
            change_cause: 0,
            cursor_rect: None,
        }
    }
}

impl AppState {
    /// Builds a snapshot from the text-input-v3 pending state; absent
    /// surrounding text becomes the empty string.
    pub fn from_pending(
        surrounding_text: Option<&str>,
        cursor: u32,
        anchor: u32,
        content_hint: u32,
        content_purpose: u32,
        change_cause: u32,
        cursor_rect: Option<(i32, i32, i32, i32)>,
    ) -> (res: Self)
        ensures
            res.surrounding_text@ == (match surrounding_text {
                Some(t) => t@,
                None => Seq::<char>::empty(),
            }),
            res.surrounding_cursor == cursor,
            res.surrounding_anchor == anchor,
            res.content_hint == content_hint,
            res.content_purpose == content_purpose,
            res.change_cause == change_cause,
            res.cursor_rect == cursor_rect,
    {
        let text = match surrounding_text {
            Some(t) => String::from_str(t),
            None => String::new(),
        };
        AppState {
            surrounding_text: text,
            surrounding_cursor: cursor,
            surrounding_anchor: anchor,
            content_hint,
            content_purpose,
            change_cause,
            cursor_rect,
        }
    }

    /// Whether the state carries any meaningful text context.
    pub fn is_meaningful(&self) -> (res: bool)
        ensures
            res == meaningful(self@),
    {
        !self.surrounding_text.as_str().is_empty() || self.content_hint != 0 || self.content_purpose != 0
            || self.cursor_rect.is_some() || self.change_cause != 0
    }

    /// A copy with the same value.
    pub fn duplicate(&self) -> (res: Self)
        ensures
            res@ == self@,
    {
        AppState {
            surrounding_text: self.surrounding_text.clone(),
            surrounding_cursor: self.surrounding_cursor,
            surrounding_anchor: self.surrounding_anchor,
            content_hint: self.content_hint,
            content_purpose: self.content_purpose,
            change_cause: self.change_cause,
            cursor_rect: self.cursor_rect,
        }
    }

    /// Value equality of two states.
    pub fn same_as(&self, other: &AppState) -> (res: bool)
        ensures
            res == (self@ == other@),
    {
        let rect_eq = match (self.cursor_rect, other.cursor_rect) {
            (None, None) => true,
            (Some(a), Some(b)) => a.0 == b.0 && a.1 == b.1 && a.2 == b.2 && a.3 == b.3,
            _ => false,
        };
        self.surrounding_text == other.surrounding_text
            && self.surrounding_cursor == other.surrounding_cursor
            && self.surrounding_anchor == other.surrounding_anchor
            && self.content_hint == other.content_hint
            && self.content_purpose == other.content_purpose
            && self.change_cause == other.change_cause
            && rect_eq
    }
}

/// Abstract command to the input-method endpoint.
#[derive(Clone, Debug, PartialEq, Eq)]
pub enum ImeCommand {
    /// Activate the input method, with the current application state.
    Activate(AppState),
    /// Deactivate the input method.
    Deactivate,
    /// State update while active (surrounding text, content type, cursor rectangle).
    PushState(AppState),
}

pub enum ImeCommandView {
    Activate(AppStateView),
    Deactivate,
    PushState(AppStateView),
}

impl View for ImeCommand {
    type V = ImeCommandView;

    open spec fn view(&self) -> ImeCommandView {
        match self {
            ImeCommand::Activate(s) => ImeCommandView::Activate(s@),
            ImeCommand::Deactivate => ImeCommandView::Deactivate,
            ImeCommand::PushState(s) => ImeCommandView::PushState(s@),
        }
    }
}

/// Event command to the application (text-input-v3 client).
#[derive(Clone, Debug, PartialEq, Eq)]
pub enum TiCommand {
    Preedit(String, i32, i32),
    DeleteSurrounding(u32, u32),
    CommitString(String),
    /// Applies a batch; `serial == 0` marks a discarded batch.
    Done { serial: u32 },
}

pub enum TiCommandView {
    Preedit(Seq<char>, i32, i32),
    DeleteSurrounding(u32, u32),
    CommitString(Seq<char>),
    Done { serial: u32 },
}

impl View for TiCommand {
    type V = TiCommandView;

    open spec fn view(&self) -> TiCommandView {
        match self {
            TiCommand::Preedit(t, b, e) => TiCommandView::Preedit(t@, *b, *e),
            TiCommand::DeleteSurrounding(b, a) => TiCommandView::DeleteSurrounding(*b, *a),
            TiCommand::CommitString(t) => TiCommandView::CommitString(t@),
            TiCommand::Done { serial } => TiCommandView::Done { serial: *serial },
        }
    }
}

/// One text operation sent by the input-method endpoint (buffered until flushed).
#[derive(Clone, Debug, PartialEq, Eq)]
pub enum ImeOp {
    Preedit(String, i32, i32),
    DeleteSurrounding(u32, u32),
    CommitString(String),
}

pub enum ImeOpView {
    Preedit(Seq<char>, i32, i32),
    DeleteSurrounding(u32, u32),
    CommitString(Seq<char>),
}

impl View for ImeOp {
    type V = ImeOpView;

    open spec fn view(&self) -> ImeOpView {
        match self {
            ImeOp::Preedit(t, b, e) => ImeOpView::Preedit(t@, *b, *e),
            ImeOp::DeleteSurrounding(b, a) => ImeOpView::DeleteSurrounding(*b, *a),
            ImeOp::CommitString(t) => ImeOpView::CommitString(t@),
        }
    }
}

/// The application command that an input-method operation becomes.
pub open spec fn op_command(op: ImeOpView) -> TiCommandView {
    match op {
        ImeOpView::Preedit(t, b, e) => TiCommandView::Preedit(t, b, e),
        ImeOpView::DeleteSurrounding(b, a) => TiCommandView::DeleteSurrounding(b, a),
        ImeOpView::CommitString(t) => TiCommandView::CommitString(t),
    }
}

pub open spec fn commands_view(v: Seq<ImeCommand>) -> Seq<ImeCommandView> {
    v.map_values(|c: ImeCommand| c@)
}

pub open spec fn ti_commands_view(v: Seq<TiCommand>) -> Seq<TiCommandView> {
    v.map_values(|c: TiCommand| c@)
}

pub open spec fn ops_view(v: Seq<ImeOp>) -> Seq<ImeOpView> {
    v.map_values(|o: ImeOp| o@)
}

/// Result of flushing the buffered operations.
#[derive(Debug, PartialEq, Eq)]
pub struct FlushResult {
    /// Events to send, in order, to the active text-input instance.
    pub commands: Vec<TiCommand>,
    /// True when the batch was accepted and applied; false when it was
    /// discarded (wrong serial, nothing buffered, or no active application).
    pub applied: bool,
}

pub struct FlushView {
    pub commands: Seq<TiCommandView>,
    pub applied: bool,
}

impl View for FlushResult {
    type V = FlushView;

    open spec fn view(&self) -> FlushView {
        FlushView { commands: ti_commands_view(self.commands@), applied: self.applied }
    }
}

/// The result of a discarded flush: no commands, not applied.
pub open spec fn discarded() -> FlushView {
    FlushView { commands: Seq::empty(), applied: false }
}

/// Mathematical state of a [`Relay`].
pub struct RelayView {
    pub app_active: bool,
    pub ime_present: bool,
    /// Number of `done` events issued to the current endpoint.
    pub done_count: u32,
    pub pending: Seq<ImeOpView>,
    pub last_state: AppStateView,
}

/// The relay state at start: nothing active, nothing buffered.
pub open spec fn initial_relay() -> RelayView {
    RelayView {
        app_active: false,
        ime_present: false,
        done_count: 0,
        pending: Seq::empty(),
        last_state: empty_app_state(),
    }
}

/// The state invariant kept by every operation: only an active
/// application has buffered operations, and an offline endpoint has a zero
/// `done` count.
pub open spec fn relay_inv(r: RelayView) -> bool {
    &&& (r.pending.len() > 0 ==> r.app_active)
    &&& (!r.ime_present ==> r.done_count == 0)
}

/// The endpoint goes online or offline.
pub open spec fn next_set_ime_present(r: RelayView, present: bool) -> (RelayView, Seq<ImeCommandView>) {
    if present {
        if r.app_active {
            (
                RelayView { ime_present: true, done_count: 1, ..r },
                seq![ImeCommandView::Activate(r.last_state)],
            )
        } else {
            (RelayView { ime_present: true, done_count: 0, ..r }, Seq::empty())
        }
    } else {
        (RelayView { ime_present: false, done_count: 0, pending: Seq::empty(), ..r }, Seq::empty())
    }
}

/// The application enables or disables its text input.
pub open spec fn next_set_app_enabled(r: RelayView, enabled: bool) -> (RelayView, Seq<ImeCommandView>) {
    if enabled == r.app_active {
        (r, Seq::empty())
    } else if enabled {
        if r.ime_present {
            (
                RelayView { app_active: true, done_count: (r.done_count + 1) as u32, ..r },
                seq![ImeCommandView::Activate(r.last_state)],
            )
        } else {
            (RelayView { app_active: true, ..r }, Seq::empty())
        }
    } else {
        if r.ime_present {
            (
                RelayView {
                    app_active: false,
                    pending: Seq::empty(),
                    done_count: (r.done_count + 1) as u32,
                    ..r
                },
                seq![ImeCommandView::Deactivate],
            )
        } else {
            (RelayView { app_active: false, pending: Seq::empty(), ..r }, Seq::empty())
        }
    }
}

/// The keyboard focus is lost: the session state is forgotten and the application disabled.
pub open spec fn next_focus_lost(r: RelayView) -> (RelayView, Seq<ImeCommandView>) {
    next_set_app_enabled(RelayView { last_state: empty_app_state(), ..r }, false)
}

/// The application commits a new state.
pub open spec fn next_push_app_state(r: RelayView, s: AppStateView) -> (RelayView, Seq<ImeCommandView>) {
    if r.app_active && r.ime_present && s != r.last_state {
        (
            RelayView { last_state: s, done_count: (r.done_count + 1) as u32, ..r },
            seq![ImeCommandView::PushState(s)],
        )
    } else {
        (RelayView { last_state: s, ..r }, Seq::empty())
    }
}

/// An operation from the endpoint is buffered, or dropped without an active application.
pub open spec fn next_ime_op(r: RelayView, op: ImeOpView) -> RelayView {
    if r.app_active {
        RelayView { pending: r.pending.push(op), ..r }
    } else {
        r
    }
}

/// The buffered operations are applied (or discarded when there is no
/// active application or nothing buffered); the buffer is emptied either way.
pub open spec fn next_flush(r: RelayView) -> (RelayView, FlushView) {
    let r2 = RelayView { pending: Seq::empty(), ..r };
    if r.pending.len() == 0 || !r.app_active {
        (r2, discarded())
    } else {
        (r2, FlushView { commands: r.pending.map_values(|o: ImeOpView| op_command(o)), applied: true })
    }
}

/// The endpoint asks to apply the batch with `serial`: a serial other than
/// the `done` count discards the batch.
pub open spec fn next_ime_commit(r: RelayView, serial: u32) -> (RelayView, FlushView) {
    if serial != r.done_count {
        (RelayView { pending: Seq::empty(), ..r }, discarded())
    } else {
        next_flush(r)
    }
}

/// Relay state machine; one per compositor seat.
pub struct Relay {
    app_active: bool,
    ime_present: bool,
    ime_done_count: u32,
    pending_ops: Vec<ImeOp>,
    last_state: AppState,
}

impl View for Relay {
    type V = RelayView;

    closed spec fn view(&self) -> RelayView {
        RelayView {
            app_active: self.app_active,
            ime_present: self.ime_present,
            done_count: self.ime_done_count,
            pending: ops_view(self.pending_ops@),
            last_state: self.last_state@,
        }
    }
}

impl Relay {
    pub fn new() -> (res: Self)
        ensures
            res@ == initial_relay(),
            relay_inv(res@),
    {
        let r = Relay {
            app_active: false,
            ime_present: false,
            ime_done_count: 0,
            pending_ops: Vec::new(),
            last_state: AppState::default(),
        };
        assert(r@.pending =~= Seq::<ImeOpView>::empty());
        r
    }

    pub fn app_active(&self) -> (res: bool)
        ensures
            res == self@.app_active,
    {
        self.app_active
    }

    pub fn ime_present(&self) -> (res: bool)
        ensures
            res == self@.ime_present,
    {
        self.ime_present
    }

    /// Number of `done` events issued to the current endpoint (the serial it must echo).
    pub fn ime_done_count(&self) -> (res: u32)
        ensures
            res == self@.done_count,
    {
        self.ime_done_count
    }

    /// Number of buffered, not yet applied operations.
    pub fn pending_len(&self) -> (res: usize)
        ensures
            res == self@.pending.len(),
    {
        self.pending_ops.len()
    }

    /// The endpoint goes online or offline.
    ///
    /// Online: the count restarts at zero, and an active application is
    /// activated at once, with the latest state it reported.
    /// Offline: buffered operations are dropped and the count reset.
    pub fn set_ime_present(&mut self, present: bool) -> (cmds: Vec<ImeCommand>)
        ensures
            (final(self)@, commands_view(cmds@)) == next_set_ime_present(old(self)@, present),
            final(self)@.done_count == cmds@.len(),
            relay_inv(old(self)@) ==> relay_inv(final(self)@),
    {
        self.ime_present = present;
        let mut cmds: Vec<ImeCommand> = Vec::new();
        if present {
            self.ime_done_count = 0;
            if self.app_active {
                cmds.push(ImeCommand::Activate(self.last_state.duplicate()));
                self.ime_done_count = self.ime_done_count + 1;
            }
        } else {
            self.pending_ops.clear();
            self.ime_done_count = 0;
        }
        proof {
            let (r2, c2) = next_set_ime_present(old(self)@, present);
            assert(self@.pending =~= r2.pending);
            assert(commands_view(cmds@) =~= c2);
        }
        cmds
    }

    /// The application enables or disables its text input.
    ///
    /// Enabling with an endpoint online activates it; disabling drops the
    /// buffered operations and deactivates an online endpoint. Setting the
    /// current value again does nothing.
    pub fn set_app_enabled(&mut self, enabled: bool) -> (cmds: Vec<ImeCommand>)
        requires
            old(self)@.done_count < u32::MAX,
        ensures
            (final(self)@, commands_view(cmds@)) == next_set_app_enabled(old(self)@, enabled),
            final(self)@.done_count == old(self)@.done_count + cmds@.len(),
            relay_inv(old(self)@) ==> relay_inv(final(self)@),
    {
        let mut cmds: Vec<ImeCommand> = Vec::new();
        if enabled == self.app_active {
            assert(commands_view(cmds@) =~= Seq::<ImeCommandView>::empty());
            return cmds;
        }
        self.app_active = enabled;
        if enabled {
            if self.ime_present {
                cmds.push(ImeCommand::Activate(self.last_state.duplicate()));
                self.ime_done_count = self.ime_done_count + 1;
            }
        } else {
            self.pending_ops.clear();
            if self.ime_present {
                cmds.push(ImeCommand::Deactivate);
                self.ime_done_count = self.ime_done_count + 1;
            }
        }
        proof {
            let (r2, c2) = next_set_app_enabled(old(self)@, enabled);
            assert(self@.pending =~= r2.pending);
            assert(commands_view(cmds@) =~= c2);
        }
        cmds
    }

    /// The keyboard focus is lost: forget the session state and disable.
    pub fn focus_lost(&mut self) -> (cmds: Vec<ImeCommand>)
        requires
            old(self)@.done_count < u32::MAX,
        ensures
            (final(self)@, commands_view(cmds@)) == next_focus_lost(old(self)@),
            final(self)@.done_count == old(self)@.done_count + cmds@.len(),
            relay_inv(old(self)@) ==> relay_inv(final(self)@),
    {
        self.last_state = AppState::default();
        self.set_app_enabled(false)
    }

    /// The application commits a new state; a change is pushed to an online
    /// endpoint while the application is active.
    pub fn push_app_state(&mut self, state: AppState) -> (cmds: Vec<ImeCommand>)
        requires
            old(self)@.done_count < u32::MAX,
        ensures
            (final(self)@, commands_view(cmds@)) == next_push_app_state(old(self)@, state@),
            final(self)@.done_count == old(self)@.done_count + cmds@.len(),
            relay_inv(old(self)@) ==> relay_inv(final(self)@),
    {
        let changed = !state.same_as(&self.last_state);
        self.last_state = state.duplicate();
        let mut cmds: Vec<ImeCommand> = Vec::new();
        if self.app_active && self.ime_present && changed {
            self.ime_done_count = self.ime_done_count + 1;
            cmds.push(ImeCommand::PushState(state));
        }
        proof {
            let (r2, c2) = next_push_app_state(old(self)@, state@);
            assert(commands_view(cmds@) =~= c2);
        }
        cmds
    }

    /// The last application state that was pushed.
    pub fn current_state(&self) -> (res: &AppState)
        ensures
            res@ == self@.last_state,
    {
        &self.last_state
    }

    /// Buffers one operation from the endpoint (dropped without an active application).
    pub fn ime_op(&mut self, op: ImeOp)
        ensures
            final(self)@ == next_ime_op(old(self)@, op@),
            relay_inv(old(self)@) ==> relay_inv(final(self)@),
    {
        if !self.app_active {
            return;
        }
        self.pending_ops.push(op);
        proof {
            assert(self@.pending =~= old(self)@.pending.push(op@));
        }
    }

    /// Applies the buffer for the endpoint's `commit(serial)`: a serial other
    /// than the `done` count discards the whole batch.
    pub fn ime_commit(&mut self, serial: u32) -> (res: FlushResult)
        ensures
            (final(self)@, res@) == next_ime_commit(old(self)@, serial),
            final(self)@.pending.len() == 0,
            relay_inv(old(self)@) ==> relay_inv(final(self)@),
    {
        if serial != self.ime_done_count {
            self.pending_ops.clear();
            let res = FlushResult { commands: Vec::new(), applied: false };
            proof {
                assert(self@.pending =~= Seq::<ImeOpView>::empty());
                assert(res@.commands =~= Seq::<TiCommandView>::empty());
            }
            return res;
        }
        self.finish_flush()
    }

    /// Applies the buffer unconditionally (pass-through path, where the
    /// host compositor has already checked the serial).
    pub fn ime_flush(&mut self) -> (res: FlushResult)
        ensures
            (final(self)@, res@) == next_flush(old(self)@),
            final(self)@.pending.len() == 0,
            relay_inv(old(self)@) ==> relay_inv(final(self)@),
    {
        self.finish_flush()
    }

    fn finish_flush(&mut self) -> (res: FlushResult)
        ensures
            (final(self)@, res@) == next_flush(old(self)@),
    {
        if self.pending_ops.len() == 0 || !self.app_active {
            self.pending_ops.clear();
            let res = FlushResult { commands: Vec::new(), applied: false };
            proof {
                assert(self@.pending =~= Seq::<ImeOpView>::empty());
                assert(res@.commands =~= Seq::<TiCommandView>::empty());
            }
            return res;
        }
        let mut commands: Vec<TiCommand> = Vec::new();
        let n = self.pending_ops.len();
        let mut i: usize = 0;
        while i < n
            invariant
                n == self.pending_ops.len(),
                self.pending_ops == old(self).pending_ops,
                i <= n,
                ti_commands_view(commands@) =~= ops_view(self.pending_ops@).take(i as int).map_values(
                    |o: ImeOpView| op_command(o),
                ),
            decreases n - i,
        {
            let cmd = match &self.pending_ops[i] {
                ImeOp::Preedit(t, b, e) => TiCommand::Preedit(t.clone(), *b, *e),
                ImeOp::DeleteSurrounding(b, a) => TiCommand::DeleteSurrounding(*b, *a),
                ImeOp::CommitString(t) => TiCommand::CommitString(t.clone()),
            };
            assert(cmd@ == op_command(self.pending_ops@[i as int]@));
            let ghost prev = commands@;
            commands.push(cmd);
            proof {
                assert(ti_commands_view(commands@) =~= ti_commands_view(prev).push(cmd@));
                assert(ops_view(self.pending_ops@).take(i + 1) =~= ops_view(self.pending_ops@).take(
                    i as int,
                ).push(self.pending_ops@[i as int]@));
            }
            i = i + 1;
        }
        proof {
            assert(ops_view(self.pending_ops@).take(n as int) =~= ops_view(self.pending_ops@));
        }
        self.pending_ops.clear();
        proof {
            assert(self@.pending =~= Seq::<ImeOpView>::empty());
        }
        FlushResult { commands, applied: true }
    }
}

/// Every relay operation keeps the state invariant, starting from the initial state.
pub proof fn law_initial_state_satisfies_invariant()
    ensures
        relay_inv(initial_relay()),
{
}

/// Operations buffered while an application is active, committed with the
/// serial that the relay last issued, reach the application whole and in
/// the order in which they were sent.
pub proof fn law_commit_with_echoed_serial_applies_in_order(r: RelayView, ops: Seq<ImeOpView>)
    requires
        r.app_active,
        r.pending.len() == 0,
        ops.len() > 0,
    ensures
        ({
            let r2 = ops.fold_left(r, |acc: RelayView, op: ImeOpView| next_ime_op(acc, op));
            let (r3, res) = next_ime_commit(r2, r.done_count);
            &&& res.applied
            &&& res.commands == ops.map_values(|o: ImeOpView| op_command(o))
            &&& r3.pending.len() == 0
        }),
{
    lemma_buffer_ops(r, ops);
}

/// Buffering a sequence of operations in an active relay appends them to the buffer.
pub proof fn lemma_buffer_ops(r: RelayView, ops: Seq<ImeOpView>)
    requires
        r.app_active,
    ensures
        ({
            let r2 = ops.fold_left(r, |acc: RelayView, op: ImeOpView| next_ime_op(acc, op));
            &&& r2.pending == r.pending + ops
            &&& r2.app_active
            &&& r2.done_count == r.done_count
        }),
    decreases ops.len(),
{
    if ops.len() == 0 {
        assert(r.pending + ops =~= r.pending);
    } else {
        let init = ops.drop_last();
        lemma_buffer_ops(r, init);
        assert(init.push(ops.last()) =~= ops);
        assert((r.pending + init).push(ops.last()) =~= r.pending + ops);
    }
}

/// A commit with any serial other than the one the relay issued changes
/// nothing visible to the application and empties the buffer.
pub proof fn law_stale_serial_discards_batch(r: RelayView, serial: u32)
    requires
        serial != r.done_count,
    ensures
        next_ime_commit(r, serial).1 == discarded(),
        next_ime_commit(r, serial).0.pending.len() == 0,
        next_ime_commit(r, serial).0.app_active == r.app_active,
        next_ime_commit(r, serial).0.done_count == r.done_count,
{
}

/// After the focus is lost, late operations from the endpoint never reach
/// the application.
pub proof fn law_focus_lost_rejects_late_ops(r: RelayView, op: ImeOpView)
    ensures
        ({
            let r2 = next_focus_lost(r).0;
            next_flush(next_ime_op(r2, op)).1 == discarded()
        }),
{
}

/// Disabling the application discards buffered operations: a flush right
/// after it applies nothing.
pub proof fn law_disable_discards_pending(r: RelayView)
    ensures
        next_flush(next_set_app_enabled(r, false).0).1 == discarded(),
{
}

/// Setting the enable state to its current value is a no-op.
pub proof fn law_enable_is_idempotent(r: RelayView, enabled: bool)
    requires
        enabled == r.app_active,
    ensures
        next_set_app_enabled(r, enabled) == (r, Seq::<ImeCommandView>::empty()),
{
}

/// A restarted endpoint counts from zero again: going offline then online
/// leaves a count of one when the application is active, zero otherwise.
pub proof fn law_restart_resets_serial(r: RelayView)
    ensures
        ({
            let r2 = next_set_ime_present(next_set_ime_present(r, false).0, true).0;
            r2.done_count == (if r.app_active { 1u32 } else { 0u32 })
        }),
{
}

/// Pushing the state that the relay already holds issues no command and
/// keeps the serial.
pub proof fn law_unchanged_state_not_pushed(r: RelayView)
    ensures
        next_push_app_state(r, r.last_state) == (r, Seq::<ImeCommandView>::empty()),
{
}

/// Enabling before the endpoint is online defers the activation to the
/// moment the endpoint comes online.
pub proof fn law_enable_before_ime_defers_activation(r: RelayView)
    requires
        !r.ime_present,
        !r.app_active,
    ensures
        next_set_app_enabled(r, true).1.len() == 0,
        next_set_ime_present(next_set_app_enabled(r, true).0, true).1.len() == 1,
        next_set_ime_present(next_set_app_enabled(r, true).0, true).1[0] is Activate,
{
}

/// One call on a relay, as a value: the inputs of the relay's operations.
pub enum RelayInput {
    SetImePresent(bool),
    SetAppEnabled(bool),
    FocusLost,
    PushAppState(AppStateView),
    ImeOp(ImeOpView),
    ImeCommit(u32),
    Flush,
}

/// The relay state after one call.
pub open spec fn relay_step(r: RelayView, input: RelayInput) -> RelayView {
    match input {
        RelayInput::SetImePresent(p) => next_set_ime_present(r, p).0,
        RelayInput::SetAppEnabled(e) => next_set_app_enabled(r, e).0,
        RelayInput::FocusLost => next_focus_lost(r).0,
        RelayInput::PushAppState(st) => next_push_app_state(r, st).0,
        RelayInput::ImeOp(op) => next_ime_op(r, op),
        RelayInput::ImeCommit(serial) => next_ime_commit(r, serial).0,
        RelayInput::Flush => next_flush(r).0,
    }
}

/// The relay state after a sequence of calls, in order.
pub open spec fn relay_run(r: RelayView, inputs: Seq<RelayInput>) -> RelayView
    decreases inputs.len(),
{
    if inputs.len() == 0 {
        r
    } else {
        relay_step(relay_run(r, inputs.drop_last()), inputs.last())
    }
}

/// A pushed application state stays the current state, whatever else
/// happens (the endpoint going offline or online, the application being
/// disabled and enabled again, operations and commits), until the focus is
/// lost or another state is pushed.
pub proof fn law_pushed_state_stays_current(r: RelayView, st: AppStateView, inputs: Seq<RelayInput>)
    requires
        forall|i: int| 0 <= i < inputs.len() ==> !(#[trigger] inputs[i] is FocusLost) && !(inputs[i] is PushAppState),
    ensures
        relay_run(next_push_app_state(r, st).0, inputs).last_state == st,
    decreases inputs.len(),
{
    if inputs.len() > 0 {
        law_pushed_state_stays_current(r, st, inputs.drop_last());
        assert(!(inputs[inputs.len() - 1] is FocusLost));
    }
}

/// When the application is enabled again after such calls, or the endpoint
/// comes back online, the activation carries the pushed state.
pub proof fn law_reactivation_carries_pushed_state(r: RelayView, st: AppStateView, inputs: Seq<RelayInput>)
    requires
        forall|i: int| 0 <= i < inputs.len() ==> !(#[trigger] inputs[i] is FocusLost) && !(inputs[i] is PushAppState),
    ensures
        ({
            let r2 = relay_run(next_push_app_state(r, st).0, inputs);
            &&& (!r2.app_active && r2.ime_present) ==> next_set_app_enabled(r2, true).1 == seq![
                ImeCommandView::Activate(st),
            ]
            &&& (r2.app_active && !r2.ime_present) ==> next_set_ime_present(r2, true).1 == seq![
                ImeCommandView::Activate(st),
            ]
        }),
{
    law_pushed_state_stays_current(r, st, inputs);
}

/// With the application active and the endpoint present, pushing a state
/// that differs from the last one in any field (text, cursor, anchor,
/// content hint or purpose, change cause, cursor rectangle) issues exactly
/// one `PushState` carrying that state, advances the `done` count by one and
/// makes the state current.
pub proof fn law_changed_state_is_pushed(r: RelayView, s: AppStateView)
    requires
        r.app_active,
        r.ime_present,
        r.done_count < u32::MAX,
        s.text != r.last_state.text || s.cursor != r.last_state.cursor || s.anchor != r.last_state.anchor
            || s.hint != r.last_state.hint || s.purpose != r.last_state.purpose || s.cause != r.last_state.cause
            || s.rect != r.last_state.rect,
    ensures
        next_push_app_state(r, s).1 == seq![ImeCommandView::PushState(s)],
        next_push_app_state(r, s).0.done_count == r.done_count + 1,
        next_push_app_state(r, s).0.last_state == s,
{
}

} // verus!
