//! Host input-method passthrough: the compositor acts as an ordinary
//! text-input-v3 client of the host compositor.
//!
//! The host gives or takes the text focus with `enter` / `leave`; an
//! `enter` invalidates an enable that was sent, so enabling must be sent
//! again after it. Whether the game wants a session (`want_enabled`) is
//! driven from outside. Once per frame a reconciliation decides what to
//! write: enable with the state, a state update, or disable — each followed
//! by `commit` — and only while the host has given the focus. The wire
//! itself is written by the caller.

use vstd::prelude::*;
use crate::host_ime::{HostEvent, HostEventView, host_events_view};
use crate::relay::{AppState, AppStateView, ImeCommand, ImeCommandView, commands_view};

verus! {

/// `zwp_text_input_v3.change_cause`.
#[derive(Debug, Clone, Copy, PartialEq, Eq, Structural)]
pub enum ChangeCause {
    InputMethod,
    Other,
}

/// `zwp_text_input_v3.content_purpose`.
#[derive(Debug, Clone, Copy, PartialEq, Eq, Structural)]
pub enum ContentPurpose {
    Normal,
    Alpha,
    Digits,
    Number,
    Phone,
    Url,
    Email,
    Name,
    Password,
    Pin,
    Date,
    Time,
    Datetime,
    Terminal,
}

/// The change cause of a protocol value (0 = input method, 1 = other).
pub open spec fn change_cause_of(v: u32) -> Option<ChangeCause> {
    if v == 0 {
        Some(ChangeCause::InputMethod)
    } else if v == 1 {
        Some(ChangeCause::Other)
    } else {
        None
    }
}

/// Reads a protocol change cause (see [`change_cause_of`]).
pub fn change_cause_from_u32(v: u32) -> (res: Option<ChangeCause>)
    ensures
        res == change_cause_of(v),
{
    match v {
        0 => Some(ChangeCause::InputMethod),
        1 => Some(ChangeCause::Other),
        _ => None,
    }
}

/// The content purpose of a protocol value (0 to 13, in the order of the
/// protocol's table).
pub open spec fn content_purpose_of(v: u32) -> Option<ContentPurpose> {
    if v == 0 {
        Some(ContentPurpose::Normal)
    } else if v == 1 {
        Some(ContentPurpose::Alpha)
    } else if v == 2 {
        Some(ContentPurpose::Digits)
    } else if v == 3 {
        Some(ContentPurpose::Number)
    } else if v == 4 {
        Some(ContentPurpose::Phone)
    } else if v == 5 {
        Some(ContentPurpose::Url)
    } else if v == 6 {
        Some(ContentPurpose::Email)
    } else if v == 7 {
        Some(ContentPurpose::Name)
    } else if v == 8 {
        Some(ContentPurpose::Password)
    } else if v == 9 {
        Some(ContentPurpose::Pin)
    } else if v == 10 {
        Some(ContentPurpose::Date)
    } else if v == 11 {
        Some(ContentPurpose::Time)
    } else if v == 12 {
        Some(ContentPurpose::Datetime)
    } else if v == 13 {
        Some(ContentPurpose::Terminal)
    } else {
        None
    }
}

/// Reads a protocol content purpose (see [`content_purpose_of`]).
pub fn content_purpose_from_u32(v: u32) -> (res: Option<ContentPurpose>)
    ensures
        res == content_purpose_of(v),
{
    match v {
        0 => Some(ContentPurpose::Normal),
        1 => Some(ContentPurpose::Alpha),
        2 => Some(ContentPurpose::Digits),
        3 => Some(ContentPurpose::Number),
        4 => Some(ContentPurpose::Phone),
        5 => Some(ContentPurpose::Url),
        6 => Some(ContentPurpose::Email),
        7 => Some(ContentPurpose::Name),
        8 => Some(ContentPurpose::Password),
        9 => Some(ContentPurpose::Pin),
        10 => Some(ContentPurpose::Date),
        11 => Some(ContentPurpose::Time),
        12 => Some(ContentPurpose::Datetime),
        13 => Some(ContentPurpose::Terminal),
        _ => None,
    }
}

/// A state request to the host's text input (written before `commit`).
#[derive(Debug, Clone, PartialEq)]
pub enum StateRequest {
    SurroundingText(String, i32, i32),
    TextChangeCause(ChangeCause),
    /// Content hint bits and purpose.
    ContentType(u32, ContentPurpose),
    CursorRectangle(i32, i32, i32, i32),
}

pub enum StateRequestView {
    SurroundingText(Seq<char>, i32, i32),
    TextChangeCause(ChangeCause),
    ContentType(u32, ContentPurpose),
    CursorRectangle(i32, i32, i32, i32),
}

impl View for StateRequest {
    type V = StateRequestView;

    open spec fn view(&self) -> StateRequestView {
        match self {
            StateRequest::SurroundingText(t, c, a) => StateRequestView::SurroundingText(t@, *c, *a),
            StateRequest::TextChangeCause(c) => StateRequestView::TextChangeCause(*c),
            StateRequest::ContentType(h, p) => StateRequestView::ContentType(*h, *p),
            StateRequest::CursorRectangle(x, y, w, h) => StateRequestView::CursorRectangle(*x, *y, *w, *h),
        }
    }
}

pub open spec fn requests_view(v: Seq<StateRequest>) -> Seq<StateRequestView> {
    v.map_values(|r: StateRequest| r@)
}

/// The requests that write an application state: the surrounding text when
/// there is one, the change cause when it is set and known, the content
/// type when hint or purpose is set and the purpose is known, and the
/// cursor rectangle when known.
pub open spec fn state_requests_of(st: AppStateView) -> Seq<StateRequestView> {
    (if st.text.len() > 0 {
        seq![StateRequestView::SurroundingText(st.text, st.cursor as i32, st.anchor as i32)]
    } else {
        Seq::empty()
    }) + (if st.cause != 0 && change_cause_of(st.cause) is Some {
        seq![StateRequestView::TextChangeCause(change_cause_of(st.cause)->Some_0)]
    } else {
        Seq::empty()
    }) + (if (st.hint != 0 || st.purpose != 0) && content_purpose_of(st.purpose) is Some {
        seq![StateRequestView::ContentType(st.hint, content_purpose_of(st.purpose)->Some_0)]
    } else {
        Seq::empty()
    }) + match st.rect {
        Some((x, y, w, h)) => seq![StateRequestView::CursorRectangle(x, y, w, h)],
        None => Seq::empty(),
    }
}

/// Builds the requests that write an application state (see [`state_requests_of`]).
pub fn state_requests(st: &AppState) -> (res: Vec<StateRequest>)
    ensures
        requests_view(res@) == state_requests_of(st@),
{
    let mut out: Vec<StateRequest> = Vec::new();
    if st.surrounding_text.unicode_len() > 0 {
        out.push(
            StateRequest::SurroundingText(
                st.surrounding_text.clone(),
                st.surrounding_cursor as i32,
                st.surrounding_anchor as i32,
            ),
        );
    }
    let ghost a = requests_view(out@);
    if st.change_cause != 0 {
        match change_cause_from_u32(st.change_cause) {
            Some(c) => out.push(StateRequest::TextChangeCause(c)),
            None => {},
        }
    }
    let ghost b = requests_view(out@);
    if st.content_hint != 0 || st.content_purpose != 0 {
        match content_purpose_from_u32(st.content_purpose) {
            Some(p) => out.push(StateRequest::ContentType(st.content_hint, p)),
            None => {},
        }
    }
    let ghost c = requests_view(out@);
    match st.cursor_rect {
        Some((x, y, w, h)) => out.push(StateRequest::CursorRectangle(x, y, w, h)),
        None => {},
    }
    assert(requests_view(out@) =~= state_requests_of(st@));
    out
}

/// An event of the host's text input.
#[derive(Debug, Clone, PartialEq)]
pub enum TextInputEvent {
    Enter,
    Leave,
    CommitString(Option<String>),
    PreeditString(Option<String>, i32, i32),
    DeleteSurroundingText(u32, u32),
    Done(u32),
}

/// What a reconciliation writes to the host's text input (each followed by `commit`).
#[derive(Debug, Clone, Copy, PartialEq, Eq, Structural)]
pub enum Reconcile {
    Nothing,
    /// `enable`, the state requests, `commit`.
    EnableWithState,
    /// The state requests, `commit`.
    PushState,
    /// `disable`, `commit`.
    Disable,
}

/// The passthrough state as plain values.
pub struct PassthroughView {
    pub entered: bool,
    pub want_enabled: bool,
    pub sent_enable: bool,
    pub last_state: AppStateView,
    pub state_dirty: bool,
    pub events: Seq<HostEventView>,
    pub dead: Option<Seq<char>>,
}

/// The decisions of the passthrough client.
pub struct Passthrough {
    /// Whether the host gave the text focus to our text input.
    entered: bool,
    /// Whether the game has an active text session.
    want_enabled: bool,
    /// Whether an enable was sent and is still valid.
    sent_enable: bool,
    /// The latest application state.
    last_state: AppState,
    /// Whether `last_state` waits to be written.
    state_dirty: bool,
    /// Host events, in order.
    events: Vec<HostEvent>,
    /// Why the connection is gone, once it is.
    dead: Option<String>,
}

impl View for Passthrough {
    type V = PassthroughView;

    closed spec fn view(&self) -> PassthroughView {
        PassthroughView {
            entered: self.entered,
            want_enabled: self.want_enabled,
            sent_enable: self.sent_enable,
            last_state: self.last_state@,
            state_dirty: self.state_dirty,
            events: host_events_view(self.events@),
            dead: match self.dead {
                Some(s) => Some(s@),
                None => None,
            },
        }
    }
}

/// The state after a host event: `enter` and `leave` set the focus and
/// invalidate the enable; text events are queued in order.
pub open spec fn after_event(v: PassthroughView, ev: TextInputEvent) -> PassthroughView {
    match ev {
        TextInputEvent::Enter => PassthroughView { entered: true, sent_enable: false, ..v },
        TextInputEvent::Leave => PassthroughView { entered: false, sent_enable: false, ..v },
        TextInputEvent::CommitString(t) => PassthroughView {
            events: v.events.push(
                HostEventView::CommitString(
                    match t {
                        Some(s) => s@,
                        None => Seq::empty(),
                    },
                ),
            ),
            ..v
        },
        TextInputEvent::PreeditString(t, b, e) => PassthroughView {
            events: v.events.push(
                HostEventView::PreeditString(
                    match t {
                        Some(s) => s@,
                        None => Seq::empty(),
                    },
                    b,
                    e,
                ),
            ),
            ..v
        },
        TextInputEvent::DeleteSurroundingText(b, a) => PassthroughView {
            events: v.events.push(HostEventView::DeleteSurroundingText(b, a)),
            ..v
        },
        TextInputEvent::Done(s) => PassthroughView { events: v.events.push(HostEventView::Done(s)), ..v },
    }
}

/// The state after one relay command.
pub open spec fn after_command(v: PassthroughView, c: ImeCommandView) -> PassthroughView {
    match c {
        ImeCommandView::Activate(st) => PassthroughView { last_state: st, state_dirty: true, want_enabled: true, ..v },
        ImeCommandView::Deactivate => PassthroughView { want_enabled: false, ..v },
        ImeCommandView::PushState(st) => PassthroughView { last_state: st, state_dirty: true, ..v },
    }
}

/// The state after relay commands in order; a dead client ignores them.
pub open spec fn after_commands(v: PassthroughView, cs: Seq<ImeCommandView>) -> PassthroughView
    decreases cs.len(),
{
    if v.dead is Some || cs.len() == 0 {
        v
    } else {
        after_command(after_commands(v, cs.drop_last()), cs.last())
    }
}

/// The reconciliation: what to write and the state after it. With the
/// focus given and a text input present: enable when wanted and not sent,
/// a state update when wanted and changed, disable when not wanted but
/// sent. Without the focus an enable that was sent is forgotten.
pub open spec fn reconcile_step(v: PassthroughView, has_text_input: bool) -> (Reconcile, PassthroughView) {
    if has_text_input && v.entered {
        if v.want_enabled && !v.sent_enable {
            (Reconcile::EnableWithState, PassthroughView { sent_enable: true, state_dirty: false, ..v })
        } else if v.want_enabled && v.state_dirty {
            (Reconcile::PushState, PassthroughView { state_dirty: false, ..v })
        } else if !v.want_enabled && v.sent_enable {
            (Reconcile::Disable, PassthroughView { sent_enable: false, ..v })
        } else {
            (Reconcile::Nothing, v)
        }
    } else if v.want_enabled && v.sent_enable {
        (Reconcile::Nothing, PassthroughView { sent_enable: false, ..v })
    } else {
        (Reconcile::Nothing, v)
    }
}

pub open spec fn fresh_passthrough() -> PassthroughView {
    PassthroughView {
        entered: false,
        want_enabled: false,
        sent_enable: false,
        last_state: crate::relay::empty_app_state(),
        state_dirty: false,
        events: Seq::empty(),
        dead: None,
    }
}

impl Passthrough {
    /// A client that has no focus, wants nothing and has sent nothing.
    pub fn new() -> (res: Self)
        ensures
            res@ == fresh_passthrough(),
    {
        let res = Passthrough {
            entered: false,
            want_enabled: false,
            sent_enable: false,
            last_state: AppState::default(),
            state_dirty: false,
            events: Vec::new(),
            dead: None,
        };
        assert(host_events_view(Seq::<HostEvent>::empty()) =~= Seq::<HostEventView>::empty());
        res
    }

    /// Applies a host event (see [`after_event`]).
    pub fn on_event(&mut self, ev: TextInputEvent)
        ensures
            final(self)@ == after_event(old(self)@, ev),
    {
        let ghost e = ev;
        let ghost before = host_events_view(self.events@);
        match ev {
            TextInputEvent::Enter => {
                self.entered = true;
                self.sent_enable = false;
            },
            TextInputEvent::Leave => {
                self.entered = false;
                self.sent_enable = false;
            },
            TextInputEvent::CommitString(t) => {
                let text = match t {
                    Some(s) => s,
                    None => String::new(),
                };
                self.events.push(HostEvent::CommitString(text));
            },
            TextInputEvent::PreeditString(t, b, e) => {
                let text = match t {
                    Some(s) => s,
                    None => String::new(),
                };
                self.events.push(HostEvent::PreeditString(text, b, e));
            },
            TextInputEvent::DeleteSurroundingText(b, a) => {
                self.events.push(HostEvent::DeleteSurroundingText(b, a));
            },
            TextInputEvent::Done(s) => {
                self.events.push(HostEvent::Done(s));
            },
        }
        assert(self@ == after_event(old(self)@, e)) by {
            assert(host_events_view(self.events@) =~= after_event(old(self)@, e).events);
        }
    }

    /// Whether the game has an active text session.
    pub fn set_active(&mut self, active: bool)
        ensures
            final(self)@ == (PassthroughView { want_enabled: active, ..old(self)@ }),
    {
        self.want_enabled = active;
    }

    /// Applies relay commands (see [`after_commands`]); only the local view
    /// changes, the wire is written by the next reconciliation.
    pub fn execute_commands(&mut self, commands: Vec<ImeCommand>)
        ensures
            final(self)@ == after_commands(old(self)@, commands_view(commands@)),
    {
        let ghost cs = commands_view(commands@);
        if self.dead.is_some() {
            return;
        }
        let ghost start = self@;
        for cmd in it: commands.into_iter()
            invariant
                cs == commands_view(it.seq()),
                start == old(self)@,
                start.dead is None,
                self@ == after_commands(start, cs.take(it.index() as int)),
        {
            let ghost k = it.index();
            proof {
                assert(cs.take(k + 1).drop_last() =~= cs.take(k as int));
                assert(cs.take(k + 1).last() == cmd@);
                lemma_commands_keep_alive(start, cs.take(k as int));
            }
            match cmd {
                ImeCommand::Activate(st) => {
                    self.last_state = st;
                    self.state_dirty = true;
                    self.want_enabled = true;
                },
                ImeCommand::Deactivate => {
                    self.want_enabled = false;
                },
                ImeCommand::PushState(st) => {
                    self.last_state = st;
                    self.state_dirty = true;
                },
            }
        }
        assert(cs.take(cs.len() as int) =~= cs);
    }

    /// Whether regaining the OS keyboard focus should recreate the text
    /// input (once): the client is alive, wants a session and has no focus.
    pub fn needs_recreate(&self) -> (res: bool)
        ensures
            res == (self@.dead is None && self@.want_enabled && !self@.entered),
    {
        self.dead.is_none() && self.want_enabled && !self.entered
    }

    /// The text input was recreated: no focus and no valid enable.
    pub fn note_recreated(&mut self)
        ensures
            final(self)@ == (PassthroughView { entered: false, sent_enable: false, ..old(self)@ }),
    {
        self.entered = false;
        self.sent_enable = false;
    }

    /// Decides what to write this frame (see [`reconcile_step`]).
    pub fn reconcile(&mut self, has_text_input: bool) -> (res: Reconcile)
        ensures
            (res, final(self)@) == reconcile_step(old(self)@, has_text_input),
    {
        if has_text_input && self.entered {
            if self.want_enabled && !self.sent_enable {
                self.sent_enable = true;
                self.state_dirty = false;
                Reconcile::EnableWithState
            } else if self.want_enabled && self.state_dirty {
                self.state_dirty = false;
                Reconcile::PushState
            } else if !self.want_enabled && self.sent_enable {
                self.sent_enable = false;
                Reconcile::Disable
            } else {
                Reconcile::Nothing
            }
        } else {
            if self.want_enabled && self.sent_enable {
                self.sent_enable = false;
            }
            Reconcile::Nothing
        }
    }

    /// The latest application state, for the state requests.
    pub fn last_state(&self) -> (res: &AppState)
        ensures
            res@ == self@.last_state,
    {
        &self.last_state
    }

    /// Takes the host events, in order.
    pub fn take_events(&mut self) -> (res: Vec<HostEvent>)
        ensures
            host_events_view(res@) == old(self)@.events,
            final(self)@ == (PassthroughView { events: Seq::empty(), ..old(self)@ }),
    {
        let mut taken: Vec<HostEvent> = Vec::new();
        std::mem::swap(&mut taken, &mut self.events);
        assert(host_events_view(self.events@) =~= Seq::<HostEventView>::empty());
        taken
    }

    /// Records that the connection is gone.
    pub fn mark_dead(&mut self, reason: String)
        ensures
            final(self)@ == (PassthroughView { dead: Some(reason@), ..old(self)@ }),
    {
        self.dead = Some(reason);
    }

    pub fn is_dead(&self) -> (res: bool)
        ensures
            res == (self@.dead is Some),
    {
        self.dead.is_some()
    }
}

proof fn lemma_commands_keep_alive(v: PassthroughView, cs: Seq<ImeCommandView>)
    requires
        v.dead is None,
    ensures
        after_commands(v, cs).dead is None,
    decreases cs.len(),
{
    if cs.len() > 0 {
        lemma_commands_keep_alive(v, cs.drop_last());
    }
}

/// Nothing is written to the host's text input unless the host has given
/// it the focus.
pub proof fn law_writes_need_focus(v: PassthroughView, has_text_input: bool)
    ensures
        reconcile_step(v, has_text_input).0 != Reconcile::Nothing ==> has_text_input && v.entered,
{
}

/// `enter` invalidates an enable: with a session wanted, the next
/// reconciliation enables again.
pub proof fn law_enter_requires_new_enable(v: PassthroughView)
    ensures
        ({
            let w = after_event(PassthroughView { want_enabled: true, ..v }, TextInputEvent::Enter);
            reconcile_step(w, true).0 == Reconcile::EnableWithState
        }),
{
}

/// A reconciliation settles: a second one without new input writes nothing.
pub proof fn law_reconcile_settles(v: PassthroughView, has_text_input: bool)
    ensures
        reconcile_step(reconcile_step(v, has_text_input).1, has_text_input).0 == Reconcile::Nothing,
{
}

/// A dead client ignores relay commands.
pub proof fn law_dead_ignores_commands(v: PassthroughView, cs: Seq<ImeCommandView>)
    requires
        v.dead is Some,
    ensures
        after_commands(v, cs) == v,
{
}

/// Why starting the passthrough failed, from what the host's registry
/// offered: no text-input manager or no seat is a structural lack
/// (`Ok(false)` = unsupported); a missing text input is transient
/// (`Ok(true)`); `Err(())` when everything is there.
pub open spec fn registry_failure(manager: bool, seat: bool, text_input: bool) -> Option<(bool, Seq<char>)> {
    if !manager {
        Some((false, "宿主合成器未暴露 zwp_text_input_manager_v3（无现代文本输入支持）"@))
    } else if !seat {
        Some((false, "宿主合成器未暴露 wl_seat"@))
    } else if !text_input {
        Some((true, "manager/seat 就绪但 text_input 创建失败"@))
    } else {
        None
    }
}

/// Classifies what the host's registry offered (see [`registry_failure`]):
/// `Some((transient, reason))` when the passthrough cannot start.
pub fn check_registry(manager: bool, seat: bool, text_input: bool) -> (res: Option<(bool, String)>)
    ensures
        match res {
            Some((t, m)) => registry_failure(manager, seat, text_input) == Some((t, m@)),
            None => registry_failure(manager, seat, text_input) is None,
        },
{
    if !manager {
        Some((false, String::from_str("宿主合成器未暴露 zwp_text_input_manager_v3（无现代文本输入支持）")))
    } else if !seat {
        Some((false, String::from_str("宿主合成器未暴露 wl_seat")))
    } else if !text_input {
        Some((true, String::from_str("manager/seat 就绪但 text_input 创建失败")))
    } else {
        None
    }
}

/// The reason given when the game does not run on a native Wayland backend.
pub fn no_native_wayland() -> (res: String)
    ensures
        res@ == "Minecraft 未以原生 Wayland 后端运行（无 GLFW wl_display）。宿主输入法穿透需要原生 Wayland 会话（例如启动器启用 Wayland 渲染）。"@,
{
    String::from_str(
        "Minecraft 未以原生 Wayland 后端运行（无 GLFW wl_display）。宿主输入法穿透需要原生 Wayland 会话（例如启动器启用 Wayland 渲染）。",
    )
}

/// The purposes of the text-input-v3 `content_purpose` enumeration, listed
/// in the protocol's order (entry `v` has value `v`).
pub open spec fn protocol_purposes() -> Seq<ContentPurpose> {
    seq![
        ContentPurpose::Normal,
        ContentPurpose::Alpha,
        ContentPurpose::Digits,
        ContentPurpose::Number,
        ContentPurpose::Phone,
        ContentPurpose::Url,
        ContentPurpose::Email,
        ContentPurpose::Name,
        ContentPurpose::Password,
        ContentPurpose::Pin,
        ContentPurpose::Date,
        ContentPurpose::Time,
        ContentPurpose::Datetime,
        ContentPurpose::Terminal,
    ]
}

/// The protocol values 0 to 13 and no others name a content purpose, value
/// `v` naming entry `v` of the protocol's list, so distinct values name
/// distinct purposes.
pub proof fn law_content_purpose_is_one_to_one(v: u32, w: u32)
    ensures
        content_purpose_of(v) is Some <==> v <= 13,
        v <= 13 ==> content_purpose_of(v) == Some(protocol_purposes()[v as int]),
        v != w && content_purpose_of(v) is Some && content_purpose_of(w) is Some ==> content_purpose_of(v)
            != content_purpose_of(w),
{
}

} // verus!
