//! Protocol-independent input-method event stream.
//!
//! Downward events go from the application to the input method
//! (`DownEvent`); upward events go from the input method to the
//! application (`UpEvent`). A batch of upward text operations is closed by
//! an explicit `Done` marker and is applied atomically.

use vstd::prelude::*;
use crate::keyboard::KeyboardAction;

verus! {

/// Focus change of the input session (downward).
#[derive(Debug, Clone, Copy, PartialEq, Eq, Structural)]
pub enum FocusChange {
    /// The application has an input session ready to receive text.
    Activate,
    /// The application left the input context.
    Deactivate,
}

/// A raw key event forwarded to the input method (downward).
#[derive(Debug, Clone, Copy, PartialEq, Eq)]
pub struct KeyEvent {
    /// XKB keycode (= evdev + 8).
    pub keycode: u32,
    pub action: KeyboardAction,
    /// XKB modifiers: depressed, latched, locked, group.
    pub mods: (u32, u32, u32, u32),
}

/// Surrounding text state of the application (downward).
#[derive(Debug, Clone, Default, PartialEq)]
pub struct SurroundingText {
    pub text: String,
    /// Cursor position in the surrounding text.
    pub cursor: u32,
    /// Selection anchor; equal to `cursor` when nothing is selected.
    pub anchor: u32,
}

/// Cursor rectangle for placing the candidate window (downward).
#[derive(Debug, Clone, Copy, Default, PartialEq, Eq, Structural)]
pub struct CursorRect {
    pub x: i32,
    pub y: i32,
    pub w: i32,
    pub h: i32,
}

/// Preedit text update (upward).
#[derive(Debug, Clone, PartialEq)]
pub struct PreeditUpdate {
    /// Preedit text; empty clears the preedit.
    pub text: String,
    /// Cursor begin inside the preedit; -1 = end.
    pub cursor_begin: i32,
    /// Cursor end inside the preedit; -1 = end.
    pub cursor_end: i32,
}

impl PreeditUpdate {
    /// The update that clears the preedit.
    pub fn clear() -> (res: Self)
        ensures
            res.text@ == Seq::<char>::empty(),
            res.cursor_begin == 0,
            res.cursor_end == 0,
    {
        PreeditUpdate { text: String::new(), cursor_begin: 0, cursor_end: 0 }
    }

    /// The update that sets the preedit to `text` with the given cursor span.
    pub fn set(text: &str, cursor_begin: i32, cursor_end: i32) -> (res: Self)
        ensures
            res.text@ == text@,
            res.cursor_begin == cursor_begin,
            res.cursor_end == cursor_end,
    {
        PreeditUpdate { text: String::from_str(text), cursor_begin, cursor_end }
    }
}

/// Committed text (upward).
#[derive(Debug, Clone, PartialEq)]
pub struct Commit {
    pub text: String,
}

/// Deletion of surrounding text around the cursor (upward).
#[derive(Debug, Clone, Copy, PartialEq, Eq, Structural)]
pub struct DeleteSurrounding {
    pub before_length: u32,
    pub after_length: u32,
}

/// Candidate window data (upward).
#[derive(Debug, Clone, Default, PartialEq)]
pub struct LookupTable {
    pub candidates: Vec<String>,
    pub labels: Vec<String>,
    /// Highlighted candidate, as an index inside the current page.
    pub cursor_pos: u32,
    pub cursor_visible: bool,
    pub page_size: u32,
    /// 0 = horizontal, 1 = vertical, 2 = system.
    pub orientation: u32,
    pub visible: bool,
}

/// End of an atomically applied batch (upward).
#[derive(Debug, Clone, Copy, PartialEq, Eq, Structural)]
pub struct Done {
    /// Diagnostic batch identifier.
    pub batch_id: u32,
}

/// Events from the application to the input method.
#[derive(Debug, Clone, PartialEq)]
pub enum DownEvent {
    State(FocusChange),
    Key(KeyEvent),
    Surrounding(SurroundingText),
    CursorRect(CursorRect),
}

/// Events from the input method to the application.
#[derive(Debug, Clone, PartialEq)]
pub enum UpEvent {
    Preedit(PreeditUpdate),
    Commit(Commit),
    DeleteSurrounding(DeleteSurrounding),
    LookupTable(LookupTable),
    Done(Done),
    /// A key that the engine did not consume and hands back to the application.
    ForwardKey { keycode: u32, is_release: bool },
}

/// The texts of a vector of strings.
pub open spec fn strings_view(v: Seq<String>) -> Seq<Seq<char>> {
    v.map_values(|s: String| s@)
}

pub struct SurroundingView {
    pub text: Seq<char>,
    pub cursor: u32,
    pub anchor: u32,
}

impl View for SurroundingText {
    type V = SurroundingView;

    open spec fn view(&self) -> SurroundingView {
        SurroundingView { text: self.text@, cursor: self.cursor, anchor: self.anchor }
    }
}

pub struct PreeditView {
    pub text: Seq<char>,
    pub cursor_begin: i32,
    pub cursor_end: i32,
}

impl View for PreeditUpdate {
    type V = PreeditView;

    open spec fn view(&self) -> PreeditView {
        PreeditView { text: self.text@, cursor_begin: self.cursor_begin, cursor_end: self.cursor_end }
    }
}

pub struct LookupTableView {
    pub candidates: Seq<Seq<char>>,
    pub labels: Seq<Seq<char>>,
    pub cursor_pos: u32,
    pub cursor_visible: bool,
    pub page_size: u32,
    pub orientation: u32,
    pub visible: bool,
}

impl View for LookupTable {
    type V = LookupTableView;

    open spec fn view(&self) -> LookupTableView {
        LookupTableView {
            candidates: strings_view(self.candidates@),
            labels: strings_view(self.labels@),
            cursor_pos: self.cursor_pos,
            cursor_visible: self.cursor_visible,
            page_size: self.page_size,
            orientation: self.orientation,
            visible: self.visible,
        }
    }
}

pub enum DownEventView {
    State(FocusChange),
    Key(KeyEvent),
    Surrounding(SurroundingView),
    CursorRect(CursorRect),
}

impl View for DownEvent {
    type V = DownEventView;

    open spec fn view(&self) -> DownEventView {
        match self {
            DownEvent::State(f) => DownEventView::State(*f),
            DownEvent::Key(k) => DownEventView::Key(*k),
            DownEvent::Surrounding(s) => DownEventView::Surrounding(s@),
            DownEvent::CursorRect(r) => DownEventView::CursorRect(*r),
        }
    }
}

pub enum UpEventView {
    Preedit(PreeditView),
    Commit(Seq<char>),
    DeleteSurrounding(DeleteSurrounding),
    LookupTable(LookupTableView),
    Done(Done),
    ForwardKey { keycode: u32, is_release: bool },
}

impl View for UpEvent {
    type V = UpEventView;

    open spec fn view(&self) -> UpEventView {
        match self {
            UpEvent::Preedit(p) => UpEventView::Preedit(p@),
            UpEvent::Commit(c) => UpEventView::Commit(c.text@),
            UpEvent::DeleteSurrounding(d) => UpEventView::DeleteSurrounding(*d),
            UpEvent::LookupTable(t) => UpEventView::LookupTable(t@),
            UpEvent::Done(d) => UpEventView::Done(*d),
            UpEvent::ForwardKey { keycode, is_release } => UpEventView::ForwardKey {
                keycode: *keycode,
                is_release: *is_release,
            },
        }
    }
}

pub open spec fn up_events_view(v: Seq<UpEvent>) -> Seq<UpEventView> {
    v.map_values(|e: UpEvent| e@)
}

/// The preedit that clears the preedit text.
pub open spec fn cleared_preedit() -> PreeditView {
    PreeditView { text: Seq::empty(), cursor_begin: 0, cursor_end: 0 }
}

} // verus!
