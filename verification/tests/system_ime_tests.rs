use waylandcraft::host_ime::HostEvent;
use waylandcraft::relay::{AppState, ImeCommand};
use waylandcraft::system_ime::{
    change_cause_from_u32, check_registry, content_purpose_from_u32, no_native_wayland,
    state_requests, ChangeCause, ContentPurpose, Passthrough, Reconcile, StateRequest,
    TextInputEvent,
};

fn state(text: &str, cause: u32, hint: u32, purpose: u32, rect: Option<(i32, i32, i32, i32)>) -> AppState {
    AppState {
        surrounding_text: text.to_string(),
        surrounding_cursor: 2,
        surrounding_anchor: 1,
        content_hint: hint,
        content_purpose: purpose,
        change_cause: cause,
        cursor_rect: rect,
    }
}

#[test]
fn protocol_values_map_to_enums() {
    assert_eq!(change_cause_from_u32(0), Some(ChangeCause::InputMethod));
    assert_eq!(change_cause_from_u32(1), Some(ChangeCause::Other));
    assert_eq!(change_cause_from_u32(2), None);
    assert_eq!(content_purpose_from_u32(0), Some(ContentPurpose::Normal));
    assert_eq!(content_purpose_from_u32(8), Some(ContentPurpose::Password));
    assert_eq!(content_purpose_from_u32(13), Some(ContentPurpose::Terminal));
    assert_eq!(content_purpose_from_u32(14), None);
}

#[test]
fn state_requests_cover_every_known_field() {
    let st = state("héllo", 1, 0x10, 8, Some((1, 2, 3, 4)));
    assert_eq!(
        state_requests(&st),
        vec![
            StateRequest::SurroundingText("héllo".to_string(), 2, 1),
            StateRequest::TextChangeCause(ChangeCause::Other),
            StateRequest::ContentType(0x10, ContentPurpose::Password),
            StateRequest::CursorRectangle(1, 2, 3, 4),
        ]
    );
}

#[test]
fn state_requests_skip_empty_and_unknown_fields() {
    assert!(state_requests(&AppState::default()).is_empty());
    // Cause 0 is not written; an unknown purpose drops the content type.
    let st = state("", 0, 3, 99, None);
    assert!(state_requests(&st).is_empty());
    let st = state("", 7, 0, 0, None);
    assert!(state_requests(&st).is_empty());
}

#[test]
fn reconcile_waits_for_enter_then_enables() {
    let mut p = Passthrough::new();
    p.execute_commands(vec![ImeCommand::Activate(state("a", 0, 0, 0, None))]);
    assert_eq!(p.reconcile(true), Reconcile::Nothing);
    assert!(p.needs_recreate());
    p.on_event(TextInputEvent::Enter);
    assert!(!p.needs_recreate());
    assert_eq!(p.reconcile(true), Reconcile::EnableWithState);
    assert_eq!(p.last_state().surrounding_text, "a");
    assert_eq!(p.reconcile(true), Reconcile::Nothing);
    p.execute_commands(vec![ImeCommand::PushState(state("ab", 0, 0, 0, None))]);
    assert_eq!(p.reconcile(true), Reconcile::PushState);
    assert_eq!(p.reconcile(true), Reconcile::Nothing);
    p.execute_commands(vec![ImeCommand::Deactivate]);
    assert_eq!(p.reconcile(true), Reconcile::Disable);
    assert_eq!(p.reconcile(true), Reconcile::Nothing);
}

#[test]
fn enter_invalidates_a_sent_enable() {
    let mut p = Passthrough::new();
    p.set_active(true);
    p.on_event(TextInputEvent::Enter);
    assert_eq!(p.reconcile(true), Reconcile::EnableWithState);
    p.on_event(TextInputEvent::Leave);
    assert_eq!(p.reconcile(true), Reconcile::Nothing);
    p.on_event(TextInputEvent::Enter);
    assert_eq!(p.reconcile(true), Reconcile::EnableWithState);
}

#[test]
fn no_text_input_writes_nothing() {
    let mut p = Passthrough::new();
    p.set_active(true);
    p.on_event(TextInputEvent::Enter);
    assert_eq!(p.reconcile(false), Reconcile::Nothing);
    p.note_recreated();
    assert!(p.needs_recreate());
}

#[test]
fn host_text_events_are_kept_in_order() {
    let mut p = Passthrough::new();
    p.on_event(TextInputEvent::Enter);
    p.on_event(TextInputEvent::PreeditString(Some("ni".to_string()), 0, 2));
    p.on_event(TextInputEvent::CommitString(None));
    p.on_event(TextInputEvent::DeleteSurroundingText(1, 0));
    p.on_event(TextInputEvent::Done(7));
    assert_eq!(
        p.take_events(),
        vec![
            HostEvent::PreeditString("ni".to_string(), 0, 2),
            HostEvent::CommitString(String::new()),
            HostEvent::DeleteSurroundingText(1, 0),
            HostEvent::Done(7),
        ]
    );
    assert!(p.take_events().is_empty());
}

#[test]
fn dead_client_ignores_commands() {
    let mut p = Passthrough::new();
    p.mark_dead("read failed".to_string());
    assert!(p.is_dead());
    assert!(!p.needs_recreate());
    p.execute_commands(vec![ImeCommand::Activate(state("a", 0, 0, 0, None))]);
    p.on_event(TextInputEvent::Enter);
    assert_eq!(p.reconcile(true), Reconcile::Nothing);
}

#[test]
fn registry_classification() {
    let (transient, msg) = check_registry(false, true, true).unwrap();
    assert!(!transient);
    assert!(msg.contains("zwp_text_input_manager_v3"));
    let (transient, msg) = check_registry(true, false, false).unwrap();
    assert!(!transient);
    assert!(msg.contains("wl_seat"));
    let (transient, _) = check_registry(true, true, false).unwrap();
    assert!(transient);
    assert_eq!(check_registry(true, true, true), None);
    assert!(no_native_wayland().contains("wl_display"));
}
