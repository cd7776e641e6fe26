use waylandcraft::ime::Ti3Outcome;
use waylandcraft::text_input::{FocusSurface, TextInputV3State, Ti3Instance, Ti3Pending, Ti3Request};

fn instance(object: u64, client: u64) -> Ti3Instance {
    Ti3Instance { object, client: Some(client), pending: Ti3Pending::default(), commit_count: 0 }
}

fn surface(surface: u64, client: u64) -> FocusSurface {
    FocusSurface { surface, client: Some(client) }
}

#[test]
fn enter_reaches_every_object_of_the_client() {
    let mut ti = TextInputV3State::new();
    ti.push_instance(instance(1, 10));
    ti.push_instance(instance(2, 20));
    ti.push_instance(instance(3, 10));
    assert_eq!(ti.enter(surface(100, 10)), (true, vec![], vec![1, 3]));
    assert!(ti.has_active());
    assert_eq!(ti.focused_client(), Some(10));
    // The same surface again: nothing happens.
    assert_eq!(ti.enter(surface(100, 10)), (false, vec![], vec![]));
    // Switching to another client's surface leaves the old one first.
    assert_eq!(ti.enter(surface(200, 20)), (true, vec![1, 3], vec![2]));
    assert_eq!(ti.leave(), (true, vec![2]));
    assert_eq!(ti.leave(), (false, vec![]));
    assert!(!ti.has_active());
}

#[test]
fn enter_of_a_surface_without_client_only_leaves() {
    let mut ti = TextInputV3State::new();
    ti.push_instance(instance(1, 10));
    ti.enter(surface(100, 10));
    assert_eq!(ti.enter(FocusSurface { surface: 5, client: None }), (true, vec![1], vec![]));
    assert_eq!(ti.focus_surface(), None);
}

#[test]
fn commit_applies_the_double_buffer() {
    let mut ti = TextInputV3State::new();
    ti.push_instance(instance(1, 10));
    ti.request(1, Ti3Request::Enable);
    ti.request(1, Ti3Request::SetSurroundingText("你好".to_string(), 6, -1));
    ti.request(1, Ti3Request::SetCursorRectangle(1, 2, 3, 4));
    ti.request(1, Ti3Request::SetContentType);
    match ti.commit_instance(1) {
        Ti3Outcome::Enabled(s) => {
            assert_eq!(s.surrounding_text, "你好");
            assert_eq!(s.cursor, 6);
            assert_eq!(s.anchor, u32::MAX);
            assert_eq!(s.cursor_rect, Some((1, 2, 3, 4)));
        }
        other => panic!("unexpected {other:?}"),
    }
    // Nothing pending: a plain state commit with empty text.
    match ti.commit_instance(1) {
        Ti3Outcome::State(s) => {
            assert_eq!(s.surrounding_text, "");
            assert_eq!(s.cursor_rect, None);
        }
        other => panic!("unexpected {other:?}"),
    }
    ti.request(1, Ti3Request::Disable);
    assert!(matches!(ti.commit_instance(1), Ti3Outcome::Disabled));
    assert!(matches!(ti.commit_instance(9), Ti3Outcome::Ignored));
}

#[test]
fn requests_to_unknown_objects_are_ignored_and_removal_reports() {
    let mut ti = TextInputV3State::new();
    ti.push_instance(instance(1, 10));
    ti.request(7, Ti3Request::Enable);
    assert!(matches!(ti.commit_instance(1), Ti3Outcome::State(_)));
    assert_eq!(ti.instance_count(), 1);
    assert!(ti.remove_instance(1));
    assert!(!ti.remove_instance(1));
    assert_eq!(ti.instance_count(), 0);
}

#[test]
fn commit_counts_are_per_object() {
    let mut ti = TextInputV3State::new();
    ti.push_instance(instance(1, 10));
    ti.push_instance(instance(2, 10));
    ti.push_instance(instance(3, 20));
    ti.commit_instance(2);
    ti.commit_instance(2);
    ti.commit_instance(3);
    ti.enter(surface(100, 10));
    let first = ti.active_instance_for_focus().unwrap();
    assert_eq!((first.object, first.commit_count), (1, 0));
    ti.enter(surface(200, 20));
    let third = ti.active_instance_for_focus().unwrap();
    assert_eq!((third.object, third.commit_count), (3, 1));
    ti.remove_instance(3);
    assert!(ti.active_instance_for_focus().is_none());
}
