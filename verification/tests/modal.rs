use leptonic_modal::{
    modal_effect, modal_fn_remount, modal_fn_unmount, modal_instance, render_plan, ModalChildren,
    ModalData, ModalStack,
};

fn once(id: u128, handle: u64) -> ModalData {
    ModalData {
        id,
        children: ModalChildren::Once(handle),
    }
}

#[test]
fn empty_stack_presents_nothing() {
    let s = ModalStack::new();
    assert_eq!(s.len(), 0);
    assert_eq!(s.topmost(), None);
    assert!(!s.backdrop_visible());
    assert!(!s.is_registered(1));
}

#[test]
fn backdrop_visible_iff_nonempty() {
    let mut s = ModalStack::new();
    assert!(!s.backdrop_visible());
    s.register(once(1, 10));
    assert!(s.backdrop_visible());
    s.register(once(2, 20));
    assert!(s.backdrop_visible());
    s.unregister(1);
    assert!(s.backdrop_visible());
    s.unregister(2);
    assert!(!s.backdrop_visible());
}

#[test]
fn topmost_is_most_recent_surviving_insertion() {
    let mut s = ModalStack::new();
    s.register(once(1, 10));
    assert_eq!(s.topmost(), Some(once(1, 10)));
    s.register(once(2, 20));
    assert_eq!(s.topmost(), Some(once(2, 20)));
    s.register(once(3, 30));
    assert_eq!(s.topmost(), Some(once(3, 30)));
    s.unregister(3);
    assert_eq!(s.topmost(), Some(once(2, 20)));
    s.unregister(1);
    assert_eq!(s.topmost(), Some(once(2, 20)));
    s.unregister(2);
    assert_eq!(s.topmost(), None);
}

#[test]
fn register_overwrites_in_place() {
    let mut s = ModalStack::new();
    s.register(once(1, 10));
    s.register(once(2, 20));
    s.register(once(1, 11));
    assert_eq!(s.len(), 2);
    assert_eq!(s.topmost(), Some(once(2, 20)));
    s.unregister(2);
    assert_eq!(s.topmost(), Some(once(1, 11)));
}

#[test]
fn unregister_absent_is_noop() {
    let mut s = ModalStack::new();
    s.register(once(1, 10));
    s.unregister(9);
    assert_eq!(s.len(), 1);
    assert_eq!(s.topmost(), Some(once(1, 10)));
}

#[test]
fn unregister_removes_exactly_once() {
    let mut s = ModalStack::new();
    s.register(once(1, 10));
    s.register(once(2, 20));
    s.unregister(1);
    assert_eq!(s.len(), 1);
    assert!(!s.is_registered(1));
    s.unregister(1);
    assert_eq!(s.len(), 1);
    assert!(s.is_registered(2));
}

#[test]
fn render_plan_projects_stack() {
    let mut s = ModalStack::new();
    let p = render_plan(&s);
    assert!(!p.backdrop);
    assert_eq!(p.top, None);
    s.register(once(1, 10));
    let p = render_plan(&s);
    assert!(p.backdrop);
    assert_eq!(p.top, Some(once(1, 10)));
}

#[test]
fn modal_effect_tracks_visibility() {
    let mut s = ModalStack::new();
    let m = once(5, 50);
    modal_effect(&mut s, m, true);
    assert!(s.is_registered(5));
    assert_eq!(s.topmost(), Some(m));
    modal_effect(&mut s, m, false);
    assert!(!s.is_registered(5));
    assert_eq!(s.len(), 0);
    modal_effect(&mut s, m, false);
    assert_eq!(s.len(), 0);
}

#[test]
fn modal_instance_captures_children_once() {
    let m = modal_instance(42);
    assert_eq!(m.children, ModalChildren::Once(42));
    let mut s = ModalStack::new();
    s.register(m);
    assert!(s.is_registered(m.id));
    assert_eq!(s.topmost(), Some(m));
}

#[test]
fn modal_fn_remount_replaces_previous_entry() {
    let mut s = ModalStack::new();
    let first = modal_fn_remount(&mut s, None, 1, true);
    let id1 = first.expect("a shown modal registers an entry");
    assert_eq!(s.len(), 1);
    assert!(s.is_registered(id1));
    assert_eq!(s.topmost(), Some(ModalData { id: id1, children: ModalChildren::Dynamic(1) }));

    let second = modal_fn_remount(&mut s, Some(id1), 2, true);
    let id2 = second.expect("a shown modal registers an entry");
    assert_eq!(s.len(), 1);
    assert!(s.is_registered(id2));
    if id1 != id2 {
        assert!(!s.is_registered(id1));
    }
    assert_eq!(s.topmost(), Some(ModalData { id: id2, children: ModalChildren::Dynamic(2) }));

    let third = modal_fn_remount(&mut s, Some(id2), 3, false);
    assert_eq!(third, None);
    assert_eq!(s.len(), 0);
    assert!(!s.backdrop_visible());
}

#[test]
fn modal_fn_unmount_clears_entry() {
    let mut s = ModalStack::new();
    let id = modal_fn_remount(&mut s, None, 1, true).expect("a shown modal registers an entry");
    modal_fn_unmount(&mut s, Some(id));
    assert_eq!(s.len(), 0);
    assert!(!s.is_registered(id));
    modal_fn_unmount(&mut s, None);
    assert_eq!(s.len(), 0);
}

#[test]
fn other_modals_survive_a_dynamic_remount() {
    let mut s = ModalStack::new();
    s.register(once(1, 10));
    let id = modal_fn_remount(&mut s, None, 7, true).expect("a shown modal registers an entry");
    assert_eq!(s.len(), 2);
    assert_eq!(s.topmost(), Some(ModalData { id, children: ModalChildren::Dynamic(7) }));
    let next = modal_fn_remount(&mut s, Some(id), 8, false);
    assert_eq!(next, None);
    assert_eq!(s.len(), 1);
    assert_eq!(s.topmost(), Some(once(1, 10)));
}
