use minilibx::{
    HookKind, HookRegistry, Invocation, MlxWindow, NativeCall, NativeEvent, Registration,
};

fn window() -> MlxWindow {
    MlxWindow::new(0x2000).unwrap()
}

#[test]
fn a_new_registry_is_empty() {
    let hooks = HookRegistry::new();
    assert_eq!(hooks.len(), 0);
    assert_eq!(hooks.get(0), None);
}

#[test]
fn registrations_are_numbered_in_order() {
    let mut hooks = HookRegistry::new();
    assert_eq!(hooks.register(0x2000, HookKind::Mouse), 0);
    assert_eq!(hooks.register(0x2000, HookKind::Key), 1);
    assert_eq!(hooks.register(0x2100, HookKind::Mouse), 2);
    assert_eq!(hooks.len(), 3);
    assert_eq!(hooks.get(1), Some(Registration { win_ptr: 0x2000, kind: HookKind::Key }));
    assert_eq!(hooks.get(2), Some(Registration { win_ptr: 0x2100, kind: HookKind::Mouse }));
    assert_eq!(hooks.get(3), None);
}

#[test]
fn window_hooks_register_and_ask() {
    let window = window();
    let mut hooks = HookRegistry::new();
    assert_eq!(
        window.mouse_hook(&mut hooks),
        NativeCall::MouseHook { win_ptr: 0x2000, param: 0 }
    );
    assert_eq!(window.key_hook(&mut hooks), NativeCall::KeyHook { win_ptr: 0x2000, param: 1 });
    assert_eq!(
        window.expose_hook(&mut hooks),
        NativeCall::ExposeHook { win_ptr: 0x2000, param: 2 }
    );
    assert_eq!(window.loop_hook(&mut hooks), NativeCall::LoopHook { win_ptr: 0x2000, param: 3 });
    assert_eq!(
        window.hook(2, 0, &mut hooks),
        NativeCall::Hook { win_ptr: 0x2000, x_event: 2, x_mask: 0, param: 4 }
    );
    assert_eq!(hooks.get(0), Some(Registration { win_ptr: 0x2000, kind: HookKind::Mouse }));
    assert_eq!(hooks.get(1), Some(Registration { win_ptr: 0x2000, kind: HookKind::Key }));
    assert_eq!(hooks.get(2), Some(Registration { win_ptr: 0x2000, kind: HookKind::Expose }));
    assert_eq!(hooks.get(3), Some(Registration { win_ptr: 0x2000, kind: HookKind::Loop }));
    assert_eq!(
        hooks.get(4),
        Some(Registration { win_ptr: 0x2000, kind: HookKind::Event { x_event: 2, x_mask: 0 } })
    );
}

#[test]
fn an_event_calls_the_hook_it_names() {
    let mut hooks = HookRegistry::new();
    let mouse = hooks.register(0x2000, HookKind::Mouse);
    let key = hooks.register(0x2000, HookKind::Key);
    let expose = hooks.register(0x2000, HookKind::Expose);
    let idle = hooks.register(0x2000, HookKind::Loop);
    let other = hooks.register(0x2000, HookKind::Event { x_event: 17, x_mask: 0 });
    assert_eq!(
        hooks.dispatch(NativeEvent::Mouse { param: mouse, buttons: 1, x: 10, y: 20 }),
        Some(Invocation::Mouse { callback: mouse, buttons: 1, x: 10, y: 20 })
    );
    assert_eq!(
        hooks.dispatch(NativeEvent::Key { param: key, keycode: 113 }),
        Some(Invocation::Key { callback: key, keycode: 113 })
    );
    assert_eq!(
        hooks.dispatch(NativeEvent::Expose { param: expose }),
        Some(Invocation::Expose { callback: expose })
    );
    assert_eq!(
        hooks.dispatch(NativeEvent::Loop { param: idle }),
        Some(Invocation::Loop { callback: idle })
    );
    assert_eq!(
        hooks.dispatch(NativeEvent::Event { param: other }),
        Some(Invocation::Event { callback: other })
    );
}

#[test]
fn an_event_of_another_kind_calls_nothing() {
    let mut hooks = HookRegistry::new();
    let mouse = hooks.register(0x2000, HookKind::Mouse);
    let key = hooks.register(0x2000, HookKind::Key);
    assert_eq!(hooks.dispatch(NativeEvent::Key { param: mouse, keycode: 13 }), None);
    assert_eq!(hooks.dispatch(NativeEvent::Expose { param: mouse }), None);
    assert_eq!(hooks.dispatch(NativeEvent::Loop { param: key }), None);
    assert_eq!(hooks.dispatch(NativeEvent::Event { param: key }), None);
    assert_eq!(
        hooks.dispatch(NativeEvent::Mouse { param: key, buttons: 1, x: 0, y: 0 }),
        None
    );
}

#[test]
fn an_event_without_a_hook_calls_nothing() {
    let mut hooks = HookRegistry::new();
    assert_eq!(hooks.dispatch(NativeEvent::Expose { param: 0 }), None);
    hooks.register(0x2000, HookKind::Expose);
    assert_eq!(hooks.dispatch(NativeEvent::Expose { param: 1 }), None);
    assert_eq!(hooks.dispatch(NativeEvent::Expose { param: usize::MAX }), None);
}

#[test]
fn a_later_registration_keeps_the_earlier() {
    let mut hooks = HookRegistry::new();
    let first = hooks.register(0x2000, HookKind::Key);
    let before = hooks.dispatch(NativeEvent::Key { param: first, keycode: 97 });
    hooks.register(0x2000, HookKind::Key);
    hooks.register(0x2100, HookKind::Mouse);
    assert_eq!(hooks.dispatch(NativeEvent::Key { param: first, keycode: 97 }), before);
    assert_eq!(before, Some(Invocation::Key { callback: first, keycode: 97 }));
}

#[test]
fn a_run_of_events_calls_in_the_order_of_delivery() {
    let mut hooks = HookRegistry::new();
    let key = hooks.register(0x2000, HookKind::Key);
    let expose = hooks.register(0x2000, HookKind::Expose);
    let events = vec![
        NativeEvent::Key { param: key, keycode: 13 },
        NativeEvent::Expose { param: expose },
    ];
    assert_eq!(
        hooks.dispatch_all(&events),
        vec![Invocation::Key { callback: key, keycode: 13 }, Invocation::Expose { callback: expose }]
    );
    let reversed = vec![
        NativeEvent::Expose { param: expose },
        NativeEvent::Key { param: key, keycode: 13 },
    ];
    assert_eq!(
        hooks.dispatch_all(&reversed),
        vec![Invocation::Expose { callback: expose }, Invocation::Key { callback: key, keycode: 13 }]
    );
}

#[test]
fn a_run_of_events_skips_what_calls_nothing() {
    let mut hooks = HookRegistry::new();
    let key = hooks.register(0x2000, HookKind::Key);
    let events = vec![
        NativeEvent::Expose { param: key },
        NativeEvent::Key { param: key, keycode: 1 },
        NativeEvent::Key { param: 9, keycode: 2 },
        NativeEvent::Key { param: key, keycode: 3 },
    ];
    assert_eq!(
        hooks.dispatch_all(&events),
        vec![
            Invocation::Key { callback: key, keycode: 1 },
            Invocation::Key { callback: key, keycode: 3 },
        ]
    );
    assert_eq!(hooks.dispatch_all(&Vec::new()), Vec::new());
}

#[test]
fn two_runs_call_what_one_run_of_both_calls() {
    let mut hooks = HookRegistry::new();
    let key = hooks.register(0x2000, HookKind::Key);
    let mouse = hooks.register(0x2000, HookKind::Mouse);
    let first = vec![
        NativeEvent::Key { param: key, keycode: 1 },
        NativeEvent::Mouse { param: mouse, buttons: 1, x: 2, y: 3 },
    ];
    let second = vec![
        NativeEvent::Expose { param: key },
        NativeEvent::Key { param: key, keycode: 4 },
    ];
    let mut both = first.clone();
    both.extend(second.iter().copied());
    let mut expected = hooks.dispatch_all(&first);
    expected.extend(hooks.dispatch_all(&second));
    assert_eq!(hooks.dispatch_all(&both), expected);
    assert_eq!(expected.len(), 3);
}
