//! Hooks: which callbacks are registered, and which of them an event calls.
//!
//! The toolkit keeps a pointer-sized `param` with every hook and hands it
//! back whenever the hook fires. The registry gives each registration the
//! next free number as its `param`, so that the number finds the callback
//! again. A registration is never released: the toolkit cannot unregister a
//! hook, so a callback lives as long as the registry.

use vstd::prelude::*;

verus! {

/// The kinds of hook that a window takes.
#[derive(Clone, Copy, Debug, PartialEq, Eq, Structural)]
pub enum HookKind {
    /// Called with the buttons and the position on a mouse event.
    Mouse,
    /// Called with the key code on a key event.
    Key,
    /// Called when the window has to be drawn again.
    Expose,
    /// Called on each turn of the event loop in which no event is pending.
    Loop,
    /// Called on the given X event, selected with the given mask.
    Event { x_event: i32, x_mask: i32 },
}

/// One registered hook: the window it was registered on, and its kind.
#[derive(Clone, Copy, Debug, PartialEq, Eq, Structural)]
pub struct Registration {
    pub win_ptr: usize,
    pub kind: HookKind,
}

/// What the toolkit delivers when a hook fires: the `param` of the hook, and
/// the arguments that belong to its kind.
#[derive(Clone, Copy, Debug, PartialEq, Eq, Structural)]
pub enum NativeEvent {
    Mouse { param: usize, buttons: i32, x: i32, y: i32 },
    Key { param: usize, keycode: i32 },
    Expose { param: usize },
    Loop { param: usize },
    Event { param: usize },
}

/// One call of a registered callback, with the arguments it is called with.
#[derive(Clone, Copy, Debug, PartialEq, Eq, Structural)]
pub enum Invocation {
    Mouse { callback: usize, buttons: i32, x: i32, y: i32 },
    Key { callback: usize, keycode: i32 },
    Expose { callback: usize },
    Loop { callback: usize },
    Event { callback: usize },
}

impl NativeEvent {
    /// The `param` that came with the event.
    pub open spec fn param(self) -> usize {
        match self {
            NativeEvent::Mouse { param, .. } => param,
            NativeEvent::Key { param, .. } => param,
            NativeEvent::Expose { param } => param,
            NativeEvent::Loop { param } => param,
            NativeEvent::Event { param } => param,
        }
    }

    /// Whether a hook of the given kind is called on this event.
    pub open spec fn fires(self, kind: HookKind) -> bool {
        match self {
            NativeEvent::Mouse { .. } => kind is Mouse,
            NativeEvent::Key { .. } => kind is Key,
            NativeEvent::Expose { .. } => kind is Expose,
            NativeEvent::Loop { .. } => kind is Loop,
            NativeEvent::Event { .. } => kind is Event,
        }
    }

    /// The call that the event makes of the callback it belongs to.
    pub open spec fn invocation(self) -> Invocation {
        match self {
            NativeEvent::Mouse { param, buttons, x, y } => Invocation::Mouse {
                callback: param,
                buttons,
                x,
                y,
            },
            NativeEvent::Key { param, keycode } => Invocation::Key { callback: param, keycode },
            NativeEvent::Expose { param } => Invocation::Expose { callback: param },
            NativeEvent::Loop { param } => Invocation::Loop { callback: param },
            NativeEvent::Event { param } => Invocation::Event { callback: param },
        }
    }
}

/// What one event calls: the callback that its `param` names, if one is
/// registered under that number with a kind that the event fires.
pub open spec fn dispatched(hooks: Seq<Registration>, event: NativeEvent) -> Option<Invocation> {
    if event.param() < hooks.len() && event.fires(hooks[event.param() as int].kind) {
        Some(event.invocation())
    } else {
        None
    }
}

/// What a run of events calls: for each event in turn what it calls, in the
/// order in which the events were delivered.
pub open spec fn dispatched_all(hooks: Seq<Registration>, events: Seq<NativeEvent>) -> Seq<
    Invocation,
>
    decreases events.len(),
{
    if events.len() == 0 {
        Seq::empty()
    } else {
        let before = dispatched_all(hooks, events.drop_last());
        match dispatched(hooks, events.last()) {
            Some(call) => before.push(call),
            None => before,
        }
    }
}

/// The hooks registered so far, in the order of their registration.
pub struct HookRegistry {
    hooks: Vec<Registration>,
}

impl View for HookRegistry {
    type V = Seq<Registration>;

    closed spec fn view(&self) -> Seq<Registration> {
        self.hooks@
    }
}

impl HookRegistry {
    /// A registry without hooks.
    pub fn new() -> (registry: HookRegistry)
        ensures
            registry@ == Seq::<Registration>::empty(),
    {
        HookRegistry { hooks: Vec::new() }
    }

    /// The number of hooks registered.
    pub fn len(&self) -> (n: usize)
        ensures
            n == self@.len(),
    {
        self.hooks.len()
    }

    /// The registration with the given number, if there is one.
    pub fn get(&self, param: usize) -> (r: Option<Registration>)
        ensures
            r == if param < self@.len() {
                Some(self@[param as int])
            } else {
                None
            },
    {
        if param < self.hooks.len() {
            Some(self.hooks[param])
        } else {
            None
        }
    }

    /// Registers a hook and gives back its `param`: the number of hooks
    /// registered before it. Every earlier registration stays as it was.
    pub fn register(&mut self, win_ptr: usize, kind: HookKind) -> (param: usize)
        ensures
            param == old(self)@.len(),
            final(self)@ == old(self)@.push(Registration { win_ptr, kind }),
    {
        let param = self.hooks.len();
        self.hooks.push(Registration { win_ptr, kind });
        param
    }

    /// Decides what an event calls.
    pub fn dispatch(&self, event: NativeEvent) -> (call: Option<Invocation>)
        ensures
            call == dispatched(self@, event),
    {
        match event {
            NativeEvent::Mouse { param, buttons, x, y } => {
                if param < self.hooks.len() {
                    match self.hooks[param].kind {
                        HookKind::Mouse => Some(Invocation::Mouse { callback: param, buttons, x, y }),
                        _ => None,
                    }
                } else {
                    None
                }
            },
            NativeEvent::Key { param, keycode } => {
                if param < self.hooks.len() {
                    match self.hooks[param].kind {
                        HookKind::Key => Some(Invocation::Key { callback: param, keycode }),
                        _ => None,
                    }
                } else {
                    None
                }
            },
            NativeEvent::Expose { param } => {
                if param < self.hooks.len() {
                    match self.hooks[param].kind {
                        HookKind::Expose => Some(Invocation::Expose { callback: param }),
                        _ => None,
                    }
                } else {
                    None
                }
            },
            NativeEvent::Loop { param } => {
                if param < self.hooks.len() {
                    match self.hooks[param].kind {
                        HookKind::Loop => Some(Invocation::Loop { callback: param }),
                        _ => None,
                    }
                } else {
                    None
                }
            },
            NativeEvent::Event { param } => {
                if param < self.hooks.len() {
                    match self.hooks[param].kind {
                        HookKind::Event { .. } => Some(Invocation::Event { callback: param }),
                        _ => None,
                    }
                } else {
                    None
                }
            },
        }
    }

    /// Decides what a run of events calls, in the order of their delivery.
    pub fn dispatch_all(&self, events: &Vec<NativeEvent>) -> (calls: Vec<Invocation>)
        ensures
            calls@ == dispatched_all(self@, events@),
    {
        let mut calls: Vec<Invocation> = Vec::new();
        let mut i: usize = 0;
        while i < events.len()
            invariant
                i <= events.len(),
                calls@ == dispatched_all(self@, events@.subrange(0, i as int)),
            decreases events.len() - i,
        {
            let ghost prefix = events@.subrange(0, i as int + 1);
            match self.dispatch(events[i]) {
                Some(call) => calls.push(call),
                None => {},
            }
            i += 1;
            assert(prefix.drop_last() =~= events@.subrange(0, i as int - 1));
            assert(prefix.last() == events@[i as int - 1]);
        }
        assert(events@.subrange(0, i as int) =~= events@);
        calls
    }
}

/// An event that arrives with the `param` of a hook of its kind calls that
/// hook's callback, once, with the arguments that the event brought.
pub proof fn lemma_registered_hook_is_called_once(
    hooks: Seq<Registration>,
    registration: Registration,
    event: NativeEvent,
)
    requires
        event.param() == hooks.len(),
        event.fires(registration.kind),
    ensures
        dispatched(hooks.push(registration), event) == Some(event.invocation()),
        dispatched_all(hooks.push(registration), seq![event]) == seq![event.invocation()],
{
    let after = hooks.push(registration);
    let events = seq![event];
    assert(events.drop_last() =~= Seq::<NativeEvent>::empty());
    assert(dispatched_all(after, events.drop_last()) =~= Seq::<Invocation>::empty());
    assert(events.last() == event);
    assert(dispatched_all(after, events) =~= seq![event.invocation()]);
}

/// A later registration changes nothing for the hooks registered before it:
/// their events call what they called.
pub proof fn lemma_registration_is_kept(
    hooks: Seq<Registration>,
    registration: Registration,
    event: NativeEvent,
)
    requires
        event.param() < hooks.len(),
    ensures
        dispatched(hooks.push(registration), event) == dispatched(hooks, event),
{
}

/// Dispatch keeps the order of delivery: what two runs of events call, one
/// after the other, is what the first calls followed by what the second
/// calls.
pub proof fn lemma_dispatch_keeps_order(
    hooks: Seq<Registration>,
    first: Seq<NativeEvent>,
    second: Seq<NativeEvent>,
)
    ensures
        dispatched_all(hooks, first + second) == dispatched_all(hooks, first) + dispatched_all(
            hooks,
            second,
        ),
    decreases second.len(),
{
    if second.len() == 0 {
        assert(first + second =~= first);
        assert(dispatched_all(hooks, first) + dispatched_all(hooks, second) =~= dispatched_all(
            hooks,
            first,
        ));
    } else {
        let whole = first + second;
        assert(whole.drop_last() =~= first + second.drop_last());
        assert(whole.last() == second.last());
        lemma_dispatch_keeps_order(hooks, first, second.drop_last());
        assert(dispatched_all(hooks, whole) =~= dispatched_all(hooks, first) + dispatched_all(
            hooks,
            second,
        ));
    }
}

/// Of two events that both call a callback, the one delivered first calls
/// first, and nothing else is called.
pub proof fn lemma_earlier_event_calls_first(
    hooks: Seq<Registration>,
    earlier: NativeEvent,
    later: NativeEvent,
)
    requires
        dispatched(hooks, earlier) is Some,
        dispatched(hooks, later) is Some,
    ensures
        dispatched_all(hooks, seq![earlier, later]) == seq![
            earlier.invocation(),
            later.invocation(),
        ],
{
    let one = seq![earlier];
    let two = seq![later];
    assert(one.drop_last() =~= Seq::<NativeEvent>::empty());
    assert(two.drop_last() =~= Seq::<NativeEvent>::empty());
    assert(dispatched_all(hooks, one.drop_last()) =~= Seq::<Invocation>::empty());
    assert(dispatched_all(hooks, two.drop_last()) =~= Seq::<Invocation>::empty());
    assert(one.last() == earlier);
    assert(two.last() == later);
    assert(dispatched_all(hooks, one) =~= seq![earlier.invocation()]);
    assert(dispatched_all(hooks, two) =~= seq![later.invocation()]);
    assert(one + two =~= seq![earlier, later]);
    lemma_dispatch_keeps_order(hooks, one, two);
    assert(dispatched_all(hooks, one) + dispatched_all(hooks, two) =~= seq![
        earlier.invocation(),
        later.invocation(),
    ]);
}

} // verus!
