//! The window handle, and the hooks that are registered on it.

use crate::binding;
use crate::error::{ErrorModel, MlxError};
use crate::hooks::{HookKind, HookRegistry, Registration};
use crate::native::{CallModel, NativeCall};
use vstd::prelude::*;

verus! {

/// A window of the display.
#[derive(Clone, Copy, Debug)]
pub struct MlxWindow {
    win_ptr: usize,
}

impl MlxWindow {
    #[verifier::type_invariant]
    spec fn non_null(self) -> bool {
        self.win_ptr != 0
    }

    /// The address of the window.
    pub closed spec fn ptr(self) -> usize {
        self.win_ptr
    }

    /// The address of the window.
    pub(crate) fn as_ptr(&self) -> (ptr: usize)
        ensures
            ptr == self.ptr(),
            ptr != 0,
    {
        proof {
            use_type_invariant(self);
        }
        self.win_ptr
    }

    /// Makes the window handle from what creating the window returned. A
    /// null address is a window failure.
    pub fn new(win_ptr: usize) -> (r: Result<MlxWindow, MlxError>)
        ensures
            win_ptr == 0 ==> r is Err && r->Err_0@ == ErrorModel::Window,
            win_ptr != 0 ==> r is Ok && r->Ok_0.ptr() == win_ptr,
    {
        match binding::new_window_reply(win_ptr) {
            Ok(win_ptr) => Ok(MlxWindow { win_ptr }),
            Err(e) => Err(e),
        }
    }

    /// Registers a mouse hook on the window. The call hands the toolkit the
    /// number under which the registry now knows the callback.
    pub fn mouse_hook(&self, hooks: &mut HookRegistry) -> (call: NativeCall)
        ensures
            final(hooks)@ == old(hooks)@.push(
                Registration { win_ptr: self.ptr(), kind: HookKind::Mouse },
            ),
            call@ == (CallModel::MouseHook {
                win_ptr: self.ptr(),
                param: old(hooks)@.len() as usize,
            }),
    {
        let param = hooks.register(self.win_ptr, HookKind::Mouse);
        binding::mouse_hook(self.win_ptr, param)
    }

    /// Registers a key hook on the window.
    pub fn key_hook(&self, hooks: &mut HookRegistry) -> (call: NativeCall)
        ensures
            final(hooks)@ == old(hooks)@.push(
                Registration { win_ptr: self.ptr(), kind: HookKind::Key },
            ),
            call@ == (CallModel::KeyHook { win_ptr: self.ptr(), param: old(hooks)@.len() as usize }),
    {
        let param = hooks.register(self.win_ptr, HookKind::Key);
        binding::key_hook(self.win_ptr, param)
    }

    /// Registers an expose hook on the window.
    pub fn expose_hook(&self, hooks: &mut HookRegistry) -> (call: NativeCall)
        ensures
            final(hooks)@ == old(hooks)@.push(
                Registration { win_ptr: self.ptr(), kind: HookKind::Expose },
            ),
            call@ == (CallModel::ExposeHook {
                win_ptr: self.ptr(),
                param: old(hooks)@.len() as usize,
            }),
    {
        let param = hooks.register(self.win_ptr, HookKind::Expose);
        binding::expose_hook(self.win_ptr, param)
    }

    /// Registers the hook that runs when no event is pending.
    pub fn loop_hook(&self, hooks: &mut HookRegistry) -> (call: NativeCall)
        ensures
            final(hooks)@ == old(hooks)@.push(
                Registration { win_ptr: self.ptr(), kind: HookKind::Loop },
            ),
            call@ == (CallModel::LoopHook {
                win_ptr: self.ptr(),
                param: old(hooks)@.len() as usize,
            }),
    {
        let param = hooks.register(self.win_ptr, HookKind::Loop);
        binding::loop_hook(self.win_ptr, param)
    }

    /// Registers a hook for an X event and mask on the window.
    pub fn hook(&self, x_event: i32, x_mask: i32, hooks: &mut HookRegistry) -> (call: NativeCall)
        ensures
            final(hooks)@ == old(hooks)@.push(
                Registration { win_ptr: self.ptr(), kind: HookKind::Event { x_event, x_mask } },
            ),
            call@ == (CallModel::Hook {
                win_ptr: self.ptr(),
                x_event,
                x_mask,
                param: old(hooks)@.len() as usize,
            }),
    {
        let param = hooks.register(self.win_ptr, HookKind::Event { x_event, x_mask });
        binding::hook(self.win_ptr, x_event, x_mask, param)
    }
}

} // verus!
