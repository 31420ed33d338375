//! Release on scope exit.
//!
//! The toolkit frees nothing by itself. A [`Scope`] notes the windows and
//! images made from a display while they are in use, and at its end gives
//! the calls that release them all: each window and image once, the newest
//! first, and after them the display.

use crate::binding;
use crate::display::Mlx;
use crate::image::MlxImage;
use crate::window::MlxWindow;
use crate::native::{CallModel, NativeCall};
use vstd::prelude::*;

verus! {

/// Something that a scope releases at its end.
#[derive(Clone, Copy, Debug)]
pub enum Resource {
    Window(MlxWindow),
    Image(MlxImage),
}

/// A resource as a plain value: its kind and its address.
pub enum ResourceModel {
    Window { win_ptr: usize },
    Image { img_ptr: usize },
}

impl View for Resource {
    type V = ResourceModel;

    open spec fn view(&self) -> ResourceModel {
        match *self {
            Resource::Window(window) => ResourceModel::Window { win_ptr: window.ptr() },
            Resource::Image(image) => ResourceModel::Image { img_ptr: image@.img_ptr },
        }
    }
}

/// The call that releases one resource of the display at `mlx_ptr`.
pub open spec fn release_call(mlx_ptr: usize, resource: ResourceModel) -> CallModel {
    match resource {
        ResourceModel::Window { win_ptr } => CallModel::DestroyWindow { mlx_ptr, win_ptr },
        ResourceModel::Image { img_ptr } => CallModel::DestroyImage { mlx_ptr, img_ptr },
    }
}

/// The calls that release everything: the resources from the newest to the
/// oldest, then the display, then the memory of its handle.
pub open spec fn teardown(mlx_ptr: usize, held: Seq<ResourceModel>) -> Seq<CallModel> {
    Seq::new(held.len(), |i: int| release_call(mlx_ptr, held[held.len() - 1 - i])) + seq![
        CallModel::DestroyDisplay { mlx_ptr },
        CallModel::Free { ptr: mlx_ptr },
    ]
}

/// Each resource of a list as a plain value.
pub open spec fn resource_models(held: Seq<Resource>) -> Seq<ResourceModel> {
    Seq::new(held.len(), |i: int| held[i]@)
}

/// Each call of a list as a plain value.
pub open spec fn call_models(calls: Seq<NativeCall>) -> Seq<CallModel> {
    Seq::new(calls.len(), |i: int| calls[i]@)
}

/// A display with the windows and images that are to be released with it.
pub struct Scope {
    mlx: Mlx,
    held: Vec<Resource>,
}

impl Scope {
    /// The address of the display.
    pub closed spec fn display(&self) -> usize {
        self.mlx.ptr()
    }

    /// What the scope holds, oldest first.
    pub closed spec fn held(&self) -> Seq<ResourceModel> {
        resource_models(self.held@)
    }

    /// A scope that holds nothing but the display.
    pub fn new(mlx: Mlx) -> (scope: Scope)
        ensures
            scope.display() == mlx.ptr(),
            scope.held() == Seq::<ResourceModel>::empty(),
    {
        let scope = Scope { mlx, held: Vec::new() };
        assert(scope.held() =~= Seq::<ResourceModel>::empty());
        scope
    }

    /// Notes a window for release.
    pub fn hold_window(&mut self, window: MlxWindow)
        ensures
            final(self).display() == old(self).display(),
            final(self).held() == old(self).held().push(
                ResourceModel::Window { win_ptr: window.ptr() },
            ),
    {
        self.held.push(Resource::Window(window));
        assert(self.held() =~= old(self).held().push(
            ResourceModel::Window { win_ptr: window.ptr() },
        ));
    }

    /// Notes an image for release.
    pub fn hold_image(&mut self, image: MlxImage)
        ensures
            final(self).display() == old(self).display(),
            final(self).held() == old(self).held().push(
                ResourceModel::Image { img_ptr: image@.img_ptr },
            ),
    {
        self.held.push(Resource::Image(image));
        assert(self.held() =~= old(self).held().push(
            ResourceModel::Image { img_ptr: image@.img_ptr },
        ));
    }

    /// Ends the scope: the calls to make, in their order.
    pub fn release(self) -> (calls: Vec<NativeCall>)
        ensures
            call_models(calls@) == teardown(self.display(), self.held()),
    {
        let mlx_ptr = self.mlx.as_ptr();
        let ghost held = self.held();
        let mut calls: Vec<NativeCall> = Vec::new();
        let mut left: usize = self.held.len();
        while left > 0
            invariant
                left <= self.held@.len(),
                held == resource_models(self.held@),
                calls@.len() == self.held@.len() - left,
                forall|i: int|
                    0 <= i < calls@.len() ==> (#[trigger] calls@[i])@ == release_call(
                        mlx_ptr,
                        held[held.len() - 1 - i],
                    ),
            decreases left,
        {
            left -= 1;
            let call = match self.held[left] {
                Resource::Window(window) => binding::destroy_window(mlx_ptr, window.as_ptr()),
                Resource::Image(image) => binding::destroy_image(mlx_ptr, image.as_ptr()),
            };
            calls.push(call);
        }
        let (close, free) = binding::destroy(mlx_ptr);
        calls.push(close);
        calls.push(free);
        assert(call_models(calls@) =~= teardown(mlx_ptr, held));
        calls
    }
}

/// At the end of a scope every resource it holds is released once, and the
/// display only after the last of them.
pub proof fn lemma_display_is_released_last(mlx_ptr: usize, held: Seq<ResourceModel>)
    ensures
        teardown(mlx_ptr, held).len() == held.len() + 2,
        forall|i: int|
            0 <= i < held.len() ==> #[trigger] teardown(mlx_ptr, held)[held.len() - 1 - i]
                == release_call(mlx_ptr, held[i]),
        teardown(mlx_ptr, held)[held.len() as int] == (CallModel::DestroyDisplay { mlx_ptr }),
        teardown(mlx_ptr, held)[held.len() as int + 1] == (CallModel::Free { ptr: mlx_ptr }),
{
}

} // verus!
