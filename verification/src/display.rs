//! The display handle, and the calls that are made through it.

use crate::binding;
use crate::binding::xpm_lines;
use crate::error::{ErrorModel, MlxError};
use crate::image::MlxImage;
use crate::native::{CallModel, NativeCall};
use crate::text::{c_string, c_string_failure, has_nul};
use crate::window::MlxWindow;
use vstd::prelude::*;

verus! {

/// The connection to the display.
#[derive(Clone, Copy, Debug)]
pub struct Mlx {
    mlx_ptr: usize,
}

impl Mlx {
    #[verifier::type_invariant]
    spec fn non_null(self) -> bool {
        self.mlx_ptr != 0
    }

    /// The address of the connection.
    pub closed spec fn ptr(self) -> usize {
        self.mlx_ptr
    }

    /// The address of the connection.
    pub(crate) fn as_ptr(&self) -> (ptr: usize)
        ensures
            ptr == self.ptr(),
            ptr != 0,
    {
        proof {
            use_type_invariant(self);
        }
        self.mlx_ptr
    }

    /// Makes the display handle from what opening the connection returned.
    /// A null address is an initialisation failure.
    pub fn new(mlx_ptr: usize) -> (r: Result<Mlx, MlxError>)
        ensures
            mlx_ptr == 0 ==> r is Err && r->Err_0@ == ErrorModel::Init,
            mlx_ptr != 0 ==> r is Ok && r->Ok_0.ptr() == mlx_ptr,
    {
        match binding::init_reply(mlx_ptr) {
            Ok(mlx_ptr) => Ok(Mlx { mlx_ptr }),
            Err(e) => Err(e),
        }
    }

    /// The two calls that tear the connection down, in the order in which
    /// they are made. After them the handle, and every window and image made
    /// from it, must not be used again.
    pub fn destroy(&self) -> (calls: (NativeCall, NativeCall))
        ensures
            calls.0@ == (CallModel::DestroyDisplay { mlx_ptr: self.ptr() }),
            calls.1@ == (CallModel::Free { ptr: self.ptr() }),
    {
        binding::destroy(self.mlx_ptr)
    }

    /// The call that creates a window, unless the title holds a zero byte.
    /// [`MlxWindow::new`] reads what the call returns.
    pub fn new_window(&self, size_x: i32, size_y: i32, title: &str) -> (r: Result<
        NativeCall,
        MlxError,
    >)
        ensures
            has_nul(title@) ==> r is Err && r->Err_0@ == c_string_failure(title@),
            !has_nul(title@) ==> r is Ok && r->Ok_0@ == (CallModel::NewWindow {
                mlx_ptr: self.ptr(),
                size_x,
                size_y,
                title: c_string(title@),
            }),
    {
        binding::new_window(self.mlx_ptr, size_x, size_y, title)
    }

    /// The call that clears the window with black.
    pub fn clear_window(&self, window: &MlxWindow) -> (call: NativeCall)
        ensures
            call@ == (CallModel::ClearWindow { mlx_ptr: self.ptr(), win_ptr: window.ptr() }),
    {
        binding::clear_window(self.mlx_ptr, window.as_ptr())
    }

    /// The call that destroys the window.
    pub fn destroy_window(&self, window: &MlxWindow) -> (call: NativeCall)
        ensures
            call@ == (CallModel::DestroyWindow { mlx_ptr: self.ptr(), win_ptr: window.ptr() }),
    {
        binding::destroy_window(self.mlx_ptr, window.as_ptr())
    }

    /// The call that asks for the size of the screen. What it returns is the
    /// answer as it stands: the call cannot fail.
    pub fn get_screen_size(&self) -> (call: NativeCall)
        ensures
            call@ == (CallModel::GetScreenSize { mlx_ptr: self.ptr() }),
    {
        binding::get_screen_size(self.mlx_ptr)
    }

    /// The call that draws one pixel in the window. The colour is
    /// `0x00RRGGBB`.
    pub fn pixel_put(&self, window: &MlxWindow, x: i32, y: i32, color: i32) -> (call: NativeCall)
        ensures
            call@ == (CallModel::PixelPut {
                mlx_ptr: self.ptr(),
                win_ptr: window.ptr(),
                x,
                y,
                color,
            }),
    {
        binding::pixel_put(self.mlx_ptr, window.as_ptr(), x, y, color)
    }

    /// The call that draws a string in the window, unless the string holds a
    /// zero byte: then there is no call to make.
    pub fn string_put(&self, window: &MlxWindow, x: i32, y: i32, color: i32, s: &str) -> (r:
        Result<NativeCall, MlxError>)
        ensures
            has_nul(s@) ==> r is Err && r->Err_0@ == c_string_failure(s@),
            !has_nul(s@) ==> r is Ok && r->Ok_0@ == (CallModel::StringPut {
                mlx_ptr: self.ptr(),
                win_ptr: window.ptr(),
                x,
                y,
                color,
                string: c_string(s@),
            }),
    {
        binding::string_put(self.mlx_ptr, window.as_ptr(), x, y, color, s)
    }

    /// The call that allocates an image. [`binding::new_image_reply`] reads
    /// what it returns.
    pub fn new_image(&self, width: i32, height: i32) -> (call: NativeCall)
        ensures
            call@ == (CallModel::NewImage { mlx_ptr: self.ptr(), width, height }),
    {
        binding::new_image(self.mlx_ptr, width, height)
    }

    /// The call that decodes an image from the lines of a pixmap.
    /// [`binding::xpm_image_reply`] reads what it returns.
    pub fn xpm_to_image(&self, xpm_data: Vec<String>) -> (call: NativeCall)
        ensures
            call@ == (CallModel::XpmToImage {
                mlx_ptr: self.ptr(),
                xpm_data: xpm_lines(xpm_data@),
            }),
    {
        binding::xpm_to_image(self.mlx_ptr, xpm_data)
    }

    /// The call that decodes an image from a pixmap file, unless the file's
    /// name holds a zero byte. [`binding::xpm_image_reply`] reads what it
    /// returns.
    pub fn xpm_file_to_image(&self, filename: &str) -> (r: Result<NativeCall, MlxError>)
        ensures
            has_nul(filename@) ==> r is Err && r->Err_0@ == c_string_failure(filename@),
            !has_nul(filename@) ==> r is Ok && r->Ok_0@ == (CallModel::XpmFileToImage {
                mlx_ptr: self.ptr(),
                filename: c_string(filename@),
            }),
    {
        binding::xpm_file_to_image(self.mlx_ptr, filename)
    }

    /// The call that destroys the image.
    pub fn destroy_image(&self, image: &MlxImage) -> (call: NativeCall)
        ensures
            call@ == (CallModel::DestroyImage { mlx_ptr: self.ptr(), img_ptr: image@.img_ptr }),
    {
        binding::destroy_image(self.mlx_ptr, image.as_ptr())
    }

    /// The call that draws the whole image in the window, its top left corner
    /// at the given position.
    pub fn put_image_to_window(&self, window: &MlxWindow, image: &MlxImage, x: i32, y: i32) -> (call:
        NativeCall)
        ensures
            call@ == (CallModel::PutImageToWindow {
                mlx_ptr: self.ptr(),
                win_ptr: window.ptr(),
                img_ptr: image@.img_ptr,
                x,
                y,
            }),
    {
        binding::put_image_to_window(self.mlx_ptr, window.as_ptr(), image.as_ptr(), x, y)
    }

    /// The call that asks for the display's own pixel value of a colour.
    /// What it returns is the answer as it stands.
    pub fn get_color_value(&self, color: i32) -> (call: NativeCall)
        ensures
            call@ == (CallModel::GetColorValue { mlx_ptr: self.ptr(), color }),
    {
        binding::get_color_value(self.mlx_ptr, color)
    }

    /// The call that switches key autorepeat on.
    pub fn do_key_autorepeaton(&self) -> (call: NativeCall)
        ensures
            call@ == (CallModel::DoKeyAutorepeatOn { mlx_ptr: self.ptr() }),
    {
        binding::do_key_autorepeaton(self.mlx_ptr)
    }

    /// The call that switches key autorepeat off.
    pub fn do_key_autorepeatoff(&self) -> (call: NativeCall)
        ensures
            call@ == (CallModel::DoKeyAutorepeatOff { mlx_ptr: self.ptr() }),
    {
        binding::do_key_autorepeatoff(self.mlx_ptr)
    }

    /// The call that moves the mouse cursor.
    pub fn mouse_move(&self, window: &MlxWindow, x: i32, y: i32) -> (call: NativeCall)
        ensures
            call@ == (CallModel::MouseMove { mlx_ptr: self.ptr(), win_ptr: window.ptr(), x, y }),
    {
        binding::mouse_move(self.mlx_ptr, window.as_ptr(), x, y)
    }

    /// The call that shows the mouse cursor.
    pub fn mouse_show(&self, window: &MlxWindow) -> (call: NativeCall)
        ensures
            call@ == (CallModel::MouseShow { mlx_ptr: self.ptr(), win_ptr: window.ptr() }),
    {
        binding::mouse_show(self.mlx_ptr, window.as_ptr())
    }

    /// The call that hides the mouse cursor.
    pub fn mouse_hide(&self, window: &MlxWindow) -> (call: NativeCall)
        ensures
            call@ == (CallModel::MouseHide { mlx_ptr: self.ptr(), win_ptr: window.ptr() }),
    {
        binding::mouse_hide(self.mlx_ptr, window.as_ptr())
    }

    /// The call that runs the event loop. It does not return in normal use:
    /// hooks run inside it, and one of them ends the process.
    pub fn event_loop(&self) -> (call: NativeCall)
        ensures
            call@ == (CallModel::Loop { mlx_ptr: self.ptr() }),
    {
        binding::event_loop(self.mlx_ptr)
    }
}

} // verus!
