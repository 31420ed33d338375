//! The toolkit's entry points as values.
//!
//! A [`NativeCall`] names one entry point together with its arguments, in the
//! form in which they cross into C: handles as addresses, text as
//! null-terminated bytes. Whoever holds the real toolkit performs the call
//! and brings back what it returned.

use vstd::prelude::*;

verus! {

/// One call into the toolkit, ready to be made.
#[derive(Debug, PartialEq, Eq)]
pub enum NativeCall {
    /// Open the connection to the display.
    Init,
    /// Close the connection.
    DestroyDisplay { mlx_ptr: usize },
    /// Give the memory behind a handle back to the allocator.
    Free { ptr: usize },
    /// Create a window of the given size with the given title.
    NewWindow { mlx_ptr: usize, size_x: i32, size_y: i32, title: Vec<u8> },
    /// Fill the window with black.
    ClearWindow { mlx_ptr: usize, win_ptr: usize },
    /// Destroy the window.
    DestroyWindow { mlx_ptr: usize, win_ptr: usize },
    /// Ask for the size of the screen.
    GetScreenSize { mlx_ptr: usize },
    /// Draw one pixel in the window.
    PixelPut { mlx_ptr: usize, win_ptr: usize, x: i32, y: i32, color: i32 },
    /// Draw a string in the window.
    StringPut { mlx_ptr: usize, win_ptr: usize, x: i32, y: i32, color: i32, string: Vec<u8> },
    /// Allocate an image of the given size.
    NewImage { mlx_ptr: usize, width: i32, height: i32 },
    /// Decode an image from the lines of a pixmap.
    XpmToImage { mlx_ptr: usize, xpm_data: Vec<Vec<u8>> },
    /// Decode an image from a pixmap file.
    XpmFileToImage { mlx_ptr: usize, filename: Vec<u8> },
    /// Destroy the image.
    DestroyImage { mlx_ptr: usize, img_ptr: usize },
    /// Ask where the pixels of the image are and how they are laid out.
    GetDataAddr { img_ptr: usize },
    /// Copy the image into the window.
    PutImageToWindow { mlx_ptr: usize, win_ptr: usize, img_ptr: usize, x: i32, y: i32 },
    /// Ask for the display's own pixel value of a colour.
    GetColorValue { mlx_ptr: usize, color: i32 },
    /// Switch key autorepeat off.
    DoKeyAutorepeatOff { mlx_ptr: usize },
    /// Switch key autorepeat on.
    DoKeyAutorepeatOn { mlx_ptr: usize },
    /// Move the mouse cursor.
    MouseMove { mlx_ptr: usize, win_ptr: usize, x: i32, y: i32 },
    /// Hide the mouse cursor.
    MouseHide { mlx_ptr: usize, win_ptr: usize },
    /// Show the mouse cursor.
    MouseShow { mlx_ptr: usize, win_ptr: usize },
    /// Run the event loop.
    Loop { mlx_ptr: usize },
    /// Register the mouse hook of the window.
    MouseHook { win_ptr: usize, param: usize },
    /// Register the key hook of the window.
    KeyHook { win_ptr: usize, param: usize },
    /// Register the expose hook of the window.
    ExposeHook { win_ptr: usize, param: usize },
    /// Register the hook that runs when no event is pending.
    LoopHook { win_ptr: usize, param: usize },
    /// Register a hook for an X event and mask.
    Hook { win_ptr: usize, x_event: i32, x_mask: i32, param: usize },
}

/// A call as a plain value, with each text argument as its bytes.
pub enum CallModel {
    Init,
    DestroyDisplay { mlx_ptr: usize },
    Free { ptr: usize },
    NewWindow { mlx_ptr: usize, size_x: i32, size_y: i32, title: Seq<u8> },
    ClearWindow { mlx_ptr: usize, win_ptr: usize },
    DestroyWindow { mlx_ptr: usize, win_ptr: usize },
    GetScreenSize { mlx_ptr: usize },
    PixelPut { mlx_ptr: usize, win_ptr: usize, x: i32, y: i32, color: i32 },
    StringPut { mlx_ptr: usize, win_ptr: usize, x: i32, y: i32, color: i32, string: Seq<u8> },
    NewImage { mlx_ptr: usize, width: i32, height: i32 },
    XpmToImage { mlx_ptr: usize, xpm_data: Seq<Seq<u8>> },
    XpmFileToImage { mlx_ptr: usize, filename: Seq<u8> },
    DestroyImage { mlx_ptr: usize, img_ptr: usize },
    GetDataAddr { img_ptr: usize },
    PutImageToWindow { mlx_ptr: usize, win_ptr: usize, img_ptr: usize, x: i32, y: i32 },
    GetColorValue { mlx_ptr: usize, color: i32 },
    DoKeyAutorepeatOff { mlx_ptr: usize },
    DoKeyAutorepeatOn { mlx_ptr: usize },
    MouseMove { mlx_ptr: usize, win_ptr: usize, x: i32, y: i32 },
    MouseHide { mlx_ptr: usize, win_ptr: usize },
    MouseShow { mlx_ptr: usize, win_ptr: usize },
    Loop { mlx_ptr: usize },
    MouseHook { win_ptr: usize, param: usize },
    KeyHook { win_ptr: usize, param: usize },
    ExposeHook { win_ptr: usize, param: usize },
    LoopHook { win_ptr: usize, param: usize },
    Hook { win_ptr: usize, x_event: i32, x_mask: i32, param: usize },
}

/// Each line of a list as its bytes.
pub open spec fn byte_lines(lines: Seq<Vec<u8>>) -> Seq<Seq<u8>> {
    Seq::new(lines.len(), |i: int| lines[i]@)
}

impl View for NativeCall {
    type V = CallModel;

    open spec fn view(&self) -> CallModel {
        match *self {
            NativeCall::Init => CallModel::Init,
            NativeCall::DestroyDisplay { mlx_ptr } => CallModel::DestroyDisplay { mlx_ptr },
            NativeCall::Free { ptr } => CallModel::Free { ptr },
            NativeCall::NewWindow { mlx_ptr, size_x, size_y, title } => CallModel::NewWindow {
                mlx_ptr,
                size_x,
                size_y,
                title: title@,
            },
            NativeCall::ClearWindow { mlx_ptr, win_ptr } => CallModel::ClearWindow {
                mlx_ptr,
                win_ptr,
            },
            NativeCall::DestroyWindow { mlx_ptr, win_ptr } => CallModel::DestroyWindow {
                mlx_ptr,
                win_ptr,
            },
            NativeCall::GetScreenSize { mlx_ptr } => CallModel::GetScreenSize { mlx_ptr },
            NativeCall::PixelPut { mlx_ptr, win_ptr, x, y, color } => CallModel::PixelPut {
                mlx_ptr,
                win_ptr,
                x,
                y,
                color,
            },
            NativeCall::StringPut {
                mlx_ptr,
                win_ptr,
                x,
                y,
                color,
                string,
            } => CallModel::StringPut { mlx_ptr, win_ptr, x, y, color, string: string@ },
            NativeCall::NewImage { mlx_ptr, width, height } => CallModel::NewImage {
                mlx_ptr,
                width,
                height,
            },
            NativeCall::XpmToImage { mlx_ptr, xpm_data } => CallModel::XpmToImage {
                mlx_ptr,
                xpm_data: byte_lines(xpm_data@),
            },
            NativeCall::XpmFileToImage { mlx_ptr, filename } => CallModel::XpmFileToImage {
                mlx_ptr,
                filename: filename@,
            },
            NativeCall::DestroyImage { mlx_ptr, img_ptr } => CallModel::DestroyImage {
                mlx_ptr,
                img_ptr,
            },
            NativeCall::GetDataAddr { img_ptr } => CallModel::GetDataAddr { img_ptr },
            NativeCall::PutImageToWindow {
                mlx_ptr,
                win_ptr,
                img_ptr,
                x,
                y,
            } => CallModel::PutImageToWindow { mlx_ptr, win_ptr, img_ptr, x, y },
            NativeCall::GetColorValue { mlx_ptr, color } => CallModel::GetColorValue {
                mlx_ptr,
                color,
            },
            NativeCall::DoKeyAutorepeatOff { mlx_ptr } => CallModel::DoKeyAutorepeatOff { mlx_ptr },
            NativeCall::DoKeyAutorepeatOn { mlx_ptr } => CallModel::DoKeyAutorepeatOn { mlx_ptr },
            NativeCall::MouseMove { mlx_ptr, win_ptr, x, y } => CallModel::MouseMove {
                mlx_ptr,
                win_ptr,
                x,
                y,
            },
            NativeCall::MouseHide { mlx_ptr, win_ptr } => CallModel::MouseHide { mlx_ptr, win_ptr },
            NativeCall::MouseShow { mlx_ptr, win_ptr } => CallModel::MouseShow { mlx_ptr, win_ptr },
            NativeCall::Loop { mlx_ptr } => CallModel::Loop { mlx_ptr },
            NativeCall::MouseHook { win_ptr, param } => CallModel::MouseHook { win_ptr, param },
            NativeCall::KeyHook { win_ptr, param } => CallModel::KeyHook { win_ptr, param },
            NativeCall::ExposeHook { win_ptr, param } => CallModel::ExposeHook { win_ptr, param },
            NativeCall::LoopHook { win_ptr, param } => CallModel::LoopHook { win_ptr, param },
            NativeCall::Hook { win_ptr, x_event, x_mask, param } => CallModel::Hook {
                win_ptr,
                x_event,
                x_mask,
                param,
            },
        }
    }
}

} // verus!
