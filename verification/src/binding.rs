//! The binding layer: one function for each entry point of the toolkit.
//!
//! The function named after an entry point marshals its arguments and hands
//! back the [`NativeCall`] to make; where text cannot be marshalled it fails
//! instead, and then there is no call to make. Where the toolkit's answer
//! decides between success and failure, a second function, named after the
//! first with `_reply`, reads that answer.

use crate::error::{modelled, ErrorModel, MlxError};
use crate::native::{byte_lines, CallModel, NativeCall};
use crate::text::{c_string, c_string_failure, create_c_str, decimal, has_nul, i32_to_string};
use vstd::prelude::*;
use vstd::string::*;

verus! {

/// What the decoding of a pixmap gives: the image and its dimensions.
#[derive(Clone, Copy, Debug, PartialEq, Eq)]
pub struct XpmImage {
    pub ptr: usize,
    pub width: i32,
    pub height: i32,
}

/// Where the pixels of an image are, and how they are laid out.
#[derive(Clone, Copy, Debug, PartialEq, Eq)]
pub struct AddrData {
    pub area: usize,
    pub bits_per_pixel: i32,
    pub size_line: i32,
    pub endian: i32,
}

/// How a handle from the toolkit is read: the null address is the given
/// failure, every other address is the handle.
pub open spec fn handle_or(ptr: usize, failure: ErrorModel) -> Result<usize, ErrorModel> {
    if ptr == 0 {
        Err(failure)
    } else {
        Ok(ptr)
    }
}

/// The call that opens the connection.
pub fn init() -> (call: NativeCall)
    ensures
        call@ == CallModel::Init,
{
    NativeCall::Init
}

/// Reads the handle that opening the connection gave: a null one is an
/// initialisation failure.
pub fn init_reply(mlx_ptr: usize) -> (r: Result<usize, MlxError>)
    ensures
        modelled(r) == handle_or(mlx_ptr, ErrorModel::Init),
{
    if mlx_ptr == 0 {
        Err(MlxError::Init)
    } else {
        Ok(mlx_ptr)
    }
}

/// The two calls that tear the connection down, in the order in which they
/// are made: the display is closed, then the handle's memory is freed.
pub fn destroy(mlx_ptr: usize) -> (calls: (NativeCall, NativeCall))
    ensures
        calls.0@ == (CallModel::DestroyDisplay { mlx_ptr }),
        calls.1@ == (CallModel::Free { ptr: mlx_ptr }),
{
    (NativeCall::DestroyDisplay { mlx_ptr }, NativeCall::Free { ptr: mlx_ptr })
}

/// The call that creates a window, unless the title cannot be a C string.
pub fn new_window(mlx_ptr: usize, size_x: i32, size_y: i32, title: &str) -> (r: Result<
    NativeCall,
    MlxError,
>)
    ensures
        has_nul(title@) ==> r is Err && r->Err_0@ == c_string_failure(title@),
        !has_nul(title@) ==> r is Ok && r->Ok_0@ == (CallModel::NewWindow {
            mlx_ptr,
            size_x,
            size_y,
            title: c_string(title@),
        }),
{
    match create_c_str(title) {
        Ok(title) => Ok(NativeCall::NewWindow { mlx_ptr, size_x, size_y, title }),
        Err(e) => Err(e),
    }
}

/// Reads the handle that creating a window gave: a null one is a window
/// failure.
pub fn new_window_reply(win_ptr: usize) -> (r: Result<usize, MlxError>)
    ensures
        modelled(r) == handle_or(win_ptr, ErrorModel::Window),
{
    if win_ptr == 0 {
        Err(MlxError::Window)
    } else {
        Ok(win_ptr)
    }
}

/// The call that clears a window.
pub fn clear_window(mlx_ptr: usize, win_ptr: usize) -> (call: NativeCall)
    ensures
        call@ == (CallModel::ClearWindow { mlx_ptr, win_ptr }),
{
    NativeCall::ClearWindow { mlx_ptr, win_ptr }
}

/// The call that destroys a window.
pub fn destroy_window(mlx_ptr: usize, win_ptr: usize) -> (call: NativeCall)
    ensures
        call@ == (CallModel::DestroyWindow { mlx_ptr, win_ptr }),
{
    NativeCall::DestroyWindow { mlx_ptr, win_ptr }
}

/// The call that asks for the screen's size.
pub fn get_screen_size(mlx_ptr: usize) -> (call: NativeCall)
    ensures
        call@ == (CallModel::GetScreenSize { mlx_ptr }),
{
    NativeCall::GetScreenSize { mlx_ptr }
}

/// The call that draws one pixel.
pub fn pixel_put(mlx_ptr: usize, win_ptr: usize, x: i32, y: i32, color: i32) -> (call: NativeCall)
    ensures
        call@ == (CallModel::PixelPut { mlx_ptr, win_ptr, x, y, color }),
{
    NativeCall::PixelPut { mlx_ptr, win_ptr, x, y, color }
}

/// The call that draws a string, unless the string cannot be a C string.
pub fn string_put(mlx_ptr: usize, win_ptr: usize, x: i32, y: i32, color: i32, s: &str) -> (r:
    Result<NativeCall, MlxError>)
    ensures
        has_nul(s@) ==> r is Err && r->Err_0@ == c_string_failure(s@),
        !has_nul(s@) ==> r is Ok && r->Ok_0@ == (CallModel::StringPut {
            mlx_ptr,
            win_ptr,
            x,
            y,
            color,
            string: c_string(s@),
        }),
{
    match create_c_str(s) {
        Ok(string) => Ok(NativeCall::StringPut { mlx_ptr, win_ptr, x, y, color, string }),
        Err(e) => Err(e),
    }
}

/// The call that allocates an image.
pub fn new_image(mlx_ptr: usize, width: i32, height: i32) -> (call: NativeCall)
    ensures
        call@ == (CallModel::NewImage { mlx_ptr, width, height }),
{
    NativeCall::NewImage { mlx_ptr, width, height }
}

/// The error for an image of the given size that could not be allocated.
pub open spec fn image_failure(width: i32, height: i32) -> ErrorModel {
    ErrorModel::Any(
        "Error creating image with "@ + decimal(width as int) + " width, "@ + decimal(
            height as int,
        ) + " height."@,
    )
}

/// Reads the handle that allocating an image gave: a null one is a failure
/// that names the size asked for.
pub fn new_image_reply(img_ptr: usize, width: i32, height: i32) -> (r: Result<usize, MlxError>)
    ensures
        modelled(r) == handle_or(img_ptr, image_failure(width, height)),
{
    if img_ptr == 0 {
        let text = "Error creating image with ".to_owned();
        let text = text.concat(i32_to_string(width).as_str());
        let text = text.concat(" width, ");
        let text = text.concat(i32_to_string(height).as_str());
        let text = text.concat(" height.");
        Err(MlxError::Any(text))
    } else {
        Ok(img_ptr)
    }
}

/// The lines of a pixmap as the decoder reads them: each one encoded and
/// terminated, in their order. A zero byte inside a line ends it early for
/// the decoder; no line is refused.
pub open spec fn xpm_lines(lines: Seq<String>) -> Seq<Seq<u8>> {
    Seq::new(lines.len(), |i: int| c_string(lines[i]@))
}

/// The call that decodes an image from the lines of a pixmap.
pub fn xpm_to_image(mlx_ptr: usize, xpm_data: Vec<String>) -> (call: NativeCall)
    ensures
        call@ == (CallModel::XpmToImage { mlx_ptr, xpm_data: xpm_lines(xpm_data@) }),
{
    let mut lines: Vec<Vec<u8>> = Vec::new();
    let mut i: usize = 0;
    while i < xpm_data.len()
        invariant
            i <= xpm_data.len(),
            lines@.len() == i,
            byte_lines(lines@) == xpm_lines(xpm_data@).subrange(0, i as int),
        decreases xpm_data.len() - i,
    {
        let ghost before = lines@;
        let mut line = xpm_data[i].as_str().as_bytes_vec();
        line.push(0);
        assert(line@ == c_string(xpm_data@[i as int]@));
        lines.push(line);
        i += 1;
        assert forall|k: int| 0 <= k < i implies byte_lines(lines@)[k] == xpm_lines(
            xpm_data@,
        ).subrange(0, i as int)[k] by {
            if k < i - 1 {
                assert(lines@[k] == before[k]);
                assert(byte_lines(before)[k] == xpm_lines(xpm_data@).subrange(0, i - 1)[k]);
            }
        }
        assert(byte_lines(lines@) =~= xpm_lines(xpm_data@).subrange(0, i as int));
    }
    assert(byte_lines(lines@) =~= xpm_lines(xpm_data@));
    NativeCall::XpmToImage { mlx_ptr, xpm_data: lines }
}

/// The call that decodes an image from a pixmap file, unless the file's name
/// cannot be a C string.
pub fn xpm_file_to_image(mlx_ptr: usize, filename: &str) -> (r: Result<NativeCall, MlxError>)
    ensures
        has_nul(filename@) ==> r is Err && r->Err_0@ == c_string_failure(filename@),
        !has_nul(filename@) ==> r is Ok && r->Ok_0@ == (CallModel::XpmFileToImage {
            mlx_ptr,
            filename: c_string(filename@),
        }),
{
    match create_c_str(filename) {
        Ok(filename) => Ok(NativeCall::XpmFileToImage { mlx_ptr, filename }),
        Err(e) => Err(e),
    }
}

/// The error for a pixmap that could not be decoded.
pub open spec fn xpm_failure() -> ErrorModel {
    ErrorModel::Any("Error creating xpm image."@)
}

/// How the answer of the decoder is read.
pub open spec fn xpm_outcome(ptr: usize, width: i32, height: i32) -> Result<XpmImage, ErrorModel> {
    if ptr == 0 {
        Err(xpm_failure())
    } else {
        Ok(XpmImage { ptr, width, height })
    }
}

/// Reads what decoding a pixmap gave, from its lines or from a file: a null
/// handle is a failure, any other comes back with the dimensions that the
/// decoder found.
pub fn xpm_image_reply(ptr: usize, width: i32, height: i32) -> (r: Result<XpmImage, MlxError>)
    ensures
        modelled(r) == xpm_outcome(ptr, width, height),
{
    if ptr == 0 {
        Err(MlxError::Any("Error creating xpm image.".to_owned()))
    } else {
        Ok(XpmImage { ptr, width, height })
    }
}

/// The call that destroys an image.
pub fn destroy_image(mlx_ptr: usize, img_ptr: usize) -> (call: NativeCall)
    ensures
        call@ == (CallModel::DestroyImage { mlx_ptr, img_ptr }),
{
    NativeCall::DestroyImage { mlx_ptr, img_ptr }
}

/// The call that asks for the pixels of an image.
pub fn get_data_addr(img_ptr: usize) -> (call: NativeCall)
    ensures
        call@ == (CallModel::GetDataAddr { img_ptr }),
{
    NativeCall::GetDataAddr { img_ptr }
}

/// The error for an image whose pixels cannot be reached.
pub open spec fn data_failure() -> ErrorModel {
    ErrorModel::Any("Error when trying to access image data"@)
}

/// How the answer to the question for the pixels is read.
pub open spec fn data_outcome(area: usize, bits_per_pixel: i32, size_line: i32, endian: i32) -> Result<
    AddrData,
    ErrorModel,
> {
    if area == 0 {
        Err(data_failure())
    } else {
        Ok(AddrData { area, bits_per_pixel, size_line, endian })
    }
}

/// Reads what asking for the pixels gave: a null address is a failure, any
/// other comes back with the layout beside it.
pub fn get_data_addr_reply(area: usize, bits_per_pixel: i32, size_line: i32, endian: i32) -> (r:
    Result<AddrData, MlxError>)
    ensures
        modelled(r) == data_outcome(area, bits_per_pixel, size_line, endian),
{
    if area == 0 {
        Err(MlxError::Any("Error when trying to access image data".to_owned()))
    } else {
        Ok(AddrData { area, bits_per_pixel, size_line, endian })
    }
}

/// The call that copies an image into a window.
pub fn put_image_to_window(mlx_ptr: usize, win_ptr: usize, img_ptr: usize, x: i32, y: i32) -> (call:
    NativeCall)
    ensures
        call@ == (CallModel::PutImageToWindow { mlx_ptr, win_ptr, img_ptr, x, y }),
{
    NativeCall::PutImageToWindow { mlx_ptr, win_ptr, img_ptr, x, y }
}

/// The call that asks for the display's own value of a colour.
pub fn get_color_value(mlx_ptr: usize, color: i32) -> (call: NativeCall)
    ensures
        call@ == (CallModel::GetColorValue { mlx_ptr, color }),
{
    NativeCall::GetColorValue { mlx_ptr, color }
}

/// The call that switches key autorepeat off.
pub fn do_key_autorepeatoff(mlx_ptr: usize) -> (call: NativeCall)
    ensures
        call@ == (CallModel::DoKeyAutorepeatOff { mlx_ptr }),
{
    NativeCall::DoKeyAutorepeatOff { mlx_ptr }
}

/// The call that switches key autorepeat on.
pub fn do_key_autorepeaton(mlx_ptr: usize) -> (call: NativeCall)
    ensures
        call@ == (CallModel::DoKeyAutorepeatOn { mlx_ptr }),
{
    NativeCall::DoKeyAutorepeatOn { mlx_ptr }
}

/// The call that moves the mouse cursor.
pub fn mouse_move(mlx_ptr: usize, win_ptr: usize, x: i32, y: i32) -> (call: NativeCall)
    ensures
        call@ == (CallModel::MouseMove { mlx_ptr, win_ptr, x, y }),
{
    NativeCall::MouseMove { mlx_ptr, win_ptr, x, y }
}

/// The call that hides the mouse cursor.
pub fn mouse_hide(mlx_ptr: usize, win_ptr: usize) -> (call: NativeCall)
    ensures
        call@ == (CallModel::MouseHide { mlx_ptr, win_ptr }),
{
    NativeCall::MouseHide { mlx_ptr, win_ptr }
}

/// The call that shows the mouse cursor.
pub fn mouse_show(mlx_ptr: usize, win_ptr: usize) -> (call: NativeCall)
    ensures
        call@ == (CallModel::MouseShow { mlx_ptr, win_ptr }),
{
    NativeCall::MouseShow { mlx_ptr, win_ptr }
}

/// The call that runs the event loop.
pub fn event_loop(mlx_ptr: usize) -> (call: NativeCall)
    ensures
        call@ == (CallModel::Loop { mlx_ptr }),
{
    NativeCall::Loop { mlx_ptr }
}

/// The call that registers a window's mouse hook. `param` is what the
/// toolkit hands back with each event, by which the callback is found again.
pub fn mouse_hook(win_ptr: usize, param: usize) -> (call: NativeCall)
    ensures
        call@ == (CallModel::MouseHook { win_ptr, param }),
{
    NativeCall::MouseHook { win_ptr, param }
}

/// The call that registers a window's key hook.
pub fn key_hook(win_ptr: usize, param: usize) -> (call: NativeCall)
    ensures
        call@ == (CallModel::KeyHook { win_ptr, param }),
{
    NativeCall::KeyHook { win_ptr, param }
}

/// The call that registers a window's expose hook.
pub fn expose_hook(win_ptr: usize, param: usize) -> (call: NativeCall)
    ensures
        call@ == (CallModel::ExposeHook { win_ptr, param }),
{
    NativeCall::ExposeHook { win_ptr, param }
}

/// The call that registers the hook that runs when no event is pending.
pub fn loop_hook(win_ptr: usize, param: usize) -> (call: NativeCall)
    ensures
        call@ == (CallModel::LoopHook { win_ptr, param }),
{
    NativeCall::LoopHook { win_ptr, param }
}

/// The call that registers a hook for an X event and mask.
pub fn hook(win_ptr: usize, x_event: i32, x_mask: i32, param: usize) -> (call: NativeCall)
    ensures
        call@ == (CallModel::Hook { win_ptr, x_event, x_mask, param }),
{
    NativeCall::Hook { win_ptr, x_event, x_mask, param }
}

} // verus!
