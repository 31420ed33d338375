use minilibx::binding;
use minilibx::binding::{AddrData, XpmImage};
use minilibx::{MlxError, NativeCall};

#[test]
fn init_asks_for_the_connection() {
    assert_eq!(binding::init(), NativeCall::Init);
}

#[test]
fn init_reply_reads_the_handle() {
    assert_eq!(binding::init_reply(0x1000), Ok(0x1000));
    assert_eq!(binding::init_reply(0), Err(MlxError::Init));
}

#[test]
fn destroy_closes_then_frees() {
    let (first, second) = binding::destroy(0x1000);
    assert_eq!(first, NativeCall::DestroyDisplay { mlx_ptr: 0x1000 });
    assert_eq!(second, NativeCall::Free { ptr: 0x1000 });
}

#[test]
fn new_window_marshals_the_title() {
    assert_eq!(
        binding::new_window(0x1000, 1080, 720, "Fractol"),
        Ok(NativeCall::NewWindow {
            mlx_ptr: 0x1000,
            size_x: 1080,
            size_y: 720,
            title: b"Fractol\0".to_vec(),
        })
    );
}

#[test]
fn new_window_refuses_a_title_with_a_zero_byte() {
    assert_eq!(
        binding::new_window(0x1000, 1080, 720, "Frac\0tol"),
        Err(MlxError::Any("Error creating string Frac\0tol".to_string()))
    );
}

#[test]
fn new_window_reply_reads_the_handle() {
    assert_eq!(binding::new_window_reply(0x2000), Ok(0x2000));
    assert_eq!(binding::new_window_reply(0), Err(MlxError::Window));
}

#[test]
fn window_calls_carry_their_arguments() {
    assert_eq!(
        binding::clear_window(1, 2),
        NativeCall::ClearWindow { mlx_ptr: 1, win_ptr: 2 }
    );
    assert_eq!(
        binding::destroy_window(1, 2),
        NativeCall::DestroyWindow { mlx_ptr: 1, win_ptr: 2 }
    );
    assert_eq!(
        binding::pixel_put(1, 2, 200, 300, 0x0000ff),
        NativeCall::PixelPut { mlx_ptr: 1, win_ptr: 2, x: 200, y: 300, color: 0x0000ff }
    );
    assert_eq!(
        binding::mouse_move(1, 2, -3, 4),
        NativeCall::MouseMove { mlx_ptr: 1, win_ptr: 2, x: -3, y: 4 }
    );
    assert_eq!(binding::mouse_hide(1, 2), NativeCall::MouseHide { mlx_ptr: 1, win_ptr: 2 });
    assert_eq!(binding::mouse_show(1, 2), NativeCall::MouseShow { mlx_ptr: 1, win_ptr: 2 });
}

#[test]
fn display_calls_carry_their_arguments() {
    assert_eq!(binding::get_screen_size(1), NativeCall::GetScreenSize { mlx_ptr: 1 });
    assert_eq!(
        binding::get_color_value(1, 0xff0000),
        NativeCall::GetColorValue { mlx_ptr: 1, color: 0xff0000 }
    );
    assert_eq!(
        binding::do_key_autorepeatoff(1),
        NativeCall::DoKeyAutorepeatOff { mlx_ptr: 1 }
    );
    assert_eq!(binding::do_key_autorepeaton(1), NativeCall::DoKeyAutorepeatOn { mlx_ptr: 1 });
    assert_eq!(binding::event_loop(1), NativeCall::Loop { mlx_ptr: 1 });
}

#[test]
fn string_put_marshals_the_string() {
    assert_eq!(
        binding::string_put(1, 2, 200, 300, 0xff0000, "Hello World"),
        Ok(NativeCall::StringPut {
            mlx_ptr: 1,
            win_ptr: 2,
            x: 200,
            y: 300,
            color: 0xff0000,
            string: b"Hello World\0".to_vec(),
        })
    );
}

#[test]
fn string_put_refuses_a_zero_byte() {
    assert_eq!(
        binding::string_put(1, 2, 0, 0, 0, "Hello\0World"),
        Err(MlxError::Any("Error creating string Hello\0World".to_string()))
    );
}

#[test]
fn new_image_carries_the_size() {
    assert_eq!(
        binding::new_image(1, 1080, 720),
        NativeCall::NewImage { mlx_ptr: 1, width: 1080, height: 720 }
    );
}

#[test]
fn new_image_reply_names_the_size_on_failure() {
    assert_eq!(
        binding::new_image_reply(0, 1080, 720),
        Err(MlxError::Any("Error creating image with 1080 width, 720 height.".to_string()))
    );
    assert_eq!(
        binding::new_image_reply(0, -5, 0),
        Err(MlxError::Any("Error creating image with -5 width, 0 height.".to_string()))
    );
}

#[test]
fn new_image_reply_hands_the_image_on() {
    assert_eq!(binding::new_image_reply(0x3000, 1080, 720), Ok(0x3000));
}

#[test]
fn xpm_to_image_terminates_each_line() {
    let lines = vec!["2 1 1 1".to_string(), "a c #ffffff".to_string(), "aa".to_string()];
    assert_eq!(
        binding::xpm_to_image(1, lines),
        NativeCall::XpmToImage {
            mlx_ptr: 1,
            xpm_data: vec![
                b"2 1 1 1\0".to_vec(),
                b"a c #ffffff\0".to_vec(),
                b"aa\0".to_vec(),
            ],
        }
    );
}

#[test]
fn xpm_to_image_of_no_lines() {
    assert_eq!(
        binding::xpm_to_image(1, Vec::new()),
        NativeCall::XpmToImage { mlx_ptr: 1, xpm_data: Vec::new() }
    );
}

#[test]
fn xpm_file_to_image_marshals_the_name() {
    assert_eq!(
        binding::xpm_file_to_image(1, "cat.xpm"),
        Ok(NativeCall::XpmFileToImage { mlx_ptr: 1, filename: b"cat.xpm\0".to_vec() })
    );
    assert_eq!(
        binding::xpm_file_to_image(1, "cat\0.xpm"),
        Err(MlxError::Any("Error creating string cat\0.xpm".to_string()))
    );
}

#[test]
fn xpm_image_reply_reads_the_decoder() {
    assert_eq!(
        binding::xpm_image_reply(0x3000, 16, 9),
        Ok(XpmImage { ptr: 0x3000, width: 16, height: 9 })
    );
    assert_eq!(
        binding::xpm_image_reply(0, 16, 9),
        Err(MlxError::Any("Error creating xpm image.".to_string()))
    );
}

#[test]
fn image_calls_carry_their_arguments() {
    assert_eq!(
        binding::destroy_image(1, 3),
        NativeCall::DestroyImage { mlx_ptr: 1, img_ptr: 3 }
    );
    assert_eq!(binding::get_data_addr(3), NativeCall::GetDataAddr { img_ptr: 3 });
    assert_eq!(
        binding::put_image_to_window(1, 2, 3, 200, 100),
        NativeCall::PutImageToWindow { mlx_ptr: 1, win_ptr: 2, img_ptr: 3, x: 200, y: 100 }
    );
}

#[test]
fn get_data_addr_reply_reads_the_layout() {
    assert_eq!(
        binding::get_data_addr_reply(0x5000, 32, 4320, 0),
        Ok(AddrData { area: 0x5000, bits_per_pixel: 32, size_line: 4320, endian: 0 })
    );
    assert_eq!(
        binding::get_data_addr_reply(0, 32, 4320, 0),
        Err(MlxError::Any("Error when trying to access image data".to_string()))
    );
}

#[test]
fn hook_calls_carry_their_arguments() {
    assert_eq!(binding::mouse_hook(2, 0), NativeCall::MouseHook { win_ptr: 2, param: 0 });
    assert_eq!(binding::key_hook(2, 1), NativeCall::KeyHook { win_ptr: 2, param: 1 });
    assert_eq!(binding::expose_hook(2, 2), NativeCall::ExposeHook { win_ptr: 2, param: 2 });
    assert_eq!(binding::loop_hook(2, 3), NativeCall::LoopHook { win_ptr: 2, param: 3 });
    assert_eq!(
        binding::hook(2, 17, 1 << 17, 4),
        NativeCall::Hook { win_ptr: 2, x_event: 17, x_mask: 1 << 17, param: 4 }
    );
}
