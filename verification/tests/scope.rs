use minilibx::{Mlx, MlxImage, MlxWindow, NativeCall, Scope};

fn display() -> Mlx {
    Mlx::new(0x1000).unwrap()
}

#[test]
fn an_empty_scope_releases_the_display() {
    let scope = Scope::new(display());
    assert_eq!(
        scope.release(),
        vec![NativeCall::DestroyDisplay { mlx_ptr: 0x1000 }, NativeCall::Free { ptr: 0x1000 }]
    );
}

#[test]
fn a_scope_releases_the_newest_first_and_the_display_last() {
    let mut scope = Scope::new(display());
    scope.hold_window(MlxWindow::new(0x2000).unwrap());
    scope.hold_image(MlxImage::new(0x3000, 4, 4, 0x5000, 32, 16, 0).unwrap());
    scope.hold_image(MlxImage::new(0x3100, 4, 4, 0x6000, 32, 16, 0).unwrap());
    assert_eq!(
        scope.release(),
        vec![
            NativeCall::DestroyImage { mlx_ptr: 0x1000, img_ptr: 0x3100 },
            NativeCall::DestroyImage { mlx_ptr: 0x1000, img_ptr: 0x3000 },
            NativeCall::DestroyWindow { mlx_ptr: 0x1000, win_ptr: 0x2000 },
            NativeCall::DestroyDisplay { mlx_ptr: 0x1000 },
            NativeCall::Free { ptr: 0x1000 },
        ]
    );
}

#[test]
fn a_scope_releases_each_resource_once() {
    let mut scope = Scope::new(display());
    scope.hold_window(MlxWindow::new(0x2000).unwrap());
    scope.hold_window(MlxWindow::new(0x2100).unwrap());
    let calls = scope.release();
    let first = NativeCall::DestroyWindow { mlx_ptr: 0x1000, win_ptr: 0x2000 };
    let second = NativeCall::DestroyWindow { mlx_ptr: 0x1000, win_ptr: 0x2100 };
    assert_eq!(calls.iter().filter(|call| **call == first).count(), 1);
    assert_eq!(calls.iter().filter(|call| **call == second).count(), 1);
    assert_eq!(calls.len(), 4);
}
