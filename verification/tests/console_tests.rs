use rust_virt_manager::console::serial::{
    ansi_index_to_color, make_empty_screen, screen_from_cells, serial_key_bytes, vt_color_to_rgb,
    VtCell, VtColor,
};
use rust_virt_manager::console::ssh_tunnel::{host_arg, tunnel_args};
use rust_virt_manager::console::vnc::{
    blit_rgba, blit_rgba_image, copy_rect, key_to_keysym, Framebuffer, Key, Rgb, VncRect,
};
use rust_virt_manager::console::ConsoleStatus;

fn rgb(r: u8, g: u8, b: u8) -> Rgb {
    Rgb { r, g, b }
}

#[test]
fn keysyms() {
    assert_eq!(key_to_keysym(Key::A, false), Some(0x61));
    assert_eq!(key_to_keysym(Key::A, true), Some(0x41));
    assert_eq!(key_to_keysym(Key::Num2, true), Some(0x40));
    assert_eq!(key_to_keysym(Key::Enter, true), Some(0xff0d));
    assert_eq!(key_to_keysym(Key::F12, false), Some(0xffc9));
    assert_eq!(key_to_keysym(Key::Other, false), None);
}

#[test]
fn shift_makes_capitals() {
    for k in [Key::A, Key::M, Key::Z] {
        assert_eq!(key_to_keysym(k, true).unwrap() + 0x20, key_to_keysym(k, false).unwrap());
    }
}

#[test]
fn serial_key_sequences() {
    assert_eq!(serial_key_bytes(Key::Enter), Some(b"\r".to_vec()));
    assert_eq!(serial_key_bytes(Key::ArrowUp), Some(b"\x1b[A".to_vec()));
    assert_eq!(serial_key_bytes(Key::PageDown), Some(b"\x1b[6~".to_vec()));
    assert_eq!(serial_key_bytes(Key::A), None);
}

#[test]
fn palette_colors() {
    assert_eq!(ansi_index_to_color(1), rgb(205, 0, 0));
    assert_eq!(ansi_index_to_color(12), rgb(92, 92, 255));
    assert_eq!(ansi_index_to_color(16), rgb(0, 0, 0));
    assert_eq!(ansi_index_to_color(196), rgb(255, 0, 0));
    assert_eq!(ansi_index_to_color(231), rgb(255, 255, 255));
    assert_eq!(ansi_index_to_color(232), rgb(8, 8, 8));
    assert_eq!(ansi_index_to_color(255), rgb(238, 238, 238));
    assert_eq!(vt_color_to_rgb(VtColor::Default, true), rgb(0, 0, 0));
    assert_eq!(vt_color_to_rgb(VtColor::Default, false), rgb(160, 160, 160));
    assert_eq!(vt_color_to_rgb(VtColor::Rgb(1, 2, 3), false), rgb(1, 2, 3));
}

#[test]
fn serial_screens() {
    let s = make_empty_screen(2, 3);
    assert_eq!(s.cells.len(), 2);
    assert_eq!(s.cells[1].len(), 3);
    assert_eq!(s.cells[1][2].ch, " ");
    assert_eq!(s.cursor, (0, 0));
    let cells = vec![vec![
        Some(VtCell { contents: "x".into(), fg: VtColor::Idx(2), bg: VtColor::Default, bold: true }),
        Some(VtCell { contents: String::new(), fg: VtColor::Default, bg: VtColor::Default, bold: false }),
        None,
    ]];
    let s = screen_from_cells(1, 3, &cells, (0, 1));
    assert_eq!(s.cells[0][0].ch, "x");
    assert_eq!(s.cells[0][0].fg, rgb(0, 205, 0));
    assert!(s.cells[0][0].bold);
    assert_eq!(s.cells[0][1].ch, " ");
    assert_eq!(s.cells[0][2].fg, rgb(160, 160, 160));
    assert_eq!(s.cursor, (0, 1));
}

#[test]
fn framebuffer_updates() {
    let mut fb = Framebuffer::new(4, 2);
    assert_eq!(fb.pixels.len(), 8);
    assert!(fb.pixels.iter().all(|p| *p == rgb(0, 0, 0)));
    let data = vec![1, 2, 3, 255, 4, 5, 6, 255];
    blit_rgba(&mut fb, &VncRect { x: 1, y: 1, width: 2, height: 1 }, &data);
    assert_eq!(fb.pixels[5], rgb(1, 2, 3));
    assert_eq!(fb.pixels[6], rgb(4, 5, 6));
    // data for one pixel and a half: only the first is drawn
    blit_rgba(&mut fb, &VncRect { x: 0, y: 0, width: 2, height: 1 }, &[9, 9, 9, 255, 7]);
    assert_eq!(fb.pixels[0], rgb(9, 9, 9));
    assert_eq!(fb.pixels[1], rgb(0, 0, 0));
    copy_rect(&mut fb, &VncRect { x: 1, y: 1, width: 0, height: 0 }, &VncRect { x: 2, y: 0, width: 2, height: 1 });
    assert_eq!(fb.pixels[2], rgb(1, 2, 3));
    assert_eq!(fb.pixels[3], rgb(4, 5, 6));
    blit_rgba_image(&mut fb, 3, 1, 1, 1, &[7, 7, 7, 255]);
    assert_eq!(fb.pixels[7], rgb(7, 7, 7));
}

#[test]
fn tunnel_arguments() {
    assert_eq!(host_arg(Some("root"), "h"), "root@h");
    assert_eq!(host_arg(None, "h"), "h");
    let args = tunnel_args(None, "h", 5901, 5900);
    assert_eq!(args[8], "5901:localhost:5900");
    assert_eq!(args[9], "h");
    assert_eq!(args.len(), 10);
    assert!(ConsoleStatus::Connected.is_connected());
    assert!(!ConsoleStatus::Error("x".into()).is_connected());
}
