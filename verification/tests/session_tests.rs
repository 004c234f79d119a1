use std::collections::VecDeque;

use rust_virt_manager::backend::{push_sample, DomainSummary, MAX_POINTS};
use rust_virt_manager::console::serial::{
    ansi_index_to_color, console_command, feed_terminal, new_terminal, start_failed_status, sync_screen,
};
use rust_virt_manager::console::vnc::{
    apply_vnc_update, failure_status, Framebuffer, Key, Rgb, VncFailure, VncInput, VncRect, VncUpdate,
};
use rust_virt_manager::console::ConsoleStatus;
use rust_virt_manager::domain::{DomainState, MemoryConfig};
use rust_virt_manager::events::{
    connections_wf_holds, initial_connections, names_distinct, selected_domain_info, GuiConnection,
};
use rust_virt_manager::state::ConnectionState;
use rust_virt_manager::qemu_capabilities::qemu_binary;
use rust_virt_manager::views::vm_window::{key_inputs, pointer_buttons, pointer_inputs, Scroll};

fn key(keysym: u32, down: bool) -> VncInput {
    VncInput::Key { keysym, down }
}

fn mouse(x: u16, y: u16, buttons: u8) -> VncInput {
    VncInput::Mouse { x, y, buttons }
}

#[test]
fn resize_starts_black_screen() {
    let mut screen: Option<Framebuffer> = None;
    assert!(apply_vnc_update(&mut screen, &VncUpdate::Resize { width: 3, height: 2 }));
    let fb = screen.unwrap();
    assert_eq!((fb.width, fb.height), (3, 2));
    assert_eq!(fb.pixels.len(), 6);
    assert!(fb.pixels.iter().all(|p| *p == Rgb { r: 0, g: 0, b: 0 }));
}

#[test]
fn updates_before_resize_are_dropped() {
    let mut screen: Option<Framebuffer> = None;
    let rect = VncRect { x: 0, y: 0, width: 1, height: 1 };
    assert!(!apply_vnc_update(&mut screen, &VncUpdate::Raw { rect, data: vec![1, 2, 3, 4] }));
    assert!(!apply_vnc_update(&mut screen, &VncUpdate::Copy { src: rect, dst: rect }));
    assert!(screen.is_none());
}

#[test]
fn raw_update_draws_pixels() {
    let mut screen = Some(Framebuffer::new(2, 2));
    let rect = VncRect { x: 1, y: 1, width: 1, height: 1 };
    assert!(apply_vnc_update(&mut screen, &VncUpdate::Raw { rect, data: vec![9, 8, 7, 255] }));
    let fb = screen.unwrap();
    assert_eq!(fb.pixels[3], Rgb { r: 9, g: 8, b: 7 });
    assert_eq!(fb.pixels[0], Rgb { r: 0, g: 0, b: 0 });
}

fn white_jpeg(width: u32, height: u32) -> Vec<u8> {
    let mut out = Vec::new();
    let pixels = vec![255u8; (width * height * 3) as usize];
    let mut enc = image::codecs::jpeg::JpegEncoder::new_with_quality(&mut out, 100);
    enc.encode(&pixels, width, height, image::ExtendedColorType::Rgb8).unwrap();
    out
}

#[test]
fn jpeg_update_is_decoded_and_drawn() {
    let mut screen = Some(Framebuffer::new(3, 2));
    let rect = VncRect { x: 1, y: 0, width: 2, height: 2 };
    assert!(apply_vnc_update(&mut screen, &VncUpdate::Jpeg { rect, data: white_jpeg(2, 2) }));
    let fb = screen.unwrap();
    assert_eq!((fb.width, fb.height), (3, 2));
    assert_eq!(fb.pixels[0], Rgb { r: 0, g: 0, b: 0 });
    assert!(fb.pixels[1].r > 240 && fb.pixels[2].g > 240 && fb.pixels[5].b > 240);
}

#[test]
fn undecodable_jpeg_is_dropped() {
    let mut screen = Some(Framebuffer::new(1, 1));
    let rect = VncRect { x: 0, y: 0, width: 1, height: 1 };
    assert!(!apply_vnc_update(&mut screen, &VncUpdate::Jpeg { rect, data: vec![1, 2, 3] }));
    assert_eq!(screen.unwrap().pixels[0], Rgb { r: 0, g: 0, b: 0 });
    let mut none: Option<Framebuffer> = None;
    assert!(!apply_vnc_update(&mut none, &VncUpdate::Jpeg { rect, data: white_jpeg(1, 1) }));
    assert!(none.is_none());
}

#[test]
fn ignored_update_changes_nothing() {
    let mut screen = Some(Framebuffer::new(1, 1));
    assert!(!apply_vnc_update(&mut screen, &VncUpdate::Ignored));
    assert_eq!(screen.unwrap().pixels.len(), 1);
}

#[test]
fn framebuffer_shape_check() {
    assert!(Framebuffer::new(4, 3).is_wf());
    let broken = Framebuffer { width: 2, height: 2, pixels: vec![] };
    assert!(!broken.is_wf());
}

#[test]
fn failure_messages() {
    assert_eq!(
        failure_status(VncFailure::Connect, "refused"),
        ConsoleStatus::Error("Connect failed: refused".to_string())
    );
    assert_eq!(
        failure_status(VncFailure::Handshake, "bad password"),
        ConsoleStatus::Error("VNC handshake failed: bad password".to_string())
    );
    assert_eq!(failure_status(VncFailure::Receive, "eof"), ConsoleStatus::Error("VNC error: eof".to_string()));
    assert_eq!(
        start_failed_status("no such file"),
        ConsoleStatus::Error("Failed to start: no such file".to_string())
    );
}

#[test]
fn serial_console_command() {
    assert_eq!(console_command("qemu:///system", "vm1"), "virsh -c qemu:///system console vm1");
}

#[test]
fn button_masks() {
    assert_eq!(pointer_buttons(false, false, false), 0);
    assert_eq!(pointer_buttons(true, false, false), 1);
    assert_eq!(pointer_buttons(false, true, false), 2);
    assert_eq!(pointer_buttons(true, false, true), 5);
    assert_eq!(pointer_buttons(true, true, true), 7);
}

#[test]
fn wheel_is_press_and_release() {
    assert_eq!(pointer_inputs(3, 4, 1, Scroll::Up), vec![mouse(3, 4, 9), mouse(3, 4, 1)]);
    assert_eq!(pointer_inputs(3, 4, 0, Scroll::Down), vec![mouse(3, 4, 16), mouse(3, 4, 0)]);
    assert_eq!(pointer_inputs(3, 4, 2, Scroll::Still), vec![mouse(3, 4, 2)]);
}

#[test]
fn keys_with_modifiers() {
    assert_eq!(
        key_inputs(Key::C, true, false, true, false),
        vec![key(0xffe3, true), key(0x63, true)]
    );
    assert_eq!(
        key_inputs(Key::C, false, false, true, true),
        vec![key(0x63, false), key(0xffe9, false), key(0xffe3, false)]
    );
    assert_eq!(
        key_inputs(Key::A, true, true, true, true),
        vec![key(0xffe3, true), key(0xffe9, true), key(0x41, true)]
    );
    assert_eq!(key_inputs(Key::Other, true, false, true, true), vec![]);
}

#[test]
fn history_keeps_last_samples() {
    let mut h: VecDeque<u32> = VecDeque::new();
    for i in 0..(MAX_POINTS as u32 + 5) {
        push_sample(&mut h, i);
        assert!(h.len() <= MAX_POINTS);
        assert_eq!(*h.back().unwrap(), i);
    }
    assert_eq!(h.len(), MAX_POINTS);
    assert_eq!(*h.front().unwrap(), 5);
}

#[test]
fn emulator_binary() {
    assert_eq!(qemu_binary("aarch64"), "qemu-system-aarch64");
}

#[test]
fn memory_range_check() {
    let m = |unit: &str, value: u64| MemoryConfig { unit: unit.to_string(), value };
    assert!(m("KiB", u64::MAX).kib_in_range());
    assert!(m("MiB", 1024).kib_in_range());
    assert!(!m("TiB", u64::MAX / 1000).kib_in_range());
    assert!(!m("GB", u64::MAX / 100).kib_in_range());
    assert!(m("GB", 16).kib_in_range());
}

fn summary(name: &str) -> DomainSummary {
    DomainSummary {
        name: name.to_string(),
        uuid: String::new(),
        state: DomainState::Running,
        vcpus: 1,
        memory_kib: 1024,
        xml: String::new(),
    }
}

#[test]
fn duplicate_names_are_found() {
    assert!(names_distinct(&vec![summary("a"), summary("b"), summary("c")]));
    assert!(!names_distinct(&vec![summary("a"), summary("b"), summary("a")]));
    assert!(connections_wf_holds(&vec![GuiConnection::new("qemu:///system".to_string())]));
    let mut c = GuiConnection::new("qemu:///system".to_string());
    c.domains = vec![summary("x"), summary("x")];
    assert!(!connections_wf_holds(&vec![c]));
}

#[test]
fn release_mirrors_press() {
    let press = key_inputs(Key::Delete, true, false, true, true);
    let release = key_inputs(Key::Delete, false, false, true, true);
    let mirrored: Vec<VncInput> = press
        .iter()
        .rev()
        .map(|i| match *i {
            VncInput::Key { keysym, down } => key(keysym, !down),
            other => other,
        })
        .collect();
    assert_eq!(release, mirrored);
}

#[test]
fn start_up_connections() {
    let saved = vec!["qemu:///system".to_string(), "qemu:///session".to_string()];
    let auto = initial_connections(&saved, true);
    assert_eq!(auto.len(), 2);
    assert_eq!(auto[1].uri, "qemu:///session");
    assert!(auto.iter().all(|c| c.state == ConnectionState::Connecting && c.domains.is_empty() && c.expanded));
    let manual = initial_connections(&saved, false);
    assert!(manual.iter().all(|c| c.state == ConnectionState::Disconnected));
    assert!(initial_connections(&vec![], true).is_empty());
}

#[test]
fn selection_lookup() {
    let mut a = GuiConnection::new("qemu:///system".to_string());
    a.domains = vec![summary("web"), summary("db")];
    let b = GuiConnection::new("qemu:///session".to_string());
    let conns = vec![b, a];
    assert_eq!(selected_domain_info(&conns, Some("qemu:///system"), Some("db")), Some((1, 1)));
    assert_eq!(selected_domain_info(&conns, Some("qemu:///system"), Some("mail")), None);
    assert_eq!(selected_domain_info(&conns, Some("qemu:///session"), Some("db")), None);
    assert_eq!(selected_domain_info(&conns, None, Some("db")), None);
    assert_eq!(selected_domain_info(&conns, Some("qemu:///system"), None), None);
}

#[test]
fn terminal_draws_what_it_was_fed() {
    let mut t = new_terminal(3, 10);
    let blank = sync_screen(&t);
    assert_eq!((blank.rows, blank.cols, blank.cursor), (3, 10, (0, 0)));
    assert!(blank.cells.iter().all(|r| r.len() == 10 && r.iter().all(|c| c.ch == " ")));
    feed_terminal(&mut t, b"hi\r\n\x1b[1;31mX");
    let s = sync_screen(&t);
    assert_eq!(s.cells.len(), 3);
    assert_eq!(s.cells[0][0].ch, "h");
    assert_eq!(s.cells[0][1].ch, "i");
    assert_eq!(s.cells[1][0].ch, "X");
    assert!(s.cells[1][0].bold);
    assert_eq!(s.cells[1][0].fg, ansi_index_to_color(1));
    assert!(!s.cells[0][0].bold);
    assert_eq!(s.cursor, (1, 1));
}

#[test]
fn terminal_input_may_come_in_pieces() {
    let mut whole = new_terminal(2, 8);
    feed_terminal(&mut whole, "é\x1b[32mok".as_bytes());
    let mut split = new_terminal(2, 8);
    let bytes = "é\x1b[32mok".as_bytes();
    feed_terminal(&mut split, &bytes[..1]);
    feed_terminal(&mut split, &bytes[1..4]);
    feed_terminal(&mut split, &bytes[4..]);
    let (a, b) = (sync_screen(&whole), sync_screen(&split));
    for j in 0..8 {
        assert_eq!(a.cells[0][j].ch, b.cells[0][j].ch);
        assert_eq!(a.cells[0][j].fg, b.cells[0][j].fg);
    }
    assert_eq!(a.cells[0][0].ch, "é");
    assert_eq!(a.cursor, b.cursor);
}
