use rust_task::haribote::file::{File, FileManager, Whence};
use rust_task::haribote::lang::{JisChar, JisString, LangMode};
use rust_task::haribote::malloc::SimpleAllocator;
use rust_task::haribote::timer::TimerManager;
use rust_task::haribote::window::{palette_color, HariWindow, Point, Size, WindowId};
use rust_task::haribote::{App, ExitStatus, Handle, HostCall, RunEvent, Syscall, OS_ID};
use rust_task::hrb::HrbExecutable;
use rust_task::ir86::types::Offset32;
use rust_task::ume86::state::RtReg;
use rust_task::ume86::ume::Exception;

#[test]
fn whence_from_u32() {
    assert_eq!(Whence::from_u32(0), Some(Whence::SeekSet));
    assert_eq!(Whence::from_u32(1), Some(Whence::SeekCur));
    assert_eq!(Whence::from_u32(2), Some(Whence::SeekEnd));
    assert_eq!(Whence::from_u32(3), None);
}

#[test]
fn file_seek_and_read() {
    let mut f = File::new(b"hello, world".to_vec()).unwrap();
    assert_eq!(f.read(5), b"hello");
    assert_eq!(f.get_file_size(Whence::SeekCur), 5);
    assert_eq!(f.seek(-3, Whence::SeekEnd), Some(9));
    assert_eq!(f.read(100), b"rld");
    assert_eq!(f.read(100), b"");
    assert_eq!(f.get_file_size(Whence::SeekSet), 12);
    assert_eq!(f.get_file_size(Whence::SeekEnd), 0);
    // before the start: clamped to the start
    assert_eq!(f.seek(-20, Whence::SeekCur), None);
    assert_eq!(f.get_file_size(Whence::SeekCur), 0);
    // past the end: clamped to the end
    assert_eq!(f.seek(20, Whence::SeekSet), None);
    assert_eq!(f.get_file_size(Whence::SeekCur), 12);
}

#[test]
fn file_manager_handles() {
    let mut fm = FileManager::new();
    assert_eq!(fm.open_file(None), None);
    let h = fm.open_file(Some(b"abc".to_vec())).unwrap();
    assert_eq!(h, Handle(1));
    let h2 = fm.open_file(Some(b"xyz".to_vec())).unwrap();
    assert_eq!(h2, Handle(2));
    assert_eq!(fm.read(h, 2), Some(b"ab".to_vec()));
    assert_eq!(fm.seek(h2, 1, Whence::SeekSet), Some(1));
    assert_eq!(fm.read(h2, 9), Some(b"yz".to_vec()));
    assert_eq!(fm.close_file(h), Some(()));
    assert_eq!(fm.close_file(h), None);
    assert!(fm.get(h).is_none());
    assert_eq!(fm.read(h, 2), None);
}

#[test]
fn allocator_rounds_up_to_16_bytes() {
    let mut a = SimpleAllocator::new();
    assert_eq!(a.allocate(1), None);
    a.init(0x100, 0x40);
    assert_eq!(a.allocate(1), Some(0x100));
    assert_eq!(a.allocate(17), Some(0x110));
    assert_eq!(a.allocate(32), None);
    assert_eq!(a.allocate(16), Some(0x130));
    assert_eq!(a.allocate(0), Some(0x140));
    assert_eq!(a.allocate(1), None);
}

#[test]
fn shift_jis_characters() {
    let s = JisString::from_bytes(&[0x41, 0x82, 0xa0, 0x88, 0x9f]);
    let mut chars = s.chars(LangMode::ShiftJIS);
    assert_eq!(chars.next(), Some(JisChar::ANK(0x41)));
    assert_eq!(chars.next(), Some(JisChar::Kanji(283)));
    assert_eq!(chars.next(), Some(JisChar::Kanji(15 * 94)));
    assert_eq!(chars.next(), None);
    let t = JisString::from_bytes(&[0x82]);
    let mut cut = t.chars(LangMode::ShiftJIS);
    assert_eq!(cut.next(), None);
    let mut ascii = t.chars(LangMode::Ascii);
    assert_eq!(ascii.next(), Some(JisChar::ANK(0x82)));
    assert_eq!(JisString::from_bytes(b"abc").to_str(), Some("abc"));
    assert_eq!(JisString::from_bytes(&[0xff]).to_str(), None);
}

#[test]
fn palette_colors() {
    assert_eq!(palette_color(0), 0xff00_0000);
    assert_eq!(palette_color(1), 0xff00_00ff);
    assert_eq!(palette_color(7), 0xffff_ffff);
    assert_eq!(palette_color(8), 0xffc6_c6c6);
    assert_eq!(palette_color(16), 0xff00_0000);
    assert_eq!(palette_color(17), 0xff00_0033);
    assert_eq!(palette_color(16 + 6), 0xff00_3300);
    assert_eq!(palette_color(231), 0xffff_ffff);
    assert_eq!(palette_color(232), 0);
}

fn window() -> HariWindow {
    HariWindow { window_id: WindowId(1), size: Size { width: 100, height: 100 }, buffer_ptr: 0, buffer_len: 10000 }
}

#[test]
fn clipping_keeps_the_drawable_area() {
    let w = window();
    assert_eq!(
        w.try_clip_rect(Point::new(0, 0), Point::new(200, 200)),
        Some((Point::new(2, 22), Point::new(97, 97)))
    );
    assert_eq!(
        w.try_clip_rect(Point::new(50, 60), Point::new(10, 30)),
        Some((Point::new(10, 30), Point::new(50, 60)))
    );
    assert_eq!(w.try_clip_rect(Point::new(0, 0), Point::new(1, 100)), None);
    assert_eq!(w.try_clip_point(Point::new(2, 22)), Some(Point::new(2, 22)));
    assert_eq!(w.try_clip_point(Point::new(98, 50)), None);
    assert_eq!(w.try_clip_point(Point::new(50, 21)), None);
}

#[test]
fn fill_rect_fills_the_clipped_rectangle() {
    let w = window();
    let mut mem = vec![0u8; 10000];
    assert!(w.fill_rect(&mut mem, Point::new(12, 31), Point::new(10, 30), 5, false).is_none());
    for y in 0..100usize {
        for x in 0..100usize {
            let expected = if (10..=12).contains(&x) && (30..=31).contains(&y) { 5 } else { 0 };
            assert_eq!(mem[y * 100 + x], expected);
        }
    }
    let d = w.redraw_rect(&mem, Point::new(10, 30), Point::new(11, 30)).unwrap();
    assert_eq!(d.window_id, WindowId(1));
    assert_eq!((d.x, d.y, d.width, d.height), (8, 8, 2, 1));
    assert_eq!(d.rgba, vec![0xff, 0x00, 0xff, 0xff, 0xff, 0x00, 0xff, 0xff]);
    let mut mem2 = vec![0u8; 10000];
    let d2 = w.fill_rect(&mut mem2, Point::new(0, 0), Point::new(5, 5), 3, true);
    assert!(d2.is_none());
    assert!(mem2.iter().all(|&b| b == 0));
}

#[test]
fn set_pixel_and_draw_line() {
    let w = window();
    let mut mem = vec![0u8; 10000];
    w.set_pixel(&mut mem, Point::new(40, 40), 9, false);
    assert_eq!(mem[40 * 100 + 40], 9);
    w.set_pixel(&mut mem, Point::new(1, 40), 9, false);
    assert_eq!(mem[40 * 100 + 1], 0);
    w.draw_line(&mut mem, Point::new(10, 30), Point::new(14, 30), 4, false);
    for x in 10..=14 {
        assert_eq!(mem[30 * 100 + x], 4);
    }
    w.draw_line(&mut mem, Point::new(20, 30), Point::new(23, 33), 6, false);
    for i in 0..=3 {
        assert_eq!(mem[(30 + i) * 100 + 20 + i], 6);
    }
}

#[test]
fn draw_string_puts_glyphs_side_by_side() {
    let w = window();
    let mut mem = vec![0u8; 10000];
    let mut hankaku = vec![0u8; 0x60 * 16];
    hankaku[0x21 * 16] = 0x80;
    hankaku[0x21 * 16 + 1] = 0x01;
    let text = JisString::from_bytes(b"A A");
    let mut chars = text.chars(LangMode::Ascii);
    let r = w.draw_string(&mut mem, Point::new(10, 30), &mut chars, 5, 7, false, &hankaku, &[]);
    assert!(r.is_none());
    let lit = [(10usize, 30usize), (17, 31), (26, 30), (33, 31)];
    for y in 0..100usize {
        for x in 0..100usize {
            let expected = if lit.contains(&(x, y)) { 7 } else { 0 };
            assert_eq!(mem[y * 100 + x], expected, "pixel ({}, {})", x, y);
        }
    }
    let mut chars = text.chars(LangMode::Ascii);
    let d = w.draw_string(&mut mem, Point::new(10, 30), &mut chars, 1, 7, true, &hankaku, &[]).unwrap();
    assert_eq!((d.x, d.y, d.width, d.height), (8, 8, 9, 17));
}

#[test]
fn new_window_fills_its_buffer() {
    let mut mem = vec![1u8; 100];
    let w = HariWindow::new(WindowId(3), Size::new(4, 5), 10, &mut mem);
    assert_eq!(w.buffer_len, 20);
    assert!(mem[10..30].iter().all(|&b| b == 8));
    assert!(mem[..10].iter().all(|&b| b == 1));
    assert!(mem[30..].iter().all(|&b| b == 1));
    assert_eq!(HariWindow::host_size(Size::new(100, 100), 20), (96, 96));
}

#[test]
fn point_arithmetic() {
    let p = Point::new(3, 4);
    assert_eq!(p.right_bottom(Size::new(10, 20)), Point::new(12, 23));
    assert_eq!(p.plus(Point::new(1, -1)), Point::new(4, 3));
    assert_eq!(Point::zero(), Point::new(0, 0));
}

#[test]
fn timers_fire_once() {
    let mut t = TimerManager::new();
    let h = t.allocate();
    assert_eq!(h, Handle(1));
    t.init(h, 0x10005);
    assert_eq!(t.set(h, 100), Some((100, 0x10005)));
    assert!(t.timers.get(&1).unwrap().is_active);
    t.ack(0x10005);
    assert!(!t.timers.get(&1).unwrap().is_active);
    assert_eq!(t.set(Handle(9), 100), None);
}

#[test]
fn timers_ack_stops_lowest_handle_first() {
    let mut t = TimerManager::new();
    let a = t.allocate();
    let b = t.allocate();
    let c = t.allocate();
    t.init(a, 7);
    t.init(b, 7);
    t.init(c, 8);
    t.set(b, 10);
    t.set(a, 10);
    t.set(c, 10);
    assert_eq!(t.first_firing(7), Some(1));
    t.ack(7);
    assert!(!t.timers.get(&1).unwrap().is_active);
    assert!(t.timers.get(&2).unwrap().is_active);
    assert_eq!(t.first_firing(7), Some(2));
    t.ack(7);
    assert!(!t.timers.get(&2).unwrap().is_active);
    assert!(t.timers.get(&3).unwrap().is_active);
    assert_eq!(t.first_firing(7), None);
    t.ack(7);
    assert!(t.timers.get(&3).unwrap().is_active);
}

/// An executable whose code is `code` from 0x24 on, with `data` at 0x100 of
/// its data segment of `size_of_ds` bytes.
fn executable(code: &[u8], data: &[u8], size_of_ds: u32) -> Vec<u8> {
    let start_data: u32 = 0x24 + code.len() as u32;
    let mut v = Vec::new();
    v.extend_from_slice(&size_of_ds.to_le_bytes());
    v.extend_from_slice(b"Hari");
    v.extend_from_slice(&0u32.to_le_bytes());
    v.extend_from_slice(&0x100u32.to_le_bytes());
    v.extend_from_slice(&(data.len() as u32).to_le_bytes());
    v.extend_from_slice(&start_data.to_le_bytes());
    v.extend_from_slice(&[0xe9, 0, 0, 0]);
    v.extend_from_slice(&4u32.to_le_bytes());
    v.extend_from_slice(&0u32.to_le_bytes());
    v.extend_from_slice(code);
    v.extend_from_slice(data);
    v
}

#[test]
fn identify_reads_the_header() {
    let bin = executable(&[0x90], b"xy", 0x200);
    let h = HrbExecutable::identify(&bin).unwrap();
    assert_eq!(h.size_of_ds, 0x200);
    assert_eq!(h.esp, 0x100);
    assert_eq!(h.size_of_data, 2);
    assert_eq!(h.start_data, 0x25);
    assert_eq!(h.entry_point(), 0x24);
    assert_eq!(&h.signature, b"Hari");
    assert!(HrbExecutable::identify(&bin[..0x23]).is_none());
    let mut bad = bin.clone();
    bad[4] = b'h';
    assert!(HrbExecutable::identify(&bad).is_none());
}

fn app_with(code: &[u8]) -> App {
    let bin = executable(code, b"abc\0title\0", 0x1000);
    App::instantiate(&bin, b"hello", 20, Vec::new(), Vec::new()).unwrap()
}

fn set(app: &mut App, r: RtReg, v: u32) {
    app.emulator.state_mut().write32(r, v);
}

fn reg(app: &App, r: RtReg) -> u32 {
    app.emulator.state().read32(r)
}

#[test]
fn instantiate_lays_out_the_data_segment() {
    let app = app_with(&[0x90]);
    let data = app.emulator.data();
    assert_eq!(data.len(), 0x1000);
    assert!(data[..0x100].iter().all(|&b| b == 0));
    assert_eq!(&data[0x100..0x10a], b"abc\0title\0");
    assert!(data[0x10a..].iter().all(|&b| b == 0));
    assert_eq!(reg(&app, RtReg::ESP), 0x100);
    assert_eq!(app.lang_mode, LangMode::Ascii);
    assert_eq!(app.max_step, 1_000_000);
}

#[test]
fn a_task_that_exits() {
    // MOV EDX, 4; INT 0x40
    let mut app = app_with(&[0xba, 0x04, 0x00, 0x00, 0x00, 0xcd, 0x40]);
    assert_eq!(app.execute(), Ok(RunEvent::SystemCall));
    let r = app.syscall();
    assert!(matches!(r, Ok(Syscall::Done(ExitStatus::Exit, ref v)) if v.is_empty()));
}

#[test]
fn get_cstr_finds_the_string() {
    let app = app_with(&[0x90]);
    assert_eq!(app.get_cstr(0x100).unwrap().0, b"abc");
    assert_eq!(app.get_cstr(0x104).unwrap().0, b"title");
    assert_eq!(app.get_cstr(0x10a).unwrap().0, b"");
    assert!(matches!(app.get_cstr(0x1000), Err(Exception::SegmentationViolation(Offset32(0x1000)))));
}

#[test]
fn adjust_keycode_maps_the_keys() {
    let mut app = app_with(&[0x90]);
    assert_eq!(app.adjust_keycode(-1, false), u32::MAX);
    assert_eq!(app.adjust_keycode(0x41, false), 0x41);
    assert_eq!(app.adjust_keycode(0x84, false), 0x34);
    assert_eq!(app.adjust_keycode(0x85, false), 0x36);
    assert_eq!(app.adjust_keycode(0x86, false), 0x38);
    assert_eq!(app.adjust_keycode(0x87, false), 0x32);
    assert_eq!(app.adjust_keycode(0x90, false), u32::MAX);
    assert_eq!(app.adjust_keycode(0x141, false), 0x41);
    assert_eq!(app.adjust_keycode(0x1ff, true), 0x1ff);
    assert_eq!(app.adjust_keycode(0x10005, false), 5);
}

#[test]
fn key_wait_and_delivery() {
    let mut app = app_with(&[0x90]);
    set(&mut app, RtReg::EDX, 15);
    set(&mut app, RtReg::EAX, 1);
    assert!(matches!(app.syscall(), Ok(Syscall::Done(ExitStatus::Wait(10), _))));
    assert_eq!(app.key_request(), Some(true));
    assert_eq!(app.take_key(-1), Some(ExitStatus::Wait(10)));
    assert_eq!(app.take_key(0x84), None);
    assert_eq!(reg(&app, RtReg::EAX), 0x34);
    assert_eq!(app.key_request(), None);
}

#[test]
fn syscalls_on_registers() {
    let mut app = app_with(&[0x90]);
    set(&mut app, RtReg::EDX, 27);
    assert!(matches!(app.syscall(), Ok(Syscall::Done(ExitStatus::Continue, _))));
    assert_eq!(reg(&app, RtReg::EAX), 0);
    assert_eq!(reg(&app, RtReg::ECX), OS_ID);
    assert_eq!(reg(&app, RtReg::EDX), 0);

    set(&mut app, RtReg::EDX, 8);
    set(&mut app, RtReg::EAX, 0x800);
    set(&mut app, RtReg::ECX, 0x100);
    assert!(matches!(app.syscall(), Ok(Syscall::Done(ExitStatus::Continue, _))));
    set(&mut app, RtReg::EDX, 9);
    set(&mut app, RtReg::ECX, 10);
    app.syscall().ok();
    assert_eq!(reg(&app, RtReg::EAX), 0x800);
    set(&mut app, RtReg::EDX, 9);
    app.syscall().ok();
    assert_eq!(reg(&app, RtReg::EAX), 0x810);

    set(&mut app, RtReg::EDX, 99);
    let r = app.syscall();
    assert!(matches!(r, Ok(Syscall::Done(ExitStatus::Exit, ref v)) if matches!(v.as_slice(), [HostCall::Unsupported(99)])));
}

#[test]
fn syscall_cmdline_copies_the_command_line() {
    let mut app = app_with(&[0x90]);
    set(&mut app, RtReg::EDX, 26);
    set(&mut app, RtReg::EBX, 0x200);
    set(&mut app, RtReg::ECX, 8);
    assert!(matches!(app.syscall(), Ok(Syscall::Done(ExitStatus::Continue, _))));
    assert_eq!(reg(&app, RtReg::EAX), 5);
    assert_eq!(&app.emulator.data()[0x200..0x208], b"hello\0\0\0");
    set(&mut app, RtReg::EDX, 26);
    set(&mut app, RtReg::EBX, 0xfff);
    set(&mut app, RtReg::ECX, 8);
    assert!(matches!(app.syscall(), Err(Exception::SegmentationViolation(Offset32(0xfff)))));
}

#[test]
fn syscall_putchar_and_putstr() {
    let mut app = app_with(&[0x90]);
    set(&mut app, RtReg::EDX, 1);
    set(&mut app, RtReg::EAX, 0x1241);
    let r = app.syscall();
    assert!(matches!(r, Ok(Syscall::Done(ExitStatus::Continue, ref v)) if matches!(v.as_slice(), [HostCall::PutChar(0x41)])));
    set(&mut app, RtReg::EDX, 2);
    set(&mut app, RtReg::EBX, 0x104);
    let r = app.syscall();
    assert!(matches!(r, Ok(Syscall::Done(ExitStatus::Continue, ref v)) if matches!(v.as_slice(), [HostCall::PutStr(s)] if s == b"title")));
}

#[test]
fn syscall_files() {
    let mut app = app_with(&[0x90]);
    set(&mut app, RtReg::EDX, 21);
    set(&mut app, RtReg::EBX, 0x104);
    let r = app.syscall();
    assert!(matches!(r, Ok(Syscall::OpenFile(ref name)) if name == b"title"));
    app.open_file(Some(b"0123456789".to_vec()));
    let h = reg(&app, RtReg::EAX);
    assert_eq!(h, 1);
    // seek to 3
    set(&mut app, RtReg::EDX, 23);
    set(&mut app, RtReg::EAX, h);
    set(&mut app, RtReg::EBX, 3);
    set(&mut app, RtReg::ECX, 0);
    app.syscall().ok();
    // read 4 bytes to 0x300
    set(&mut app, RtReg::EDX, 25);
    set(&mut app, RtReg::EAX, h);
    set(&mut app, RtReg::EBX, 0x300);
    set(&mut app, RtReg::ECX, 4);
    app.syscall().ok();
    assert_eq!(reg(&app, RtReg::EAX), 4);
    assert_eq!(&app.emulator.data()[0x300..0x304], b"3456");
    // size
    set(&mut app, RtReg::EDX, 24);
    set(&mut app, RtReg::EAX, h);
    set(&mut app, RtReg::ECX, 0);
    app.syscall().ok();
    assert_eq!(reg(&app, RtReg::EAX), 10);
    app.open_file(None);
    assert_eq!(reg(&app, RtReg::EAX), 0);
}

#[test]
fn syscall_window_drawing() {
    let mut app = app_with(&[0x90]);
    set(&mut app, RtReg::EDX, 5);
    set(&mut app, RtReg::ECX, 0x104);
    set(&mut app, RtReg::ESI, 20);
    set(&mut app, RtReg::EDI, 30);
    set(&mut app, RtReg::EBX, 0x400);
    let r = app.syscall();
    assert!(matches!(r, Ok(Syscall::OpenWindow { ref title, size }) if title == b"title" && size == Size::new(20, 30)));
    let calls = app.open_window(7).unwrap();
    assert!(matches!(calls.as_slice(), [HostCall::Redraw(d)] if d.window_id == WindowId(7) && d.width == 16 && d.height == 6));
    assert_eq!(reg(&app, RtReg::EAX), 2);
    assert!(app.emulator.data()[0x400..0x400 + 600].iter().all(|&b| b == 8));
    assert!(app.window_handle(2).map(|(_, redraw)| redraw).unwrap());
    assert!(!app.window_handle(3).map(|(_, redraw)| redraw).unwrap());
    assert!(app.window_handle(4).is_none());
    // fill (2, 22) to (4, 23) with colour 3
    set(&mut app, RtReg::EDX, 7);
    set(&mut app, RtReg::EBX, 3);
    set(&mut app, RtReg::EAX, 2);
    set(&mut app, RtReg::ECX, 22);
    set(&mut app, RtReg::ESI, 4);
    set(&mut app, RtReg::EDI, 23);
    set(&mut app, RtReg::EBP, 3);
    let r = app.syscall();
    assert!(matches!(r, Ok(Syscall::Done(ExitStatus::Continue, ref v)) if v.is_empty()));
    let data = app.emulator.data();
    assert_eq!(data[0x400 + 22 * 20 + 2], 3);
    assert_eq!(data[0x400 + 23 * 20 + 4], 3);
    assert_eq!(data[0x400 + 23 * 20 + 5], 8);
    assert_eq!(data[0x400 + 21 * 20 + 2], 8);
    // a line from (3, 24) to (6, 24) in colour 5, not shown at once
    set(&mut app, RtReg::EDX, 13);
    set(&mut app, RtReg::EBX, 3);
    set(&mut app, RtReg::EAX, 3);
    set(&mut app, RtReg::ECX, 24);
    set(&mut app, RtReg::ESI, 6);
    set(&mut app, RtReg::EDI, 24);
    set(&mut app, RtReg::EBP, 5);
    let r = app.syscall();
    assert!(matches!(r, Ok(Syscall::Done(ExitStatus::Continue, ref v)) if v.is_empty()));
    let data = app.emulator.data();
    for x in 3..=6 {
        assert_eq!(data[0x400 + 24 * 20 + x], 5);
    }
    assert_eq!(data[0x400 + 24 * 20 + 7], 8);
    assert_eq!(data[0x400 + 24 * 20 + 2], 8);
    // the pixel (10, 25) in colour 9, shown at once
    set(&mut app, RtReg::EDX, 11);
    set(&mut app, RtReg::EBX, 2);
    set(&mut app, RtReg::ESI, 10);
    set(&mut app, RtReg::EDI, 25);
    set(&mut app, RtReg::EAX, 9);
    let r = app.syscall();
    assert!(matches!(r, Ok(Syscall::Done(ExitStatus::Continue, ref v))
        if matches!(v.as_slice(), [HostCall::Redraw(d)] if d.width == 1 && d.height == 1)));
    assert_eq!(app.emulator.data()[0x400 + 25 * 20 + 10], 9);
    assert_eq!(app.dispose(), vec![WindowId(7)]);
    assert!(app.window_handle(2).is_none());
}

#[test]
fn syscall_timers() {
    let mut app = app_with(&[0x90]);
    set(&mut app, RtReg::EDX, 16);
    app.syscall().ok();
    let h = reg(&app, RtReg::EAX);
    assert_eq!(h, 1);
    set(&mut app, RtReg::EDX, 17);
    set(&mut app, RtReg::EBX, h);
    set(&mut app, RtReg::EAX, 7);
    app.syscall().ok();
    set(&mut app, RtReg::EDX, 18);
    set(&mut app, RtReg::EBX, h);
    set(&mut app, RtReg::EAX, 50);
    let r = app.syscall();
    assert!(matches!(r, Ok(Syscall::Done(ExitStatus::Continue, ref v))
        if matches!(v.as_slice(), [HostCall::ScheduleEvent { delay: 500, code: 0x10007 }])));
    assert_eq!(app.adjust_keycode(0x10007, false), 7);
}

#[test]
fn read_tsc_counts_steps() {
    let mut app = app_with(&[0x90]);
    app.read_tsc(3);
    assert_eq!(reg(&app, RtReg::EAX), 3_000_000);
    assert_eq!(reg(&app, RtReg::EDX), 0);
    app.read_tsc(5000);
    let tsc: u64 = 5000 * 1_000_000;
    assert_eq!(reg(&app, RtReg::EAX), tsc as u32);
    assert_eq!(reg(&app, RtReg::EDX), (tsc >> 32) as u32);
}
