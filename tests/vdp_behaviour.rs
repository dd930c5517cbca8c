use agon_vdp::audio::{AudioChannels, GeneratorMessage, ToneCountdown};
use agon_vdp::cursor::{Cursor, PageState};
use agon_vdp::framebuffer::{Color, FrameBuffer};
use agon_vdp::geometry::{line_xcoords, scale, translate, Point};
use agon_vdp::interpreter::Response;
use agon_vdp::keymap::{
    fabgl_virtual_key_to_ascii, sdl_scancode_to_fbgl_virtual_key, FabGlVirtualKey, KeyboardLayout,
    KeyboardLayoutDE, KeyboardLayoutUS, MOD_LCTRL, MOD_LSHIFT, MOD_RALT,
};
use agon_vdp::modes::{lookup_color, palette_color_of};
use agon_vdp::protocol::{parse_control, send_packet};
use agon_vdp::sprites::{color_quantize, Rgba};
use agon_vdp::vdp::VDP;

const BLACK: Color = Color { r: 0, g: 0, b: 0 };
const WHITE: Color = Color { r: 255, g: 255, b: 255 };

/// A font table whose glyph for 'A' has a recognisable pattern, the rest
/// blank.
fn test_font(height: usize) -> Vec<u8> {
    let mut f = vec![0u8; 224 * 19];
    let a = (b'A' - 32) as usize * height;
    let rows = [0x18u8, 0x24, 0x42, 0x7e, 0x42, 0x42, 0x42, 0x00];
    for (i, r) in rows.iter().enumerate() {
        if i < height {
            f[a + i] = *r;
        }
    }
    f
}

fn new_vdp() -> VDP {
    let mut v = VDP::new(test_font(8), test_font(19));
    v.start();
    v
}

fn feed_all(v: &mut VDP, bytes: &[u8]) -> Vec<Response> {
    let none: Vec<u8> = Vec::new();
    bytes.iter().map(|b| v.feed(*b, &none)).collect()
}

fn out_bytes(rs: &[Response]) -> Vec<u8> {
    rs.iter().flat_map(|r| r.bytes.clone()).collect()
}

fn row_is(v: &VDP, y: usize, c: Color) -> bool {
    (0..v.fb.width).all(|x| v.fb.get(x, y) == c)
}

#[test]
fn logical_round_trip_within_one_pixel() {
    let origin = Point::new(0, 0);
    for &(w, h) in &[(512, 384), (320, 200), (640, 480), (1024, 768)] {
        for &(x, y) in &[(0, 0), (1, 1), (639, 511), (1279, 1023), (-5, -7), (333, 777)] {
            let s = scale(Point::new(x, y), true, w, h);
            let q = translate(s, true, h, origin);
            let bx = (q.x - origin.x) * 1280 / w;
            let by = (h - 1 - q.y - origin.y) * 1024 / h;
            let again = scale(Point::new(bx, by), true, w, h);
            assert!((again.x - s.x).abs() <= 1, "x {} {} {}", x, again.x, s.x);
            assert!((again.y - s.y).abs() <= 1, "y {} {} {}", y, again.y, s.y);
        }
    }
}

#[test]
fn scale_and_translate_exact_values() {
    assert_eq!(scale(Point::new(640, 512), true, 512, 384), Point::new(256, 192));
    assert_eq!(scale(Point::new(-640, 512), true, 512, 384), Point::new(-256, 192));
    assert_eq!(scale(Point::new(7, 9), false, 512, 384), Point::new(7, 9));
    assert_eq!(translate(Point::new(10, 20), true, 384, Point::new(3, 4)), Point::new(13, 359));
    assert_eq!(translate(Point::new(10, 20), false, 384, Point::new(3, 4)), Point::new(13, 24));
}

#[test]
fn line_xcoords_lengths_and_flat_edge() {
    let flat = line_xcoords(Point::new(3, 5), Point::new(40, 5));
    assert_eq!(flat, vec![40]);
    for &(t, b) in &[((0, 0), (10, 3)), ((10, 0), (0, 3)), ((0, 0), (2, 9)), ((5, 2), (-7, 30)), ((0, 0), (0, 4))] {
        let top = Point::new(t.0, t.1);
        let bot = Point::new(b.0, b.1);
        let xs = line_xcoords(top, bot);
        assert_eq!(xs.len() as i32, bot.y - top.y + 1);
        assert_eq!(xs[0], top.x);
        assert_eq!(*xs.last().unwrap(), bot.x);
    }
}

#[test]
fn line_xcoords_exact_values() {
    assert_eq!(line_xcoords(Point::new(0, 0), Point::new(10, 3)), vec![0, 5, 8, 10]);
    assert_eq!(line_xcoords(Point::new(0, 0), Point::new(2, 4)), vec![0, 0, 1, 1, 2]);
    assert_eq!(line_xcoords(Point::new(4, 0), Point::new(0, 4)), vec![4, 3, 2, 1, 0]);
}

#[test]
fn cursor_right_wraps_at_last_column() {
    let mut c = Cursor::new(512, 384, 8, 8);
    c.position_x = 512 - 8;
    c.position_y = 16;
    c.right();
    assert_eq!(c.position_x, 0);
    assert_eq!(c.position_y, 24);
    c.right();
    assert_eq!(c.position_x, 8);
}

#[test]
fn cursor_left_and_up_clamp() {
    let mut c = Cursor::new(512, 384, 8, 8);
    c.left();
    c.up();
    assert_eq!((c.position_x, c.position_y), (0, 0));
    c.position_x = 20;
    c.left();
    assert_eq!(c.position_x, 12);
}

#[test]
fn paged_mode_defers_scroll_after_a_screenful() {
    let mut c = Cursor::new(64, 32, 8, 8);
    c.paged_mode = true;
    for _ in 0..3 {
        c.down();
    }
    assert_eq!(c.paged_count, PageState::Counting(3));
    c.down();
    assert_eq!(c.paged_count, PageState::AwaitingContinue);
}

#[test]
fn busy_channel_refuses_and_idle_channel_accepts() {
    let mut a = AudioChannels::new();
    let none: Vec<u8> = Vec::new();
    let (ok, msg) = a.start_tone(&none, 1, 0, 200, 440, 100);
    assert!(ok);
    assert_eq!(msg, Some(GeneratorMessage { channel: 1, waveform: 0, volume: 200, frequency: 440, duration: 100 }));
    assert!(a.channels_busy[1]);
    let mut gen = ToneCountdown::new();
    gen.start(&msg.unwrap(), 44100);
    assert_eq!(gen.samples_to_go[1], 4410);
    let (ok2, msg2) = a.start_tone(&none, 1, 0, 100, 880, 50);
    assert!(!ok2);
    assert_eq!(msg2, None);
    assert_eq!(gen.samples_to_go[1], 4410);
    let mut done = Vec::new();
    for _ in 0..4410 {
        done.extend(gen.step());
    }
    assert_eq!(done, vec![1]);
    let (ok3, _) = a.start_tone(&done, 1, 0, 100, 880, 50);
    assert!(ok3);
}

#[test]
fn zero_duration_and_bad_channel() {
    let mut a = AudioChannels::new();
    let none: Vec<u8> = Vec::new();
    assert_eq!(a.start_tone(&none, 0, 0, 1, 1, 0), (true, None));
    assert!(!a.channels_busy[0]);
    assert_eq!(a.start_tone(&none, 3, 0, 1, 1, 10), (false, None));
}

#[test]
fn colour_command_selects_palette_entry_modulo_length() {
    let mut v = new_vdp();
    feed_all(&mut v, &[0x11, 0x09]);
    assert_eq!(v.foreground_color, palette_color_of(16, 9));
    assert_eq!(v.foreground_color, lookup_color(0x30));
    feed_all(&mut v, &[0x11, 25]);
    assert_eq!(v.foreground_color, palette_color_of(16, 9));
    feed_all(&mut v, &[0x11, 0x81]);
    assert_eq!(v.background_color, lookup_color(0x20));
}

#[test]
fn invalid_mode_is_ignored_and_reported() {
    let mut v = new_vdp();
    let rs = feed_all(&mut v, &[0x16, 0x07]);
    assert_eq!(v.mode_index, 1);
    assert_eq!((v.fb.width, v.fb.height), (512, 384));
    assert_eq!(out_bytes(&rs), vec![0x86, 7, 0x00, 0x02, 0x80, 0x01, 64, 48, 16]);
    let rs = feed_all(&mut v, &[0x16, 0x02]);
    assert_eq!((v.fb.width, v.fb.height), (320, 200));
    assert_eq!(out_bytes(&rs), vec![0x86, 7, 0x40, 0x01, 0xC8, 0x00, 40, 25, 64]);
}

#[test]
fn cursor_down_past_bottom_scrolls_once() {
    let mut v = new_vdp();
    feed_all(&mut v, &[0x0C]);
    // a white mark on the top text row and one on the second
    feed_all(&mut v, &[0x11, 15, b'A', 0x0D, 0x0A, b'A', 0x0D]);
    let marked_row1 = (0..8).any(|y| !row_is(&v, 8 + y, BLACK));
    assert!(marked_row1);
    let before = v.fb.rows.clone();
    let rows = 384 / 8;
    for _ in 0..(rows - 2) {
        feed_all(&mut v, &[0x0A]);
    }
    assert_eq!(v.cursor.position_y, 384 - 8);
    assert_eq!(v.fb.rows, before);
    feed_all(&mut v, &[0x0A]);
    assert_eq!(v.cursor.position_y, 384 - 8);
    for y in 0..(384 - 8) {
        assert_eq!(v.fb.rows[y], before[y + 8]);
    }
    for y in (384 - 8)..384 {
        assert!(row_is(&v, y, v.background_color));
    }
}

#[test]
fn collinear_triangle_draws_thin_spans() {
    let mut v = new_vdp();
    v.logical_coords = false;
    let p = |x: i16, y: i16| -> Vec<u8> {
        let xb = x.to_le_bytes();
        let yb = y.to_le_bytes();
        vec![0x19, 85, xb[0], xb[1], yb[0], yb[1]]
    };
    let mut bytes = vec![0x0C, 0x19, 4, 10, 0, 10, 0];
    bytes.extend(p(20, 20).iter().map(|b| if *b == 85 { 4 } else { *b }));
    bytes.extend(p(30, 30));
    feed_all(&mut v, &bytes);
    for y in 0..384usize {
        let lit: Vec<usize> = (0..512usize).filter(|x| v.fb.get(*x, y) != BLACK).collect();
        if y >= 10 && y <= 30 {
            assert!(!lit.is_empty() && lit.len() <= 2, "row {} {:?}", y, lit);
        } else {
            assert!(lit.is_empty());
        }
    }
}

#[test]
fn erase_display_clears_everything() {
    let mut v = new_vdp();
    let sw = v.switch_terminal_mode();
    assert_eq!(sw, vec![0]);
    assert_eq!((v.fb.width, v.fb.height), (640, 480));
    feed_all(&mut v, &[b'A', b'A', 0x0A, b'A', 0x1B, b'[', b'4', b'4', b'm']);
    let bg = v.background_color;
    assert_ne!(bg, BLACK);
    feed_all(&mut v, &[0x1B, b'[', b'5', b';', b'9', b'H', 0x1B, b'[', b'2', b'J']);
    assert_eq!(v.cursor.position_y, 4 * 19);
    assert_eq!(v.cursor.position_x, 8 * 8);
    for y in 0..480 {
        assert!(row_is(&v, y, bg));
    }
}

#[test]
fn select_graphics_attributes() {
    let mut v = new_vdp();
    v.switch_terminal_mode();
    feed_all(&mut v, &[0x1B, b'[', b'1', b';', b'4', b';', b'7', b'm']);
    assert_eq!(v.foreground_color, WHITE);
    assert!(v.terminal_underline && v.terminal_reverse);
    feed_all(&mut v, &[0x1B, b'[', b'0', b'm']);
    assert_eq!(v.foreground_color, Color { r: 170, g: 170, b: 170 });
    assert!(!v.terminal_underline && !v.terminal_reverse);
    feed_all(&mut v, &[0x1B, b'[', b'3', b'1', b'm']);
    assert_eq!(v.foreground_color, palette_color_of(16, 1));
}

#[test]
fn csi_parameters_are_parsed() {
    let c = parse_control(&b"[12;3H".to_vec()).unwrap();
    assert_eq!((c.cmd, c.params.clone(), c.len), (b'H', vec![12, 3], 6));
    let c = parse_control(&b"[m".to_vec()).unwrap();
    assert_eq!((c.cmd, c.params.clone()), (b'm', vec![0]));
    let c = parse_control(&b"Q".to_vec()).unwrap();
    assert_eq!((c.cmd, c.params.len(), c.len), (0, 0, 1));
    assert!(parse_control(&b"[12;".to_vec()).is_none());
    let c = parse_control(&b"[300A".to_vec()).unwrap();
    assert_eq!(c.params, vec![44]);
}

#[test]
fn packets_are_framed() {
    assert_eq!(send_packet(2, &vec![3, 4]), vec![0x82, 2, 3, 4]);
    assert_eq!(send_packet(0, &vec![]), vec![0x80, 0]);
}

#[test]
fn system_requests_answer_with_packets() {
    let mut v = new_vdp();
    assert_eq!(out_bytes(&feed_all(&mut v, &[0x17, 0, 0x80, 0x42])), vec![0x80, 1, 0x42]);
    feed_all(&mut v, &[0x1F, 5, 7]);
    assert_eq!(out_bytes(&feed_all(&mut v, &[0x17, 0, 0x82])), vec![0x82, 2, 5, 7]);
    assert_eq!(out_bytes(&feed_all(&mut v, &[0x17, 0, 0x88, 1, 2, 3])), vec![0x88, 5, 0, 0, 0, 0, 0]);
    let t = out_bytes(&feed_all(&mut v, &[0x17, 0, 0x87, 0]));
    assert_eq!(t.len(), 10);
    assert_eq!(&t[..2], &[0x87, 8]);
    assert!(t[3] < 12 && t[4] >= 1 && t[4] <= 31 && t[6] <= 6 && t[7] <= 23);
    assert!(out_bytes(&feed_all(&mut v, &[0x17, 0, 0x87, 1, 0, 0, 0, 0, 0, 0])).is_empty());
}

#[test]
fn audio_request_through_the_stream() {
    let mut v = new_vdp();
    let none: Vec<u8> = Vec::new();
    let mut last = Response::empty();
    for b in [0x17u8, 0, 0x85, 2, 1, 255, 0xB8, 0x01, 0xE8, 0x03] {
        last = v.feed(b, &none);
    }
    assert_eq!(last.bytes, vec![0x85, 2, 2, 1]);
    assert_eq!(last.tone, Some(GeneratorMessage { channel: 2, waveform: 1, volume: 255, frequency: 440, duration: 1000 }));
    for b in [0x17u8, 0, 0x85, 2, 1, 255, 0xB8, 0x01, 0xE8, 0x03] {
        last = v.feed(b, &none);
    }
    assert_eq!(last.bytes, vec![0x85, 2, 2, 0]);
    assert_eq!(last.tone, None);
}

#[test]
fn screen_char_and_pixel_are_read_back() {
    let mut v = new_vdp();
    feed_all(&mut v, &[0x0C, 0x1F, 3, 2, b'A']);
    let rs = feed_all(&mut v, &[0x17, 0, 0x83, 3, 0, 2, 0]);
    assert_eq!(out_bytes(&rs), vec![0x83, 1, b'A']);
    let rs = feed_all(&mut v, &[0x17, 0, 0x83, 0, 0, 0, 0]);
    assert_eq!(out_bytes(&rs), vec![0x83, 1, b' ']);
    let rs = feed_all(&mut v, &[0x17, 0, 0x83, 0xff, 0x7f, 0, 0]);
    assert_eq!(out_bytes(&rs), vec![0x83, 1, 0]);
    // plot a dot in graphics colour 12 and read it back
    v.logical_coords = false;
    feed_all(&mut v, &[0x12, 0, 12, 0x19, 64, 100, 0, 50, 0]);
    let c = palette_color_of(16, 12);
    let rs = feed_all(&mut v, &[0x17, 0, 0x84, 100, 0, 50, 0]);
    assert_eq!(out_bytes(&rs), vec![0x84, 4, c.r, c.g, c.b, 12]);
}

#[test]
fn line_to_draws_both_ends() {
    let mut v = new_vdp();
    v.logical_coords = false;
    feed_all(&mut v, &[0x19, 4, 5, 0, 5, 0, 0x19, 5, 15, 0, 9, 0]);
    assert_eq!(v.fb.get(5, 5), WHITE);
    assert_eq!(v.fb.get(15, 9), WHITE);
    assert_eq!(v.fb.get(10, 7), WHITE);
    assert_eq!(v.fb.get(10, 9), BLACK);
}

#[test]
fn circle_plot_asks_for_outline() {
    let mut v = new_vdp();
    v.logical_coords = false;
    let rs = feed_all(&mut v, &[0x19, 4, 50, 0, 50, 0, 0x19, 148, 60, 0, 50, 0]);
    let c = rs.last().unwrap().circle.unwrap();
    assert_eq!((c.center, c.edge, c.two_point), (Point::new(50, 50), Point::new(60, 50), true));
    v.draw_outline(&vec![Point::new(60, 50), Point::new(50, 60), Point::new(40, 50)]);
    assert_eq!(v.fb.get(55, 55), WHITE);
    assert_eq!(v.fb.get(50, 50), WHITE);
}

#[test]
fn sprites_refresh_atomically() {
    let mut v = new_vdp();
    // bitmap 3: 2x1 single colour
    feed_all(&mut v, &[0x17, 0x1B, 0, 3, 0x17, 0x1B, 2, 2, 0, 1, 0, 200, 100, 50, 255]);
    let bm = v.sprites.bitmaps[3].as_ref().unwrap();
    assert_eq!((bm.width, bm.height), (2, 1));
    assert_eq!(bm.pixels[0], Rgba { r: 255, g: 85, b: 0, a: 255 });
    // sprite 1: frame 3, shown, moved
    feed_all(&mut v, &[0x17, 0x1B, 4, 1, 0x17, 0x1B, 6, 3, 0x17, 0x1B, 6, 9, 0x17, 0x1B, 11]);
    assert_eq!(v.sprites.sprites[1].frames, vec![3]);
    assert!(v.sprites.sprites[1].visible);
    feed_all(&mut v, &[0x17, 0x1B, 13, 10, 0, 20, 0, 0x17, 0x1B, 7, 2]);
    assert!(v.sprites.sprites_to_draw().is_empty());
    feed_all(&mut v, &[0x17, 0x1B, 15]);
    let d = v.sprites.sprites_to_draw();
    assert_eq!(d.len(), 1);
    assert_eq!((d[0].bitmap, d[0].x, d[0].y), (3, 10, 20));
}

#[test]
fn sprite_without_frames_stays_hidden_and_frames_wrap() {
    let mut v = new_vdp();
    feed_all(&mut v, &[0x17, 0x1B, 4, 7, 0x17, 0x1B, 11]);
    assert!(!v.sprites.sprites[7].visible);
    feed_all(&mut v, &[0x17, 0x1B, 8, 0x17, 0x1B, 9]);
    assert_eq!(v.sprites.sprites[7].current_frame, 0);
    feed_all(&mut v, &[0x17, 0x1B, 0, 1, 0x17, 0x1B, 2, 1, 0, 1, 0, 1, 2, 3, 4]);
    feed_all(&mut v, &[0x17, 0x1B, 6, 1, 0x17, 0x1B, 6, 1, 0x17, 0x1B, 6, 1]);
    feed_all(&mut v, &[0x17, 0x1B, 9]);
    assert_eq!(v.sprites.sprites[7].current_frame, 2);
    feed_all(&mut v, &[0x17, 0x1B, 8]);
    assert_eq!(v.sprites.sprites[7].current_frame, 0);
    feed_all(&mut v, &[0x17, 0x1B, 10, 5]);
    assert_eq!(v.sprites.sprites[7].current_frame, 0);
}

#[test]
fn bitmap_is_composited_into_screen() {
    let mut v = new_vdp();
    feed_all(&mut v, &[0x17, 0x1B, 1, 1, 0, 1, 0, 255, 255, 255, 255, 0x17, 0x1B, 3, 4, 0, 6, 0]);
    assert_eq!(v.fb.get(4, 6), WHITE);
    assert_eq!(v.fb.get(5, 6), BLACK);
}

#[test]
fn quantize_reduces_channels() {
    assert_eq!(color_quantize(Rgba { r: 63, g: 64, b: 255, a: 7 }), Rgba { r: 0, g: 85, b: 255, a: 7 });
    assert_eq!(color_quantize(Rgba { r: 128, g: 191, b: 192, a: 0 }), Rgba { r: 170, g: 170, b: 255, a: 0 });
}

#[test]
fn virtual_keys_map_to_ascii() {
    assert_eq!(fabgl_virtual_key_to_ascii(&FabGlVirtualKey::VK_a), b'a');
    assert_eq!(fabgl_virtual_key_to_ascii(&FabGlVirtualKey::VK_Z), b'Z');
    assert_eq!(fabgl_virtual_key_to_ascii(&FabGlVirtualKey::VK_RETURN), 0x0D);
    assert_eq!(fabgl_virtual_key_to_ascii(&FabGlVirtualKey::VK_F1), 0);
    assert_eq!(fabgl_virtual_key_to_ascii(&FabGlVirtualKey::VK_BACKSLASH), b'\\');
    assert_eq!(FabGlVirtualKey::VK_SPACE.code(), 1);
    assert_eq!(FabGlVirtualKey::VK_a.code(), FabGlVirtualKey::VK_a as u8);
}

#[test]
fn scancodes_map_to_virtual_keys() {
    assert_eq!(sdl_scancode_to_fbgl_virtual_key(4, 0), FabGlVirtualKey::VK_a);
    assert_eq!(sdl_scancode_to_fbgl_virtual_key(4, MOD_LSHIFT), FabGlVirtualKey::VK_A);
    assert_eq!(sdl_scancode_to_fbgl_virtual_key(30, MOD_LSHIFT), FabGlVirtualKey::VK_EXCLAIM);
    assert_eq!(sdl_scancode_to_fbgl_virtual_key(1000, 0), FabGlVirtualKey::VK_NONE);
    assert_eq!(KeyboardLayoutUS.sdl_scancode_to_fbgl_virtual_key(29, 0), FabGlVirtualKey::VK_z);
    assert_eq!(KeyboardLayoutDE.sdl_scancode_to_fbgl_virtual_key(29, 0), FabGlVirtualKey::VK_y);
    assert_eq!(KeyboardLayoutDE.sdl_scancode_to_fbgl_virtual_key(20, MOD_RALT), FabGlVirtualKey::VK_AT);
    assert_eq!(KeyboardLayoutDE.sdl_scancode_to_fbgl_virtual_key(4, 0), FabGlVirtualKey::VK_a);
}

#[test]
fn key_events_become_packets() {
    let mut v = new_vdp();
    let out = v.send_key(4, MOD_LSHIFT, true);
    assert_eq!(out, vec![0x81, 4, b'A', 2, FabGlVirtualKey::VK_A as u8, 1]);
    let out = v.send_key(17, MOD_LCTRL, true);
    assert_eq!(out[2], 0x0e);
    assert!(v.cursor.paged_mode);
    v.switch_terminal_mode();
    assert_eq!(v.send_key(4, 0, true), vec![b'a']);
    assert!(v.send_key(4, 0, false).is_empty());
}

#[test]
fn paged_output_waits_for_shift() {
    let mut v = new_vdp();
    feed_all(&mut v, &[0x0E]);
    let rows = 384 / 8;
    for _ in 0..rows {
        assert!(v.ready_for_input());
        feed_all(&mut v, &[0x0A]);
    }
    assert!(!v.ready_for_input());
    v.send_key(225, MOD_LSHIFT, true);
    assert!(v.ready_for_input());
    assert_eq!(v.cursor.paged_count, PageState::Counting(0));
}

#[test]
fn framebuffer_shift_moves_rows() {
    let mut fb = FrameBuffer::new(4, 4, BLACK);
    fb.fill_rect(0, 3, 4, 1, WHITE);
    let up = fb.shifted(0, 0, -1, Color { r: 1, g: 2, b: 3 });
    assert_eq!(up.get(0, 2), WHITE);
    assert_eq!(up.get(0, 3), Color { r: 1, g: 2, b: 3 });
    let right = fb.shifted(0, 2, 0, BLACK);
    assert_eq!(right.get(1, 3), BLACK);
    assert_eq!(right.get(2, 3), WHITE);
}

#[test]
fn redefined_glyph_is_printed() {
    let mut v = new_vdp();
    feed_all(&mut v, &[0x17, b'B', 0xff, 0, 0, 0, 0, 0, 0, 0x81]);
    assert_eq!(v.font_data[(b'B' - 32) as usize * 8], 0xff);
    feed_all(&mut v, &[0x0C, b'B']);
    assert!((0..8).all(|x| v.fb.get(x, 0) == v.foreground_color));
    assert_eq!(v.fb.get(0, 1), v.background_color);
}

#[test]
fn terminal_line_editing() {
    let mut v = new_vdp();
    v.switch_terminal_mode();
    feed_all(&mut v, &[b'A', 0x0A, 0x0D, b'A']);
    let first = v.fb.rows[0..19].to_vec();
    feed_all(&mut v, &[0x1B, b'[', b'H', 0x1B, b'[', b'L']);
    assert!(v.fb.rows[0..19].iter().all(|r| r.iter().all(|c| *c == BLACK)));
    assert_eq!(v.fb.rows[19..38].to_vec(), first);
    feed_all(&mut v, &[0x1B, b'[', b'M']);
    assert_eq!(v.fb.rows[0..19].to_vec(), first);
    feed_all(&mut v, &[0x1B, b'[', b'2', b'K']);
    assert!(v.fb.rows[0..19].iter().all(|r| r.iter().all(|c| *c == BLACK)));
}
