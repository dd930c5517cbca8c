use agon_vdp::audio::{AudioChannels, GeneratorMessage, ToneCountdown};
use agon_vdp::clock::DateTimeFields;
use agon_vdp::cursor::Cursor;
use agon_vdp::framebuffer::{Color, FrameBuffer};
use agon_vdp::geometry::Point;
use agon_vdp::interpreter::{native_length, Fault};
use agon_vdp::modes::{lookup_color, palette_color_of, palette_entry, palette_len, video_mode};
use agon_vdp::raster::{draw_bitmap, draw_segment, fill_triangle};
use agon_vdp::sprites::{Bitmap, Rgba, SpriteSystem};
use agon_vdp::vdp::{VDP, sort_by_y};

const BLACK: Color = Color { r: 0, g: 0, b: 0 };
const WHITE: Color = Color { r: 255, g: 255, b: 255 };

fn vdp() -> VDP {
    let mut v = VDP::new(vec![0u8; 224 * 8], vec![0u8; 224 * 19]);
    v.start();
    v
}

fn feed(v: &mut VDP, bytes: &[u8]) -> Vec<u8> {
    let none: Vec<u8> = Vec::new();
    let mut out = Vec::new();
    for b in bytes {
        out.extend(v.feed(*b, &none).bytes);
    }
    out
}

#[test]
fn colour_cube_and_palettes() {
    assert_eq!(lookup_color(0), BLACK);
    assert_eq!(lookup_color(63), WHITE);
    assert_eq!(lookup_color(0x15), Color { r: 0x55, g: 0x55, b: 0x55 });
    assert_eq!(palette_len(2), 2);
    assert_eq!(palette_len(16), 16);
    assert_eq!(palette_len(64), 64);
    assert_eq!(palette_entry(64, 16), 0x01);
    assert_eq!(palette_entry(64, 63), 0x3E);
    assert_eq!(palette_color_of(2, 3), WHITE);
    assert_eq!(video_mode(3).unwrap().screen_width, 640);
    assert!(video_mode(4).is_none());
}

#[test]
fn command_lengths() {
    assert_eq!(native_length(&vec![]), 0);
    assert_eq!(native_length(&vec![b'x']), 1);
    assert_eq!(native_length(&vec![0x11]), 2);
    assert_eq!(native_length(&vec![0x17]), 0);
    assert_eq!(native_length(&vec![0x17, 0, 0x85]), 10);
    assert_eq!(native_length(&vec![0x17, 0, 0x87, 1]), 10);
    assert_eq!(native_length(&vec![0x17, 0x1B, 1, 2, 0, 3, 0]), 7 + 24);
    assert_eq!(native_length(&vec![0x17, 0x1B, 1, 0, 0, 3, 0]), 7);
    assert_eq!(native_length(&vec![0x17, 0x1B, 2, 2, 0, 3, 0]), 11);
    assert_eq!(native_length(&vec![0x17, 65]), 10);
    assert_eq!(native_length(&vec![0x17, 5]), 2);
}

#[test]
fn unknown_and_ignored_opcodes_change_nothing() {
    let mut v = vdp();
    let before = v.fb.rows.clone();
    let (x, y) = (v.cursor.position_x, v.cursor.position_y);
    assert!(feed(&mut v, &[0x01, 0x02, 0x13, 1, 2, 3, 4, 5, 0x17, 5]).is_empty());
    assert_eq!(v.fb.rows, before);
    assert_eq!((v.cursor.position_x, v.cursor.position_y), (x, y));
    assert!(v.pending.is_empty());
}

#[test]
fn partial_command_waits_for_parameters() {
    let mut v = vdp();
    feed(&mut v, &[0x11]);
    assert_eq!(v.pending, vec![0x11]);
    assert_eq!(v.foreground_color, WHITE);
    feed(&mut v, &[1]);
    assert!(v.pending.is_empty());
    assert_eq!(v.foreground_color, palette_color_of(16, 1));
}

#[test]
fn tab_moves_only_inside_screen() {
    let mut v = vdp();
    feed(&mut v, &[0x1F, 10, 4]);
    assert_eq!((v.cursor.position_x, v.cursor.position_y), (80, 32));
    feed(&mut v, &[0x1F, 64, 4]);
    assert_eq!((v.cursor.position_x, v.cursor.position_y), (80, 32));
    feed(&mut v, &[0x0D]);
    assert_eq!(v.cursor.position_x, 0);
    feed(&mut v, &[0x09, 0x09, 0x08]);
    assert_eq!(v.cursor.position_x, 8);
    feed(&mut v, &[0x0B]);
    assert_eq!(v.cursor.position_y, 24);
}

#[test]
fn graphics_origin_is_scaled() {
    let mut v = vdp();
    feed(&mut v, &[0x1D, 0x80, 0x02, 0x00, 0x02]);
    assert_eq!(v.graph_origin, Point::new(256, 192));
    feed(&mut v, &[0x1D, 0xff, 0xff, 0x00, 0x02]);
    assert_eq!(v.graph_origin, Point::new(256, 192));
}

#[test]
fn screen_scroll_commands() {
    let mut v = vdp();
    feed(&mut v, &[0x0C]);
    v.fb.fill_rect(0, 0, 1, 1, WHITE);
    feed(&mut v, &[0x17, 7, 1, 0, 5]);
    assert_eq!(v.fb.get(5, 0), WHITE);
    assert_eq!(v.fb.get(0, 0), BLACK);
    feed(&mut v, &[0x17, 7, 1, 2, 3]);
    assert_eq!(v.fb.get(5, 3), WHITE);
    feed(&mut v, &[0x17, 7, 1, 1, 5, 0x17, 7, 1, 3, 3]);
    assert_eq!(v.fb.get(0, 0), WHITE);
    feed(&mut v, &[0x17, 7, 1, 9, 50]);
    assert_eq!(v.fb.get(0, 0), WHITE);
    feed(&mut v, &[0x17, 7, 1, 3, 255, 0x17, 7, 1, 3, 255]);
    assert!(v.fb.rows.iter().all(|r| r.iter().all(|c| *c == BLACK)));
}

#[test]
fn cursor_enable_and_logical_toggle() {
    let mut v = vdp();
    feed(&mut v, &[0x17, 1, 0]);
    assert!(!v.cursor_enabled);
    feed(&mut v, &[0x17, 1, 1, 0x17, 0, 0xC0, 0]);
    assert!(v.cursor_enabled && !v.logical_coords);
}

#[test]
fn terminal_cursor_sequences() {
    let mut v = vdp();
    v.switch_terminal_mode();
    feed(&mut v, &[0x1B, b'[', b'3', b';', b'4', b'f']);
    assert_eq!((v.cursor.position_x, v.cursor.position_y), (24, 38));
    feed(&mut v, &[0x1B, b'[', b'A']);
    assert_eq!(v.cursor.position_y, 19);
    feed(&mut v, &[0x1B, b'[', b'5', b'A']);
    assert_eq!(v.cursor.position_y, 0);
    feed(&mut v, &[0x1B, b'[', b'2', b'B']);
    assert_eq!(v.cursor.position_y, 38);
    feed(&mut v, &[0x1B, b'[', b'C']);
    assert_eq!(v.cursor.position_x, 32);
    feed(&mut v, &[0x1B, b'[', b'9', b'D']);
    assert_eq!(v.cursor.position_x, 0);
    feed(&mut v, &[0x1B, b'[', b'9', b'9', b'H']);
    assert_eq!((v.cursor.position_x, v.cursor.position_y), (0, 38));
    feed(&mut v, &[0x1B, b'X', 0x0D, 0x0A]);
    assert_eq!(v.cursor.position_y, 57);
    assert!(v.pending.is_empty());
}

#[test]
fn terminal_erase_variants() {
    let mut v = vdp();
    v.switch_terminal_mode();
    let bg = Color { r: 1, g: 2, b: 3 };
    v.background_color = bg;
    feed(&mut v, &[0x1B, b'[', b'2', b';', b'3', b'H']);
    feed(&mut v, &[0x1B, b'[', b'K']);
    assert_eq!(v.fb.get(16, 19), bg);
    assert_eq!(v.fb.get(15, 19), BLACK);
    assert_eq!(v.fb.get(16, 38), BLACK);
    v.background_color = WHITE;
    feed(&mut v, &[0x1B, b'[', b'1', b'K']);
    assert_eq!(v.fb.get(23, 19), WHITE);
    assert_eq!(v.fb.get(24, 19), bg);
    v.background_color = Color { r: 9, g: 9, b: 9 };
    feed(&mut v, &[0x1B, b'[', b'0', b'J']);
    assert_eq!(v.fb.get(639, 479), Color { r: 9, g: 9, b: 9 });
    assert_eq!(v.fb.get(15, 19), WHITE);
    assert_eq!(v.fb.get(0, 0), BLACK);
    feed(&mut v, &[0x1B, b'[', b'1', b'J']);
    assert_eq!(v.fb.get(0, 0), Color { r: 9, g: 9, b: 9 });
    assert_eq!(v.fb.get(30, 19), Color { r: 9, g: 9, b: 9 });
}

#[test]
fn sort_orders_by_y() {
    let (a, b, c) = (Point::new(0, 9), Point::new(1, 3), Point::new(2, 5));
    assert_eq!(sort_by_y(a, b, c), (b, c, a));
    assert_eq!(sort_by_y(b, c, a), (b, c, a));
}

#[test]
fn triangle_and_segment_rasterization() {
    let mut fb = FrameBuffer::new(16, 16, BLACK);
    fill_triangle(&mut fb, Point::new(0, 0), Point::new(0, 4), Point::new(4, 4), WHITE);
    assert_eq!(fb.get(0, 4), WHITE);
    assert_eq!(fb.get(4, 4), WHITE);
    assert_eq!(fb.get(2, 2), WHITE);
    assert_eq!(fb.get(3, 1), BLACK);
    let mut fb = FrameBuffer::new(16, 16, BLACK);
    draw_segment(&mut fb, Point::new(-5, 0), Point::new(20, 0), WHITE);
    assert!((0..16).all(|x| fb.get(x, 0) == WHITE));
    draw_segment(&mut fb, Point::new(3, 3), Point::new(3, 3), WHITE);
    assert_eq!(fb.get(3, 3), WHITE);
    assert_eq!(fb.get(3, 4), BLACK);
}

#[test]
fn bitmap_alpha_blend() {
    let mut fb = FrameBuffer::new(4, 4, Color { r: 100, g: 100, b: 100 });
    let bm = Bitmap::from_rgba(2, 1, &vec![255, 255, 255, 255, 255, 0, 0, 0], 0);
    draw_bitmap(&mut fb, &bm, 3, 0);
    assert_eq!(fb.get(3, 0), WHITE);
    assert_eq!(fb.get(2, 0), Color { r: 100, g: 100, b: 100 });
    let half = Bitmap::filled(1, 1, Rgba { r: 255, g: 0, b: 0, a: 128 });
    draw_bitmap(&mut fb, &half, 0, 0);
    assert_eq!(fb.get(0, 0), Color { r: 177, g: 49, b: 49 });
}

#[test]
fn sprite_reset_clears_tables() {
    let mut s = SpriteSystem::new();
    s.define_bitmap(Bitmap::filled(1, 1, Rgba { r: 1, g: 1, b: 1, a: 1 }));
    s.add_frame(0);
    assert!(s.show());
    s.move_by(-5, 7);
    s.move_by(i16::MAX, 0);
    assert_eq!(s.sprites[0].pos_x, (-5i16).wrapping_add(i16::MAX));
    s.num_sprites = 3;
    s.reset();
    assert!(s.bitmaps.iter().all(|b| b.is_none()));
    assert!(s.sprites[0].frames.is_empty() && !s.sprites[0].visible);
    assert_eq!(s.sprites[0].pos_y, 7);
    assert_eq!(s.num_sprites, 0);
}

#[test]
fn time_packet_fields() {
    let t = DateTimeFields { year: 2024, month: 2, day: 29, weekday: 4, hour: 13, minute: 5, second: 59 };
    assert_eq!(VDP::time_packet(&t), vec![0x87, 8, 44, 1, 29, 0, 4, 13, 5, 59]);
    let t = DateTimeFields { year: 1979, month: 12, day: 1, weekday: 0, hour: 0, minute: 0, second: 0 };
    assert_eq!(VDP::time_packet(&t)[2], 255);
}

#[test]
fn countdown_stops_at_zero() {
    let mut g = ToneCountdown::new();
    let msg = GeneratorMessage { channel: 0, waveform: 0, volume: 1, frequency: 100, duration: 1 };
    g.start(&msg, 3000);
    assert_eq!(g.samples_to_go[0], 3);
    assert!(g.step().is_empty());
    assert!(g.step().is_empty());
    assert_eq!(g.step(), vec![0]);
    assert!(!g.is_active(0));
    assert!(g.step().is_empty());
    assert_eq!(g.samples_to_go[0], 0);
}

#[test]
fn completions_free_channels() {
    let mut a = AudioChannels::new();
    let none: Vec<u8> = Vec::new();
    a.start_tone(&none, 0, 0, 1, 1, 5);
    a.start_tone(&none, 2, 0, 1, 1, 5);
    a.release(&vec![2, 7]);
    assert_eq!(a.channels_busy, vec![true, false, false]);
}

#[test]
fn mode_change_resets_plot_state() {
    let mut v = vdp();
    v.logical_coords = false;
    feed(&mut v, &[0x19, 4, 9, 0, 9, 0, 0x1D, 3, 0, 3, 0]);
    assert_eq!(v.p1, Point::new(9, 9));
    feed(&mut v, &[0x16, 0]);
    assert_eq!((v.fb.width, v.fb.height), (1024, 768));
    assert_eq!((v.p1, v.graph_origin), (Point::new(0, 0), Point::new(0, 0)));
    assert_eq!(v.cursor.screen_width, 1024);
}

#[test]
fn cursor_new_is_home() {
    let c = Cursor::new(320, 200, 8, 8);
    assert_eq!((c.position_x, c.position_y, c.paged_mode), (0, 0, false));
}

fn faults(v: &mut VDP, bytes: &[u8]) -> Vec<Fault> {
    let none: Vec<u8> = Vec::new();
    bytes.iter().filter_map(|b| v.feed(*b, &none).fault).collect()
}

#[test]
fn refused_commands_are_reported() {
    let mut v = vdp();
    assert_eq!(faults(&mut v, &[0x16, 0x07]), vec![Fault::InvalidMode(7)]);
    assert_eq!(faults(&mut v, &[0x01]), vec![Fault::UnknownCommand(1)]);
    assert!(faults(&mut v, &[0x13, 1, 2, 3, 4, 5]).is_empty());
    assert_eq!(faults(&mut v, &[0x17, 5]), vec![Fault::UnknownExtendedCommand(5)]);
    assert_eq!(faults(&mut v, &[0x17, 0, 0x99]), vec![Fault::UnknownSystemCommand(0x99)]);
    assert_eq!(faults(&mut v, &[0x17, 0x1B, 3, 0, 0, 0, 0]), vec![Fault::UndefinedBitmap(0)]);
    assert_eq!(faults(&mut v, &[0x17, 0x1B, 6, 9]), vec![Fault::UndefinedBitmap(9)]);
    assert_eq!(faults(&mut v, &[0x17, 0x1B, 11]), vec![Fault::NoFrames(0)]);
    assert_eq!(faults(&mut v, &[0x17, 0x1B, 10, 2]), vec![Fault::FrameOutOfRange(2)]);
    assert_eq!(faults(&mut v, &[0x17, 0x1B, 40]), vec![Fault::UnknownSpriteCommand(40)]);
    assert!(faults(&mut v, &[0x16, 0x01]).is_empty());
}

#[test]
fn right_wraps_and_moves_down_even_below_the_screen() {
    let mut c = Cursor::new(512, 384, 8, 8);
    c.position_x = 504;
    c.position_y = 384;
    c.right();
    assert_eq!((c.position_x, c.position_y), (0, 392));
    c.down();
    assert_eq!(c.position_y, 400);
}

#[test]
fn shift_grants_continuation_and_nothing_else() {
    let mut v = vdp();
    feed(&mut v, &[0x0E]);
    for _ in 0..(384 / 8) {
        feed(&mut v, &[0x0A]);
    }
    assert!(!v.ready_for_input());
    let y = v.cursor.position_y;
    let rows = v.fb.rows.clone();
    v.send_key(4, 0, true);
    assert!(!v.ready_for_input());
    v.send_key(225, agon_vdp::keymap::MOD_RSHIFT, true);
    assert_eq!(v.cursor.paged_count, agon_vdp::cursor::PageState::ContinueGranted);
    assert_eq!(v.cursor.position_y, y);
    assert_eq!(v.fb.rows, rows);
}

#[test]
fn new_keeps_fonts_and_starts_blank() {
    let mut font = vec![0u8; 224 * 8];
    font[5] = 7;
    let mut tfont = vec![1u8; 224 * 19];
    tfont[0] = 9;
    let v = VDP::new(font.clone(), tfont.clone());
    assert_eq!(v.font_data, font);
    assert_eq!(v.terminal_font, tfont);
    assert_eq!((v.cursor.position_x, v.cursor.position_y, v.cursor.paged_mode), (0, 0, false));
    assert_eq!(v.p1, Point::new(0, 0));
    assert!(v.sprites.bitmaps.iter().all(|b| b.is_none()));
    assert_eq!(v.sprites.sprites.len(), 255);
}

#[test]
fn colour_and_rejected_mode_touch_nothing_else() {
    let mut v = vdp();
    feed(&mut v, &[0x1F, 3, 4]);
    let (x, y) = (v.cursor.position_x, v.cursor.position_y);
    let rows = v.fb.rows.clone();
    feed(&mut v, &[0x11, 9, 0x16, 9]);
    assert_eq!((v.cursor.position_x, v.cursor.position_y), (x, y));
    assert_eq!(v.fb.rows, rows);
    assert_eq!(v.mode_index, 1);
}

#[test]
fn escape_without_bracket_and_unknown_letter_do_nothing() {
    let mut v = vdp();
    v.switch_terminal_mode();
    feed(&mut v, &[b'A', 0x1B, b'[', b'3', b'C']);
    let (x, y) = (v.cursor.position_x, v.cursor.position_y);
    let rows = v.fb.rows.clone();
    feed(&mut v, &[0x1B, b'Q', 0x1B, b'[', b'5', b'z', 0x07, 0x7F]);
    assert_eq!((v.cursor.position_x, v.cursor.position_y), (x, y));
    assert_eq!(v.fb.rows, rows);
}

#[test]
fn missing_sprite_slot_and_full_frame_list_are_reported() {
    let mut v = vdp();
    feed(&mut v, &[0x17, 0x1B, 0, 2, 0x17, 0x1B, 2, 1, 0, 1, 0, 9, 9, 9, 9]);
    assert_eq!(faults(&mut v, &[0x17, 0x1B, 4, 255, 0x17, 0x1B, 12]), vec![Fault::NoSuchSprite(255)]);
    assert_eq!(faults(&mut v, &[0x17, 0x1B, 6, 2]), vec![Fault::NoSuchSprite(255)]);
    feed(&mut v, &[0x17, 0x1B, 4, 3]);
    for _ in 0..256 {
        assert!(faults(&mut v, &[0x17, 0x1B, 6, 2]).is_empty());
    }
    assert_eq!(v.sprites.sprites[3].frames.len(), 256);
    assert_eq!(faults(&mut v, &[0x17, 0x1B, 6, 2]), vec![Fault::TooManyFrames(3)]);
    assert_eq!(v.sprites.sprites[3].frames.len(), 256);
}
