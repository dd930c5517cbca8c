use vstd::prelude::*;
use crate::audio::GeneratorMessage;
use crate::clock::{local_date_time, DateTimeFields};
use crate::cursor::{Cursor, PageState};
use crate::framebuffer::{Color, in_rect};
use crate::geometry::{Point, scale, scale_spec};
use crate::keymap::{
    fabgl_virtual_key_to_ascii, sdl_scancode_to_fbgl_virtual_key, us_key, vk_ascii, MOD_CAPS,
    MOD_LALT, MOD_LCTRL, MOD_LGUI, MOD_LSHIFT, MOD_NUM, MOD_RALT, MOD_RCTRL, MOD_RGUI, MOD_RSHIFT,
};
use crate::modes::{mode_spec, palette_color, palette_color_of, NUM_MODES};
use crate::protocol::{
    csi_ends_at, csi_params, is_param_byte, packet_spec, parse_control, send_packet,
};
use crate::raster::{blend, draw_bitmap};
use crate::sprites::{
    SpriteSystem, color_quantize_spec, next_frame_of, prev_frame_of, quantize_channel, Bitmap, Rgba, SpriteView,
    MAX_FRAMES, NUM_BITMAPS, NUM_SPRITES,
};
use crate::vdp::{
    line_clear_w, line_clear_x, plot_draws, scroll_dx, scroll_dy, CircleRequest, VDP,
    TERMINAL_FONT_HEIGHT, TERMINAL_MODE,
};

verus! {

/// A command that was refused or not understood; it changed nothing.
#[derive(Clone, Copy, Debug, PartialEq, Eq, Structural)]
pub enum Fault {
    UnknownCommand(u8),
    UnknownExtendedCommand(u8),
    UnknownSystemCommand(u8),
    UnknownSpriteCommand(u8),
    InvalidMode(u8),
    UndefinedBitmap(u8),
    NoFrames(u8),
    FrameOutOfRange(u8),
    NoSuchSprite(u8),
    TooManyFrames(u8),
}

/// What a command hands back: bytes for the host, a tone for the
/// generator, a circle to draw, and a diagnostic when it was refused.
pub struct Response {
    pub bytes: Vec<u8>,
    pub tone: Option<GeneratorMessage>,
    pub circle: Option<CircleRequest>,
    pub fault: Option<Fault>,
}

impl Response {
    pub open spec fn is_empty(&self) -> bool {
        self.bytes@.len() == 0 && self.tone.is_none() && self.circle.is_none() && self.fault.is_none()
    }

    pub fn empty() -> (r: Response)
        ensures
            r.is_empty(),
    {
        Response { bytes: Vec::new(), tone: None, circle: None, fault: None }
    }

    pub fn bytes(bytes: Vec<u8>) -> (r: Response)
        ensures
            r.bytes@ == bytes@,
            r.tone.is_none(),
            r.circle.is_none(),
            r.fault.is_none(),
    {
        Response { bytes, tone: None, circle: None, fault: None }
    }

    /// A response that only reports `f`.
    pub fn fault(f: Fault) -> (r: Response)
        ensures
            r.bytes@.len() == 0,
            r.tone.is_none(),
            r.circle.is_none(),
            r.fault == Some(f),
    {
        Response { bytes: Vec::new(), tone: None, circle: None, fault: Some(f) }
    }
}

/// The little-endian 16-bit word of bytes `lo` and `hi`.
pub open spec fn word(lo: u8, hi: u8) -> i16 {
    let v = lo + 256 * hi;
    (if v >= 0x8000 {
        v - 0x10000
    } else {
        v
    }) as i16
}

fn read_word(s: &Vec<u8>, i: usize) -> (w: i16)
    requires
        i + 1 < s@.len(),
        i < 16,
    ensures
        w == word(s@[i as int], s@[i + 1]),
{
    let v: i32 = s[i] as i32 + 256 * s[i + 1] as i32;
    if v >= 0x8000 {
        (v - 0x10000) as i16
    } else {
        v as i16
    }
}

/// Length of a sprite sub-command `s` (from the 0x17 on), or 0 while the
/// bytes so far do not settle it.
pub open spec fn sprite_len(s: Seq<u8>) -> int {
    if s.len() < 3 {
        0
    } else {
        let c = s[2];
        if c == 0 || c == 4 || c == 6 || c == 7 || c == 10 {
            4
        } else if c == 1 || c == 2 {
            if s.len() < 7 {
                0
            } else {
                let w = word(s[3], s[4]);
                let h = word(s[5], s[6]);
                if w > 0 && h > 0 {
                    if c == 1 {
                        7 + 4 * (w * h)
                    } else {
                        11
                    }
                } else {
                    7
                }
            }
        } else if c == 3 || c == 13 || c == 14 {
            7
        } else {
            3
        }
    }
}

/// Length of a system-control sub-command `s` (from the 0x17 on), or 0
/// while the bytes so far do not settle it.
pub open spec fn system_len(s: Seq<u8>) -> int {
    if s.len() < 3 {
        0
    } else {
        let c = s[2];
        if c == 0x80 || c == 0x81 || c == 0xC0 {
            4
        } else if c == 0x83 || c == 0x84 {
            7
        } else if c == 0x85 {
            10
        } else if c == 0x87 {
            if s.len() < 4 {
                0
            } else if s[3] == 0 {
                4
            } else {
                10
            }
        } else if c == 0x88 {
            6
        } else {
            3
        }
    }
}

/// Length of the native command that `s` starts, opcode and parameters,
/// or 0 while the bytes so far do not settle it.
pub open spec fn native_len(s: Seq<u8>) -> int {
    if s.len() == 0 {
        0
    } else {
        let op = s[0];
        if op == 0x11 || op == 0x16 {
            2
        } else if op == 0x12 || op == 0x1F {
            3
        } else if op == 0x13 || op == 0x19 {
            6
        } else if op == 0x1D {
            5
        } else if op == 0x17 {
            if s.len() < 2 {
                0
            } else {
                let n = s[1];
                if n == 0 {
                    system_len(s)
                } else if n == 1 {
                    3
                } else if n == 7 {
                    5
                } else if n == 0x1B {
                    sprite_len(s)
                } else if n >= 32 {
                    10
                } else {
                    2
                }
            }
        } else {
            1
        }
    }
}

/// Length of the native command that `s` starts, or 0 while unsettled.
pub fn native_length(s: &Vec<u8>) -> (n: u64)
    ensures
        n == native_len(s@),
{
    if s.len() == 0 {
        return 0;
    }
    let op = s[0];
    if op == 0x11 || op == 0x16 {
        2
    } else if op == 0x12 || op == 0x1F {
        3
    } else if op == 0x13 || op == 0x19 {
        6
    } else if op == 0x1D {
        5
    } else if op == 0x17 {
        if s.len() < 2 {
            return 0;
        }
        let n = s[1];
        if n == 0 {
            if s.len() < 3 {
                return 0;
            }
            let c = s[2];
            if c == 0x80 || c == 0x81 || c == 0xC0 {
                4
            } else if c == 0x83 || c == 0x84 {
                7
            } else if c == 0x85 {
                10
            } else if c == 0x87 {
                if s.len() < 4 {
                    0
                } else if s[3] == 0 {
                    4
                } else {
                    10
                }
            } else if c == 0x88 {
                6
            } else {
                3
            }
        } else if n == 1 {
            3
        } else if n == 7 {
            5
        } else if n == 0x1B {
            if s.len() < 3 {
                return 0;
            }
            let c = s[2];
            if c == 0 || c == 4 || c == 6 || c == 7 || c == 10 {
                4
            } else if c == 1 || c == 2 {
                if s.len() < 7 {
                    return 0;
                }
                let w = read_word(s, 3);
                let h = read_word(s, 5);
                if w > 0 && h > 0 {
                    if c == 1 {
                        assert(w * h <= 0x7fff * 0x7fff) by (nonlinear_arith)
                            requires
                                0 < w <= 0x7fff,
                                0 < h <= 0x7fff,
                        ;
                        7 + 4 * (w as u64 * h as u64)
                    } else {
                        11
                    }
                } else {
                    7
                }
            } else if c == 3 || c == 13 || c == 14 {
                7
            } else {
                3
            }
        } else if n >= 32 {
            10
        } else {
            2
        }
    } else {
        1
    }
}

/// The system-control sub-commands that are understood.
pub open spec fn system_known(c: u8) -> bool {
    c == 0x80 || c == 0x81 || c == 0x82 || c == 0x83 || c == 0x84 || c == 0x85 || c == 0x86 || c
        == 0x87 || c == 0x88 || c == 0xC0 || c == 0xFF
}

/// The diagnostic of sprite command `cmd` on sprite tables `sys`: drawing
/// or adding an undefined bitmap, addressing a sprite slot that does not
/// exist, adding a frame to a sprite that holds the most frames, a frame
/// index past the selected sprite's frames, showing a sprite without
/// frames, an unknown sub-command.
pub open spec fn sprite_fault(sys: SpriteSystem, cmd: Seq<u8>) -> Option<Fault> {
    let sub = cmd[2];
    if sub == 3 && sys.bitmaps@[sys.current_bitmap as int].is_none() {
        Some(Fault::UndefinedBitmap(sys.current_bitmap))
    } else if sub == 6 && sys.bitmaps@[cmd[3] as int].is_none() {
        Some(Fault::UndefinedBitmap(cmd[3]))
    } else if addresses_sprite(sub) && sys.selected() is None {
        Some(Fault::NoSuchSprite(sys.current_sprite))
    } else if sub == 6 && sys.sel().frames.len() >= MAX_FRAMES {
        Some(Fault::TooManyFrames(sys.current_sprite))
    } else if sub == 10 && cmd[3] >= sys.sel().frames.len() {
        Some(Fault::FrameOutOfRange(cmd[3]))
    } else if sub == 11 && sys.sel().frames.len() == 0 {
        Some(Fault::NoFrames(sys.current_sprite))
    } else if sub > 16 {
        Some(Fault::UnknownSpriteCommand(sub))
    } else {
        None
    }
}

/// The sprite sub-commands that act on the selected sprite.
pub open spec fn addresses_sprite(sub: u8) -> bool {
    5 <= sub <= 14 && sub != 7
}

/// The command letters of escape sequences that are understood.
pub open spec fn csi_letter_known(l: u8) -> bool {
    l == 65 || l == 66 || l == 67 || l == 68 || l == 72 || l == 102 || l == 74 || l == 75 || l
        == 76 || l == 77 || l == 109
}

/// Terminal-mode input that changes nothing: control bytes other than BS,
/// LF, CR and ESC, DEL, ESC not followed by `[`, and escape sequences with
/// an unknown letter.
pub open spec fn terminal_noop(cmd: Seq<u8>) -> bool {
    let n = cmd[0];
    ||| n < 0x20 && n != 0x08 && n != 0x0A && n != 0x0D && n != 0x1B
    ||| n == 0x7F
    ||| n == 0x1B && cmd[1] != 91
    ||| n == 0x1B && cmd[1] == 91 && !csi_letter_known(csi_command(cmd))
}

/// A count parameter: 0 stands for 1.
pub open spec fn count_of(p: u8) -> nat {
    if p == 0 {
        1
    } else {
        p as nat
    }
}

/// The cursor after `n` moves up.
pub open spec fn up_times(c: Cursor, n: nat) -> Cursor
    decreases n,
{
    if n == 0 {
        c
    } else {
        up_times(c, (n - 1) as nat).moved_up()
    }
}

/// The cursor after `n` moves left.
pub open spec fn left_times(c: Cursor, n: nat) -> Cursor
    decreases n,
{
    if n == 0 {
        c
    } else {
        left_times(c, (n - 1) as nat).moved_left()
    }
}

/// The cursor after `n` line feeds, each followed by a scroll if needed.
pub open spec fn down_times(c: Cursor, n: nat) -> Cursor
    decreases n,
{
    if n == 0 {
        c
    } else {
        VDP::settle(down_times(c, (n - 1) as nat).moved_down())
    }
}

/// From the top row of a screen a whole number of text rows high, with
/// paged mode off, the first `rows - 1` line feeds move the cursor down one
/// row each without scrolling, and the next one scrolls once, leaving the
/// cursor on the bottom row (`rows` is the screen height over the glyph
/// height; line `k` is the `k`-th feed, counting from 1).
pub proof fn lemma_line_feeds_scroll_once(c: Cursor, k: nat)
    requires
        c.wf(),
        !c.paged_mode,
        c.position_y == 0,
        c.screen_height % c.font_height == 0,
        1 <= k <= c.screen_height / c.font_height,
    ensures
        down_times(c, (k - 1) as nat) == (Cursor {
            position_y: ((k - 1) * c.font_height) as i32,
            ..c
        }),
        k < c.screen_height / c.font_height ==> !down_times(c, (k - 1) as nat).moved_down().needs_scroll(),
        k == c.screen_height / c.font_height ==> down_times(c, (k - 1) as nat).moved_down().needs_scroll()
            && down_times(c, k).position_y == c.screen_height - c.font_height,
    decreases k,
{
    let fh = c.font_height as int;
    let sh = c.screen_height as int;
    let n = sh / fh;
    assert(sh == n * fh) by (nonlinear_arith)
        requires
            sh % fh == 0,
            n == sh / fh,
            fh > 0,
    ;
    assert(k * fh <= sh) by (nonlinear_arith)
        requires
            k <= n,
            sh == n * fh,
            fh > 0,
    ;
    assert((k - 1) * fh + fh == k * fh) by (nonlinear_arith);
    let prev = down_times(c, (k - 1) as nat);
    if k > 1 {
        lemma_line_feeds_scroll_once(c, (k - 1) as nat);
        assert((k - 2) * fh + fh == (k - 1) * fh) by (nonlinear_arith);
        let before = down_times(c, (k - 2) as nat);
        assert(before == (Cursor { position_y: ((k - 2) * fh) as i32, ..c }));
        assert(prev == VDP::settle(before.moved_down()));
        assert(!before.moved_down().needs_scroll());
        assert(before.moved_down() == (Cursor { position_y: ((k - 1) * fh) as i32, ..c }));
    } else {
        assert((k - 1) * fh == 0) by (nonlinear_arith)
            requires
                k == 1,
        ;
    }
    assert(prev == (Cursor { position_y: ((k - 1) * fh) as i32, ..c }));
    assert(prev.moved_down() == (Cursor { position_y: (k * fh) as i32, ..c }));
    assert(down_times(c, k) == VDP::settle(prev.moved_down()));
    if k < n {
        assert(k * fh + fh <= sh) by (nonlinear_arith)
            requires
                k + 1 <= n,
                sh == n * fh,
                fh > 0,
        ;
    } else {
        assert(k * fh == sh) by (nonlinear_arith)
            requires
                k == n,
                sh == n * fh,
        ;
    }
}

/// The cursor after `n` moves right, each followed by a scroll if needed.
pub open spec fn right_times(c: Cursor, n: nat) -> Cursor
    decreases n,
{
    if n == 0 {
        c
    } else {
        VDP::settle(right_times(c, (n - 1) as nat).moved_right())
    }
}

/// Font table `font` with the 8 rows of glyph `cmd[1]` replaced by
/// `cmd[2..10]`.
pub open spec fn glyph_redefined(font: Seq<u8>, cmd: Seq<u8>) -> Seq<u8> {
    let base = (cmd[1] - 32) * 8;
    Seq::new(
        font.len(),
        |k: int|
            if base <= k < base + 8 {
                cmd[2 + k - base]
            } else {
                font[k]
            },
    )
}

/// Opcodes that change nothing: unknown control codes, and 0x13 (define
/// logical color), which only consumes its parameters.
pub open spec fn native_noop(op: u8) -> bool {
    op < 0x20 && !(0x08 <= op <= 0x12) && op != 0x16 && op != 0x17 && op != 0x19 && op != 0x1D
        && op != 0x1E && op != 0x1F
}

/// What system-control command `cmd` does, from `v0` to `v1`, given the
/// tone completions `finished`, and what it hands back in `r`.
pub open spec fn system_effect(
    v0: VDP,
    v1: VDP,
    cmd: Seq<u8>,
    finished: Seq<u8>,
    r: Response,
) -> bool {
    &&& (r.circle.is_none())
    &&& (cmd[2] != 0x85 ==> r.tone.is_none())
    &&& (cmd[2] == 0x80 ==> r.bytes@ == packet_spec(0, seq![cmd[3]]))
    &&& (cmd[2] == 0x82 ==> r.bytes@ == packet_spec(
        2,
        seq![
            ((v0.cursor.position_x / v0.cursor.font_width) % 256) as u8,
            ((v0.cursor.position_y / v0.cursor.font_height) % 256) as u8,
        ],
    ))
    &&& (cmd[2] == 0x85 ==> {
        let ok = crate::audio::tone_accepted(
            v0.audio_channels.channels_busy@,
            finished,
            cmd[3],
        );
        &&& r.bytes@ == packet_spec(5, seq![cmd[3], if ok { 1u8 } else { 0u8 }])
        &&& v1.audio_channels.channels_busy@ == crate::audio::busy_after(
            v0.audio_channels.channels_busy@,
            finished,
            cmd[3],
            word(cmd[8], cmd[9]),
        )
        &&& r.tone == if ok && word(cmd[8], cmd[9]) > 0 {
            Some(
                GeneratorMessage {
                    channel: cmd[3],
                    waveform: cmd[4],
                    volume: cmd[5],
                    frequency: word(cmd[6], cmd[7]),
                    duration: word(cmd[8], cmd[9]),
                },
            )
        } else {
            None::<GeneratorMessage>
        }
    })
    &&& (cmd[2] == 0x83 ==> r.bytes@ == packet_spec(
        3,
        seq![v0.screen_char(word(cmd[3], cmd[4]), word(cmd[5], cmd[6]))],
    ))
    &&& (cmd[2] == 0x84 ==> ({
        let t = v0.plot_target(word(cmd[3], cmd[4]), word(cmd[5], cmd[6]));
        let c = if v0.fb.in_bounds(t.x as int, t.y as int) {
            v0.fb.pixel(t.x as int, t.y as int)
        } else {
            Color { r: 0, g: 0, b: 0 }
        };
        r.bytes@ == packet_spec(
            4,
            seq![
                c.r,
                c.g,
                c.b,
                crate::vdp::palette_index_spec(v0.current_video_mode.colors, c),
            ],
        )
    }))
    &&& (cmd[2] == 0x86 ==> r.bytes@ == packet_spec(
        6,
        crate::vdp::mode_info_spec(v0.cursor, v0.current_video_mode.colors),
    ))
    &&& (cmd[2] == 0x88 ==> r.bytes@ == packet_spec(8, seq![0u8, 0, 0, 0, 0]))
    &&& (cmd[2] == 0xC0 ==> v1.logical_coords == (cmd[3] != 0))
    &&& (cmd[2] == 0xFF ==> v1.terminal_mode && r.bytes@ == seq![0u8])
    &&& (r.fault == if system_known(cmd[2]) {
        None
    } else {
        Some(Fault::UnknownSystemCommand(cmd[2]))
    })
    &&& (!(cmd[2] == 0x85 || cmd[2] == 0xC0 || cmd[2] == 0xFF) ==> v1 == v0)
    &&& (cmd[2] == 0x85 ==> v1 == (VDP { audio_channels: v1.audio_channels, ..v0 }))
    &&& (cmd[2] == 0xC0 ==> v1 == (VDP { logical_coords: cmd[3] != 0, ..v0 }) && r.is_empty())
    &&& (cmd[2] == 0x81 ==> r.is_empty())
    &&& (!system_known(cmd[2]) ==> r.bytes@.len() == 0 && r.tone.is_none())
    &&& (cmd[2] == 0x87 ==> r.tone.is_none() && r.fault.is_none() && if cmd[3] == 0 {
        &&& r.bytes@.len() == 10
        &&& r.bytes@[0] == 0x87 && r.bytes@[1] == 8 && r.bytes@[5] == 0
        &&& r.bytes@[3] < 12 && 1 <= r.bytes@[4] <= 31 && r.bytes@[6] <= 6
        &&& r.bytes@[7] <= 23 && r.bytes@[8] <= 59 && r.bytes@[9] <= 59
    } else {
        r.bytes@.len() == 0
    })
    &&& (cmd[2] == 0xFF ==> {
        &&& v1.mode_index == TERMINAL_MODE
        &&& v1.current_video_mode == mode_spec(TERMINAL_MODE as int)
        &&& v1.font_data@ == v0.terminal_font@
        &&& v1.foreground_color == (Color { r: 170, g: 170, b: 170 })
        &&& v1.fb.all(v0.background_color)
        &&& v1.cursor == (Cursor {
            position_x: 0,
            position_y: 0,
            screen_width: 640,
            screen_height: 480,
            font_width: 8,
            font_height: TERMINAL_FONT_HEIGHT,
            paged_count: PageState::Counting(0),
            ..v0.cursor
        })
        &&& v1.p1 == (Point { x: 0, y: 0 }) && v1.p2 == (Point { x: 0, y: 0 })
        &&& v1.p3 == (Point { x: 0, y: 0 }) && v1.graph_origin == (Point { x: 0, y: 0 })
        &&& v1.sprites == (SpriteSystem { num_sprites: 0, num_sprites_shown: 0, ..v0.sprites })
        &&& v1.same_but_fb(
            &VDP {
                cursor: v1.cursor,
                mode_index: v1.mode_index,
                current_video_mode: v1.current_video_mode,
                foreground_color: v1.foreground_color,
                terminal_mode: true,
                font_data: v1.font_data,
                p1: v1.p1,
                p2: v1.p2,
                p3: v1.p3,
                graph_origin: v1.graph_origin,
                sprites: v1.sprites,
                ..v0
            },
        )
    })
}

/// What sprite command `cmd` does, from `v0` to `v1`, and the diagnostic
/// `fault` it reports.
pub open spec fn sprite_effect(v0: VDP, v1: VDP, cmd: Seq<u8>, fault: Option<Fault>) -> bool {
    &&& (v1.cursor.screen_width == v0.cursor.screen_width)
    &&& (v1.terminal_mode == v0.terminal_mode)
    &&& (fault == sprite_fault(v0.sprites, cmd))
    &&& (cmd[2] != 15 && cmd[2] != 16 ==> v1.sprites.num_sprites_shown
        == v0.sprites.num_sprites_shown)
    &&& (cmd[2] == 0 ==> v1.sprites.current_bitmap == cmd[3])
    &&& (cmd[2] == 4 ==> v1.sprites.current_sprite == cmd[3])
    &&& (cmd[2] == 7 ==> v1.sprites.num_sprites == cmd[3])
    &&& (cmd[2] == 15 ==> v1.sprites.num_sprites_shown == v0.sprites.num_sprites
        && v1.sprites.num_sprites == v0.sprites.num_sprites)
    &&& (cmd[2] == 11 ==> v1.sprites.views() == if v0.sprites.selected() is Some
        && v0.sprites.sel().frames.len() > 0 {
        v0.sprites.with_selected(SpriteView { visible: true, ..v0.sprites.sel() })
    } else {
        v0.sprites.views()
    })
    &&& (5 <= cmd[2] <= 14 && cmd[2] != 7 ==> v1.sprites.same_but_sprites(
        &v0.sprites,
    ))
    &&& (cmd[2] == 5 ==> v1.sprites.views() == v0.sprites.with_selected(
        SpriteView {
            frames: seq![],
            current_frame: 0,
            visible: false,
            ..v0.sprites.sel()
        },
    ))
    &&& (cmd[2] == 6 ==> v1.sprites.views() == if v0.sprites.bitmaps@[cmd[3] as int].is_some()
        && v0.sprites.sel().frames.len() < MAX_FRAMES {
        v0.sprites.with_selected(
            SpriteView {
                frames: v0.sprites.sel().frames.push(cmd[3]),
                ..v0.sprites.sel()
            },
        )
    } else {
        v0.sprites.views()
    })
    &&& (cmd[2] == 8 ==> v1.sprites.views() == if v0.sprites.selected() is Some
        && v0.sprites.sel().frames.len() > 0 {
        v0.sprites.with_selected(
            SpriteView {
                current_frame: next_frame_of(
                    v0.sprites.sel().current_frame as int,
                    v0.sprites.sel().frames.len() as int,
                ) as u8,
                ..v0.sprites.sel()
            },
        )
    } else {
        v0.sprites.views()
    })
    &&& (cmd[2] == 9 ==> v1.sprites.views() == if v0.sprites.selected() is Some
        && v0.sprites.sel().frames.len() > 0 {
        v0.sprites.with_selected(
            SpriteView {
                current_frame: prev_frame_of(
                    v0.sprites.sel().current_frame as int,
                    v0.sprites.sel().frames.len() as int,
                ) as u8,
                ..v0.sprites.sel()
            },
        )
    } else {
        v0.sprites.views()
    })
    &&& (cmd[2] == 10 ==> v1.sprites.views() == if v0.sprites.selected() is Some
        && (cmd[3] as int) < v0.sprites.sel().frames.len() {
        v0.sprites.with_selected(
            SpriteView { current_frame: cmd[3], ..v0.sprites.sel() },
        )
    } else {
        v0.sprites.views()
    })
    &&& (cmd[2] == 12 ==> v1.sprites.views() == if v0.sprites.selected() is Some {
        v0.sprites.with_selected(
            SpriteView { visible: false, ..v0.sprites.sel() },
        )
    } else {
        v0.sprites.views()
    })
    &&& (cmd[2] == 13 ==> v1.sprites.views() == if v0.sprites.selected() is Some {
        v0.sprites.with_selected(
            SpriteView {
                pos_x: word(cmd[3], cmd[4]),
                pos_y: word(cmd[5], cmd[6]),
                ..v0.sprites.sel()
            },
        )
    } else {
        v0.sprites.views()
    })
    &&& (cmd[2] == 14 ==> v1.sprites.views() == if v0.sprites.selected() is Some {
        v0.sprites.with_selected(
            SpriteView {
                pos_x: v0.sprites.sel().pos_x.wrapping_add(word(cmd[3], cmd[4])),
                pos_y: v0.sprites.sel().pos_y.wrapping_add(word(cmd[5], cmd[6])),
                ..v0.sprites.sel()
            },
        )
    } else {
        v0.sprites.views()
    })
    &&& (cmd[2] == 16 ==> v1.sprites.num_sprites == 0
        && v1.sprites.num_sprites_shown == 0
        && v1.sprites.current_sprite == 0
        && v1.sprites.current_bitmap == 0
        && (forall|i: int| 0 <= i < NUM_BITMAPS ==> (#[trigger] v1.sprites.bitmaps@[i]).is_none())
        && (forall|i: int| 0 <= i < NUM_SPRITES ==> #[trigger] v1.sprites.views()[i]
            == (SpriteView { frames: seq![], current_frame: 0, visible: false, ..v0.sprites.views()[i] }))
        && v1.fb.all(v0.background_color))
    &&& ((cmd[2] == 1 || cmd[2] == 2) ==> {
        let w = word(cmd[3], cmd[4]);
        let h = word(cmd[5], cmd[6]);
        &&& v1.sprites.views() == v0.sprites.views()
        &&& (w > 0 && h > 0) ==> (v1.sprites.bitmaps@[v0.sprites.current_bitmap as int] matches Some(bm)
            && bm.width == w && bm.height == h
            && (cmd[2] == 2 ==> forall|i: int| 0 <= i < w * h ==> #[trigger] bm.pixels@[i]
                == color_quantize_spec(Rgba { r: cmd[7], g: cmd[8], b: cmd[9], a: cmd[10] }))
            && (cmd[2] == 1 ==> forall|i: int| 0 <= i < w * h ==> #[trigger] bm.pixels@[i] == (Rgba {
                r: quantize_channel(cmd[7 + 4 * i]),
                g: quantize_channel(cmd[7 + 4 * i + 1]),
                b: quantize_channel(cmd[7 + 4 * i + 2]),
                a: cmd[7 + 4 * i + 3],
            })))
        &&& !(w > 0 && h > 0) ==> v1.sprites.bitmaps@ == v0.sprites.bitmaps@
    })
    &&& (cmd[2] == 3 ==> v1.sprites == v0.sprites && match v0.sprites.bitmaps@[v0.sprites.current_bitmap as int] {
        Some(bm) => forall|x: int, y: int| #[trigger] v1.fb.in_bounds(x, y) ==> v1.fb.pixel(x, y) == if in_rect(
            x, y, word(cmd[3], cmd[4]) as int, word(cmd[5], cmd[6]) as int, bm.width as int, bm.height as int) {
            blend(bm.at(x - word(cmd[3], cmd[4]), y - word(cmd[5], cmd[6])), v0.fb.pixel(x, y))
        } else {
            v0.fb.pixel(x, y)
        },
        None => v1.fb == v0.fb,
    })
    &&& (cmd[2] != 16 ==> v1 == (VDP { sprites: v1.sprites, fb: v1.fb, ..v0 }))
    &&& (cmd[2] != 3 && cmd[2] != 16 ==> v1.fb == v0.fb)
    &&& (cmd[2] == 0 ==> v1.sprites == (SpriteSystem { current_bitmap: cmd[3], ..v0.sprites }))
    &&& (cmd[2] == 4 ==> v1.sprites == (SpriteSystem { current_sprite: cmd[3], ..v0.sprites }))
    &&& (cmd[2] == 7 ==> v1.sprites == (SpriteSystem { num_sprites: cmd[3], ..v0.sprites }))
    &&& (cmd[2] == 15 ==> v1.sprites == (SpriteSystem {
        num_sprites_shown: v0.sprites.num_sprites,
        ..v0.sprites
    }))
    &&& (cmd[2] == 1 || cmd[2] == 2 ==> {
        &&& v1.sprites.sprites@ == v0.sprites.sprites@
        &&& v1.sprites.num_sprites == v0.sprites.num_sprites
        &&& v1.sprites.num_sprites_shown == v0.sprites.num_sprites_shown
        &&& v1.sprites.current_sprite == v0.sprites.current_sprite
        &&& v1.sprites.current_bitmap == v0.sprites.current_bitmap
        &&& v1.sprites.bitmaps@.len() == v0.sprites.bitmaps@.len()
        &&& forall|i: int|
            0 <= i < v0.sprites.bitmaps@.len() && i != v0.sprites.current_bitmap ==> #[trigger] v1.sprites.bitmaps@[i]
                == v0.sprites.bitmaps@[i]
    })
    &&& (cmd[2] == 16 ==> v1.cursor == (Cursor {
        position_x: 0,
        position_y: 0,
        paged_count: PageState::Counting(0),
        ..v0.cursor
    }) && v1.same_but_fb(&VDP { cursor: v1.cursor, sprites: v1.sprites, ..v0 }))
}

/// What native command `cmd` does to the coprocessor, from `v0` to `v1`,
/// given the tone completions `finished`, and what it hands back in `r`.
pub open spec fn native_effect(
    v0: VDP,
    v1: VDP,
    cmd: Seq<u8>,
    finished: Seq<u8>,
    r: Response,
) -> bool {
    let op = cmd[0];
    &&& (op != 0x17 ==> r.tone.is_none())
    &&& (op != 0x19 ==> r.circle.is_none())
    &&& (native_noop(op) ==> v1 == v0 && r.bytes@.len() == 0 && r.tone.is_none()
        && r.circle.is_none() && r.fault == if op == 0x13 {
        None
    } else {
        Some(Fault::UnknownCommand(op))
    })
    &&& (op == 0x16 ==> r.fault == if cmd[1] < NUM_MODES {
        None
    } else {
        Some(Fault::InvalidMode(cmd[1]))
    })
    &&& (op >= 0x20 && op != 0x7F ==> v1.cursor == VDP::settle(v0.cursor.moved_right()) && (
    forall|x: int, y: int| #[trigger]
        v1.fb.in_bounds(x, y) ==> v1.fb.pixel(x, y) == v0.printed_pixel(op, x, y)))
    &&& (op == 0x08 ==> v1.cursor == v0.cursor.moved_left() && v1.fb == v0.fb)
    &&& (op == 0x09 ==> v1.cursor == v0.cursor.moved_right() && v1.fb == v0.fb)
    &&& (op == 0x0A ==> v1.cursor == VDP::settle(v0.cursor.moved_down()) && (forall|
        x: int,
        y: int,
    | #[trigger] v1.fb.in_bounds(x, y) ==> v1.fb.pixel(x, y) == v0.fed_pixel(x, y)))
    &&& (op == 0x0B ==> v1.cursor == v0.cursor.moved_up() && v1.fb == v0.fb)
    &&& (op == 0x0D || op == 0x1E ==> v1.cursor == v0.cursor.homed() && v1.fb == v0.fb)
    &&& (op == 0x7F ==> v1.cursor == v0.cursor.moved_left() && (forall|x: int, y: int|
        #[trigger]
        v1.fb.in_bounds(x, y) ==> v1.fb.pixel(x, y) == (VDP {
            cursor: v0.cursor.moved_left(),
            ..v0
        }).glyph_pixel(32, x, y)))
    &&& (op == 0x0E ==> v1.cursor.paged_mode)
    &&& (op == 0x0F ==> !v1.cursor.paged_mode)
    &&& (op == 0x0C ==> v1.fb.all(v0.background_color) && v1.cursor.position_x == 0
        && v1.cursor.position_y == 0)
    &&& (op == 0x10 ==> v1.fb.all(v0.background_color))
    &&& (op == 0x11 && cmd[1] < 128 ==> v1.foreground_color == palette_color(
        v0.current_video_mode.colors,
        cmd[1] as int,
    ) && v1.background_color == v0.background_color)
    &&& (op == 0x11 && cmd[1] >= 128 ==> v1.background_color == palette_color(
        v0.current_video_mode.colors,
        cmd[1] as int,
    ) && v1.foreground_color == v0.foreground_color)
    &&& (op == 0x12 ==> v1.graph_color == palette_color(v0.current_video_mode.colors, cmd[2] as int))
    &&& (op == 0x16 && cmd[1] < NUM_MODES ==> v1.mode_index == cmd[1] && v1.current_video_mode
        == mode_spec(cmd[1] as int) && v1.fb.all(v0.background_color) && v1.cursor.position_x == 0
        && v1.cursor.position_y == 0)
    &&& (op == 0x16 && cmd[1] >= NUM_MODES ==> v1.mode_index == v0.mode_index
        && v1.current_video_mode == v0.current_video_mode && v1.fb == v0.fb)
    &&& (op == 0x16 ==> r.bytes@ == packet_spec(
        6,
        crate::vdp::mode_info_spec(v1.cursor, v1.current_video_mode.colors),
    ))
    &&& (op == 0x17 && cmd[1] == 1 ==> v1.cursor_enabled == (cmd[2] != 0))
    &&& (op == 0x17 && cmd[1] == 0 ==> system_effect(v0, v1, cmd, finished, r))
    &&& (op == 0x17 && cmd[1] == 0x1B ==> sprite_effect(v0, v1, cmd, r.fault) && r.bytes@.len()
        == 0 && r.tone.is_none())
    &&& (op == 0x17 && !(cmd[1] == 0 || cmd[1] == 1 || cmd[1] == 7 || cmd[1] == 0x1B || cmd[1]
        >= 32) ==> v1 == v0 && r.fault == Some(Fault::UnknownExtendedCommand(cmd[1])))
    &&& (op == 0x1D ==> v1.graph_origin == if word(cmd[1], cmd[2]) >= 0 && word(cmd[3], cmd[4])
        >= 0 {
        scale_spec(
            Point { x: word(cmd[1], cmd[2]) as i32, y: word(cmd[3], cmd[4]) as i32 },
            v0.logical_coords,
            v0.cursor.screen_width as int,
            v0.cursor.screen_height as int,
        )
    } else {
        v0.graph_origin
    })
    &&& (op == 0x1F ==> {
        let x = cmd[1] * v0.cursor.font_width;
        let y = cmd[2] * v0.cursor.font_height;
        if x < v0.cursor.screen_width && y < v0.cursor.screen_height {
            v1.cursor.position_x == x && v1.cursor.position_y == y
        } else {
            v1.cursor == v0.cursor
        }
    })
    &&& (op >= 0x20 || (0x08 <= op <= 0x0B) || op == 0x0D || op == 0x1E ==> v1.same_but_screen(
        &v0,
    ) && r.is_empty())
    &&& (op == 0x0C ==> r.is_empty() && v1.cursor == (Cursor {
        position_x: 0,
        position_y: 0,
        paged_count: PageState::Counting(0),
        ..v0.cursor
    }) && v1.sprites == (SpriteSystem { num_sprites: 0, num_sprites_shown: 0, ..v0.sprites })
        && v1.same_but_fb(&VDP { cursor: v1.cursor, sprites: v1.sprites, ..v0 }))
    &&& (op == 0x0E ==> v1 == (VDP { cursor: Cursor { paged_mode: true, ..v0.cursor }, ..v0 })
        && r.is_empty())
    &&& (op == 0x0F ==> v1 == (VDP { cursor: Cursor { paged_mode: false, ..v0.cursor }, ..v0 })
        && r.is_empty())
    &&& (op == 0x10 ==> v1.same_but_fb(&v0) && r.is_empty())
    &&& (op == 0x11 ==> r.is_empty() && v1 == if cmd[1] < 128 {
        VDP {
            foreground_color: palette_color(v0.current_video_mode.colors, cmd[1] as int),
            ..v0
        }
    } else {
        VDP {
            background_color: palette_color(v0.current_video_mode.colors, cmd[1] as int),
            ..v0
        }
    })
    &&& (op == 0x12 ==> r.is_empty() && v1 == (VDP {
        graph_color: palette_color(v0.current_video_mode.colors, cmd[2] as int),
        ..v0
    }))
    &&& (op == 0x16 && cmd[1] >= NUM_MODES ==> v1 == v0)
    &&& (op == 0x16 && cmd[1] < NUM_MODES ==> {
        let m = mode_spec(cmd[1] as int);
        &&& v1.cursor == (Cursor {
            position_x: 0,
            position_y: 0,
            screen_width: m.screen_width as i32,
            screen_height: m.screen_height as i32,
            paged_count: PageState::Counting(0),
            ..v0.cursor
        })
        &&& v1.fb.width == m.screen_width && v1.fb.height == m.screen_height
        &&& v1.p1 == (Point { x: 0, y: 0 }) && v1.p2 == (Point { x: 0, y: 0 })
        &&& v1.p3 == (Point { x: 0, y: 0 }) && v1.graph_origin == (Point { x: 0, y: 0 })
        &&& v1.sprites == (SpriteSystem { num_sprites: 0, num_sprites_shown: 0, ..v0.sprites })
        &&& v1.same_but_fb(
            &VDP {
                cursor: v1.cursor,
                mode_index: v1.mode_index,
                current_video_mode: v1.current_video_mode,
                p1: v1.p1,
                p2: v1.p2,
                p3: v1.p3,
                graph_origin: v1.graph_origin,
                sprites: v1.sprites,
                ..v0
            },
        )
    })
    &&& (op == 0x17 && cmd[1] == 1 ==> v1 == (VDP { cursor_enabled: cmd[2] != 0, ..v0 })
        && r.is_empty())
    &&& (op == 0x17 && cmd[1] == 7 ==> r.is_empty() && v1.same_but_fb(&v0) && v1.fb.same_size(
        &v0.fb,
    ) && forall|x: int, y: int| #[trigger]
        v1.fb.in_bounds(x, y) ==> v1.fb.pixel(x, y) == v0.fb.shifted_pixel(
            0,
            scroll_dx(cmd[3], cmd[4]),
            scroll_dy(cmd[3], cmd[4]),
            v0.background_color,
            x,
            y,
        ))
    &&& (op == 0x17 && cmd[1] >= 32 ==> r.is_empty() && v1.fb == v0.fb && v1.same_but_fb(
        &VDP { font_data: v1.font_data, ..v0 },
    ) && v1.font_data@ == glyph_redefined(v0.font_data@, cmd))
    &&& (op == 0x19 ==> {
        let t = v0.plot_target(word(cmd[2], cmd[3]), word(cmd[4], cmd[5]));
        &&& v1.p3 == v0.p2 && v1.p2 == v0.p1 && v1.p1 == t
        &&& v1.same_but_fb(&VDP { p1: v1.p1, p2: v1.p2, p3: v1.p3, ..v0 })
        &&& v1.fb.same_size(&v0.fb)
        &&& r.bytes@.len() == 0 && r.tone.is_none() && r.fault.is_none()
        &&& r.circle == if 144 <= cmd[1] <= 151 {
            Some(CircleRequest { center: v0.p1, edge: t, two_point: cmd[1] >= 148 })
        } else {
            None::<CircleRequest>
        }
        &&& forall|x: int, y: int| #[trigger]
            v1.fb.in_bounds(x, y) ==> v1.fb.pixel(x, y) == if plot_draws(
                cmd[1],
                v1.p1,
                v1.p2,
                v1.p3,
                x,
                y,
            ) {
                v0.graph_color
            } else {
                v0.fb.pixel(x, y)
            }
    })
    &&& (op == 0x1D ==> v1 == (VDP { graph_origin: v1.graph_origin, ..v0 }) && r.is_empty())
    &&& (op == 0x1F ==> v1 == (VDP { cursor: v1.cursor, ..v0 }) && r.is_empty())
}

/// What terminal-mode input `cmd` does to the coprocessor, from `v0` to
/// `v1`.
pub open spec fn terminal_effect(v0: VDP, v1: VDP, cmd: Seq<u8>) -> bool {
    let n = cmd[0];
    &&& v1.terminal_mode == v0.terminal_mode
    &&& (n >= 0x20 && n != 0x7F ==> v1.cursor == VDP::settle(v0.cursor.moved_right()) && (forall|
        x: int,
        y: int,
    | #[trigger] v1.fb.in_bounds(x, y) ==> v1.fb.pixel(x, y) == v0.printed_pixel(n, x, y)))
    &&& (n == 0x08 ==> v1.cursor == v0.cursor.moved_left() && v1.fb == v0.fb)
    &&& (n == 0x0A ==> v1.cursor == VDP::settle(v0.cursor.moved_down()) && (forall|
        x: int,
        y: int,
    | #[trigger] v1.fb.in_bounds(x, y) ==> v1.fb.pixel(x, y) == v0.fed_pixel(x, y)))
    &&& (n == 0x0D ==> v1.cursor == v0.cursor.homed() && v1.fb == v0.fb)
    &&& (csi_command(cmd) == 74 && csi_arguments(cmd)[0] == 2 ==> v1.fb.all(v0.background_color)
        && v1.cursor == v0.cursor)
    &&& (csi_command(cmd) == 65 ==> v1.cursor == up_times(v0.cursor, count_of(csi_arguments(cmd)[0]))
        && v1.fb == v0.fb)
    &&& (csi_command(cmd) == 68 ==> v1.cursor == left_times(
        v0.cursor,
        count_of(csi_arguments(cmd)[0]),
    ) && v1.fb == v0.fb)
    &&& (csi_command(cmd) == 66 ==> v1.cursor == down_times(
        v0.cursor,
        count_of(csi_arguments(cmd)[0]),
    ))
    &&& (csi_command(cmd) == 67 ==> v1.cursor == right_times(
        v0.cursor,
        count_of(csi_arguments(cmd)[0]),
    ))
    &&& (csi_command(cmd) == 72 || csi_command(cmd) == 102 ==> v1.fb == v0.fb && {
        let params = csi_arguments(cmd);
        let row = count_of(params[0]);
        let col = if params.len() >= 2 {
            count_of(params[1])
        } else {
            1
        };
        let x = (col - 1) * v0.cursor.font_width;
        let y = (row - 1) * v0.cursor.font_height;
        v1.cursor == if x < v0.cursor.screen_width && y < v0.cursor.screen_height {
            Cursor { position_x: x as i32, position_y: y as i32, ..v0.cursor }
        } else {
            v0.cursor
        }
    })
    &&& (csi_command(cmd) == 74 && csi_arguments(cmd)[0] == 0 ==> v1.cursor == v0.cursor && forall|
        x: int,
        y: int,
    | #[trigger]
        v1.fb.in_bounds(x, y) ==> v1.fb.pixel(x, y) == if y >= v0.cursor.position_y
            + v0.cursor.font_height || (v0.cursor.position_y <= y && x >= v0.cursor.position_x) {
            v0.background_color
        } else {
            v0.fb.pixel(x, y)
        })
    &&& (csi_command(cmd) == 74 && csi_arguments(cmd)[0] == 1 ==> v1.cursor == v0.cursor && forall|
        x: int,
        y: int,
    | #[trigger]
        v1.fb.in_bounds(x, y) ==> v1.fb.pixel(x, y) == if y < v0.cursor.position_y || (y
            < v0.cursor.position_y + v0.cursor.font_height && x < v0.cursor.position_x
            + v0.cursor.font_width) {
            v0.background_color
        } else {
            v0.fb.pixel(x, y)
        })
    &&& (csi_command(cmd) == 75 ==> v1.cursor == v0.cursor && forall|x: int, y: int|
        #[trigger]
        v1.fb.in_bounds(x, y) ==> v1.fb.pixel(x, y) == if in_rect(
            x,
            y,
            line_clear_x(v0.cursor, csi_arguments(cmd)[0]),
            v0.cursor.position_y as int,
            line_clear_w(v0.cursor, csi_arguments(cmd)[0]),
            v0.cursor.font_height as int,
        ) {
            v0.background_color
        } else {
            v0.fb.pixel(x, y)
        })
    &&& (csi_command(cmd) == 76 ==> v1.cursor == v0.cursor && forall|x: int, y: int|
        #[trigger]
        v1.fb.in_bounds(x, y) ==> v1.fb.pixel(x, y) == v0.fb.shifted_pixel(
            v0.cursor.position_y as int,
            0,
            count_of(csi_arguments(cmd)[0]) * v0.cursor.font_height,
            v0.background_color,
            x,
            y,
        ))
    &&& (csi_command(cmd) == 77 ==> v1.cursor == v0.cursor && forall|x: int, y: int|
        #[trigger]
        v1.fb.in_bounds(x, y) ==> v1.fb.pixel(x, y) == v0.fb.shifted_pixel(
            v0.cursor.position_y as int,
            0,
            -(count_of(csi_arguments(cmd)[0]) * v0.cursor.font_height),
            v0.background_color,
            x,
            y,
        ))
    &&& (csi_command(cmd) == 109 ==> (
        v1.foreground_color,
        v1.background_color,
        v1.terminal_reverse,
        v1.terminal_underline,
    ) == sgr_fold(
        v0.current_video_mode.colors,
        (v0.foreground_color, v0.background_color, v0.terminal_reverse, v0.terminal_underline),
        csi_arguments(cmd),
    ))
    &&& (n >= 0x20 && n != 0x7F || n == 0x08 || n == 0x0A || n == 0x0D ==> v1.same_but_screen(&v0))
    &&& (terminal_noop(cmd) ==> v1 == v0)
    &&& (csi_command(cmd) == 65 || csi_command(cmd) == 68 || csi_command(cmd) == 72
        || csi_command(cmd) == 102 ==> v1.same_but_screen(&v0) && v1.fb == v0.fb)
    &&& (csi_command(cmd) == 66 || csi_command(cmd) == 67 ==> v1.same_but_screen(&v0))
    &&& (csi_command(cmd) == 74 || csi_command(cmd) == 75 || csi_command(cmd) == 76
        || csi_command(cmd) == 77 ==> v1.same_but_fb(&v0))
    &&& (csi_command(cmd) == 109 ==> v1.fb == v0.fb && v1.same_but_fb(
        &VDP {
            foreground_color: v1.foreground_color,
            background_color: v1.background_color,
            terminal_reverse: v1.terminal_reverse,
            terminal_underline: v1.terminal_underline,
            ..v0
        },
    ))
}

/// Whether whole input `s`, run from `v0`, gives `v1` and `r`: as terminal
/// input in terminal mode, as a native command otherwise.
pub open spec fn ran(v0: VDP, v1: VDP, s: Seq<u8>, r: Response) -> bool {
    if v0.terminal_mode {
        terminal_effect(v0, v1, s) && r.is_empty()
    } else {
        native_effect(v0, v1, s, seq![], r)
    }
}

/// Whether `s` is a whole terminal-mode input: one byte, or ESC followed by
/// a whole escape sequence.
pub open spec fn terminal_complete(s: Seq<u8>) -> bool {
    &&& s.len() > 0
    &&& if s[0] != 0x1b {
        s.len() == 1
    } else {
        s.len() >= 2 && (if s[1] != 91 {
            s.len() == 2
        } else {
            csi_ends_at(s.subrange(1, s.len() as int), s.len() - 2)
        })
    }
}

/// The modifier byte of a key event: bit 0 control, bit 1 shift, bit 2 left
/// alt, bit 3 right alt, bit 4 caps lock, bit 5 num lock, bit 7 GUI.
pub open spec fn modifier_bits(keymod: u16) -> u8 {
    ((if keymod & (MOD_LCTRL | MOD_RCTRL) != 0 {
        1int
    } else {
        0
    }) + (if keymod & (MOD_LSHIFT | MOD_RSHIFT) != 0 {
        2int
    } else {
        0
    }) + (if keymod & MOD_LALT != 0 {
        4int
    } else {
        0
    }) + (if keymod & MOD_RALT != 0 {
        8int
    } else {
        0
    }) + (if keymod & MOD_CAPS != 0 {
        16int
    } else {
        0
    }) + (if keymod & MOD_NUM != 0 {
        32int
    } else {
        0
    }) + (if keymod & (MOD_LGUI | MOD_RGUI) != 0 {
        128int
    } else {
        0
    })) as u8
}

/// The modifier byte of a key event.
fn modifier_byte(keymod: u16) -> (m: u8)
    ensures
        m == modifier_bits(keymod),
{
    let mut modifiers: u8 = 0;
    if keymod & (MOD_LCTRL | MOD_RCTRL) != 0 {
        modifiers = modifiers + 1;
    }
    if keymod & (MOD_LSHIFT | MOD_RSHIFT) != 0 {
        modifiers = modifiers + 2;
    }
    if keymod & MOD_LALT != 0 {
        modifiers = modifiers + 4;
    }
    if keymod & MOD_RALT != 0 {
        modifiers = modifiers + 8;
    }
    if keymod & MOD_CAPS != 0 {
        modifiers = modifiers + 16;
    }
    if keymod & MOD_NUM != 0 {
        modifiers = modifiers + 32;
    }
    if keymod & (MOD_LGUI | MOD_RGUI) != 0 {
        modifiers = modifiers + 128;
    }
    modifiers
}

/// The character that a key types with control held: its low five bits.
pub open spec fn key_char(scancode: i32, keymod: u16) -> u8 {
    let a = vk_ascii(us_key(scancode, keymod));
    if keymod & (MOD_LCTRL | MOD_RCTRL) != 0 {
        a & 0x1f
    } else {
        a
    }
}

/// State of the display attributes (foreground, background, reverse,
/// underline) after the attribute codes `attrs`, in a mode with `colors`
/// colors.
pub open spec fn sgr_fold(colors: u8, st: (Color, Color, bool, bool), attrs: Seq<u8>) -> (
    Color,
    Color,
    bool,
    bool,
)
    decreases attrs.len(),
{
    if attrs.len() == 0 {
        st
    } else {
        let p = sgr_fold(colors, st, attrs.drop_last());
        let a = attrs.last();
        if a == 0 {
            (Color { r: 170, g: 170, b: 170 }, Color { r: 0, g: 0, b: 0 }, false, false)
        } else if a == 1 {
            (Color { r: 255, g: 255, b: 255 }, p.1, p.2, p.3)
        } else if a == 4 {
            (p.0, p.1, p.2, true)
        } else if a == 7 {
            (p.0, p.1, true, p.3)
        } else if 30 <= a <= 37 {
            (palette_color(colors, a - 30), p.1, p.2, p.3)
        } else if 40 <= a <= 47 {
            (p.0, palette_color(colors, a - 40), p.2, p.3)
        } else {
            p
        }
    }
}

/// Command letter of a whole terminal-mode escape sequence `s` (ESC `[`
/// ... letter); 0 for other input.
pub open spec fn csi_command(s: Seq<u8>) -> u8 {
    if s.len() >= 3 && s[0] == 0x1b && s[1] == 91 {
        s.last()
    } else {
        0
    }
}

/// Parameters of a whole terminal-mode escape sequence `s`.
pub open spec fn csi_arguments(s: Seq<u8>) -> Seq<u8> {
    csi_params(s.subrange(2, s.len() - 1))
}

/// A control sequence has one end: the first byte after `[` that is not a
/// parameter byte.
proof fn lemma_csi_end_unique(t: Seq<u8>, e1: int, e2: int)
    requires
        csi_ends_at(t, e1),
        csi_ends_at(t, e2),
    ensures
        e1 == e2,
{
    if e1 < e2 {
        assert(is_param_byte(t[e1]));
    }
    if e2 < e1 {
        assert(is_param_byte(t[e2]));
    }
}

impl VDP {
    /// Takes part in polling before input is read: performs a scroll that
    /// was deferred until continuation, and tells whether input may be read
    /// (not while paged mode waits for continuation).
    pub fn ready_for_input(&mut self) -> (ready: bool)
        requires
            old(self).wf(),
        ensures
            final(self).wf(),
            ready == !(final(self).cursor.paged_mode && final(self).cursor.paged_count
                == PageState::AwaitingContinue),
            !(old(self).cursor.paged_mode && old(self).cursor.paged_count
                == PageState::ContinueGranted) ==> *final(self) == *old(self),
            old(self).cursor.paged_mode && old(self).cursor.paged_count
                == PageState::ContinueGranted ==> final(self).cursor == (Cursor {
                paged_count: PageState::Counting(0),
                ..VDP::settle(old(self).cursor)
            }) && (forall|x: int, y: int| #[trigger]
                final(self).fb.in_bounds(x, y) ==> final(self).fb.pixel(x, y) == if old(self).cursor.needs_scroll() {
                    old(self).scrolled_pixel(|px: int, py: int| old(self).fb.pixel(px, py), x, y)
                } else {
                    old(self).fb.pixel(x, y)
                }),
    {
        if self.cursor.paged_mode {
            if self.cursor.paged_count == PageState::AwaitingContinue {
                return false;
            }
            if self.cursor.paged_count == PageState::ContinueGranted {
                self.check_scrolling_needed();
                self.cursor.paged_count = PageState::Counting(0);
                assert forall|x: int, y: int| #[trigger]
                    self.fb.in_bounds(x, y) implies self.fb.pixel(x, y) == if old(self).cursor.needs_scroll() {
                        old(self).scrolled_pixel(|px: int, py: int| old(self).fb.pixel(px, py), x, y)
                    } else {
                        old(self).fb.pixel(x, y)
                    } by {
                    let fh = old(self).cursor.font_height as int;
                    if old(self).cursor.needs_scroll() && y + fh < self.fb.height {
                        assert(old(self).fb.in_bounds(x, y + fh));
                    }
                }
            }
        }
        true
    }

    /// A key event: `scancode` and `keymod` as the input source reports
    /// them, `down` for a press. With control held the character is reduced
    /// to a control code, and control-N / control-O switch paged mode on /
    /// off. In terminal mode a press sends the character; otherwise every
    /// event sends a keyboard packet, and shift grants continuation to a
    /// paged screen that waits for it.
    pub fn send_key(&mut self, scancode: i32, keymod: u16, down: bool) -> (out: Vec<u8>)
        requires
            old(self).wf(),
        ensures
            *final(self) == (VDP {
                cursor: Cursor {
                    paged_mode: final(self).cursor.paged_mode,
                    paged_count: final(self).cursor.paged_count,
                    ..old(self).cursor
                },
                ..*old(self)
            }),
            final(self).cursor.paged_count == if !old(self).terminal_mode && keymod & (MOD_LSHIFT
                | MOD_RSHIFT) != 0 && final(self).cursor.paged_mode && old(self).cursor.paged_count
                == PageState::AwaitingContinue {
                PageState::ContinueGranted
            } else {
                old(self).cursor.paged_count
            },
            final(self).wf(),
            old(self).terminal_mode ==> out@ == if down {
                seq![key_char(scancode, keymod)]
            } else {
                seq![]
            },
            !old(self).terminal_mode ==> out@ == packet_spec(
                1,
                seq![
                    key_char(scancode, keymod),
                    modifier_bits(keymod),
                    us_key(scancode, keymod).spec_code(),
                    if down {
                        1u8
                    } else {
                        0u8
                    },
                ],
            ),
            final(self).cursor.paged_mode == if keymod & (MOD_LCTRL | MOD_RCTRL) != 0 && key_char(
                scancode,
                keymod,
            ) == 0x0e {
                true
            } else if keymod & (MOD_LCTRL | MOD_RCTRL) != 0 && key_char(scancode, keymod) == 0x0f {
                false
            } else {
                old(self).cursor.paged_mode
            },
    {
        let vk = sdl_scancode_to_fbgl_virtual_key(scancode, keymod);
        let mut ascii = fabgl_virtual_key_to_ascii(&vk);
        let ctrl = keymod & (MOD_LCTRL | MOD_RCTRL) != 0;
        if ctrl {
            ascii = ascii & 0x1f;
            if ascii == 0x0e {
                self.cursor.paged_mode = true;
            } else if ascii == 0x0f {
                self.cursor.paged_mode = false;
            }
        }
        if self.terminal_mode {
            if down {
                vec![ascii]
            } else {
                Vec::new()
            }
        } else {
            let shift = keymod & (MOD_LSHIFT | MOD_RSHIFT) != 0;
            if shift && self.cursor.paged_mode && self.cursor.paged_count == PageState::AwaitingContinue {
                self.cursor.paged_count = PageState::ContinueGranted;
            }
            let modifiers = modifier_byte(keymod);
            let data = vec![ascii, modifiers, vk.code(), if down { 1 } else { 0 }];
            send_packet(1, &data)
        }
    }

    /// Runs sprite command `cmd` (0x17 0x1B, the sub-command, its
    /// parameters): select / define / draw a bitmap, select a sprite, clear
    /// or add its frames, set the number of active sprites, step or set its
    /// frame, show, hide or move it, refresh what is shown, reset.
    pub fn do_sprites(&mut self, cmd: &Vec<u8>) -> (fault: Option<Fault>)
        requires
            old(self).wf(),
            cmd@.len() >= 3,
            cmd@[0] == 0x17,
            cmd@[1] == 0x1B,
            sprite_len(cmd@) == cmd@.len(),
        ensures
            final(self).wf(),

            final(self).pending@ == old(self).pending@,
            sprite_effect(*old(self), *final(self), cmd@, fault),
    {
        let sub = cmd[2];
        if 5 <= sub && sub <= 14 && sub != 7 && self.sprites.current_sprite as usize >= NUM_SPRITES
            && !(sub == 6 && self.sprites.bitmaps[cmd[3] as usize].is_none()) {
            return Some(Fault::NoSuchSprite(self.sprites.current_sprite));
        }
        if sub == 0 {
            self.sprites.current_bitmap = cmd[3];
        } else if sub == 1 || sub == 2 {
            let w = read_word(cmd, 3);
            let h = read_word(cmd, 5);
            if w > 0 && h > 0 {
                let bm = if sub == 1 {
                    Bitmap::from_rgba(w as u16, h as u16, cmd, 7)
                } else {
                    let c = Rgba { r: cmd[7], g: cmd[8], b: cmd[9], a: cmd[10] };
                    Bitmap::filled(w as u16, h as u16, c)
                };
                self.sprites.define_bitmap(bm);
            }
        } else if sub == 3 {
            let x = read_word(cmd, 3);
            let y = read_word(cmd, 5);
            let b = self.sprites.current_bitmap as usize;
            match &self.sprites.bitmaps[b] {
                Some(bm) => {
                    assert(self.sprites.bitmaps@[b as int] matches Some(bm) ==> bm.wf());
                    draw_bitmap(&mut self.fb, bm, x as i32, y as i32);
                },
                None => {
                    return Some(Fault::UndefinedBitmap(b as u8));
                },
            }
        } else if sub == 4 {
            self.sprites.current_sprite = cmd[3];
        } else if sub == 5 {
            self.sprites.clear_frames();
        } else if sub == 6 {
            let n = cmd[3];
            if self.sprites.bitmaps[n as usize].is_none() {
                return Some(Fault::UndefinedBitmap(n));
            }
            if self.sprites.sprites[self.sprites.current_sprite as usize].frames.len() >= MAX_FRAMES {
                return Some(Fault::TooManyFrames(self.sprites.current_sprite));
            }
            self.sprites.add_frame(n);
        } else if sub == 7 {
            self.sprites.num_sprites = cmd[3];
        } else if sub == 8 {
            self.sprites.next_frame();
        } else if sub == 9 {
            self.sprites.prev_frame();
        } else if sub == 10 {
            let b = cmd[3];
            let i = self.sprites.current_sprite as usize;
            if b as usize >= self.sprites.sprites[i].frames.len() {
                return Some(Fault::FrameOutOfRange(b));
            }
            self.sprites.set_frame(b);
        } else if sub == 11 {
            if !self.sprites.show() {
                return Some(Fault::NoFrames(self.sprites.current_sprite));
            }
        } else if sub == 12 {
            self.sprites.conceal();
        } else if sub == 13 {
            let x = read_word(cmd, 3);
            let y = read_word(cmd, 5);
            self.sprites.move_to(x, y);
        } else if sub == 14 {
            let x = read_word(cmd, 3);
            let y = read_word(cmd, 5);
            self.sprites.move_by(x, y);
        } else if sub == 15 {
            self.sprites.num_sprites_shown = self.sprites.num_sprites;
        } else if sub == 16 {
            self.cls();
            self.sprites.reset();
        } else {
            return Some(Fault::UnknownSpriteCommand(sub));
        }
        None
    }

    /// The packet of the time of day `t`: years since 1980, month from 0,
    /// day, 0, weekday, hour, minute, second.
    pub fn time_packet(t: &DateTimeFields) -> (out: Vec<u8>)
        requires
            1 <= t.month <= 12,
            t.day <= 31,
            t.weekday <= 6,
            t.hour <= 23,
            t.minute <= 59,
            t.second <= 59,
        ensures
            out@ == packet_spec(
                7,
                seq![
                    ((t.year - 1980) % 256) as u8,
                    (t.month - 1) as u8,
                    t.day as u8,
                    0u8,
                    t.weekday as u8,
                    t.hour as u8,
                    t.minute as u8,
                    t.second as u8,
                ],
            ),
    {
        let y: i64 = t.year as i64 - 1980;
        let yb: u8 = (((y % 256) + 256) % 256) as u8;
        assert(yb == (t.year - 1980) % 256);
        let data = vec![
            yb,
            (t.month - 1) as u8,
            t.day as u8,
            0,
            t.weekday as u8,
            t.hour as u8,
            t.minute as u8,
            t.second as u8,
        ];
        send_packet(7, &data)
    }

    /// Runs system-control command `cmd` (0x17 0x00, the sub-command, its
    /// parameters), handing it the tone completions `finished` reported
    /// since the last call.
    pub fn video_system_control(&mut self, cmd: &Vec<u8>, finished: &Vec<u8>) -> (r: Response)
        requires
            old(self).wf(),
            cmd@.len() >= 3,
            cmd@[0] == 0x17,
            cmd@[1] == 0,
            system_len(cmd@) == cmd@.len(),
        ensures
            final(self).wf(),

            final(self).pending@ == old(self).pending@,
            system_effect(*old(self), *final(self), cmd@, finished@, r),
    {
        let sub = cmd[2];
        if sub == 0x80 {
            let data: Vec<u8> = vec![cmd[3]];
            assert(data@ =~= seq![cmd@[3]]);
            Response::bytes(send_packet(0, &data))
        } else if sub == 0x82 {
            Response::bytes(self.send_cursor_position())
        } else if sub == 0x83 {
            let x = read_word(cmd, 3);
            let y = read_word(cmd, 5);
            Response::bytes(self.send_screen_char(x, y))
        } else if sub == 0x84 {
            let x = read_word(cmd, 3);
            let y = read_word(cmd, 5);
            Response::bytes(self.send_screen_pixel(x, y))
        } else if sub == 0x85 {
            let channel = cmd[3];
            let frequency = read_word(cmd, 6);
            let duration = read_word(cmd, 8);
            let (ok, tone) = self.audio_channels.start_tone(
                finished,
                channel,
                cmd[4],
                cmd[5],
                frequency,
                duration,
            );
            let bytes = send_packet(5, &vec![channel, if ok { 1 } else { 0 }]);
            Response { bytes, tone, circle: None, fault: None }
        } else if sub == 0x86 {
            Response::bytes(self.send_mode_information())
        } else if sub == 0x87 {
            if cmd[3] == 0 {
                let t = local_date_time();
                Response::bytes(Self::time_packet(&t))
            } else {
                Response::empty()
            }
        } else if sub == 0x88 {
            Response::bytes(send_packet(8, &vec![0, 0, 0, 0, 0]))
        } else if sub == 0xC0 {
            self.logical_coords = cmd[3] != 0;
            Response::empty()
        } else if sub == 0xFF {
            Response::bytes(self.switch_terminal_mode())
        } else if sub == 0x81 {
            Response::empty()
        } else {
            Response::fault(Fault::UnknownSystemCommand(sub))
        }
    }

    /// Prints character `n` (from 0x20) at the cursor and advances, then
    /// scrolls if the cursor went below the screen.
    pub fn print_char(&mut self, n: u8)
        requires
            old(self).wf(),
        ensures
            final(self).wf(),
            final(self).same_but_screen(old(self)),
            final(self).fb.same_size(&old(self).fb),
            final(self).cursor == VDP::settle(old(self).cursor.moved_right()),
            forall|x: int, y: int| #[trigger]
                final(self).fb.in_bounds(x, y) ==> final(self).fb.pixel(x, y) == old(self).printed_pixel(n, x, y),
    {
        self.render_char(n);
        let ghost drawn = self.fb;
        self.cursor.right();
        self.check_scrolling_needed();
        assert forall|x: int, y: int| #[trigger]
            self.fb.in_bounds(x, y) implies self.fb.pixel(x, y) == old(self).printed_pixel(n, x, y) by {
            let fh = old(self).cursor.font_height as int;
            if old(self).cursor.moved_right().needs_scroll() && y + fh < self.fb.height {
                assert(drawn.in_bounds(x, y + fh));
            }
        }
    }

    /// Moves down one row, then scrolls if the cursor went below the screen.
    pub fn line_feed(&mut self)
        requires
            old(self).wf(),
        ensures
            final(self).wf(),
            final(self).same_but_screen(old(self)),
            final(self).fb.same_size(&old(self).fb),
            final(self).cursor == VDP::settle(old(self).cursor.moved_down()),
            forall|x: int, y: int| #[trigger]
                final(self).fb.in_bounds(x, y) ==> final(self).fb.pixel(x, y) == old(self).fed_pixel(x, y),
    {
        self.cursor.down();
        self.check_scrolling_needed();
        assert forall|x: int, y: int| #[trigger]
            self.fb.in_bounds(x, y) implies self.fb.pixel(x, y) == old(self).fed_pixel(x, y) by {
            let fh = old(self).cursor.font_height as int;
            if old(self).cursor.moved_down().needs_scroll() && y + fh < self.fb.height {
                assert(old(self).fb.in_bounds(x, y + fh));
            }
        }
    }

    /// Runs VDU 23 command `cmd`: system control, cursor enable, screen
    /// scroll, sprites, or the redefinition of a glyph.
    fn execute_extended(&mut self, cmd: &Vec<u8>, finished: &Vec<u8>) -> (r: Response)
        requires
            old(self).wf(),
            cmd@.len() > 0,
            cmd@[0] == 0x17,
            native_len(cmd@) == cmd@.len(),
        ensures
            final(self).wf(),
            final(self).pending@ == old(self).pending@,
            native_effect(*old(self), *final(self), cmd@, finished@, r),
    {
        let n = cmd[1];
        if n == 0 {
            return self.video_system_control(cmd, finished);
        } else if n == 1 {
            self.cursor_enabled = cmd[2] != 0;
        } else if n == 7 {
            self.scroll(cmd[2] != 0, cmd[3], cmd[4]);
        } else if n == 0x1B {
            let fault = self.do_sprites(cmd);
            return Response { bytes: Vec::new(), tone: None, circle: None, fault };
        } else if n >= 32 {
            let base: usize = (n - 32) as usize * 8;
            let mut i: usize = 0;
            while i < 8
                invariant
                    self.wf(),
                    old(self).wf(),
                    self.pending@ == old(self).pending@,
                    base == (n - 32) * 8,
                    32 <= n <= 255,
                    cmd@.len() == 10,
                    0 <= i <= 8,
                    self.cursor == old(self).cursor,
                    self.fb == old(self).fb,
                    self.mode_index == old(self).mode_index,
                    self.current_video_mode == old(self).current_video_mode,
                    self.foreground_color == old(self).foreground_color,
                    self.background_color == old(self).background_color,
                    self.graph_origin == old(self).graph_origin,
                    self.cursor_enabled == old(self).cursor_enabled,
                    self.same_but_fb(&VDP { font_data: self.font_data, ..*old(self) }),
                    self.font_data@.len() == old(self).font_data@.len(),
                    forall|k: int|
                        0 <= k < self.font_data@.len() ==> #[trigger] self.font_data@[k]
                            == if base <= k < base + i {
                            cmd@[2 + k - base]
                        } else {
                            old(self).font_data@[k]
                        },
                decreases 8 - i,
            {
                self.font_data.set(base + i, cmd[2 + i]);
                i = i + 1;
            }
            assert(self.font_data@ =~= glyph_redefined(old(self).font_data@, cmd@));
        } else {
            return Response::fault(Fault::UnknownExtendedCommand(n));
        }
        Response::empty()
    }

    /// Runs native command `cmd`, opcode and parameters. Printable bytes
    /// print; the control codes move the cursor, clear the screen or the
    /// graphics, set colors, paged mode, the mode, plot, set the graphics
    /// origin, tab to a cell, or lead the system, sprite and glyph
    /// commands. Unknown opcodes change nothing.
    pub fn execute_native(&mut self, cmd: &Vec<u8>, finished: &Vec<u8>) -> (r: Response)
        requires
            old(self).wf(),
            cmd@.len() > 0,
            native_len(cmd@) == cmd@.len(),
        ensures
            final(self).wf(),
            final(self).pending@ == old(self).pending@,
            native_effect(*old(self), *final(self), cmd@, finished@, r),
    {
        let op = cmd[0];
        if op >= 0x20 && op != 0x7F {
            self.print_char(op);
        } else if op == 0x08 {
            self.cursor.left();
        } else if op == 0x09 {
            self.cursor.right();
        } else if op == 0x0A {
            self.line_feed();
        } else if op == 0x0B {
            self.cursor.up();
        } else if op == 0x0C {
            self.cls();
        } else if op == 0x0D || op == 0x1E {
            self.cursor.home();
        } else if op == 0x0E {
            self.cursor.paged_mode = true;
        } else if op == 0x0F {
            self.cursor.paged_mode = false;
        } else if op == 0x10 {
            self.clg();
        } else if op == 0x11 {
            self.color(cmd[1]);
        } else if op == 0x12 {
            self.gcolor(cmd[1], cmd[2]);
        } else if op == 0x16 {
            let m = cmd[1];
            if m < NUM_MODES {
                self.change_mode(m);
                return Response::bytes(self.send_mode_information());
            }
            let mut r = Response::bytes(self.send_mode_information());
            r.fault = Some(Fault::InvalidMode(m));
            return r;
        } else if op == 0x17 {
            return self.execute_extended(cmd, finished);
        } else if op == 0x19 {
            let x = read_word(cmd, 2);
            let y = read_word(cmd, 4);
            let circle = self.plot(cmd[1], x, y);
            return Response { bytes: Vec::new(), tone: None, circle, fault: None };
        } else if op == 0x1D {
            let x = read_word(cmd, 1);
            let y = read_word(cmd, 3);
            if x >= 0 && y >= 0 {
                self.graph_origin = scale(
                    Point::new(x as i32, y as i32),
                    self.logical_coords,
                    self.cursor.screen_width,
                    self.cursor.screen_height,
                );
            }
        } else if op == 0x1F {
            assert(cmd@[2] * self.cursor.font_height <= 255 * TERMINAL_FONT_HEIGHT) by (nonlinear_arith)
                requires
                    cmd@[2] <= 255,
                    0 < self.cursor.font_height <= TERMINAL_FONT_HEIGHT,
            ;
            let x = cmd[1] as i32 * self.cursor.font_width;
            let y = cmd[2] as i32 * self.cursor.font_height;
            if x < self.cursor.screen_width && y < self.cursor.screen_height {
                self.cursor.position_x = x;
                self.cursor.position_y = y;
            }
        } else if op == 0x7F {
            self.backspace();
        } else if op != 0x13 {
            return Response::fault(Fault::UnknownCommand(op));
        }
        Response::empty()
    }

    /// Applies the display attributes of `attrs` in turn: 0 resets them, 1
    /// brightens the foreground, 4 underlines, 7 reverses, 30 to 37 and 40
    /// to 47 pick the foreground and background from the palette.
    pub fn apply_attributes(&mut self, attrs: &Vec<u8>)
        requires
            old(self).wf(),
        ensures
            final(self).wf(),
            (final(self).foreground_color, final(self).background_color, final(
                self
            ).terminal_reverse, final(self).terminal_underline) == sgr_fold(
                old(self).current_video_mode.colors,
                (old(self).foreground_color, old(self).background_color, old(
                    self
                ).terminal_reverse, old(self).terminal_underline),
                attrs@,
            ),
            final(self).same_but_fb(
                &VDP {
                    foreground_color: final(self).foreground_color,
                    background_color: final(self).background_color,
                    terminal_reverse: final(self).terminal_reverse,
                    terminal_underline: final(self).terminal_underline,
                    fb: final(self).fb,
                    ..*old(self)
                },
            ),
            final(self).fb == old(self).fb,
    {
        let colors = self.current_video_mode.colors;
        let mut i: usize = 0;
        while i < attrs.len()
            invariant
                self.wf(),
                old(self).wf(),
                colors == old(self).current_video_mode.colors,
                0 <= i <= attrs@.len(),
                (self.foreground_color, self.background_color, self.terminal_reverse,
                self.terminal_underline) == sgr_fold(
                    colors,
                    (old(self).foreground_color, old(self).background_color, old(
                        self
                    ).terminal_reverse, old(self).terminal_underline),
                    attrs@.subrange(0, i as int),
                ),
                self.same_but_fb(
                    &VDP {
                        foreground_color: self.foreground_color,
                        background_color: self.background_color,
                        terminal_reverse: self.terminal_reverse,
                        terminal_underline: self.terminal_underline,
                        fb: self.fb,
                        ..*old(self)
                    },
                ),
                self.fb == old(self).fb,
            decreases attrs@.len() - i,
        {
            let a = attrs[i];
            assert(attrs@.subrange(0, i + 1).drop_last() == attrs@.subrange(0, i as int));
            if a == 0 {
                self.foreground_color = Color::rgb(170, 170, 170);
                self.background_color = Color::rgb(0, 0, 0);
                self.terminal_reverse = false;
                self.terminal_underline = false;
            } else if a == 1 {
                self.foreground_color = Color::rgb(255, 255, 255);
            } else if a == 4 {
                self.terminal_underline = true;
            } else if a == 7 {
                self.terminal_reverse = true;
            } else if 30 <= a && a <= 37 {
                self.foreground_color = palette_color_of(colors, (a - 30) as usize);
            } else if 40 <= a && a <= 47 {
                self.background_color = palette_color_of(colors, (a - 40) as usize);
            }
            i = i + 1;
        }
        assert(attrs@.subrange(0, attrs@.len() as int) == attrs@);
    }

    /// Runs terminal-mode input `cmd`: a printable byte prints, BS moves
    /// left, LF moves down, CR to the row start; ESC `[` sequences move the
    /// cursor (A up, B down, C right, D left, by a count that defaults to
    /// 1; H and f to a 1-based row and column), erase the display (J) or the
    /// line (K), insert (L) or delete (M) rows, or set attributes (m).
    pub fn print_terminal(&mut self, cmd: &Vec<u8>)
        requires
            old(self).wf(),
            terminal_complete(cmd@),
        ensures
            final(self).wf(),
            final(self).pending@ == old(self).pending@,
            terminal_effect(*old(self), *final(self), cmd@),
    {
        let n = cmd[0];
        if n >= 0x20 && n != 0x7f {
            self.print_char(n);
            return;
        } else if n == 0x08 {
            self.cursor.left();
            return;
        } else if n == 0x0a {
            self.line_feed();
            return;
        } else if n == 0x0d {
            self.cursor.home();
            return;
        } else if n != 0x1b {
            return;
        }
        let mut tail: Vec<u8> = Vec::new();
        let mut i: usize = 1;
        while i < cmd.len()
            invariant
                1 <= i <= cmd@.len(),
                tail@ == cmd@.subrange(1, i as int),
            decreases cmd@.len() - i,
        {
            tail.push(cmd[i]);
            i = i + 1;
        }
        assert(tail@ == cmd@.subrange(1, cmd@.len() as int));
        let ctl = match parse_control(&tail) {
            Some(c) => c,
            None => { return; },
        };
        proof {
            if tail@[0] == 91 {
                lemma_csi_end_unique(tail@, ctl.len - 1, cmd@.len() - 2);
            }
        }
        let letter = ctl.cmd;
        let params = ctl.params;
        proof {
            if tail@[0] == 91 {
                assert(tail@.subrange(1, ctl.len - 1) =~= cmd@.subrange(2, cmd@.len() - 1));
            }
        }
        if letter != 0 {
            self.run_control(letter, &params);
        }
    }

    /// Runs the escape sequence with command letter `letter` and
    /// parameters `params`.
    pub fn run_control(&mut self, letter: u8, params: &Vec<u8>)
        requires
            old(self).wf(),
            params@.len() >= 1,
        ensures
            letter == 65 || letter == 68 || letter == 72 || letter == 102 ==> final(self).same_but_screen(old(self)) && final(self).fb == old(self).fb,
            letter == 66 || letter == 67 ==> final(self).same_but_screen(old(self)),
            letter == 74 || letter == 75 || letter == 76 || letter == 77 ==> final(self).same_but_fb(
                old(self),
            ),
            letter == 109 ==> final(self).fb == old(self).fb && final(self).same_but_fb(
                &VDP {
                    foreground_color: final(self).foreground_color,
                    background_color: final(self).background_color,
                    terminal_reverse: final(self).terminal_reverse,
                    terminal_underline: final(self).terminal_underline,
                    ..*old(self)
                },
            ),
            !csi_letter_known(letter) ==> *final(self) == *old(self),
            final(self).wf(),
            final(self).pending@ == old(self).pending@,
            final(self).terminal_mode == old(self).terminal_mode,
            letter == 74 && params@[0] == 2 ==> final(self).fb.all(old(self).background_color)
                && final(self).cursor == old(self).cursor,
            letter == 65 ==> final(self).cursor == up_times(old(self).cursor, count_of(params@[0]))
                && final(self).fb == old(self).fb,
            letter == 66 ==> final(self).cursor == down_times(old(self).cursor, count_of(params@[0])),
            letter == 67 ==> final(self).cursor == right_times(
                old(self).cursor,
                count_of(params@[0]),
            ),
            letter == 68 ==> final(self).cursor == left_times(
                old(self).cursor,
                count_of(params@[0]),
            ) && final(self).fb == old(self).fb,
            letter == 72 || letter == 102 ==> final(self).fb == old(self).fb && {
                let row = count_of(params@[0]);
                let col = if params@.len() >= 2 {
                    count_of(params@[1])
                } else {
                    1
                };
                let x = (col - 1) * old(self).cursor.font_width;
                let y = (row - 1) * old(self).cursor.font_height;
                final(self).cursor == if x < old(self).cursor.screen_width && y < old(self).cursor.screen_height {
                    Cursor { position_x: x as i32, position_y: y as i32, ..old(self).cursor }
                } else {
                    old(self).cursor
                }
            },
            letter == 74 && params@[0] == 0 ==> final(self).cursor == old(self).cursor && forall|
                x: int,
                y: int,
            | #[trigger]
                final(self).fb.in_bounds(x, y) ==> final(self).fb.pixel(x, y) == if y >= old(self).cursor.position_y + old(self).cursor.font_height || (old(self).cursor.position_y
                    <= y && x >= old(self).cursor.position_x) {
                    old(self).background_color
                } else {
                    old(self).fb.pixel(x, y)
                },
            letter == 74 && params@[0] == 1 ==> final(self).cursor == old(self).cursor && forall|
                x: int,
                y: int,
            | #[trigger]
                final(self).fb.in_bounds(x, y) ==> final(self).fb.pixel(x, y) == if y < old(self).cursor.position_y || (y < old(self).cursor.position_y + old(self).cursor.font_height && x < old(self).cursor.position_x + old(self).cursor.font_width) {
                    old(self).background_color
                } else {
                    old(self).fb.pixel(x, y)
                },
            letter == 75 ==> final(self).cursor == old(self).cursor && forall|x: int, y: int|
                #[trigger]
                final(self).fb.in_bounds(x, y) ==> final(self).fb.pixel(x, y) == if in_rect(
                    x,
                    y,
                    line_clear_x(old(self).cursor, params@[0]),
                    old(self).cursor.position_y as int,
                    line_clear_w(old(self).cursor, params@[0]),
                    old(self).cursor.font_height as int,
                ) {
                    old(self).background_color
                } else {
                    old(self).fb.pixel(x, y)
                },
            letter == 76 ==> final(self).cursor == old(self).cursor && forall|x: int, y: int|
                #[trigger]
                final(self).fb.in_bounds(x, y) ==> final(self).fb.pixel(x, y) == old(self).fb.shifted_pixel(
                    old(self).cursor.position_y as int,
                    0,
                    count_of(params@[0]) * old(self).cursor.font_height,
                    old(self).background_color,
                    x,
                    y,
                ),
            letter == 77 ==> final(self).cursor == old(self).cursor && forall|x: int, y: int|
                #[trigger]
                final(self).fb.in_bounds(x, y) ==> final(self).fb.pixel(x, y) == old(self).fb.shifted_pixel(
                    old(self).cursor.position_y as int,
                    0,
                    -(count_of(params@[0]) * old(self).cursor.font_height),
                    old(self).background_color,
                    x,
                    y,
                ),
            letter == 109 ==> (final(self).foreground_color, final(self).background_color, final(self).terminal_reverse, final(self).terminal_underline)
                == sgr_fold(
                old(self).current_video_mode.colors,
                (old(self).foreground_color, old(self).background_color, old(self).terminal_reverse, old(self).terminal_underline),
                params@,
            ),
    {
        let p0 = params[0];
        let count: u8 = if p0 == 0 { 1 } else { p0 };
        if letter == 65 {
            let mut k: u8 = 0;
            while k < count
                invariant
                    self.wf(),
                    self.pending@ == old(self).pending@,
                    self.terminal_mode == old(self).terminal_mode,
                    0 <= k <= count,
                    self.cursor == up_times(old(self).cursor, k as nat),
                    self.fb == old(self).fb,
                    self.same_but_screen(old(self)),
                decreases count - k,
            {
                self.cursor.up();
                k = k + 1;
            }
        } else if letter == 66 {
            let mut k: u8 = 0;
            while k < count
                invariant
                    self.wf(),
                    self.pending@ == old(self).pending@,
                    self.terminal_mode == old(self).terminal_mode,
                    0 <= k <= count,
                    self.cursor == down_times(old(self).cursor, k as nat),
                    self.same_but_screen(old(self)),
                decreases count - k,
            {
                self.line_feed();
                k = k + 1;
            }
        } else if letter == 67 {
            let mut k: u8 = 0;
            while k < count
                invariant
                    self.wf(),
                    self.pending@ == old(self).pending@,
                    self.terminal_mode == old(self).terminal_mode,
                    0 <= k <= count,
                    self.cursor == right_times(old(self).cursor, k as nat),
                    self.same_but_screen(old(self)),
                decreases count - k,
            {
                self.cursor.right();
                self.check_scrolling_needed();
                k = k + 1;
            }
        } else if letter == 68 {
            let mut k: u8 = 0;
            while k < count
                invariant
                    self.wf(),
                    self.pending@ == old(self).pending@,
                    self.terminal_mode == old(self).terminal_mode,
                    0 <= k <= count,
                    self.cursor == left_times(old(self).cursor, k as nat),
                    self.fb == old(self).fb,
                    self.same_but_screen(old(self)),
                decreases count - k,
            {
                self.cursor.left();
                k = k + 1;
            }
        } else if letter == 72 || letter == 102 {
            let row: u8 = if p0 == 0 { 1 } else { p0 };
            let c1: u8 = if params.len() >= 2 { params[1] } else { 1 };
            let col: u8 = if c1 == 0 { 1 } else { c1 };
            assert((row - 1) * self.cursor.font_height <= 255 * TERMINAL_FONT_HEIGHT) by (nonlinear_arith)
                requires
                    1 <= row <= 255,
                    0 < self.cursor.font_height <= TERMINAL_FONT_HEIGHT,
            ;
            let x = (col - 1) as i32 * self.cursor.font_width;
            let y = (row - 1) as i32 * self.cursor.font_height;
            if x < self.cursor.screen_width && y < self.cursor.screen_height {
                self.cursor.position_x = x;
                self.cursor.position_y = y;
            }
        } else if letter == 74 {
            if p0 == 0 {
                self.clear_line(0);
                let ghost mid = self.fb;
                let px = self.cursor.position_y + self.cursor.font_height;
                self.clear_lines(px, self.cursor.screen_height - px);
                assert forall|x: int, y: int| #[trigger]
                    self.fb.in_bounds(x, y) implies mid.in_bounds(x, y) by {}
            } else if p0 == 1 {
                self.clear_lines(0, self.cursor.position_y);
                let ghost mid = self.fb;
                self.clear_line(1);
                assert forall|x: int, y: int| #[trigger]
                    self.fb.in_bounds(x, y) implies mid.in_bounds(x, y) by {}
            } else if p0 == 2 {
                self.clg();
            }
        } else if letter == 75 {
            self.clear_line(p0);
        } else if letter == 76 {
            self.insert_lines(count);
        } else if letter == 77 {
            self.delete_lines(count);
        } else if letter == 109 {
            self.apply_attributes(params);
        }
    }

    /// Enters mode 1 and prints the boot banner on the first row; the
    /// cursor ends at the start of the second row.
    pub fn start(&mut self)
        requires
            old(self).wf(),
        ensures
            final(self).wf(),
            final(self).mode_index == 1,
            final(self).pending@ == old(self).pending@,
            final(self).cursor.position_x == 0,
            final(self).cursor.position_y == old(self).cursor.font_height,
    {
        self.change_mode(1);
        self.bootscreen();
    }

    /// Prints the boot banner at the cursor, then moves to the start of
    /// the next row.
    fn bootscreen(&mut self)
        requires
            old(self).wf(),
            old(self).cursor.position_x == 0,
            old(self).cursor.position_y == 0,
            old(self).cursor.screen_width >= 320,
        ensures
            final(self).wf(),
            final(self).same_but_screen(old(self)),
            final(self).cursor == (Cursor { position_x: 0, ..old(self).cursor.moved_down() }),
    {
        // "Agon Quark VDP Version 1.03"
        let banner: Vec<u8> = vec![65, 103, 111, 110, 32, 81, 117, 97, 114, 107, 32, 86, 68, 80, 32, 86, 101, 114, 115, 105, 111, 110, 32, 49, 46, 48, 51];
        let mut i: usize = 0;
        while i < banner.len()
            invariant
                self.wf(),
                self.same_but_screen(old(self)),
                banner@.len() == 27,
                0 <= i <= 27,
                self.cursor == (Cursor { position_x: (8 * i) as i32, ..old(self).cursor }),
                old(self).cursor.screen_width >= 320,
                old(self).cursor.font_width == 8,
            decreases banner@.len() - i,
        {
            self.render_char(banner[i]);
            self.cursor.right();
            i = i + 1;
        }
        self.cursor.down();
        self.cursor.home();
    }

    /// Takes the next input byte `b`, with the tone completions `finished`
    /// reported since the last call, whose channels become idle first.
    /// Bytes gather until they make a whole command (native, or terminal
    /// input in terminal mode), which then runs; until then nothing else
    /// changes.
    pub fn feed(&mut self, b: u8, finished: &Vec<u8>) -> (r: Response)
        requires
            old(self).wf(),
        ensures
            final(self).wf(),
            ({
                let s = old(self).pending@.push(b);
                let complete = if old(self).terminal_mode {
                    terminal_complete(s)
                } else {
                    native_len(s) == s.len()
                };
                &&& final(self).audio_channels.channels_busy@.len() == 3
                &&& complete ==> final(self).pending@.len() == 0 && exists|v0: VDP|
                    #[trigger] ran(v0, *final(self), s, r) && v0 == (VDP {
                        pending: v0.pending,
                        audio_channels: v0.audio_channels,
                        ..*old(self)
                    }) && v0.pending@.len() == 0 && v0.audio_channels.channels_busy@
                        == crate::audio::drained(old(self).audio_channels.channels_busy@, finished@)
                &&& !complete ==> *final(self) == (VDP {
                    pending: final(self).pending,
                    audio_channels: final(self).audio_channels,
                    ..*old(self)
                }) && final(self).pending@ == s && r.is_empty()
                    && final(self).audio_channels.channels_busy@ == crate::audio::drained(
                    old(self).audio_channels.channels_busy@,
                    finished@,
                )
            }),
    {
        self.audio_channels.release(finished);
        self.pending.push(b);
        let complete = if self.terminal_mode {
            self.terminal_input_complete()
        } else {
            native_length(&self.pending) == self.pending.len() as u64
        };
        if !complete {
            return Response::empty();
        }
        let mut cmd: Vec<u8> = Vec::new();
        core::mem::swap(&mut cmd, &mut self.pending);
        let ghost v0 = *self;
        if self.terminal_mode {
            self.print_terminal(&cmd);
            let r = Response::empty();
            assert(ran(v0, *self, cmd@, r));
            r
        } else {
            let r = self.execute_native(&cmd, &Vec::new());
            assert(ran(v0, *self, cmd@, r));
            r
        }
    }

    /// Whether the gathered terminal-mode input is whole.
    fn terminal_input_complete(&self) -> (c: bool)
        ensures
            c == terminal_complete(self.pending@),
    {
        let s = &self.pending;
        if s.len() == 0 {
            return false;
        }
        if s[0] != 0x1b {
            return s.len() == 1;
        }
        if s.len() < 2 {
            return false;
        }
        if s[1] != 91 {
            return s.len() == 2;
        }
        if s.len() < 3 {
            return false;
        }
        let last = s[s.len() - 1];
        if 48 <= last && last <= 57 || last == 59 {
            return false;
        }
        let mut j: usize = 2;
        while j < s.len() - 1
            invariant
                2 <= j <= s@.len() - 1,
                s@.len() >= 3,
                s@ == self.pending@,
                s@[0] == 0x1b,
                s@[1] == 91,
                !is_param_byte(s@[s@.len() - 1]),
                forall|k: int| 2 <= k < j ==> is_param_byte(#[trigger] s@[k]),
            decreases s@.len() - 1 - j,
        {
            let c = s[j];
            if !(48 <= c && c <= 57 || c == 59) {
                proof {
                    let t = s@.subrange(1, s@.len() as int);
                    assert(t[j - 1] == c);
                    assert(!is_param_byte(t[j - 1]));
                    assert(!csi_ends_at(t, s@.len() - 2));
                }
                return false;
            }
            j = j + 1;
        }
        proof {
            let t = s@.subrange(1, s@.len() as int);
            assert forall|k: int| 1 <= k < s@.len() - 2 implies is_param_byte(#[trigger] t[k]) by {
                assert(t[k] == s@[k + 1]);
            }
        }
        true
    }
}

} // verus!
