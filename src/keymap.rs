use vstd::prelude::*;

verus! {

/// Virtual key codes, in the order of the keyboard driver's table: a key's
/// position in this list is its code on the wire.
#[allow(non_camel_case_types)]
#[derive(Clone, Copy, Debug, PartialEq, Eq, Structural)]
pub enum FabGlVirtualKey {
    VK_NONE,
    VK_SPACE,
    VK_0,
    VK_1,
    VK_2,
    VK_3,
    VK_4,
    VK_5,
    VK_6,
    VK_7,
    VK_8,
    VK_9,
    VK_KP_0,
    VK_KP_1,
    VK_KP_2,
    VK_KP_3,
    VK_KP_4,
    VK_KP_5,
    VK_KP_6,
    VK_KP_7,
    VK_KP_8,
    VK_KP_9,
    VK_a,
    VK_b,
    VK_c,
    VK_d,
    VK_e,
    VK_f,
    VK_g,
    VK_h,
    VK_i,
    VK_j,
    VK_k,
    VK_l,
    VK_m,
    VK_n,
    VK_o,
    VK_p,
    VK_q,
    VK_r,
    VK_s,
    VK_t,
    VK_u,
    VK_v,
    VK_w,
    VK_x,
    VK_y,
    VK_z,
    VK_A,
    VK_B,
    VK_C,
    VK_D,
    VK_E,
    VK_F,
    VK_G,
    VK_H,
    VK_I,
    VK_J,
    VK_K,
    VK_L,
    VK_M,
    VK_N,
    VK_O,
    VK_P,
    VK_Q,
    VK_R,
    VK_S,
    VK_T,
    VK_U,
    VK_V,
    VK_W,
    VK_X,
    VK_Y,
    VK_Z,
    VK_GRAVEACCENT,
    VK_ACUTEACCENT,
    VK_QUOTE,
    VK_QUOTEDBL,
    VK_EQUALS,
    VK_MINUS,
    VK_KP_MINUS,
    VK_PLUS,
    VK_KP_PLUS,
    VK_KP_MULTIPLY,
    VK_ASTERISK,
    VK_BACKSLASH,
    VK_KP_DIVIDE,
    VK_SLASH,
    VK_KP_PERIOD,
    VK_PERIOD,
    VK_COLON,
    VK_COMMA,
    VK_SEMICOLON,
    VK_AMPERSAND,
    VK_VERTICALBAR,
    VK_HASH,
    VK_AT,
    VK_CARET,
    VK_DOLLAR,
    VK_POUND,
    VK_EURO,
    VK_PERCENT,
    VK_EXCLAIM,
    VK_QUESTION,
    VK_LEFTBRACE,
    VK_RIGHTBRACE,
    VK_LEFTBRACKET,
    VK_RIGHTBRACKET,
    VK_LEFTPAREN,
    VK_RIGHTPAREN,
    VK_LESS,
    VK_GREATER,
    VK_UNDERSCORE,
    VK_DEGREE,
    VK_SECTION,
    VK_TILDE,
    VK_NEGATION,
    VK_LSHIFT,
    VK_RSHIFT,
    VK_LALT,
    VK_RALT,
    VK_LCTRL,
    VK_RCTRL,
    VK_LGUI,
    VK_RGUI,
    VK_ESCAPE,
    VK_PRINTSCREEN,
    VK_SYSREQ,
    VK_INSERT,
    VK_KP_INSERT,
    VK_DELETE,
    VK_KP_DELETE,
    VK_BACKSPACE,
    VK_HOME,
    VK_KP_HOME,
    VK_END,
    VK_KP_END,
    VK_PAUSE,
    VK_BREAK,
    VK_SCROLLLOCK,
    VK_NUMLOCK,
    VK_CAPSLOCK,
    VK_TAB,
    VK_RETURN,
    VK_KP_ENTER,
    VK_APPLICATION,
    VK_PAGEUP,
    VK_KP_PAGEUP,
    VK_PAGEDOWN,
    VK_KP_PAGEDOWN,
    VK_UP,
    VK_KP_UP,
    VK_DOWN,
    VK_KP_DOWN,
    VK_LEFT,
    VK_KP_LEFT,
    VK_RIGHT,
    VK_KP_RIGHT,
    VK_KP_CENTER,
    VK_F1,
    VK_F2,
    VK_F3,
    VK_F4,
    VK_F5,
    VK_F6,
    VK_F7,
    VK_F8,
    VK_F9,
    VK_F10,
    VK_F11,
    VK_F12,
    VK_GRAVE_a,
    VK_GRAVE_e,
    VK_GRAVE_i,
    VK_GRAVE_o,
    VK_GRAVE_u,
    VK_GRAVE_y,
    VK_ACUTE_a,
    VK_ACUTE_e,
    VK_ACUTE_i,
    VK_ACUTE_o,
    VK_ACUTE_u,
    VK_ACUTE_y,
    VK_GRAVE_A,
    VK_GRAVE_E,
    VK_GRAVE_I,
    VK_GRAVE_O,
    VK_GRAVE_U,
    VK_GRAVE_Y,
    VK_ACUTE_A,
    VK_ACUTE_E,
    VK_ACUTE_I,
    VK_ACUTE_O,
    VK_ACUTE_U,
    VK_ACUTE_Y,
    VK_UMLAUT_a,
    VK_UMLAUT_e,
    VK_UMLAUT_i,
    VK_UMLAUT_o,
    VK_UMLAUT_u,
    VK_UMLAUT_y,
    VK_UMLAUT_A,
    VK_UMLAUT_E,
    VK_UMLAUT_I,
    VK_UMLAUT_O,
    VK_UMLAUT_U,
    VK_UMLAUT_Y,
    VK_CARET_a,
    VK_CARET_e,
    VK_CARET_i,
    VK_CARET_o,
    VK_CARET_u,
    VK_CARET_y,
    VK_CARET_A,
    VK_CARET_E,
    VK_CARET_I,
    VK_CARET_O,
    VK_CARET_U,
    VK_CARET_Y,
    VK_CEDILLA_c,
    VK_CEDILLA_C,
    VK_TILDE_a,
    VK_TILDE_o,
    VK_TILDE_n,
    VK_TILDE_A,
    VK_TILDE_O,
    VK_TILDE_N,
    VK_UPPER_a,
    VK_ESZETT,
    VK_EXCLAIM_INV,
    VK_QUESTION_INV,
    VK_INTERPUNCT,
    VK_DIAERESIS,
    VK_SQUARE,
    VK_CURRENCY,
    VK_MU,
    VK_aelig,
    VK_oslash,
    VK_aring,
    VK_AELIG,
    VK_OSLASH,
    VK_ARING,
    VK_YEN,
    VK_MUHENKAN,
    VK_HENKAN,
    VK_KATAKANA_HIRAGANA_ROMAJI,
    VK_HANKAKU_ZENKAKU_KANJI,
    VK_SHIFT_0,
    VK_ASCII,
    VK_LAST,
}

impl FabGlVirtualKey {
    /// The key's code: its position in the table.
    pub open spec fn spec_code(&self) -> u8 {
        match *self {
            FabGlVirtualKey::VK_NONE => 0,
            FabGlVirtualKey::VK_SPACE => 1,
            FabGlVirtualKey::VK_0 => 2,
            FabGlVirtualKey::VK_1 => 3,
            FabGlVirtualKey::VK_2 => 4,
            FabGlVirtualKey::VK_3 => 5,
            FabGlVirtualKey::VK_4 => 6,
            FabGlVirtualKey::VK_5 => 7,
            FabGlVirtualKey::VK_6 => 8,
            FabGlVirtualKey::VK_7 => 9,
            FabGlVirtualKey::VK_8 => 10,
            FabGlVirtualKey::VK_9 => 11,
            FabGlVirtualKey::VK_KP_0 => 12,
            FabGlVirtualKey::VK_KP_1 => 13,
            FabGlVirtualKey::VK_KP_2 => 14,
            FabGlVirtualKey::VK_KP_3 => 15,
            FabGlVirtualKey::VK_KP_4 => 16,
            FabGlVirtualKey::VK_KP_5 => 17,
            FabGlVirtualKey::VK_KP_6 => 18,
            FabGlVirtualKey::VK_KP_7 => 19,
            FabGlVirtualKey::VK_KP_8 => 20,
            FabGlVirtualKey::VK_KP_9 => 21,
            FabGlVirtualKey::VK_a => 22,
            FabGlVirtualKey::VK_b => 23,
            FabGlVirtualKey::VK_c => 24,
            FabGlVirtualKey::VK_d => 25,
            FabGlVirtualKey::VK_e => 26,
            FabGlVirtualKey::VK_f => 27,
            FabGlVirtualKey::VK_g => 28,
            FabGlVirtualKey::VK_h => 29,
            FabGlVirtualKey::VK_i => 30,
            FabGlVirtualKey::VK_j => 31,
            FabGlVirtualKey::VK_k => 32,
            FabGlVirtualKey::VK_l => 33,
            FabGlVirtualKey::VK_m => 34,
            FabGlVirtualKey::VK_n => 35,
            FabGlVirtualKey::VK_o => 36,
            FabGlVirtualKey::VK_p => 37,
            FabGlVirtualKey::VK_q => 38,
            FabGlVirtualKey::VK_r => 39,
            FabGlVirtualKey::VK_s => 40,
            FabGlVirtualKey::VK_t => 41,
            FabGlVirtualKey::VK_u => 42,
            FabGlVirtualKey::VK_v => 43,
            FabGlVirtualKey::VK_w => 44,
            FabGlVirtualKey::VK_x => 45,
            FabGlVirtualKey::VK_y => 46,
            FabGlVirtualKey::VK_z => 47,
            FabGlVirtualKey::VK_A => 48,
            FabGlVirtualKey::VK_B => 49,
            FabGlVirtualKey::VK_C => 50,
            FabGlVirtualKey::VK_D => 51,
            FabGlVirtualKey::VK_E => 52,
            FabGlVirtualKey::VK_F => 53,
            FabGlVirtualKey::VK_G => 54,
            FabGlVirtualKey::VK_H => 55,
            FabGlVirtualKey::VK_I => 56,
            FabGlVirtualKey::VK_J => 57,
            FabGlVirtualKey::VK_K => 58,
            FabGlVirtualKey::VK_L => 59,
            FabGlVirtualKey::VK_M => 60,
            FabGlVirtualKey::VK_N => 61,
            FabGlVirtualKey::VK_O => 62,
            FabGlVirtualKey::VK_P => 63,
            FabGlVirtualKey::VK_Q => 64,
            FabGlVirtualKey::VK_R => 65,
            FabGlVirtualKey::VK_S => 66,
            FabGlVirtualKey::VK_T => 67,
            FabGlVirtualKey::VK_U => 68,
            FabGlVirtualKey::VK_V => 69,
            FabGlVirtualKey::VK_W => 70,
            FabGlVirtualKey::VK_X => 71,
            FabGlVirtualKey::VK_Y => 72,
            FabGlVirtualKey::VK_Z => 73,
            FabGlVirtualKey::VK_GRAVEACCENT => 74,
            FabGlVirtualKey::VK_ACUTEACCENT => 75,
            FabGlVirtualKey::VK_QUOTE => 76,
            FabGlVirtualKey::VK_QUOTEDBL => 77,
            FabGlVirtualKey::VK_EQUALS => 78,
            FabGlVirtualKey::VK_MINUS => 79,
            FabGlVirtualKey::VK_KP_MINUS => 80,
            FabGlVirtualKey::VK_PLUS => 81,
            FabGlVirtualKey::VK_KP_PLUS => 82,
            FabGlVirtualKey::VK_KP_MULTIPLY => 83,
            FabGlVirtualKey::VK_ASTERISK => 84,
            FabGlVirtualKey::VK_BACKSLASH => 85,
            FabGlVirtualKey::VK_KP_DIVIDE => 86,
            FabGlVirtualKey::VK_SLASH => 87,
            FabGlVirtualKey::VK_KP_PERIOD => 88,
            FabGlVirtualKey::VK_PERIOD => 89,
            FabGlVirtualKey::VK_COLON => 90,
            FabGlVirtualKey::VK_COMMA => 91,
            FabGlVirtualKey::VK_SEMICOLON => 92,
            FabGlVirtualKey::VK_AMPERSAND => 93,
            FabGlVirtualKey::VK_VERTICALBAR => 94,
            FabGlVirtualKey::VK_HASH => 95,
            FabGlVirtualKey::VK_AT => 96,
            FabGlVirtualKey::VK_CARET => 97,
            FabGlVirtualKey::VK_DOLLAR => 98,
            FabGlVirtualKey::VK_POUND => 99,
            FabGlVirtualKey::VK_EURO => 100,
            FabGlVirtualKey::VK_PERCENT => 101,
            FabGlVirtualKey::VK_EXCLAIM => 102,
            FabGlVirtualKey::VK_QUESTION => 103,
            FabGlVirtualKey::VK_LEFTBRACE => 104,
            FabGlVirtualKey::VK_RIGHTBRACE => 105,
            FabGlVirtualKey::VK_LEFTBRACKET => 106,
            FabGlVirtualKey::VK_RIGHTBRACKET => 107,
            FabGlVirtualKey::VK_LEFTPAREN => 108,
            FabGlVirtualKey::VK_RIGHTPAREN => 109,
            FabGlVirtualKey::VK_LESS => 110,
            FabGlVirtualKey::VK_GREATER => 111,
            FabGlVirtualKey::VK_UNDERSCORE => 112,
            FabGlVirtualKey::VK_DEGREE => 113,
            FabGlVirtualKey::VK_SECTION => 114,
            FabGlVirtualKey::VK_TILDE => 115,
            FabGlVirtualKey::VK_NEGATION => 116,
            FabGlVirtualKey::VK_LSHIFT => 117,
            FabGlVirtualKey::VK_RSHIFT => 118,
            FabGlVirtualKey::VK_LALT => 119,
            FabGlVirtualKey::VK_RALT => 120,
            FabGlVirtualKey::VK_LCTRL => 121,
            FabGlVirtualKey::VK_RCTRL => 122,
            FabGlVirtualKey::VK_LGUI => 123,
            FabGlVirtualKey::VK_RGUI => 124,
            FabGlVirtualKey::VK_ESCAPE => 125,
            FabGlVirtualKey::VK_PRINTSCREEN => 126,
            FabGlVirtualKey::VK_SYSREQ => 127,
            FabGlVirtualKey::VK_INSERT => 128,
            FabGlVirtualKey::VK_KP_INSERT => 129,
            FabGlVirtualKey::VK_DELETE => 130,
            FabGlVirtualKey::VK_KP_DELETE => 131,
            FabGlVirtualKey::VK_BACKSPACE => 132,
            FabGlVirtualKey::VK_HOME => 133,
            FabGlVirtualKey::VK_KP_HOME => 134,
            FabGlVirtualKey::VK_END => 135,
            FabGlVirtualKey::VK_KP_END => 136,
            FabGlVirtualKey::VK_PAUSE => 137,
            FabGlVirtualKey::VK_BREAK => 138,
            FabGlVirtualKey::VK_SCROLLLOCK => 139,
            FabGlVirtualKey::VK_NUMLOCK => 140,
            FabGlVirtualKey::VK_CAPSLOCK => 141,
            FabGlVirtualKey::VK_TAB => 142,
            FabGlVirtualKey::VK_RETURN => 143,
            FabGlVirtualKey::VK_KP_ENTER => 144,
            FabGlVirtualKey::VK_APPLICATION => 145,
            FabGlVirtualKey::VK_PAGEUP => 146,
            FabGlVirtualKey::VK_KP_PAGEUP => 147,
            FabGlVirtualKey::VK_PAGEDOWN => 148,
            FabGlVirtualKey::VK_KP_PAGEDOWN => 149,
            FabGlVirtualKey::VK_UP => 150,
            FabGlVirtualKey::VK_KP_UP => 151,
            FabGlVirtualKey::VK_DOWN => 152,
            FabGlVirtualKey::VK_KP_DOWN => 153,
            FabGlVirtualKey::VK_LEFT => 154,
            FabGlVirtualKey::VK_KP_LEFT => 155,
            FabGlVirtualKey::VK_RIGHT => 156,
            FabGlVirtualKey::VK_KP_RIGHT => 157,
            FabGlVirtualKey::VK_KP_CENTER => 158,
            FabGlVirtualKey::VK_F1 => 159,
            FabGlVirtualKey::VK_F2 => 160,
            FabGlVirtualKey::VK_F3 => 161,
            FabGlVirtualKey::VK_F4 => 162,
            FabGlVirtualKey::VK_F5 => 163,
            FabGlVirtualKey::VK_F6 => 164,
            FabGlVirtualKey::VK_F7 => 165,
            FabGlVirtualKey::VK_F8 => 166,
            FabGlVirtualKey::VK_F9 => 167,
            FabGlVirtualKey::VK_F10 => 168,
            FabGlVirtualKey::VK_F11 => 169,
            FabGlVirtualKey::VK_F12 => 170,
            FabGlVirtualKey::VK_GRAVE_a => 171,
            FabGlVirtualKey::VK_GRAVE_e => 172,
            FabGlVirtualKey::VK_GRAVE_i => 173,
            FabGlVirtualKey::VK_GRAVE_o => 174,
            FabGlVirtualKey::VK_GRAVE_u => 175,
            FabGlVirtualKey::VK_GRAVE_y => 176,
            FabGlVirtualKey::VK_ACUTE_a => 177,
            FabGlVirtualKey::VK_ACUTE_e => 178,
            FabGlVirtualKey::VK_ACUTE_i => 179,
            FabGlVirtualKey::VK_ACUTE_o => 180,
            FabGlVirtualKey::VK_ACUTE_u => 181,
            FabGlVirtualKey::VK_ACUTE_y => 182,
            FabGlVirtualKey::VK_GRAVE_A => 183,
            FabGlVirtualKey::VK_GRAVE_E => 184,
            FabGlVirtualKey::VK_GRAVE_I => 185,
            FabGlVirtualKey::VK_GRAVE_O => 186,
            FabGlVirtualKey::VK_GRAVE_U => 187,
            FabGlVirtualKey::VK_GRAVE_Y => 188,
            FabGlVirtualKey::VK_ACUTE_A => 189,
            FabGlVirtualKey::VK_ACUTE_E => 190,
            FabGlVirtualKey::VK_ACUTE_I => 191,
            FabGlVirtualKey::VK_ACUTE_O => 192,
            FabGlVirtualKey::VK_ACUTE_U => 193,
            FabGlVirtualKey::VK_ACUTE_Y => 194,
            FabGlVirtualKey::VK_UMLAUT_a => 195,
            FabGlVirtualKey::VK_UMLAUT_e => 196,
            FabGlVirtualKey::VK_UMLAUT_i => 197,
            FabGlVirtualKey::VK_UMLAUT_o => 198,
            FabGlVirtualKey::VK_UMLAUT_u => 199,
            FabGlVirtualKey::VK_UMLAUT_y => 200,
            FabGlVirtualKey::VK_UMLAUT_A => 201,
            FabGlVirtualKey::VK_UMLAUT_E => 202,
            FabGlVirtualKey::VK_UMLAUT_I => 203,
            FabGlVirtualKey::VK_UMLAUT_O => 204,
            FabGlVirtualKey::VK_UMLAUT_U => 205,
            FabGlVirtualKey::VK_UMLAUT_Y => 206,
            FabGlVirtualKey::VK_CARET_a => 207,
            FabGlVirtualKey::VK_CARET_e => 208,
            FabGlVirtualKey::VK_CARET_i => 209,
            FabGlVirtualKey::VK_CARET_o => 210,
            FabGlVirtualKey::VK_CARET_u => 211,
            FabGlVirtualKey::VK_CARET_y => 212,
            FabGlVirtualKey::VK_CARET_A => 213,
            FabGlVirtualKey::VK_CARET_E => 214,
            FabGlVirtualKey::VK_CARET_I => 215,
            FabGlVirtualKey::VK_CARET_O => 216,
            FabGlVirtualKey::VK_CARET_U => 217,
            FabGlVirtualKey::VK_CARET_Y => 218,
            FabGlVirtualKey::VK_CEDILLA_c => 219,
            FabGlVirtualKey::VK_CEDILLA_C => 220,
            FabGlVirtualKey::VK_TILDE_a => 221,
            FabGlVirtualKey::VK_TILDE_o => 222,
            FabGlVirtualKey::VK_TILDE_n => 223,
            FabGlVirtualKey::VK_TILDE_A => 224,
            FabGlVirtualKey::VK_TILDE_O => 225,
            FabGlVirtualKey::VK_TILDE_N => 226,
            FabGlVirtualKey::VK_UPPER_a => 227,
            FabGlVirtualKey::VK_ESZETT => 228,
            FabGlVirtualKey::VK_EXCLAIM_INV => 229,
            FabGlVirtualKey::VK_QUESTION_INV => 230,
            FabGlVirtualKey::VK_INTERPUNCT => 231,
            FabGlVirtualKey::VK_DIAERESIS => 232,
            FabGlVirtualKey::VK_SQUARE => 233,
            FabGlVirtualKey::VK_CURRENCY => 234,
            FabGlVirtualKey::VK_MU => 235,
            FabGlVirtualKey::VK_aelig => 236,
            FabGlVirtualKey::VK_oslash => 237,
            FabGlVirtualKey::VK_aring => 238,
            FabGlVirtualKey::VK_AELIG => 239,
            FabGlVirtualKey::VK_OSLASH => 240,
            FabGlVirtualKey::VK_ARING => 241,
            FabGlVirtualKey::VK_YEN => 242,
            FabGlVirtualKey::VK_MUHENKAN => 243,
            FabGlVirtualKey::VK_HENKAN => 244,
            FabGlVirtualKey::VK_KATAKANA_HIRAGANA_ROMAJI => 245,
            FabGlVirtualKey::VK_HANKAKU_ZENKAKU_KANJI => 246,
            FabGlVirtualKey::VK_SHIFT_0 => 247,
            FabGlVirtualKey::VK_ASCII => 248,
            FabGlVirtualKey::VK_LAST => 249,
        }
    }

    /// The key's code: its position in the table.
    pub fn code(&self) -> (r: u8)
        ensures
            r == self.spec_code(),
    {
        match *self {
            FabGlVirtualKey::VK_NONE => 0,
            FabGlVirtualKey::VK_SPACE => 1,
            FabGlVirtualKey::VK_0 => 2,
            FabGlVirtualKey::VK_1 => 3,
            FabGlVirtualKey::VK_2 => 4,
            FabGlVirtualKey::VK_3 => 5,
            FabGlVirtualKey::VK_4 => 6,
            FabGlVirtualKey::VK_5 => 7,
            FabGlVirtualKey::VK_6 => 8,
            FabGlVirtualKey::VK_7 => 9,
            FabGlVirtualKey::VK_8 => 10,
            FabGlVirtualKey::VK_9 => 11,
            FabGlVirtualKey::VK_KP_0 => 12,
            FabGlVirtualKey::VK_KP_1 => 13,
            FabGlVirtualKey::VK_KP_2 => 14,
            FabGlVirtualKey::VK_KP_3 => 15,
            FabGlVirtualKey::VK_KP_4 => 16,
            FabGlVirtualKey::VK_KP_5 => 17,
            FabGlVirtualKey::VK_KP_6 => 18,
            FabGlVirtualKey::VK_KP_7 => 19,
            FabGlVirtualKey::VK_KP_8 => 20,
            FabGlVirtualKey::VK_KP_9 => 21,
            FabGlVirtualKey::VK_a => 22,
            FabGlVirtualKey::VK_b => 23,
            FabGlVirtualKey::VK_c => 24,
            FabGlVirtualKey::VK_d => 25,
            FabGlVirtualKey::VK_e => 26,
            FabGlVirtualKey::VK_f => 27,
            FabGlVirtualKey::VK_g => 28,
            FabGlVirtualKey::VK_h => 29,
            FabGlVirtualKey::VK_i => 30,
            FabGlVirtualKey::VK_j => 31,
            FabGlVirtualKey::VK_k => 32,
            FabGlVirtualKey::VK_l => 33,
            FabGlVirtualKey::VK_m => 34,
            FabGlVirtualKey::VK_n => 35,
            FabGlVirtualKey::VK_o => 36,
            FabGlVirtualKey::VK_p => 37,
            FabGlVirtualKey::VK_q => 38,
            FabGlVirtualKey::VK_r => 39,
            FabGlVirtualKey::VK_s => 40,
            FabGlVirtualKey::VK_t => 41,
            FabGlVirtualKey::VK_u => 42,
            FabGlVirtualKey::VK_v => 43,
            FabGlVirtualKey::VK_w => 44,
            FabGlVirtualKey::VK_x => 45,
            FabGlVirtualKey::VK_y => 46,
            FabGlVirtualKey::VK_z => 47,
            FabGlVirtualKey::VK_A => 48,
            FabGlVirtualKey::VK_B => 49,
            FabGlVirtualKey::VK_C => 50,
            FabGlVirtualKey::VK_D => 51,
            FabGlVirtualKey::VK_E => 52,
            FabGlVirtualKey::VK_F => 53,
            FabGlVirtualKey::VK_G => 54,
            FabGlVirtualKey::VK_H => 55,
            FabGlVirtualKey::VK_I => 56,
            FabGlVirtualKey::VK_J => 57,
            FabGlVirtualKey::VK_K => 58,
            FabGlVirtualKey::VK_L => 59,
            FabGlVirtualKey::VK_M => 60,
            FabGlVirtualKey::VK_N => 61,
            FabGlVirtualKey::VK_O => 62,
            FabGlVirtualKey::VK_P => 63,
            FabGlVirtualKey::VK_Q => 64,
            FabGlVirtualKey::VK_R => 65,
            FabGlVirtualKey::VK_S => 66,
            FabGlVirtualKey::VK_T => 67,
            FabGlVirtualKey::VK_U => 68,
            FabGlVirtualKey::VK_V => 69,
            FabGlVirtualKey::VK_W => 70,
            FabGlVirtualKey::VK_X => 71,
            FabGlVirtualKey::VK_Y => 72,
            FabGlVirtualKey::VK_Z => 73,
            FabGlVirtualKey::VK_GRAVEACCENT => 74,
            FabGlVirtualKey::VK_ACUTEACCENT => 75,
            FabGlVirtualKey::VK_QUOTE => 76,
            FabGlVirtualKey::VK_QUOTEDBL => 77,
            FabGlVirtualKey::VK_EQUALS => 78,
            FabGlVirtualKey::VK_MINUS => 79,
            FabGlVirtualKey::VK_KP_MINUS => 80,
            FabGlVirtualKey::VK_PLUS => 81,
            FabGlVirtualKey::VK_KP_PLUS => 82,
            FabGlVirtualKey::VK_KP_MULTIPLY => 83,
            FabGlVirtualKey::VK_ASTERISK => 84,
            FabGlVirtualKey::VK_BACKSLASH => 85,
            FabGlVirtualKey::VK_KP_DIVIDE => 86,
            FabGlVirtualKey::VK_SLASH => 87,
            FabGlVirtualKey::VK_KP_PERIOD => 88,
            FabGlVirtualKey::VK_PERIOD => 89,
            FabGlVirtualKey::VK_COLON => 90,
            FabGlVirtualKey::VK_COMMA => 91,
            FabGlVirtualKey::VK_SEMICOLON => 92,
            FabGlVirtualKey::VK_AMPERSAND => 93,
            FabGlVirtualKey::VK_VERTICALBAR => 94,
            FabGlVirtualKey::VK_HASH => 95,
            FabGlVirtualKey::VK_AT => 96,
            FabGlVirtualKey::VK_CARET => 97,
            FabGlVirtualKey::VK_DOLLAR => 98,
            FabGlVirtualKey::VK_POUND => 99,
            FabGlVirtualKey::VK_EURO => 100,
            FabGlVirtualKey::VK_PERCENT => 101,
            FabGlVirtualKey::VK_EXCLAIM => 102,
            FabGlVirtualKey::VK_QUESTION => 103,
            FabGlVirtualKey::VK_LEFTBRACE => 104,
            FabGlVirtualKey::VK_RIGHTBRACE => 105,
            FabGlVirtualKey::VK_LEFTBRACKET => 106,
            FabGlVirtualKey::VK_RIGHTBRACKET => 107,
            FabGlVirtualKey::VK_LEFTPAREN => 108,
            FabGlVirtualKey::VK_RIGHTPAREN => 109,
            FabGlVirtualKey::VK_LESS => 110,
            FabGlVirtualKey::VK_GREATER => 111,
            FabGlVirtualKey::VK_UNDERSCORE => 112,
            FabGlVirtualKey::VK_DEGREE => 113,
            FabGlVirtualKey::VK_SECTION => 114,
            FabGlVirtualKey::VK_TILDE => 115,
            FabGlVirtualKey::VK_NEGATION => 116,
            FabGlVirtualKey::VK_LSHIFT => 117,
            FabGlVirtualKey::VK_RSHIFT => 118,
            FabGlVirtualKey::VK_LALT => 119,
            FabGlVirtualKey::VK_RALT => 120,
            FabGlVirtualKey::VK_LCTRL => 121,
            FabGlVirtualKey::VK_RCTRL => 122,
            FabGlVirtualKey::VK_LGUI => 123,
            FabGlVirtualKey::VK_RGUI => 124,
            FabGlVirtualKey::VK_ESCAPE => 125,
            FabGlVirtualKey::VK_PRINTSCREEN => 126,
            FabGlVirtualKey::VK_SYSREQ => 127,
            FabGlVirtualKey::VK_INSERT => 128,
            FabGlVirtualKey::VK_KP_INSERT => 129,
            FabGlVirtualKey::VK_DELETE => 130,
            FabGlVirtualKey::VK_KP_DELETE => 131,
            FabGlVirtualKey::VK_BACKSPACE => 132,
            FabGlVirtualKey::VK_HOME => 133,
            FabGlVirtualKey::VK_KP_HOME => 134,
            FabGlVirtualKey::VK_END => 135,
            FabGlVirtualKey::VK_KP_END => 136,
            FabGlVirtualKey::VK_PAUSE => 137,
            FabGlVirtualKey::VK_BREAK => 138,
            FabGlVirtualKey::VK_SCROLLLOCK => 139,
            FabGlVirtualKey::VK_NUMLOCK => 140,
            FabGlVirtualKey::VK_CAPSLOCK => 141,
            FabGlVirtualKey::VK_TAB => 142,
            FabGlVirtualKey::VK_RETURN => 143,
            FabGlVirtualKey::VK_KP_ENTER => 144,
            FabGlVirtualKey::VK_APPLICATION => 145,
            FabGlVirtualKey::VK_PAGEUP => 146,
            FabGlVirtualKey::VK_KP_PAGEUP => 147,
            FabGlVirtualKey::VK_PAGEDOWN => 148,
            FabGlVirtualKey::VK_KP_PAGEDOWN => 149,
            FabGlVirtualKey::VK_UP => 150,
            FabGlVirtualKey::VK_KP_UP => 151,
            FabGlVirtualKey::VK_DOWN => 152,
            FabGlVirtualKey::VK_KP_DOWN => 153,
            FabGlVirtualKey::VK_LEFT => 154,
            FabGlVirtualKey::VK_KP_LEFT => 155,
            FabGlVirtualKey::VK_RIGHT => 156,
            FabGlVirtualKey::VK_KP_RIGHT => 157,
            FabGlVirtualKey::VK_KP_CENTER => 158,
            FabGlVirtualKey::VK_F1 => 159,
            FabGlVirtualKey::VK_F2 => 160,
            FabGlVirtualKey::VK_F3 => 161,
            FabGlVirtualKey::VK_F4 => 162,
            FabGlVirtualKey::VK_F5 => 163,
            FabGlVirtualKey::VK_F6 => 164,
            FabGlVirtualKey::VK_F7 => 165,
            FabGlVirtualKey::VK_F8 => 166,
            FabGlVirtualKey::VK_F9 => 167,
            FabGlVirtualKey::VK_F10 => 168,
            FabGlVirtualKey::VK_F11 => 169,
            FabGlVirtualKey::VK_F12 => 170,
            FabGlVirtualKey::VK_GRAVE_a => 171,
            FabGlVirtualKey::VK_GRAVE_e => 172,
            FabGlVirtualKey::VK_GRAVE_i => 173,
            FabGlVirtualKey::VK_GRAVE_o => 174,
            FabGlVirtualKey::VK_GRAVE_u => 175,
            FabGlVirtualKey::VK_GRAVE_y => 176,
            FabGlVirtualKey::VK_ACUTE_a => 177,
            FabGlVirtualKey::VK_ACUTE_e => 178,
            FabGlVirtualKey::VK_ACUTE_i => 179,
            FabGlVirtualKey::VK_ACUTE_o => 180,
            FabGlVirtualKey::VK_ACUTE_u => 181,
            FabGlVirtualKey::VK_ACUTE_y => 182,
            FabGlVirtualKey::VK_GRAVE_A => 183,
            FabGlVirtualKey::VK_GRAVE_E => 184,
            FabGlVirtualKey::VK_GRAVE_I => 185,
            FabGlVirtualKey::VK_GRAVE_O => 186,
            FabGlVirtualKey::VK_GRAVE_U => 187,
            FabGlVirtualKey::VK_GRAVE_Y => 188,
            FabGlVirtualKey::VK_ACUTE_A => 189,
            FabGlVirtualKey::VK_ACUTE_E => 190,
            FabGlVirtualKey::VK_ACUTE_I => 191,
            FabGlVirtualKey::VK_ACUTE_O => 192,
            FabGlVirtualKey::VK_ACUTE_U => 193,
            FabGlVirtualKey::VK_ACUTE_Y => 194,
            FabGlVirtualKey::VK_UMLAUT_a => 195,
            FabGlVirtualKey::VK_UMLAUT_e => 196,
            FabGlVirtualKey::VK_UMLAUT_i => 197,
            FabGlVirtualKey::VK_UMLAUT_o => 198,
            FabGlVirtualKey::VK_UMLAUT_u => 199,
            FabGlVirtualKey::VK_UMLAUT_y => 200,
            FabGlVirtualKey::VK_UMLAUT_A => 201,
            FabGlVirtualKey::VK_UMLAUT_E => 202,
            FabGlVirtualKey::VK_UMLAUT_I => 203,
            FabGlVirtualKey::VK_UMLAUT_O => 204,
            FabGlVirtualKey::VK_UMLAUT_U => 205,
            FabGlVirtualKey::VK_UMLAUT_Y => 206,
            FabGlVirtualKey::VK_CARET_a => 207,
            FabGlVirtualKey::VK_CARET_e => 208,
            FabGlVirtualKey::VK_CARET_i => 209,
            FabGlVirtualKey::VK_CARET_o => 210,
            FabGlVirtualKey::VK_CARET_u => 211,
            FabGlVirtualKey::VK_CARET_y => 212,
            FabGlVirtualKey::VK_CARET_A => 213,
            FabGlVirtualKey::VK_CARET_E => 214,
            FabGlVirtualKey::VK_CARET_I => 215,
            FabGlVirtualKey::VK_CARET_O => 216,
            FabGlVirtualKey::VK_CARET_U => 217,
            FabGlVirtualKey::VK_CARET_Y => 218,
            FabGlVirtualKey::VK_CEDILLA_c => 219,
            FabGlVirtualKey::VK_CEDILLA_C => 220,
            FabGlVirtualKey::VK_TILDE_a => 221,
            FabGlVirtualKey::VK_TILDE_o => 222,
            FabGlVirtualKey::VK_TILDE_n => 223,
            FabGlVirtualKey::VK_TILDE_A => 224,
            FabGlVirtualKey::VK_TILDE_O => 225,
            FabGlVirtualKey::VK_TILDE_N => 226,
            FabGlVirtualKey::VK_UPPER_a => 227,
            FabGlVirtualKey::VK_ESZETT => 228,
            FabGlVirtualKey::VK_EXCLAIM_INV => 229,
            FabGlVirtualKey::VK_QUESTION_INV => 230,
            FabGlVirtualKey::VK_INTERPUNCT => 231,
            FabGlVirtualKey::VK_DIAERESIS => 232,
            FabGlVirtualKey::VK_SQUARE => 233,
            FabGlVirtualKey::VK_CURRENCY => 234,
            FabGlVirtualKey::VK_MU => 235,
            FabGlVirtualKey::VK_aelig => 236,
            FabGlVirtualKey::VK_oslash => 237,
            FabGlVirtualKey::VK_aring => 238,
            FabGlVirtualKey::VK_AELIG => 239,
            FabGlVirtualKey::VK_OSLASH => 240,
            FabGlVirtualKey::VK_ARING => 241,
            FabGlVirtualKey::VK_YEN => 242,
            FabGlVirtualKey::VK_MUHENKAN => 243,
            FabGlVirtualKey::VK_HENKAN => 244,
            FabGlVirtualKey::VK_KATAKANA_HIRAGANA_ROMAJI => 245,
            FabGlVirtualKey::VK_HANKAKU_ZENKAKU_KANJI => 246,
            FabGlVirtualKey::VK_SHIFT_0 => 247,
            FabGlVirtualKey::VK_ASCII => 248,
            FabGlVirtualKey::VK_LAST => 249,
        }
    }
}

/// The character that a virtual key types, 0 for keys that type none.
pub open spec fn vk_ascii(vk: FabGlVirtualKey) -> u8 {
    match vk {
        FabGlVirtualKey::VK_SPACE => 32, // ' '
        FabGlVirtualKey::VK_0 => 48, // '0'
        FabGlVirtualKey::VK_1 => 49, // '1'
        FabGlVirtualKey::VK_2 => 50, // '2'
        FabGlVirtualKey::VK_3 => 51, // '3'
        FabGlVirtualKey::VK_4 => 52, // '4'
        FabGlVirtualKey::VK_5 => 53, // '5'
        FabGlVirtualKey::VK_6 => 54, // '6'
        FabGlVirtualKey::VK_7 => 55, // '7'
        FabGlVirtualKey::VK_8 => 56, // '8'
        FabGlVirtualKey::VK_9 => 57, // '9'
        FabGlVirtualKey::VK_KP_0 => 48, // '0'
        FabGlVirtualKey::VK_KP_1 => 49, // '1'
        FabGlVirtualKey::VK_KP_2 => 50, // '2'
        FabGlVirtualKey::VK_KP_3 => 51, // '3'
        FabGlVirtualKey::VK_KP_4 => 52, // '4'
        FabGlVirtualKey::VK_KP_5 => 53, // '5'
        FabGlVirtualKey::VK_KP_6 => 54, // '6'
        FabGlVirtualKey::VK_KP_7 => 55, // '7'
        FabGlVirtualKey::VK_KP_8 => 56, // '8'
        FabGlVirtualKey::VK_KP_9 => 57, // '9'
        FabGlVirtualKey::VK_KP_PERIOD => 46, // '.'
        FabGlVirtualKey::VK_KP_DIVIDE => 47, // '/'
        FabGlVirtualKey::VK_KP_MULTIPLY => 42, // '*'
        FabGlVirtualKey::VK_KP_MINUS => 45, // '-'
        FabGlVirtualKey::VK_KP_PLUS => 43, // '+'
        FabGlVirtualKey::VK_KP_ENTER => 0x0D,
        FabGlVirtualKey::VK_a => 97, // 'a'
        FabGlVirtualKey::VK_b => 98, // 'b'
        FabGlVirtualKey::VK_c => 99, // 'c'
        FabGlVirtualKey::VK_d => 100, // 'd'
        FabGlVirtualKey::VK_e => 101, // 'e'
        FabGlVirtualKey::VK_f => 102, // 'f'
        FabGlVirtualKey::VK_g => 103, // 'g'
        FabGlVirtualKey::VK_h => 104, // 'h'
        FabGlVirtualKey::VK_i => 105, // 'i'
        FabGlVirtualKey::VK_j => 106, // 'j'
        FabGlVirtualKey::VK_k => 107, // 'k'
        FabGlVirtualKey::VK_l => 108, // 'l'
        FabGlVirtualKey::VK_m => 109, // 'm'
        FabGlVirtualKey::VK_n => 110, // 'n'
        FabGlVirtualKey::VK_o => 111, // 'o'
        FabGlVirtualKey::VK_p => 112, // 'p'
        FabGlVirtualKey::VK_q => 113, // 'q'
        FabGlVirtualKey::VK_r => 114, // 'r'
        FabGlVirtualKey::VK_s => 115, // 's'
        FabGlVirtualKey::VK_t => 116, // 't'
        FabGlVirtualKey::VK_u => 117, // 'u'
        FabGlVirtualKey::VK_v => 118, // 'v'
        FabGlVirtualKey::VK_w => 119, // 'w'
        FabGlVirtualKey::VK_x => 120, // 'x'
        FabGlVirtualKey::VK_y => 121, // 'y'
        FabGlVirtualKey::VK_z => 122, // 'z'
        FabGlVirtualKey::VK_A => 65, // 'A'
        FabGlVirtualKey::VK_B => 66, // 'B'
        FabGlVirtualKey::VK_C => 67, // 'C'
        FabGlVirtualKey::VK_D => 68, // 'D'
        FabGlVirtualKey::VK_E => 69, // 'E'
        FabGlVirtualKey::VK_F => 70, // 'F'
        FabGlVirtualKey::VK_G => 71, // 'G'
        FabGlVirtualKey::VK_H => 72, // 'H'
        FabGlVirtualKey::VK_I => 73, // 'I'
        FabGlVirtualKey::VK_J => 74, // 'J'
        FabGlVirtualKey::VK_K => 75, // 'K'
        FabGlVirtualKey::VK_L => 76, // 'L'
        FabGlVirtualKey::VK_M => 77, // 'M'
        FabGlVirtualKey::VK_N => 78, // 'N'
        FabGlVirtualKey::VK_O => 79, // 'O'
        FabGlVirtualKey::VK_P => 80, // 'P'
        FabGlVirtualKey::VK_Q => 81, // 'Q'
        FabGlVirtualKey::VK_R => 82, // 'R'
        FabGlVirtualKey::VK_S => 83, // 'S'
        FabGlVirtualKey::VK_T => 84, // 'T'
        FabGlVirtualKey::VK_U => 85, // 'U'
        FabGlVirtualKey::VK_V => 86, // 'V'
        FabGlVirtualKey::VK_W => 87, // 'W'
        FabGlVirtualKey::VK_X => 88, // 'X'
        FabGlVirtualKey::VK_Y => 89, // 'Y'
        FabGlVirtualKey::VK_Z => 90, // 'Z'
        FabGlVirtualKey::VK_QUESTION => 63, // '?'
        FabGlVirtualKey::VK_EXCLAIM => 33, // '!'
        FabGlVirtualKey::VK_QUOTE => 39, // "'"
        FabGlVirtualKey::VK_COLON => 58, // ':'
        FabGlVirtualKey::VK_SEMICOLON => 59, // ';'
        FabGlVirtualKey::VK_COMMA => 44, // ','
        FabGlVirtualKey::VK_PERIOD => 46, // '.'
        FabGlVirtualKey::VK_SLASH => 47, // '/'
        FabGlVirtualKey::VK_BACKSLASH => 92, // '\\'
        FabGlVirtualKey::VK_UNDERSCORE => 95, // '_'
        FabGlVirtualKey::VK_MINUS => 45, // '-'
        FabGlVirtualKey::VK_PLUS => 43, // '+'
        FabGlVirtualKey::VK_EQUALS => 61, // '='
        FabGlVirtualKey::VK_LEFTBRACKET => 91, // '['
        FabGlVirtualKey::VK_RIGHTBRACKET => 93, // ']'
        FabGlVirtualKey::VK_LEFTPAREN => 40, // '('
        FabGlVirtualKey::VK_RIGHTPAREN => 41, // ')'
        FabGlVirtualKey::VK_LEFTBRACE => 123, // '{'
        FabGlVirtualKey::VK_RIGHTBRACE => 125, // '}'
        FabGlVirtualKey::VK_LESS => 60, // '<'
        FabGlVirtualKey::VK_GREATER => 62, // '>'
        FabGlVirtualKey::VK_ASTERISK => 42, // '*'
        FabGlVirtualKey::VK_CARET => 94, // '^'
        FabGlVirtualKey::VK_PERCENT => 37, // '%'
        FabGlVirtualKey::VK_DOLLAR => 36, // '$'
        FabGlVirtualKey::VK_POUND => 0xA3, // pound sign, Latin-1
        FabGlVirtualKey::VK_EURO => 0xAC, // low byte of the euro sign's code point
        FabGlVirtualKey::VK_AT => 64, // '@'
        FabGlVirtualKey::VK_HASH => 35, // '#'
        FabGlVirtualKey::VK_AMPERSAND => 38, // '&'
        FabGlVirtualKey::VK_QUOTEDBL => 34, // '"'
        FabGlVirtualKey::VK_TILDE => 126, // '~'
        FabGlVirtualKey::VK_VERTICALBAR => 124, // '|'
        FabGlVirtualKey::VK_GRAVEACCENT => 96, // '`'
        FabGlVirtualKey::VK_RETURN => 0x0D,
        FabGlVirtualKey::VK_ESCAPE => 0x1B,
        FabGlVirtualKey::VK_LEFT => 0x08,
        FabGlVirtualKey::VK_TAB => 0x09,
        FabGlVirtualKey::VK_RIGHT => 0x15,
        FabGlVirtualKey::VK_DOWN => 0x0A,
        FabGlVirtualKey::VK_UP => 0x0B,
        FabGlVirtualKey::VK_BACKSPACE => 0x7F,
        _ => 0,
    }
}

/// The character that a virtual key types, 0 for keys that type none.
pub fn fabgl_virtual_key_to_ascii(fabgl_vk: &FabGlVirtualKey) -> (r: u8)
    ensures
        r == vk_ascii(*fabgl_vk),
{
    match *fabgl_vk {
        FabGlVirtualKey::VK_SPACE => 32, // ' '
        FabGlVirtualKey::VK_0 => 48, // '0'
        FabGlVirtualKey::VK_1 => 49, // '1'
        FabGlVirtualKey::VK_2 => 50, // '2'
        FabGlVirtualKey::VK_3 => 51, // '3'
        FabGlVirtualKey::VK_4 => 52, // '4'
        FabGlVirtualKey::VK_5 => 53, // '5'
        FabGlVirtualKey::VK_6 => 54, // '6'
        FabGlVirtualKey::VK_7 => 55, // '7'
        FabGlVirtualKey::VK_8 => 56, // '8'
        FabGlVirtualKey::VK_9 => 57, // '9'
        FabGlVirtualKey::VK_KP_0 => 48, // '0'
        FabGlVirtualKey::VK_KP_1 => 49, // '1'
        FabGlVirtualKey::VK_KP_2 => 50, // '2'
        FabGlVirtualKey::VK_KP_3 => 51, // '3'
        FabGlVirtualKey::VK_KP_4 => 52, // '4'
        FabGlVirtualKey::VK_KP_5 => 53, // '5'
        FabGlVirtualKey::VK_KP_6 => 54, // '6'
        FabGlVirtualKey::VK_KP_7 => 55, // '7'
        FabGlVirtualKey::VK_KP_8 => 56, // '8'
        FabGlVirtualKey::VK_KP_9 => 57, // '9'
        FabGlVirtualKey::VK_KP_PERIOD => 46, // '.'
        FabGlVirtualKey::VK_KP_DIVIDE => 47, // '/'
        FabGlVirtualKey::VK_KP_MULTIPLY => 42, // '*'
        FabGlVirtualKey::VK_KP_MINUS => 45, // '-'
        FabGlVirtualKey::VK_KP_PLUS => 43, // '+'
        FabGlVirtualKey::VK_KP_ENTER => 0x0D,
        FabGlVirtualKey::VK_a => 97, // 'a'
        FabGlVirtualKey::VK_b => 98, // 'b'
        FabGlVirtualKey::VK_c => 99, // 'c'
        FabGlVirtualKey::VK_d => 100, // 'd'
        FabGlVirtualKey::VK_e => 101, // 'e'
        FabGlVirtualKey::VK_f => 102, // 'f'
        FabGlVirtualKey::VK_g => 103, // 'g'
        FabGlVirtualKey::VK_h => 104, // 'h'
        FabGlVirtualKey::VK_i => 105, // 'i'
        FabGlVirtualKey::VK_j => 106, // 'j'
        FabGlVirtualKey::VK_k => 107, // 'k'
        FabGlVirtualKey::VK_l => 108, // 'l'
        FabGlVirtualKey::VK_m => 109, // 'm'
        FabGlVirtualKey::VK_n => 110, // 'n'
        FabGlVirtualKey::VK_o => 111, // 'o'
        FabGlVirtualKey::VK_p => 112, // 'p'
        FabGlVirtualKey::VK_q => 113, // 'q'
        FabGlVirtualKey::VK_r => 114, // 'r'
        FabGlVirtualKey::VK_s => 115, // 's'
        FabGlVirtualKey::VK_t => 116, // 't'
        FabGlVirtualKey::VK_u => 117, // 'u'
        FabGlVirtualKey::VK_v => 118, // 'v'
        FabGlVirtualKey::VK_w => 119, // 'w'
        FabGlVirtualKey::VK_x => 120, // 'x'
        FabGlVirtualKey::VK_y => 121, // 'y'
        FabGlVirtualKey::VK_z => 122, // 'z'
        FabGlVirtualKey::VK_A => 65, // 'A'
        FabGlVirtualKey::VK_B => 66, // 'B'
        FabGlVirtualKey::VK_C => 67, // 'C'
        FabGlVirtualKey::VK_D => 68, // 'D'
        FabGlVirtualKey::VK_E => 69, // 'E'
        FabGlVirtualKey::VK_F => 70, // 'F'
        FabGlVirtualKey::VK_G => 71, // 'G'
        FabGlVirtualKey::VK_H => 72, // 'H'
        FabGlVirtualKey::VK_I => 73, // 'I'
        FabGlVirtualKey::VK_J => 74, // 'J'
        FabGlVirtualKey::VK_K => 75, // 'K'
        FabGlVirtualKey::VK_L => 76, // 'L'
        FabGlVirtualKey::VK_M => 77, // 'M'
        FabGlVirtualKey::VK_N => 78, // 'N'
        FabGlVirtualKey::VK_O => 79, // 'O'
        FabGlVirtualKey::VK_P => 80, // 'P'
        FabGlVirtualKey::VK_Q => 81, // 'Q'
        FabGlVirtualKey::VK_R => 82, // 'R'
        FabGlVirtualKey::VK_S => 83, // 'S'
        FabGlVirtualKey::VK_T => 84, // 'T'
        FabGlVirtualKey::VK_U => 85, // 'U'
        FabGlVirtualKey::VK_V => 86, // 'V'
        FabGlVirtualKey::VK_W => 87, // 'W'
        FabGlVirtualKey::VK_X => 88, // 'X'
        FabGlVirtualKey::VK_Y => 89, // 'Y'
        FabGlVirtualKey::VK_Z => 90, // 'Z'
        FabGlVirtualKey::VK_QUESTION => 63, // '?'
        FabGlVirtualKey::VK_EXCLAIM => 33, // '!'
        FabGlVirtualKey::VK_QUOTE => 39, // "'"
        FabGlVirtualKey::VK_COLON => 58, // ':'
        FabGlVirtualKey::VK_SEMICOLON => 59, // ';'
        FabGlVirtualKey::VK_COMMA => 44, // ','
        FabGlVirtualKey::VK_PERIOD => 46, // '.'
        FabGlVirtualKey::VK_SLASH => 47, // '/'
        FabGlVirtualKey::VK_BACKSLASH => 92, // '\\'
        FabGlVirtualKey::VK_UNDERSCORE => 95, // '_'
        FabGlVirtualKey::VK_MINUS => 45, // '-'
        FabGlVirtualKey::VK_PLUS => 43, // '+'
        FabGlVirtualKey::VK_EQUALS => 61, // '='
        FabGlVirtualKey::VK_LEFTBRACKET => 91, // '['
        FabGlVirtualKey::VK_RIGHTBRACKET => 93, // ']'
        FabGlVirtualKey::VK_LEFTPAREN => 40, // '('
        FabGlVirtualKey::VK_RIGHTPAREN => 41, // ')'
        FabGlVirtualKey::VK_LEFTBRACE => 123, // '{'
        FabGlVirtualKey::VK_RIGHTBRACE => 125, // '}'
        FabGlVirtualKey::VK_LESS => 60, // '<'
        FabGlVirtualKey::VK_GREATER => 62, // '>'
        FabGlVirtualKey::VK_ASTERISK => 42, // '*'
        FabGlVirtualKey::VK_CARET => 94, // '^'
        FabGlVirtualKey::VK_PERCENT => 37, // '%'
        FabGlVirtualKey::VK_DOLLAR => 36, // '$'
        FabGlVirtualKey::VK_POUND => 0xA3, // pound sign, Latin-1
        FabGlVirtualKey::VK_EURO => 0xAC, // low byte of the euro sign's code point
        FabGlVirtualKey::VK_AT => 64, // '@'
        FabGlVirtualKey::VK_HASH => 35, // '#'
        FabGlVirtualKey::VK_AMPERSAND => 38, // '&'
        FabGlVirtualKey::VK_QUOTEDBL => 34, // '"'
        FabGlVirtualKey::VK_TILDE => 126, // '~'
        FabGlVirtualKey::VK_VERTICALBAR => 124, // '|'
        FabGlVirtualKey::VK_GRAVEACCENT => 96, // '`'
        FabGlVirtualKey::VK_RETURN => 0x0D,
        FabGlVirtualKey::VK_ESCAPE => 0x1B,
        FabGlVirtualKey::VK_LEFT => 0x08,
        FabGlVirtualKey::VK_TAB => 0x09,
        FabGlVirtualKey::VK_RIGHT => 0x15,
        FabGlVirtualKey::VK_DOWN => 0x0A,
        FabGlVirtualKey::VK_UP => 0x0B,
        FabGlVirtualKey::VK_BACKSPACE => 0x7F,
        _ => 0,
    }
}

/// Modifier bits of the input source.
pub const MOD_LSHIFT: u16 = 0x0001;
pub const MOD_RSHIFT: u16 = 0x0002;
pub const MOD_LCTRL: u16 = 0x0040;
pub const MOD_RCTRL: u16 = 0x0080;
pub const MOD_LALT: u16 = 0x0100;
pub const MOD_RALT: u16 = 0x0200;
pub const MOD_LGUI: u16 = 0x0400;
pub const MOD_RGUI: u16 = 0x0800;
pub const MOD_NUM: u16 = 0x1000;
pub const MOD_CAPS: u16 = 0x2000;

/// Virtual key of a key, by its scancode (the USB usage number that the
/// input source reports), on the US layout.
pub open spec fn us_key(scancode: i32, keymod: u16) -> FabGlVirtualKey {
    let shift = keymod & (MOD_LSHIFT | MOD_RSHIFT) != 0;
    let caps_lock = keymod & MOD_CAPS != 0;
    match scancode {
        44 => FabGlVirtualKey::VK_SPACE,  // Space
        53 => if shift { FabGlVirtualKey::VK_TILDE } else { FabGlVirtualKey::VK_GRAVEACCENT },  // Grave
        30 => if shift { FabGlVirtualKey::VK_EXCLAIM } else { FabGlVirtualKey::VK_1 },  // Num1
        31 => if shift { FabGlVirtualKey::VK_AT } else { FabGlVirtualKey::VK_2 },  // Num2
        32 => if shift { FabGlVirtualKey::VK_HASH } else { FabGlVirtualKey::VK_3 },  // Num3
        33 => if shift { FabGlVirtualKey::VK_DOLLAR } else { FabGlVirtualKey::VK_4 },  // Num4
        34 => if shift { FabGlVirtualKey::VK_PERCENT } else { FabGlVirtualKey::VK_5 },  // Num5
        35 => if shift { FabGlVirtualKey::VK_CARET } else { FabGlVirtualKey::VK_6 },  // Num6
        36 => if shift { FabGlVirtualKey::VK_AMPERSAND } else { FabGlVirtualKey::VK_7 },  // Num7
        37 => if shift { FabGlVirtualKey::VK_ASTERISK } else { FabGlVirtualKey::VK_8 },  // Num8
        38 => if shift { FabGlVirtualKey::VK_LEFTPAREN } else { FabGlVirtualKey::VK_9 },  // Num9
        39 => if shift { FabGlVirtualKey::VK_RIGHTPAREN } else { FabGlVirtualKey::VK_0 },  // Num0
        45 => if shift { FabGlVirtualKey::VK_UNDERSCORE } else { FabGlVirtualKey::VK_MINUS },  // Minus
        46 => if shift { FabGlVirtualKey::VK_PLUS } else { FabGlVirtualKey::VK_EQUALS },  // Equals
        47 => if shift { FabGlVirtualKey::VK_LEFTBRACE } else { FabGlVirtualKey::VK_LEFTBRACKET },  // LeftBracket
        48 => if shift { FabGlVirtualKey::VK_RIGHTBRACE } else { FabGlVirtualKey::VK_RIGHTBRACKET },  // RightBracket
        51 => if shift { FabGlVirtualKey::VK_COLON } else { FabGlVirtualKey::VK_SEMICOLON },  // Semicolon
        52 => if shift { FabGlVirtualKey::VK_QUOTEDBL } else { FabGlVirtualKey::VK_QUOTE },  // Apostrophe
        49 => if shift { FabGlVirtualKey::VK_VERTICALBAR } else { FabGlVirtualKey::VK_BACKSLASH },  // Backslash
        100 => if shift { FabGlVirtualKey::VK_VERTICALBAR } else { FabGlVirtualKey::VK_BACKSLASH },  // NonUsBackslash
        54 => if shift { FabGlVirtualKey::VK_LESS } else { FabGlVirtualKey::VK_COMMA },  // Comma
        55 => if shift { FabGlVirtualKey::VK_GREATER } else { FabGlVirtualKey::VK_PERIOD },  // Period
        56 => if shift { FabGlVirtualKey::VK_QUESTION } else { FabGlVirtualKey::VK_SLASH },  // Slash
        98 => FabGlVirtualKey::VK_KP_0,  // Kp0
        89 => FabGlVirtualKey::VK_KP_1,  // Kp1
        90 => FabGlVirtualKey::VK_KP_2,  // Kp2
        91 => FabGlVirtualKey::VK_KP_3,  // Kp3
        92 => FabGlVirtualKey::VK_KP_4,  // Kp4
        93 => FabGlVirtualKey::VK_KP_5,  // Kp5
        94 => FabGlVirtualKey::VK_KP_6,  // Kp6
        95 => FabGlVirtualKey::VK_KP_7,  // Kp7
        96 => FabGlVirtualKey::VK_KP_8,  // Kp8
        97 => FabGlVirtualKey::VK_KP_9,  // Kp9
        84 => FabGlVirtualKey::VK_KP_DIVIDE,  // KpDivide
        85 => FabGlVirtualKey::VK_KP_MULTIPLY,  // KpMultiply
        86 => FabGlVirtualKey::VK_KP_MINUS,  // KpMinus
        87 => FabGlVirtualKey::VK_KP_PLUS,  // KpPlus
        88 => FabGlVirtualKey::VK_KP_ENTER,  // KpEnter
        99 => FabGlVirtualKey::VK_KP_PERIOD,  // KpPeriod
        4 => if shift || caps_lock { FabGlVirtualKey::VK_A } else { FabGlVirtualKey::VK_a },  // A
        5 => if shift || caps_lock { FabGlVirtualKey::VK_B } else { FabGlVirtualKey::VK_b },  // B
        6 => if shift || caps_lock { FabGlVirtualKey::VK_C } else { FabGlVirtualKey::VK_c },  // C
        7 => if shift || caps_lock { FabGlVirtualKey::VK_D } else { FabGlVirtualKey::VK_d },  // D
        8 => if shift || caps_lock { FabGlVirtualKey::VK_E } else { FabGlVirtualKey::VK_e },  // E
        9 => if shift || caps_lock { FabGlVirtualKey::VK_F } else { FabGlVirtualKey::VK_f },  // F
        10 => if shift || caps_lock { FabGlVirtualKey::VK_G } else { FabGlVirtualKey::VK_g },  // G
        11 => if shift || caps_lock { FabGlVirtualKey::VK_H } else { FabGlVirtualKey::VK_h },  // H
        12 => if shift || caps_lock { FabGlVirtualKey::VK_I } else { FabGlVirtualKey::VK_i },  // I
        13 => if shift || caps_lock { FabGlVirtualKey::VK_J } else { FabGlVirtualKey::VK_j },  // J
        14 => if shift || caps_lock { FabGlVirtualKey::VK_K } else { FabGlVirtualKey::VK_k },  // K
        15 => if shift || caps_lock { FabGlVirtualKey::VK_L } else { FabGlVirtualKey::VK_l },  // L
        16 => if shift || caps_lock { FabGlVirtualKey::VK_M } else { FabGlVirtualKey::VK_m },  // M
        17 => if shift || caps_lock { FabGlVirtualKey::VK_N } else { FabGlVirtualKey::VK_n },  // N
        18 => if shift || caps_lock { FabGlVirtualKey::VK_O } else { FabGlVirtualKey::VK_o },  // O
        19 => if shift || caps_lock { FabGlVirtualKey::VK_P } else { FabGlVirtualKey::VK_p },  // P
        20 => if shift || caps_lock { FabGlVirtualKey::VK_Q } else { FabGlVirtualKey::VK_q },  // Q
        21 => if shift || caps_lock { FabGlVirtualKey::VK_R } else { FabGlVirtualKey::VK_r },  // R
        22 => if shift || caps_lock { FabGlVirtualKey::VK_S } else { FabGlVirtualKey::VK_s },  // S
        23 => if shift || caps_lock { FabGlVirtualKey::VK_T } else { FabGlVirtualKey::VK_t },  // T
        24 => if shift || caps_lock { FabGlVirtualKey::VK_U } else { FabGlVirtualKey::VK_u },  // U
        25 => if shift || caps_lock { FabGlVirtualKey::VK_V } else { FabGlVirtualKey::VK_v },  // V
        26 => if shift || caps_lock { FabGlVirtualKey::VK_W } else { FabGlVirtualKey::VK_w },  // W
        27 => if shift || caps_lock { FabGlVirtualKey::VK_X } else { FabGlVirtualKey::VK_x },  // X
        28 => if shift || caps_lock { FabGlVirtualKey::VK_Y } else { FabGlVirtualKey::VK_y },  // Y
        29 => if shift || caps_lock { FabGlVirtualKey::VK_Z } else { FabGlVirtualKey::VK_z },  // Z
        58 => FabGlVirtualKey::VK_F1,  // F1
        59 => FabGlVirtualKey::VK_F2,  // F2
        60 => FabGlVirtualKey::VK_F3,  // F3
        61 => FabGlVirtualKey::VK_F4,  // F4
        62 => FabGlVirtualKey::VK_F5,  // F5
        63 => FabGlVirtualKey::VK_F6,  // F6
        64 => FabGlVirtualKey::VK_F7,  // F7
        65 => FabGlVirtualKey::VK_F8,  // F8
        66 => FabGlVirtualKey::VK_F9,  // F9
        67 => FabGlVirtualKey::VK_F10,  // F10
        68 => FabGlVirtualKey::VK_F11,  // F11
        69 => FabGlVirtualKey::VK_F12,  // F12
        41 => FabGlVirtualKey::VK_ESCAPE,  // Escape
        40 => FabGlVirtualKey::VK_RETURN,  // Return
        42 => FabGlVirtualKey::VK_BACKSPACE,  // Backspace
        43 => FabGlVirtualKey::VK_TAB,  // Tab
        225 => FabGlVirtualKey::VK_LSHIFT,  // LShift
        229 => FabGlVirtualKey::VK_RSHIFT,  // RShift
        224 => FabGlVirtualKey::VK_LCTRL,  // LCtrl
        228 => FabGlVirtualKey::VK_RCTRL,  // RCtrl
        226 => FabGlVirtualKey::VK_LALT,  // LAlt
        230 => FabGlVirtualKey::VK_RALT,  // RAlt
        82 => FabGlVirtualKey::VK_UP,  // Up
        81 => FabGlVirtualKey::VK_DOWN,  // Down
        80 => FabGlVirtualKey::VK_LEFT,  // Left
        79 => FabGlVirtualKey::VK_RIGHT,  // Right
        74 => FabGlVirtualKey::VK_HOME,  // Home
        77 => FabGlVirtualKey::VK_END,  // End
        75 => FabGlVirtualKey::VK_PAGEUP,  // PageUp
        78 => FabGlVirtualKey::VK_PAGEDOWN,  // PageDown
        73 => FabGlVirtualKey::VK_INSERT,  // Insert
        76 => FabGlVirtualKey::VK_DELETE,  // Delete
        57 => FabGlVirtualKey::VK_CAPSLOCK,  // CapsLock
        _ => FabGlVirtualKey::VK_NONE,
    }
}

/// Virtual key of a key on the US layout.
pub fn sdl_scancode_to_fbgl_virtual_key(scancode: i32, keymod: u16) -> (r: FabGlVirtualKey)
    ensures
        r == us_key(scancode, keymod),
{
    let shift = keymod & (MOD_LSHIFT | MOD_RSHIFT) != 0;
    let caps_lock = keymod & MOD_CAPS != 0;
    match scancode {
        44 => FabGlVirtualKey::VK_SPACE,  // Space
        53 => if shift { FabGlVirtualKey::VK_TILDE } else { FabGlVirtualKey::VK_GRAVEACCENT },  // Grave
        30 => if shift { FabGlVirtualKey::VK_EXCLAIM } else { FabGlVirtualKey::VK_1 },  // Num1
        31 => if shift { FabGlVirtualKey::VK_AT } else { FabGlVirtualKey::VK_2 },  // Num2
        32 => if shift { FabGlVirtualKey::VK_HASH } else { FabGlVirtualKey::VK_3 },  // Num3
        33 => if shift { FabGlVirtualKey::VK_DOLLAR } else { FabGlVirtualKey::VK_4 },  // Num4
        34 => if shift { FabGlVirtualKey::VK_PERCENT } else { FabGlVirtualKey::VK_5 },  // Num5
        35 => if shift { FabGlVirtualKey::VK_CARET } else { FabGlVirtualKey::VK_6 },  // Num6
        36 => if shift { FabGlVirtualKey::VK_AMPERSAND } else { FabGlVirtualKey::VK_7 },  // Num7
        37 => if shift { FabGlVirtualKey::VK_ASTERISK } else { FabGlVirtualKey::VK_8 },  // Num8
        38 => if shift { FabGlVirtualKey::VK_LEFTPAREN } else { FabGlVirtualKey::VK_9 },  // Num9
        39 => if shift { FabGlVirtualKey::VK_RIGHTPAREN } else { FabGlVirtualKey::VK_0 },  // Num0
        45 => if shift { FabGlVirtualKey::VK_UNDERSCORE } else { FabGlVirtualKey::VK_MINUS },  // Minus
        46 => if shift { FabGlVirtualKey::VK_PLUS } else { FabGlVirtualKey::VK_EQUALS },  // Equals
        47 => if shift { FabGlVirtualKey::VK_LEFTBRACE } else { FabGlVirtualKey::VK_LEFTBRACKET },  // LeftBracket
        48 => if shift { FabGlVirtualKey::VK_RIGHTBRACE } else { FabGlVirtualKey::VK_RIGHTBRACKET },  // RightBracket
        51 => if shift { FabGlVirtualKey::VK_COLON } else { FabGlVirtualKey::VK_SEMICOLON },  // Semicolon
        52 => if shift { FabGlVirtualKey::VK_QUOTEDBL } else { FabGlVirtualKey::VK_QUOTE },  // Apostrophe
        49 => if shift { FabGlVirtualKey::VK_VERTICALBAR } else { FabGlVirtualKey::VK_BACKSLASH },  // Backslash
        100 => if shift { FabGlVirtualKey::VK_VERTICALBAR } else { FabGlVirtualKey::VK_BACKSLASH },  // NonUsBackslash
        54 => if shift { FabGlVirtualKey::VK_LESS } else { FabGlVirtualKey::VK_COMMA },  // Comma
        55 => if shift { FabGlVirtualKey::VK_GREATER } else { FabGlVirtualKey::VK_PERIOD },  // Period
        56 => if shift { FabGlVirtualKey::VK_QUESTION } else { FabGlVirtualKey::VK_SLASH },  // Slash
        98 => FabGlVirtualKey::VK_KP_0,  // Kp0
        89 => FabGlVirtualKey::VK_KP_1,  // Kp1
        90 => FabGlVirtualKey::VK_KP_2,  // Kp2
        91 => FabGlVirtualKey::VK_KP_3,  // Kp3
        92 => FabGlVirtualKey::VK_KP_4,  // Kp4
        93 => FabGlVirtualKey::VK_KP_5,  // Kp5
        94 => FabGlVirtualKey::VK_KP_6,  // Kp6
        95 => FabGlVirtualKey::VK_KP_7,  // Kp7
        96 => FabGlVirtualKey::VK_KP_8,  // Kp8
        97 => FabGlVirtualKey::VK_KP_9,  // Kp9
        84 => FabGlVirtualKey::VK_KP_DIVIDE,  // KpDivide
        85 => FabGlVirtualKey::VK_KP_MULTIPLY,  // KpMultiply
        86 => FabGlVirtualKey::VK_KP_MINUS,  // KpMinus
        87 => FabGlVirtualKey::VK_KP_PLUS,  // KpPlus
        88 => FabGlVirtualKey::VK_KP_ENTER,  // KpEnter
        99 => FabGlVirtualKey::VK_KP_PERIOD,  // KpPeriod
        4 => if shift || caps_lock { FabGlVirtualKey::VK_A } else { FabGlVirtualKey::VK_a },  // A
        5 => if shift || caps_lock { FabGlVirtualKey::VK_B } else { FabGlVirtualKey::VK_b },  // B
        6 => if shift || caps_lock { FabGlVirtualKey::VK_C } else { FabGlVirtualKey::VK_c },  // C
        7 => if shift || caps_lock { FabGlVirtualKey::VK_D } else { FabGlVirtualKey::VK_d },  // D
        8 => if shift || caps_lock { FabGlVirtualKey::VK_E } else { FabGlVirtualKey::VK_e },  // E
        9 => if shift || caps_lock { FabGlVirtualKey::VK_F } else { FabGlVirtualKey::VK_f },  // F
        10 => if shift || caps_lock { FabGlVirtualKey::VK_G } else { FabGlVirtualKey::VK_g },  // G
        11 => if shift || caps_lock { FabGlVirtualKey::VK_H } else { FabGlVirtualKey::VK_h },  // H
        12 => if shift || caps_lock { FabGlVirtualKey::VK_I } else { FabGlVirtualKey::VK_i },  // I
        13 => if shift || caps_lock { FabGlVirtualKey::VK_J } else { FabGlVirtualKey::VK_j },  // J
        14 => if shift || caps_lock { FabGlVirtualKey::VK_K } else { FabGlVirtualKey::VK_k },  // K
        15 => if shift || caps_lock { FabGlVirtualKey::VK_L } else { FabGlVirtualKey::VK_l },  // L
        16 => if shift || caps_lock { FabGlVirtualKey::VK_M } else { FabGlVirtualKey::VK_m },  // M
        17 => if shift || caps_lock { FabGlVirtualKey::VK_N } else { FabGlVirtualKey::VK_n },  // N
        18 => if shift || caps_lock { FabGlVirtualKey::VK_O } else { FabGlVirtualKey::VK_o },  // O
        19 => if shift || caps_lock { FabGlVirtualKey::VK_P } else { FabGlVirtualKey::VK_p },  // P
        20 => if shift || caps_lock { FabGlVirtualKey::VK_Q } else { FabGlVirtualKey::VK_q },  // Q
        21 => if shift || caps_lock { FabGlVirtualKey::VK_R } else { FabGlVirtualKey::VK_r },  // R
        22 => if shift || caps_lock { FabGlVirtualKey::VK_S } else { FabGlVirtualKey::VK_s },  // S
        23 => if shift || caps_lock { FabGlVirtualKey::VK_T } else { FabGlVirtualKey::VK_t },  // T
        24 => if shift || caps_lock { FabGlVirtualKey::VK_U } else { FabGlVirtualKey::VK_u },  // U
        25 => if shift || caps_lock { FabGlVirtualKey::VK_V } else { FabGlVirtualKey::VK_v },  // V
        26 => if shift || caps_lock { FabGlVirtualKey::VK_W } else { FabGlVirtualKey::VK_w },  // W
        27 => if shift || caps_lock { FabGlVirtualKey::VK_X } else { FabGlVirtualKey::VK_x },  // X
        28 => if shift || caps_lock { FabGlVirtualKey::VK_Y } else { FabGlVirtualKey::VK_y },  // Y
        29 => if shift || caps_lock { FabGlVirtualKey::VK_Z } else { FabGlVirtualKey::VK_z },  // Z
        58 => FabGlVirtualKey::VK_F1,  // F1
        59 => FabGlVirtualKey::VK_F2,  // F2
        60 => FabGlVirtualKey::VK_F3,  // F3
        61 => FabGlVirtualKey::VK_F4,  // F4
        62 => FabGlVirtualKey::VK_F5,  // F5
        63 => FabGlVirtualKey::VK_F6,  // F6
        64 => FabGlVirtualKey::VK_F7,  // F7
        65 => FabGlVirtualKey::VK_F8,  // F8
        66 => FabGlVirtualKey::VK_F9,  // F9
        67 => FabGlVirtualKey::VK_F10,  // F10
        68 => FabGlVirtualKey::VK_F11,  // F11
        69 => FabGlVirtualKey::VK_F12,  // F12
        41 => FabGlVirtualKey::VK_ESCAPE,  // Escape
        40 => FabGlVirtualKey::VK_RETURN,  // Return
        42 => FabGlVirtualKey::VK_BACKSPACE,  // Backspace
        43 => FabGlVirtualKey::VK_TAB,  // Tab
        225 => FabGlVirtualKey::VK_LSHIFT,  // LShift
        229 => FabGlVirtualKey::VK_RSHIFT,  // RShift
        224 => FabGlVirtualKey::VK_LCTRL,  // LCtrl
        228 => FabGlVirtualKey::VK_RCTRL,  // RCtrl
        226 => FabGlVirtualKey::VK_LALT,  // LAlt
        230 => FabGlVirtualKey::VK_RALT,  // RAlt
        82 => FabGlVirtualKey::VK_UP,  // Up
        81 => FabGlVirtualKey::VK_DOWN,  // Down
        80 => FabGlVirtualKey::VK_LEFT,  // Left
        79 => FabGlVirtualKey::VK_RIGHT,  // Right
        74 => FabGlVirtualKey::VK_HOME,  // Home
        77 => FabGlVirtualKey::VK_END,  // End
        75 => FabGlVirtualKey::VK_PAGEUP,  // PageUp
        78 => FabGlVirtualKey::VK_PAGEDOWN,  // PageDown
        73 => FabGlVirtualKey::VK_INSERT,  // Insert
        76 => FabGlVirtualKey::VK_DELETE,  // Delete
        57 => FabGlVirtualKey::VK_CAPSLOCK,  // CapsLock
        _ => FabGlVirtualKey::VK_NONE,
    }
}

/// Virtual key of a key on the German layout: the keys that differ from the
/// US layout, the rest as there.
pub open spec fn de_key(scancode: i32, keymod: u16) -> FabGlVirtualKey {
    let shift = keymod & (MOD_LSHIFT | MOD_RSHIFT) != 0;
    let caps_lock = keymod & MOD_CAPS != 0;
    let alt = keymod & (MOD_LALT | MOD_RALT) != 0;
    match scancode {
        53 => if shift { FabGlVirtualKey::VK_DEGREE } else { FabGlVirtualKey::VK_CARET },  // Grave
        45 => if alt { FabGlVirtualKey::VK_BACKSLASH } else { if shift { FabGlVirtualKey::VK_QUESTION } else { FabGlVirtualKey::VK_ESZETT }},  // Minus
        46 => FabGlVirtualKey::VK_ACUTEACCENT,  // Equals
        47 => FabGlVirtualKey::VK_UMLAUT_u,  // LeftBracket
        48 => if alt { FabGlVirtualKey::VK_TILDE } else { if shift { FabGlVirtualKey::VK_ASTERISK } else { FabGlVirtualKey::VK_PLUS }},  // RightBracket
        51 => FabGlVirtualKey::VK_UMLAUT_o,  // Semicolon
        52 => FabGlVirtualKey::VK_UMLAUT_a,  // Apostrophe
        49 => if shift { FabGlVirtualKey::VK_QUOTE } else { FabGlVirtualKey::VK_HASH },  // Backslash
        100 => if alt { FabGlVirtualKey::VK_VERTICALBAR } else { if shift { FabGlVirtualKey::VK_GREATER } else { FabGlVirtualKey::VK_LESS }},  // NonUsBackslash
        56 => if shift { FabGlVirtualKey::VK_UNDERSCORE } else { FabGlVirtualKey::VK_MINUS },  // Slash
        55 => if shift { FabGlVirtualKey::VK_COLON } else { FabGlVirtualKey::VK_PERIOD },  // Period
        54 => if shift { FabGlVirtualKey::VK_SEMICOLON } else { FabGlVirtualKey::VK_COMMA },  // Comma
        28 => if shift || caps_lock { FabGlVirtualKey::VK_Z } else { FabGlVirtualKey::VK_z },  // Y
        29 => if shift || caps_lock { FabGlVirtualKey::VK_Y } else { FabGlVirtualKey::VK_y },  // Z
        8 => if alt { FabGlVirtualKey::VK_EURO } else { if shift || caps_lock { FabGlVirtualKey::VK_E } else { FabGlVirtualKey::VK_e }},  // E
        20 => if alt { FabGlVirtualKey::VK_AT } else { if shift || caps_lock { FabGlVirtualKey::VK_Q } else { FabGlVirtualKey::VK_q }},  // Q
        31 => if shift { FabGlVirtualKey::VK_QUOTEDBL } else { FabGlVirtualKey::VK_2 },  // Num2
        32 => if shift { FabGlVirtualKey::VK_SECTION } else { FabGlVirtualKey::VK_3 },  // Num3
        35 => if shift { FabGlVirtualKey::VK_AMPERSAND } else { FabGlVirtualKey::VK_6 },  // Num6
        36 => if alt { FabGlVirtualKey::VK_LEFTBRACE } else { if shift { FabGlVirtualKey::VK_SLASH } else { FabGlVirtualKey::VK_7 }},  // Num7
        37 => if alt { FabGlVirtualKey::VK_LEFTBRACKET } else { if shift { FabGlVirtualKey::VK_LEFTPAREN } else { FabGlVirtualKey::VK_8 }},  // Num8
        38 => if alt { FabGlVirtualKey::VK_RIGHTBRACKET } else { if shift { FabGlVirtualKey::VK_RIGHTPAREN } else { FabGlVirtualKey::VK_9 }},  // Num9
        39 => if alt { FabGlVirtualKey::VK_RIGHTBRACE } else { if shift { FabGlVirtualKey::VK_EQUALS } else { FabGlVirtualKey::VK_0 }},  // Num0
        _ => us_key(scancode, keymod),
    }
}

/// A keyboard layout: how scancodes and modifiers map to virtual keys.
pub trait KeyboardLayout {
    spec fn layout_key(&self, scancode: i32, keymod: u16) -> FabGlVirtualKey;

    fn sdl_scancode_to_fbgl_virtual_key(&self, scancode: i32, keymod: u16) -> (r: FabGlVirtualKey)
        ensures
            r == self.layout_key(scancode, keymod),
    ;
}

/// The US layout.
pub struct KeyboardLayoutUS;

impl KeyboardLayout for KeyboardLayoutUS {
    open spec fn layout_key(&self, scancode: i32, keymod: u16) -> FabGlVirtualKey {
        us_key(scancode, keymod)
    }

    fn sdl_scancode_to_fbgl_virtual_key(&self, scancode: i32, keymod: u16) -> (r: FabGlVirtualKey) {
        sdl_scancode_to_fbgl_virtual_key(scancode, keymod)
    }
}

/// The German layout.
pub struct KeyboardLayoutDE;

impl KeyboardLayout for KeyboardLayoutDE {
    open spec fn layout_key(&self, scancode: i32, keymod: u16) -> FabGlVirtualKey {
        de_key(scancode, keymod)
    }

    fn sdl_scancode_to_fbgl_virtual_key(&self, scancode: i32, keymod: u16) -> (r: FabGlVirtualKey) {
        let shift = keymod & (MOD_LSHIFT | MOD_RSHIFT) != 0;
        let caps_lock = keymod & MOD_CAPS != 0;
        let alt = keymod & (MOD_LALT | MOD_RALT) != 0;
        match scancode {
            53 => if shift { FabGlVirtualKey::VK_DEGREE } else { FabGlVirtualKey::VK_CARET },  // Grave
            45 => if alt { FabGlVirtualKey::VK_BACKSLASH } else { if shift { FabGlVirtualKey::VK_QUESTION } else { FabGlVirtualKey::VK_ESZETT }},  // Minus
            46 => FabGlVirtualKey::VK_ACUTEACCENT,  // Equals
            47 => FabGlVirtualKey::VK_UMLAUT_u,  // LeftBracket
            48 => if alt { FabGlVirtualKey::VK_TILDE } else { if shift { FabGlVirtualKey::VK_ASTERISK } else { FabGlVirtualKey::VK_PLUS }},  // RightBracket
            51 => FabGlVirtualKey::VK_UMLAUT_o,  // Semicolon
            52 => FabGlVirtualKey::VK_UMLAUT_a,  // Apostrophe
            49 => if shift { FabGlVirtualKey::VK_QUOTE } else { FabGlVirtualKey::VK_HASH },  // Backslash
            100 => if alt { FabGlVirtualKey::VK_VERTICALBAR } else { if shift { FabGlVirtualKey::VK_GREATER } else { FabGlVirtualKey::VK_LESS }},  // NonUsBackslash
            56 => if shift { FabGlVirtualKey::VK_UNDERSCORE } else { FabGlVirtualKey::VK_MINUS },  // Slash
            55 => if shift { FabGlVirtualKey::VK_COLON } else { FabGlVirtualKey::VK_PERIOD },  // Period
            54 => if shift { FabGlVirtualKey::VK_SEMICOLON } else { FabGlVirtualKey::VK_COMMA },  // Comma
            28 => if shift || caps_lock { FabGlVirtualKey::VK_Z } else { FabGlVirtualKey::VK_z },  // Y
            29 => if shift || caps_lock { FabGlVirtualKey::VK_Y } else { FabGlVirtualKey::VK_y },  // Z
            8 => if alt { FabGlVirtualKey::VK_EURO } else { if shift || caps_lock { FabGlVirtualKey::VK_E } else { FabGlVirtualKey::VK_e }},  // E
            20 => if alt { FabGlVirtualKey::VK_AT } else { if shift || caps_lock { FabGlVirtualKey::VK_Q } else { FabGlVirtualKey::VK_q }},  // Q
            31 => if shift { FabGlVirtualKey::VK_QUOTEDBL } else { FabGlVirtualKey::VK_2 },  // Num2
            32 => if shift { FabGlVirtualKey::VK_SECTION } else { FabGlVirtualKey::VK_3 },  // Num3
            35 => if shift { FabGlVirtualKey::VK_AMPERSAND } else { FabGlVirtualKey::VK_6 },  // Num6
            36 => if alt { FabGlVirtualKey::VK_LEFTBRACE } else { if shift { FabGlVirtualKey::VK_SLASH } else { FabGlVirtualKey::VK_7 }},  // Num7
            37 => if alt { FabGlVirtualKey::VK_LEFTBRACKET } else { if shift { FabGlVirtualKey::VK_LEFTPAREN } else { FabGlVirtualKey::VK_8 }},  // Num8
            38 => if alt { FabGlVirtualKey::VK_RIGHTBRACKET } else { if shift { FabGlVirtualKey::VK_RIGHTPAREN } else { FabGlVirtualKey::VK_9 }},  // Num9
            39 => if alt { FabGlVirtualKey::VK_RIGHTBRACE } else { if shift { FabGlVirtualKey::VK_EQUALS } else { FabGlVirtualKey::VK_0 }},  // Num0
            _ => sdl_scancode_to_fbgl_virtual_key(scancode, keymod),
        }
    }
}

} // verus!
