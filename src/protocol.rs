use vstd::prelude::*;

verus! {

/// Outbound packet: the opcode with its top bit set, the payload length,
/// then the payload.
pub open spec fn packet_spec(code: u8, data: Seq<u8>) -> Seq<u8> {
    seq![(code + 0x80) as u8, data.len() as u8] + data
}

/// Frames `data` as the response packet with opcode `code`.
pub fn send_packet(code: u8, data: &Vec<u8>) -> (out: Vec<u8>)
    requires
        code < 0x80,
        data@.len() < 256,
    ensures
        out@ == packet_spec(code, data@),
{
    let mut out: Vec<u8> = Vec::new();
    out.push(code + 0x80);
    out.push(data.len() as u8);
    let mut i: usize = 0;
    while i < data.len()
        invariant
            0 <= i <= data@.len(),
            data@.len() < 256,
            out@ == seq![(code + 0x80) as u8, data@.len() as u8] + data@.subrange(0, i as int),
        decreases data@.len() - i,
    {
        out.push(data[i]);
        i = i + 1;
        assert(data@.subrange(0, i as int) == data@.subrange(0, i - 1).push(data@[i - 1]));
    }
    assert(data@.subrange(0, data@.len() as int) == data@);
    out
}

/// Bytes that may stand inside the parameters of a control sequence.
pub open spec fn is_param_byte(b: u8) -> bool {
    (48 <= b <= 57) || b == 59
}

/// Parameter fields read so far, and the field being read, after the
/// parameter bytes `s`: digits accumulate in decimal (kept modulo 256),
/// `;` closes a field.
pub open spec fn csi_fold(s: Seq<u8>) -> (Seq<u8>, u8)
    decreases s.len(),
{
    if s.len() == 0 {
        (seq![], 0)
    } else {
        let acc = csi_fold(s.drop_last());
        let b = s.last();
        if b == 59 {
            (acc.0.push(acc.1), 0)
        } else {
            (acc.0, ((acc.1 * 10 + b - 48) % 256) as u8)
        }
    }
}

/// The parameters of a control sequence whose parameter bytes are `s`.
pub open spec fn csi_params(s: Seq<u8>) -> Seq<u8> {
    let acc = csi_fold(s);
    acc.0.push(acc.1)
}

/// Whether `s` (the bytes after ESC) holds a whole control sequence that
/// ends at index `end`, its command letter: `[`, parameter bytes, then the
/// first other byte.
pub open spec fn csi_ends_at(s: Seq<u8>, end: int) -> bool {
    &&& s.len() > 0
    &&& s[0] == 91
    &&& 1 <= end < s.len()
    &&& !is_param_byte(s[end])
    &&& forall|j: int| 1 <= j < end ==> is_param_byte(#[trigger] s[j])
}

/// A decoded escape sequence.
pub struct Control {
    /// Command letter; 0 when ESC is not followed by `[`.
    pub cmd: u8,
    pub params: Vec<u8>,
    /// Bytes taken after ESC.
    pub len: usize,
}

/// Decodes the escape sequence in `s`, the bytes that followed ESC, or
/// returns `None` while it is not complete.
pub fn parse_control(s: &Vec<u8>) -> (r: Option<Control>)
    ensures
        s@.len() == 0 ==> r.is_none(),
        s@.len() > 0 && s@[0] != 91 ==> (r matches Some(c) && c.cmd == 0 && c.params@.len() == 0
            && c.len == 1),
        s@.len() > 0 && s@[0] == 91 ==> match r {
            Some(c) => csi_ends_at(s@, c.len - 1) && c.cmd == s@[c.len - 1] && c.params@
                == csi_params(s@.subrange(1, c.len - 1)),
            None => forall|j: int| 1 <= j < s@.len() ==> is_param_byte(#[trigger] s@[j]),
        },
{
    if s.len() == 0 {
        return None;
    }
    if s[0] != 91 {
        return Some(Control { cmd: 0, params: Vec::new(), len: 1 });
    }
    let mut v: Vec<u8> = Vec::new();
    let mut p: u8 = 0;
    let mut i: usize = 1;
    while i < s.len()
        invariant
            1 <= i <= s@.len(),
            s@[0] == 91,
            (v@, p) == csi_fold(s@.subrange(1, i as int)),
            forall|j: int| 1 <= j < i ==> is_param_byte(#[trigger] s@[j]),
        decreases s@.len() - i,
    {
        let c = s[i];
        if !(48 <= c && c <= 57) && c != 59 {
            let mut params = v;
            params.push(p);
            return Some(Control { cmd: c, params, len: i + 1 });
        }
        assert(s@.subrange(1, i + 1).drop_last() == s@.subrange(1, i as int));
        if c == 59 {
            v.push(p);
            p = 0;
        } else {
            p = ((p as u32 * 10 + c as u32 - 48) % 256) as u8;
        }
        i = i + 1;
    }
    None
}

} // verus!
