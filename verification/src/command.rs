//! The session-control command protocol.
//!
//! A command is a fixed opcode followed by a fixed, command-specific list of
//! signed 32-bit parameters, all serialized as little-endian 32-bit words with
//! no length prefix and no acknowledgement frame.

use vstd::prelude::*;

verus! {

/// The opcode tags of the command protocol. The numeric values are part of
/// the wire contract with the guest-side graphics stub and must stay stable.
#[derive(Clone, Copy, Debug, PartialEq, Eq, Structural)]
pub enum GLCommand {
    Initialize,
    SetWindowSize,
    SwapBuffers,
    MakeCurrent,
    Destroy,
    Repaint,
}

impl GLCommand {
    /// The 32-bit opcode sent on the wire for this tag.
    pub open spec fn spec_opcode(self) -> u32 {
        match self {
            GLCommand::Initialize => 0x1000,
            GLCommand::SetWindowSize => 0x1001,
            GLCommand::SwapBuffers => 0x1002,
            GLCommand::MakeCurrent => 0x1003,
            GLCommand::Destroy => 0x1004,
            GLCommand::Repaint => 0x1005,
        }
    }

    pub fn opcode(self) -> (r: u32)
        ensures
            r == self.spec_opcode(),
    {
        match self {
            GLCommand::Initialize => 0x1000,
            GLCommand::SetWindowSize => 0x1001,
            GLCommand::SwapBuffers => 0x1002,
            GLCommand::MakeCurrent => 0x1003,
            GLCommand::Destroy => 0x1004,
            GLCommand::Repaint => 0x1005,
        }
    }
}

/// A full control message: an opcode tag together with its parameters.
#[derive(Clone, Copy, Debug, PartialEq, Eq, Structural)]
pub enum Command {
    Initialize { width: i32, height: i32, xdpi: i32, ydpi: i32, fps: i32 },
    SetWindowSize { width: i32, height: i32, fb_width: i32, fb_height: i32 },
    SwapBuffers,
    MakeCurrent,
    Destroy,
    Repaint,
}

impl Command {
    /// The opcode tag of this message.
    pub open spec fn spec_tag(self) -> GLCommand {
        match self {
            Command::Initialize { .. } => GLCommand::Initialize,
            Command::SetWindowSize { .. } => GLCommand::SetWindowSize,
            Command::SwapBuffers => GLCommand::SwapBuffers,
            Command::MakeCurrent => GLCommand::MakeCurrent,
            Command::Destroy => GLCommand::Destroy,
            Command::Repaint => GLCommand::Repaint,
        }
    }

    /// The parameter words of this message, in wire order.
    pub open spec fn spec_params(self) -> Seq<i32> {
        match self {
            Command::Initialize { width, height, xdpi, ydpi, fps } =>
                seq![width, height, xdpi, ydpi, fps],
            Command::SetWindowSize { width, height, fb_width, fb_height } =>
                seq![width, height, fb_width, fb_height],
            Command::SwapBuffers => seq![],
            Command::MakeCurrent => seq![],
            Command::Destroy => seq![],
            Command::Repaint => seq![],
        }
    }
}

/// The four little-endian bytes of a 32-bit word.
pub open spec fn spec_le32(x: u32) -> Seq<u8> {
    seq![
        (x & 0xff) as u8,
        ((x >> 8) & 0xff) as u8,
        ((x >> 16) & 0xff) as u8,
        ((x >> 24) & 0xff) as u8,
    ]
}

/// The 32-bit word read from four little-endian bytes.
pub open spec fn spec_read_le32(b0: u8, b1: u8, b2: u8, b3: u8) -> u32 {
    (b0 as u32) | ((b1 as u32) << 8) | ((b2 as u32) << 16) | ((b3 as u32) << 24)
}

/// The little-endian bytes of a signed parameter, written as its
/// two's-complement 32-bit word.
pub open spec fn spec_le32_i32(x: i32) -> Seq<u8> {
    spec_le32(x as u32)
}

/// The exact byte sequence a command produces on the wire: the opcode word,
/// then each parameter word, all little-endian.
pub open spec fn spec_encode(c: Command) -> Seq<u8> {
    spec_le32(c.spec_tag().spec_opcode()) + spec_encode_params(c.spec_params())
}

/// The parameter words of a command as bytes, in wire order.
pub open spec fn spec_encode_params(ps: Seq<i32>) -> Seq<u8>
    decreases ps.len(),
{
    if ps.len() == 0 {
        seq![]
    } else {
        spec_le32_i32(ps[0]) + spec_encode_params(ps.drop_first())
    }
}

/// The word formed by the four little-endian bytes at `i`.
pub open spec fn spec_word_at(s: Seq<u8>, i: int) -> u32 {
    spec_read_le32(s[i], s[i + 1], s[i + 2], s[i + 3])
}

/// Reading a word back from its little-endian bytes gives the word.
pub proof fn lemma_read_of_le32(x: u32)
    ensures
        spec_read_le32(
            spec_le32(x)[0],
            spec_le32(x)[1],
            spec_le32(x)[2],
            spec_le32(x)[3],
        ) == x,
{
    assert(((x & 0xff) as u8 as u32)
        | ((((x >> 8) & 0xff) as u8 as u32) << 8)
        | ((((x >> 16) & 0xff) as u8 as u32) << 16)
        | ((((x >> 24) & 0xff) as u8 as u32) << 24) == x) by (bit_vector);
}

/// Writing back the word read from four bytes gives the same four bytes.
pub proof fn lemma_le32_of_read(b0: u8, b1: u8, b2: u8, b3: u8)
    ensures
        spec_le32(spec_read_le32(b0, b1, b2, b3)) == seq![b0, b1, b2, b3],
{
    let x = spec_read_le32(b0, b1, b2, b3);
    assert((((b0 as u32) | ((b1 as u32) << 8) | ((b2 as u32) << 16) | ((b3 as u32) << 24))
        & 0xff) as u8 == b0) by (bit_vector);
    assert(((((b0 as u32) | ((b1 as u32) << 8) | ((b2 as u32) << 16) | ((b3 as u32) << 24))
        >> 8) & 0xff) as u8 == b1) by (bit_vector);
    assert(((((b0 as u32) | ((b1 as u32) << 8) | ((b2 as u32) << 16) | ((b3 as u32) << 24))
        >> 16) & 0xff) as u8 == b2) by (bit_vector);
    assert(((((b0 as u32) | ((b1 as u32) << 8) | ((b2 as u32) << 16) | ((b3 as u32) << 24))
        >> 24) & 0xff) as u8 == b3) by (bit_vector);
    assert(spec_le32(x) =~= seq![b0, b1, b2, b3]);
}

/// A signed word survives the round trip through its unsigned wire form.
pub proof fn lemma_i32_u32_round_trip(x: i32)
    ensures
        (x as u32) as i32 == x,
{
    assert((x as u32) as i32 == x) by (bit_vector);
}

/// An unsigned word survives the round trip through its signed reading.
pub proof fn lemma_u32_i32_round_trip(x: u32)
    ensures
        (x as i32) as u32 == x,
{
    assert((x as i32) as u32 == x) by (bit_vector);
}

/// The little-endian bytes of the word at `i` are the four bytes at `i`.
pub proof fn lemma_chunk_round_trip(s: Seq<u8>, i: int)
    requires
        0 <= i,
        i + 4 <= s.len(),
    ensures
        spec_le32(spec_word_at(s, i)) == s.subrange(i, i + 4),
{
    lemma_le32_of_read(s[i], s[i + 1], s[i + 2], s[i + 3]);
    assert(s.subrange(i, i + 4) =~= seq![s[i], s[i + 1], s[i + 2], s[i + 3]]);
}

/// What an encoding pins down: its length and every word of it, so that no
/// two distinct commands share one byte sequence.
pub proof fn lemma_encode_inversion(c: Command, s: Seq<u8>)
    requires
        s == spec_encode(c),
    ensures
        s.len() == 4 + 4 * c.spec_params().len(),
        spec_word_at(s, 0) == c.spec_tag().spec_opcode(),
        forall|j: int|
            0 <= j < c.spec_params().len() ==> c.spec_params()[j] == spec_word_at(
                s,
                4 + 4 * j,
            ) as i32,
{
    let ps = c.spec_params();
    let body = spec_encode_params(ps);
    lemma_encode_params_inversion(ps, body);
    assert(s.len() == 4 + 4 * ps.len());
    lemma_read_of_le32(c.spec_tag().spec_opcode());
    assert(spec_word_at(s, 0) == c.spec_tag().spec_opcode());
    assert forall|j: int| 0 <= j < ps.len() implies ps[j] == spec_word_at(
        s,
        4 + 4 * j,
    ) as i32 by {
        assert(spec_word_at(s, 4 + 4 * j) == spec_word_at(body, 4 * j));
    }
}

proof fn lemma_encode_params_inversion(ps: Seq<i32>, s: Seq<u8>)
    requires
        s == spec_encode_params(ps),
    ensures
        s.len() == 4 * ps.len(),
        forall|j: int| 0 <= j < ps.len() ==> ps[j] == spec_word_at(s, 4 * j) as i32,
    decreases ps.len(),
{
    if ps.len() != 0 {
        let head = spec_le32_i32(ps[0]);
        let tail = spec_encode_params(ps.drop_first());
        lemma_encode_params_inversion(ps.drop_first(), tail);
        lemma_read_of_le32(ps[0] as u32);
        lemma_i32_u32_round_trip(ps[0]);
        assert(spec_word_at(s, 0) as i32 == ps[0]);
        assert forall|j: int| 1 <= j < ps.len() implies ps[j] == spec_word_at(
            s,
            4 * j,
        ) as i32 by {
            assert(spec_word_at(s, 4 * j) == spec_word_at(tail, 4 * (j - 1)));
            assert(ps.drop_first()[j - 1] == ps[j]);
        }
    }
}

/// No two distinct commands serialize to the same bytes: together with the
/// contract of `Command::decode` this gives the byte-exact round trip, for a
/// command with any valid parameters.
pub proof fn lemma_encode_injective(c1: Command, c2: Command)
    requires
        spec_encode(c1) == spec_encode(c2),
    ensures
        c1 == c2,
{
    let s = spec_encode(c1);
    lemma_encode_inversion(c1, s);
    lemma_encode_inversion(c2, s);
    assert(c1.spec_tag() == c2.spec_tag());
    assert(c1.spec_params() =~= c2.spec_params());
}

/// A byte sequence that fails every shape test of the decoder is the
/// encoding of no command.
proof fn lemma_no_encoding(s: Seq<u8>)
    requires
        s.len() < 4 || {
            let op = spec_word_at(s, 0);
            &&& !(op == 0x1000 && s.len() == 24)
            &&& !(op == 0x1001 && s.len() == 20)
            &&& !(op == 0x1002 && s.len() == 4)
            &&& !(op == 0x1003 && s.len() == 4)
            &&& !(op == 0x1004 && s.len() == 4)
            &&& !(op == 0x1005 && s.len() == 4)
        },
    ensures
        forall|c: Command| s != spec_encode(c),
{
    assert forall|c: Command| s != spec_encode(c) by {
        if s == spec_encode(c) {
            lemma_encode_inversion(c, s);
        }
    }
}

/// A byte sequence whose length, opcode word and parameter words all agree
/// with a command is that command's encoding.
proof fn lemma_decoded_bytes_match(c: Command, s: Seq<u8>)
    requires
        s.len() == 4 + 4 * c.spec_params().len(),
        spec_word_at(s, 0) == c.spec_tag().spec_opcode(),
        forall|j: int|
            0 <= j < c.spec_params().len() ==> c.spec_params()[j] == spec_word_at(
                s,
                4 + 4 * j,
            ) as i32,
    ensures
        s == spec_encode(c),
{
    let ps = c.spec_params();
    let body = s.subrange(4, s.len() as int);
    assert forall|j: int| 0 <= j < ps.len() implies ps[j] == spec_word_at(body, 4 * j) as i32 by {
        assert(spec_word_at(body, 4 * j) == spec_word_at(s, 4 + 4 * j));
    }
    lemma_encode_params_from_words(ps, body);
    lemma_chunk_round_trip(s, 0);
    assert(s =~= s.subrange(0, 4) + body);
}

proof fn lemma_encode_params_from_words(ps: Seq<i32>, s: Seq<u8>)
    requires
        s.len() == 4 * ps.len(),
        forall|j: int| 0 <= j < ps.len() ==> ps[j] == spec_word_at(s, 4 * j) as i32,
    ensures
        spec_encode_params(ps) == s,
    decreases ps.len(),
{
    if ps.len() == 0 {
        assert(spec_encode_params(ps) =~= s);
    } else {
        let tail = s.subrange(4, s.len() as int);
        assert forall|j: int| 0 <= j < ps.drop_first().len() implies ps.drop_first()[j]
            == spec_word_at(tail, 4 * j) as i32 by {
            assert(spec_word_at(tail, 4 * j) == spec_word_at(s, 4 * (j + 1)));
            assert(ps.drop_first()[j] == ps[j + 1]);
        }
        lemma_encode_params_from_words(ps.drop_first(), tail);
        lemma_u32_i32_round_trip(spec_word_at(s, 0));
        lemma_chunk_round_trip(s, 0);
        assert(spec_le32_i32(ps[0]) == s.subrange(0, 4));
        assert(spec_encode_params(ps) =~= s.subrange(0, 4) + tail);
        assert(s =~= s.subrange(0, 4) + tail);
    }
}

/// Reads the little-endian 32-bit word at `i`.
pub(crate) fn read_le32(data: &[u8], i: usize) -> (r: u32)
    requires
        i + 4 <= data@.len(),
    ensures
        r == spec_word_at(data@, i as int),
{
    (data[i] as u32) | ((data[i + 1] as u32) << 8) | ((data[i + 2] as u32) << 16) | ((data[i
        + 3] as u32) << 24)
}

/// Appends the four little-endian bytes of `x`.
fn push_le32(out: &mut Vec<u8>, x: u32)
    ensures
        final(out)@ == old(out)@ + spec_le32(x),
{
    out.push((x & 0xff) as u8);
    out.push(((x >> 8) & 0xff) as u8);
    out.push(((x >> 16) & 0xff) as u8);
    out.push(((x >> 24) & 0xff) as u8);
    proof {
        assert(out@ =~= old(out)@ + spec_le32(x));
    }
}

impl Command {
    /// Serializes this command for the wire.
    pub fn encode(&self) -> (r: Vec<u8>)
        ensures
            r@ == spec_encode(*self),
    {
        let mut out: Vec<u8> = Vec::new();
        push_le32(&mut out, self.tag().opcode());
        match *self {
            Command::Initialize { width, height, xdpi, ydpi, fps } => {
                push_le32(&mut out, width as u32);
                push_le32(&mut out, height as u32);
                push_le32(&mut out, xdpi as u32);
                push_le32(&mut out, ydpi as u32);
                push_le32(&mut out, fps as u32);
            }
            Command::SetWindowSize { width, height, fb_width, fb_height } => {
                push_le32(&mut out, width as u32);
                push_le32(&mut out, height as u32);
                push_le32(&mut out, fb_width as u32);
                push_le32(&mut out, fb_height as u32);
            }
            Command::SwapBuffers => {}
            Command::MakeCurrent => {}
            Command::Destroy => {}
            Command::Repaint => {}
        }
        proof {
            assert(out@ =~= spec_encode(*self)) by {
                reveal_with_fuel(spec_encode_params, 6);
            }
        }
        out
    }

    /// Deserializes one command from exactly the bytes of one frame.
    ///
    /// Returns `Some(c)` exactly when the input is byte-for-byte the wire
    /// encoding of `c`, and `None` when it is the encoding of no command;
    /// with `lemma_encode_injective` this makes decoding the exact inverse
    /// of encoding.
    pub fn decode(data: &[u8]) -> (r: Option<Command>)
        ensures
            match r {
                Some(c) => data@ == spec_encode(c),
                None => forall|c: Command| data@ != spec_encode(c),
            },
    {
        if data.len() < 4 {
            proof {
                lemma_no_encoding(data@);
            }
            return None;
        }
        let op = read_le32(data, 0);
        let r = if op == 0x1000 && data.len() == 24 {
            Some(
                Command::Initialize {
                    width: read_le32(data, 4) as i32,
                    height: read_le32(data, 8) as i32,
                    xdpi: read_le32(data, 12) as i32,
                    ydpi: read_le32(data, 16) as i32,
                    fps: read_le32(data, 20) as i32,
                },
            )
        } else if op == 0x1001 && data.len() == 20 {
            Some(
                Command::SetWindowSize {
                    width: read_le32(data, 4) as i32,
                    height: read_le32(data, 8) as i32,
                    fb_width: read_le32(data, 12) as i32,
                    fb_height: read_le32(data, 16) as i32,
                },
            )
        } else if op == 0x1002 && data.len() == 4 {
            Some(Command::SwapBuffers)
        } else if op == 0x1003 && data.len() == 4 {
            Some(Command::MakeCurrent)
        } else if op == 0x1004 && data.len() == 4 {
            Some(Command::Destroy)
        } else if op == 0x1005 && data.len() == 4 {
            Some(Command::Repaint)
        } else {
            None
        };
        proof {
            match r {
                Some(c) => {
                    lemma_decoded_bytes_match(c, data@);
                }
                None => {
                    lemma_no_encoding(data@);
                }
            }
        }
        r
    }

    /// The opcode tag of this message.
    pub fn tag(&self) -> (r: GLCommand)
        ensures
            r == self.spec_tag(),
    {
        match *self {
            Command::Initialize { .. } => GLCommand::Initialize,
            Command::SetWindowSize { .. } => GLCommand::SetWindowSize,
            Command::SwapBuffers => GLCommand::SwapBuffers,
            Command::MakeCurrent => GLCommand::MakeCurrent,
            Command::Destroy => GLCommand::Destroy,
            Command::Repaint => GLCommand::Repaint,
        }
    }
}

} // verus!
