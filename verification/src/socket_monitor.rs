//! Passive diagnostic listeners over the well-known endpoints.
//!
//! When diagnostics are enabled, one listener per endpoint path records
//! every received chunk in three views — hex, printable, and aligned 32-bit
//! words — into a per-endpoint append-only log. A listener never writes to
//! the endpoint it watches, and terminates when its peer closes or a hard
//! I/O error arrives. The reading and the log files are the process side's;
//! the decisions and the views are here.

use vstd::prelude::*;

use crate::command::spec_word_at;
use crate::command::read_le32;

verus! {

/// What one read attempt on a monitored socket produced.
pub enum TapEvent {
    /// The peer closed: a zero-length read.
    Closed,
    /// A chunk of traffic arrived.
    Chunk(Vec<u8>),
    /// The bounded read timeout elapsed with nothing to read.
    Timeout,
    /// A hard I/O error.
    Failed,
}

/// What the listener does next.
#[derive(Clone, Copy, Debug, PartialEq, Eq, Structural)]
pub enum TapAction {
    /// Append the chunk's views to the endpoint's log and keep reading.
    Record,
    /// Sleep briefly and keep reading; the timeout only paces liveness
    /// checking.
    Wait,
    /// Terminate the listener.
    Stop,
}

/// The listener's step function: a chunk is recorded, a timeout is waited
/// out, and a closed peer or a hard error ends the listener.
pub fn monitor_step(event: &TapEvent) -> (r: TapAction)
    ensures
        r == (match event {
            TapEvent::Closed => TapAction::Stop,
            TapEvent::Chunk(_) => TapAction::Record,
            TapEvent::Timeout => TapAction::Wait,
            TapEvent::Failed => TapAction::Stop,
        }),
{
    match event {
        TapEvent::Closed => TapAction::Stop,
        TapEvent::Chunk(_) => TapAction::Record,
        TapEvent::Timeout => TapAction::Wait,
        TapEvent::Failed => TapAction::Stop,
    }
}

/// Whether a listener gets attached to a path at all: the path must exist,
/// and diagnostics must be enabled.
pub fn should_attach_listener(diagnostics_enabled: bool, path_exists: bool) -> (r: bool)
    ensures
        r == (diagnostics_enabled && path_exists),
{
    diagnostics_enabled && path_exists
}

/// Stops are advisory: a listener terminates on its own when its socket
/// closes or errors, and process exit reclaims the rest, so there is
/// nothing to tear down here.
pub fn stop_socket_monitoring() {
}

/// One lowercase hex digit.
pub open spec fn spec_hex_digit(n: u8) -> char
    recommends
        n < 16,
{
    if n < 10 {
        ((0x30 + n) as u8) as char
    } else {
        ((0x57 + n) as u8) as char
    }
}

/// The two lowercase hex digits of a byte.
pub open spec fn spec_hex_pair(b: u8) -> Seq<char> {
    seq![spec_hex_digit((b / 16) as u8), spec_hex_digit((b % 16) as u8)]
}

/// The body of the hex view: the bytes as two-digit pairs joined by
/// a comma and a space.
pub open spec fn spec_hex_body(s: Seq<u8>) -> Seq<char>
    decreases s.len(),
{
    if s.len() == 0 {
        seq![]
    } else if s.len() == 1 {
        spec_hex_pair(s[0])
    } else {
        spec_hex_pair(s[0]) + seq![',', ' '] + spec_hex_body(s.drop_first())
    }
}

/// The hex view of a chunk: the joined pairs in brackets.
pub open spec fn spec_hex_view(s: Seq<u8>) -> Seq<char> {
    seq!['['] + spec_hex_body(s) + seq![']']
}

proof fn lemma_hex_body_snoc(s: Seq<u8>, v: u8)
    ensures
        spec_hex_body(s.push(v)) == if s.len() == 0 {
            spec_hex_pair(v)
        } else {
            spec_hex_body(s) + seq![',', ' '] + spec_hex_pair(v)
        },
    decreases s.len(),
{
    if s.len() == 0 {
        assert(s.push(v).len() == 1);
        assert(spec_hex_body(s.push(v)) == spec_hex_pair(s.push(v)[0]));
    } else {
        lemma_hex_body_snoc(s.drop_first(), v);
        assert(s.push(v).drop_first() =~= s.drop_first().push(v));
        if s.len() == 1 {
            assert(spec_hex_body(s.push(v)) == spec_hex_pair(s.push(v)[0]) + seq![',', ' ']
                + spec_hex_body(s.push(v).drop_first()));
            assert(spec_hex_body(s) =~= spec_hex_pair(s[0]));
        } else {
            assert(spec_hex_body(s) + seq![',', ' '] + spec_hex_pair(v) =~= spec_hex_pair(s[0])
                + seq![',', ' '] + (spec_hex_body(s.drop_first()) + seq![',', ' ']
                + spec_hex_pair(v)));
        }
    }
}

/// The hex view of a chunk, exactly as the log shows it: each byte as two
/// lowercase hex digits, the bytes joined by a comma and a space, in
/// brackets.
pub fn hex_view(data: &[u8]) -> (r: Vec<char>)
    ensures
        r@ == spec_hex_view(data@),
{
    let mut out: Vec<char> = Vec::new();
    out.push('[');
    let mut i: usize = 0;
    while i < data.len()
        invariant
            0 <= i <= data@.len(),
            out@ == seq!['['] + spec_hex_body(data@.take(i as int)),
        decreases data@.len() - i,
    {
        if i > 0 {
            out.push(',');
            out.push(' ');
        }
        let b = data[i];
        let hi = b / 16;
        let lo = b % 16;
        out.push(if hi < 10 {
            (0x30 + hi) as char
        } else {
            (0x57 + hi) as char
        });
        out.push(if lo < 10 {
            (0x30 + lo) as char
        } else {
            (0x57 + lo) as char
        });
        proof {
            lemma_hex_body_snoc(data@.take(i as int), data@[i as int]);
            assert(data@.take(i + 1) =~= data@.take(i as int).push(data@[i as int]));
            assert(out@ =~= seq!['['] + spec_hex_body(data@.take(i + 1)));
        }
        i = i + 1;
    }
    out.push(']');
    proof {
        assert(data@.take(data@.len() as int) =~= data@);
        assert(out@ =~= spec_hex_view(data@));
    }
    out
}

/// How the printable view shows one byte: ASCII graphic characters and the
/// space stand for themselves — line breaks too, when asked to keep them —
/// and everything else becomes a dot.
pub open spec fn spec_printable(b: u8, keep_line_breaks: bool) -> char {
    if 0x21 <= b <= 0x7e || b == 0x20 {
        b as char
    } else if keep_line_breaks && (b == 0x0a || b == 0x0d) {
        b as char
    } else {
        '.'
    }
}

/// The printable view of a chunk, one character per byte.
pub fn printable_view(data: &[u8], keep_line_breaks: bool) -> (r: Vec<char>)
    ensures
        r@.len() == data@.len(),
        forall|i: int|
            0 <= i < data@.len() ==> r@[i] == spec_printable(data@[i], keep_line_breaks),
{
    let mut out: Vec<char> = Vec::new();
    let mut i: usize = 0;
    while i < data.len()
        invariant
            0 <= i <= data@.len(),
            out@.len() == i,
            forall|j: int| 0 <= j < i ==> out@[j] == spec_printable(data@[j], keep_line_breaks),
        decreases data@.len() - i,
    {
        let b = data[i];
        if (0x21 <= b && b <= 0x7e) || b == 0x20 {
            out.push(b as char);
        } else if keep_line_breaks && (b == 0x0a || b == 0x0d) {
            out.push(b as char);
        } else {
            out.push('.');
        }
        i = i + 1;
    }
    out
}

/// The aligned 32-bit view of a chunk: when the chunk holds at least one
/// word and splits evenly into words, every word read little-endian and
/// signed, in order; otherwise nothing.
pub fn aligned_words_view(data: &[u8]) -> (r: Option<Vec<i32>>)
    ensures
        r is Some <==> data@.len() >= 4 && data@.len() % 4 == 0,
        r matches Some(words) ==> {
            &&& words@.len() == data@.len() / 4
            &&& forall|k: int|
                0 <= k < words@.len() ==> words@[k] == spec_word_at(data@, 4 * k) as i32
        },
{
    if data.len() < 4 || data.len() % 4 != 0 {
        return None;
    }
    let count = data.len() / 4;
    let mut words: Vec<i32> = Vec::new();
    let mut k: usize = 0;
    while k < count
        invariant
            0 <= k <= count,
            count == data@.len() / 4,
            data@.len() % 4 == 0,
            4 * count <= data@.len(),
            data@.len() <= usize::MAX,
            words@.len() == k,
            forall|j: int| 0 <= j < k ==> words@[j] == spec_word_at(data@, 4 * j) as i32,
        decreases count - k,
    {
        proof {
            assert(4 * k + 4 <= 4 * count) by (nonlinear_arith)
                requires
                    k < count,
            ;
        }
        let w = read_le32(data, 4 * k);
        words.push(w as i32);
        k = k + 1;
    }
    Some(words)
}

} // verus!
