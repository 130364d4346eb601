//! Outbound command frames: `0xF7`, a class byte, a payload, a checksum and
//! the trailer `0xFD`.

use vstd::prelude::*;
use vstd::arithmetic::div_mod::lemma_add_mod_noop;

use crate::state::{mode_code, Mode};

verus! {

/// First byte of every outbound frame.
pub const HEADER: u8 = 247;

/// Last byte of every outbound frame.
pub const TRAILER: u8 = 253;

/// Sum of a byte sequence as an unbounded integer.
pub open spec fn byte_sum(s: Seq<u8>) -> nat
    decreases s.len(),
{
    if s.len() == 0 {
        0
    } else {
        byte_sum(s.drop_last()) + s.last() as nat
    }
}

/// The bytes a frame's checksum covers: from offset 1 up to, and not
/// including, the checksum byte and the trailer.
pub open spec fn checksum_region(frame: Seq<u8>) -> Seq<u8> {
    frame.subrange(1, frame.len() - 2)
}

/// The checksum a frame must carry: the sum of its checksum region, modulo 256.
pub open spec fn checksum_of(frame: Seq<u8>) -> u8 {
    (byte_sum(checksum_region(frame)) % 256) as u8
}

/// Computes the checksum of `cmd` over offsets `1 .. len - 2`; the bytes in
/// the checksum and trailer slots are ignored.
pub fn crc(cmd: &[u8]) -> (r: u8)
    requires
        cmd@.len() >= 3,
    ensures
        r == checksum_of(cmd@),
{
    let end: usize = cmd.len() - 2;
    let mut acc: u8 = 0;
    let mut i: usize = 1;
    while i < end
        invariant
            1 <= i <= end,
            end == cmd@.len() - 2,
            acc as nat == byte_sum(cmd@.subrange(1, i as int)) % 256,
        decreases end - i,
    {
        proof {
            assert(cmd@.subrange(1, i + 1).drop_last() =~= cmd@.subrange(1, i as int));
            lemma_add_mod_noop(byte_sum(cmd@.subrange(1, i as int)) as int, cmd@[i as int] as int, 256);
        }
        acc = ((acc as u16 + cmd[i] as u16) % 256) as u8;
        i = i + 1;
    }
    acc
}

/// Fills the checksum slot of a frame template: every byte but the
/// second-to-last is kept, and that one becomes the checksum.
pub fn seal(msg: &[u8]) -> (r: Vec<u8>)
    requires
        msg@.len() >= 3,
    ensures
        r@ == msg@.update(msg@.len() - 2, checksum_of(msg@)),
{
    let n: usize = msg.len();
    let sum = crc(msg);
    let mut out: Vec<u8> = Vec::new();
    let mut i: usize = 0;
    while i < n - 2
        invariant
            n == msg@.len(),
            i <= n - 2,
            out@ == msg@.subrange(0, i as int),
        decreases n - 2 - i,
    {
        out.push(msg[i]);
        i = i + 1;
        assert(out@ =~= msg@.subrange(0, i as int));
    }
    out.push(sum);
    out.push(msg[n - 1]);
    assert(out@ =~= msg@.update(msg@.len() - 2, checksum_of(msg@)));
    out
}

/// Whether `frame` is a well-formed outbound frame: header, trailer and a
/// checksum slot that matches its checksum region.
pub open spec fn is_valid_frame(frame: Seq<u8>) -> bool {
    &&& frame.len() >= 3
    &&& frame[0] == HEADER
    &&& frame[frame.len() - 1] == TRAILER
    &&& frame[frame.len() - 2] == checksum_of(frame)
}

/// Checks an outbound frame's header, trailer and checksum.
pub fn validate_frame(frame: &[u8]) -> (r: bool)
    ensures
        r == is_valid_frame(frame@),
{
    let n: usize = frame.len();
    if n < 3 {
        return false;
    }
    frame[0] == HEADER && frame[n - 1] == TRAILER && frame[n - 2] == crc(frame)
}

/// A command for the device.
#[derive(Debug, Clone, Copy, PartialEq, Eq, Structural)]
pub enum Command {
    /// Brings the belt to a halt; sent as a speed of zero.
    Stop,
    Start,
    SetSpeed(u8),
    SetMode(Mode),
    RequestStats,
    RequestProfile,
}

/// The belt speeds a caller can name.
#[derive(Debug, Clone, Copy, PartialEq, Eq, Structural)]
pub enum Speed {
    Zero,
    One,
    Two,
    Three,
    Four,
    Five,
    Six,
}

/// The byte a named speed is sent as.
pub open spec fn speed_value(s: Speed) -> u8 {
    match s {
        Speed::Zero => 0,
        Speed::One => 1,
        Speed::Two => 2,
        Speed::Three => 3,
        Speed::Four => 4,
        Speed::Five => 5,
        Speed::Six => 6,
    }
}

impl Speed {
    /// The byte this speed is sent as.
    pub fn value(&self) -> (r: u8)
        ensures
            r == speed_value(*self),
    {
        match self {
            Speed::Zero => 0,
            Speed::One => 1,
            Speed::Two => 2,
            Speed::Three => 3,
            Speed::Four => 4,
            Speed::Five => 5,
            Speed::Six => 6,
        }
    }
}

/// The class byte and payload of a command: the part of its frame between
/// the header and the checksum, which is also what the checksum covers.
pub open spec fn command_body(cmd: Command) -> Seq<u8> {
    match cmd {
        Command::Stop => seq![162u8, 1, 0],
        Command::Start => seq![162u8, 4, 1],
        Command::SetSpeed(speed) => seq![162u8, 1, speed],
        Command::SetMode(m) => seq![162u8, 2, mode_code(m)],
        Command::RequestStats => seq![162u8, 0, 0],
        Command::RequestProfile => seq![165u8, 96, 74, 77, 147, 113, 41],
    }
}

/// The complete frame around a body: header, body, checksum of the body, trailer.
pub open spec fn frame_of(body: Seq<u8>) -> Seq<u8> {
    seq![HEADER] + body + seq![(byte_sum(body) % 256) as u8, TRAILER]
}

/// The frame template of a command as the device documents it, with a
/// placeholder in the checksum slot.
fn template(cmd: Command) -> (r: Vec<u8>)
    ensures
        r@.len() >= 3,
        checksum_region(r@) == command_body(cmd),
        r@ == seq![HEADER] + command_body(cmd) + seq![r@[r@.len() - 2], TRAILER],
{
    let r = match cmd {
        Command::Stop => vec![247u8, 162, 1, 0, 255, 253],
        Command::Start => vec![247u8, 162, 4, 1, 255, 253],
        Command::SetSpeed(speed) => vec![247u8, 162, 1, speed, 255, 253],
        Command::SetMode(m) => vec![247u8, 162, 2, m.code(), 255, 253],
        Command::RequestStats => vec![247u8, 162, 0, 0, 162, 253],
        Command::RequestProfile => vec![247u8, 165, 96, 74, 77, 147, 113, 41, 201, 253],
    };
    assert(checksum_region(r@) =~= command_body(cmd));
    assert(r@ =~= seq![HEADER] + command_body(cmd) + seq![r@[r@.len() - 2], TRAILER]);
    r
}

/// Encodes a command as the exact bytes written to the device.
pub fn encode(cmd: Command) -> (r: Vec<u8>)
    ensures
        r@ == frame_of(command_body(cmd)),
{
    let t = template(cmd);
    let r = seal(t.as_slice());
    assert(r@ =~= frame_of(command_body(cmd)));
    r
}

/// The checksum slot of any frame built around a body holds the sum of the
/// bytes it covers modulo 256, and what it covers is exactly that body; so
/// every encoded command passes [`validate_frame`].
pub proof fn lemma_frame_checksum(body: Seq<u8>)
    ensures
        checksum_region(frame_of(body)) == body,
        frame_of(body)[frame_of(body).len() - 2] == (byte_sum(body) % 256) as u8,
        is_valid_frame(frame_of(body)),
{
    assert(checksum_region(frame_of(body)) =~= body);
}

} // verus!
