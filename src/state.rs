//! Decoding of the device's state notifications.

use vstd::prelude::*;
use vstd::arithmetic::div_mod::{lemma_div_denominator, lemma_fundamental_div_mod};

verus! {

/// Motion of the belt as reported by the device.
#[derive(Debug, Clone, Copy, PartialEq, Eq, Structural)]
pub enum BeltState {
    Undefined,
    Static,
    Moving,
}

/// The belt state a wire byte stands for; bytes other than 0 and 1 are `Undefined`.
pub open spec fn belt_state_of(i: u8) -> BeltState {
    if i == 0 {
        BeltState::Static
    } else if i == 1 {
        BeltState::Moving
    } else {
        BeltState::Undefined
    }
}

impl From<u8> for BeltState {
    fn from(i: u8) -> Self {
        match i {
            0 => BeltState::Static,
            1 => BeltState::Moving,
            _ => BeltState::Undefined,
        }
    }
}

impl vstd::std_specs::convert::FromSpecImpl<u8> for BeltState {
    open spec fn obeys_from_spec() -> bool {
        true
    }

    open spec fn from_spec(i: u8) -> BeltState {
        belt_state_of(i)
    }
}

/// Operating mode of the device.
#[derive(Debug, Clone, Copy, PartialEq, Eq, Structural)]
pub enum Mode {
    Undefined,
    Standby,
    Manual,
    Automat,
}

/// The mode a wire byte stands for; bytes above 2 are `Undefined`.
pub open spec fn mode_of(i: u8) -> Mode {
    if i == 0 {
        Mode::Automat
    } else if i == 1 {
        Mode::Manual
    } else if i == 2 {
        Mode::Standby
    } else {
        Mode::Undefined
    }
}

/// The byte a mode is sent as.
pub open spec fn mode_code(m: Mode) -> u8 {
    match m {
        Mode::Automat => 0,
        Mode::Manual => 1,
        Mode::Standby => 2,
        Mode::Undefined => 3,
    }
}

impl Mode {
    /// The byte this mode is sent as.
    pub fn code(&self) -> (r: u8)
        ensures
            r == mode_code(*self),
    {
        match self {
            Mode::Automat => 0,
            Mode::Manual => 1,
            Mode::Standby => 2,
            Mode::Undefined => 3,
        }
    }
}

impl From<u8> for Mode {
    fn from(i: u8) -> Self {
        match i {
            0 => Mode::Automat,
            1 => Mode::Manual,
            2 => Mode::Standby,
            _ => Mode::Undefined,
        }
    }
}

impl vstd::std_specs::convert::FromSpecImpl<u8> for Mode {
    open spec fn obeys_from_spec() -> bool {
        true
    }

    open spec fn from_spec(i: u8) -> Mode {
        mode_of(i)
    }
}

/// Length of a state notification: the two magic bytes and thirteen bytes of payload.
pub const STATE_FRAME_LEN: usize = 15;

/// First magic byte of a state notification.
pub const STATE_MAGIC_0: u8 = 248;

/// Second magic byte of a state notification.
pub const STATE_MAGIC_1: u8 = 162;

/// Big-endian value of a byte sequence: the first byte is the most significant.
pub open spec fn be_value(s: Seq<u8>) -> nat
    decreases s.len(),
{
    if s.len() == 0 {
        0
    } else {
        be_value(s.drop_last()) * 256 + s.last() as nat
    }
}

/// `256` to the power `n`.
pub open spec fn pow256(n: nat) -> nat
    decreases n,
{
    if n == 0 {
        1
    } else {
        256 * pow256((n - 1) as nat)
    }
}

/// A big-endian value of `n` bytes is below `256^n`.
pub proof fn lemma_be_value_bound(s: Seq<u8>)
    ensures
        be_value(s) < pow256(s.len()),
    decreases s.len(),
{
    if s.len() > 0 {
        let p = s.drop_last();
        lemma_be_value_bound(p);
        let v = be_value(p);
        let b = pow256(p.len());
        let l = s.last() as nat;
        assert(v * 256 + l < 256 * b) by (nonlinear_arith)
            requires
                v < b,
                l < 256,
        ;
    }
}

/// Whether `data` is a state notification: long enough, and opening with the magic pair.
pub open spec fn is_state_frame(data: Seq<u8>) -> bool {
    &&& data.len() >= STATE_FRAME_LEN
    &&& data[0] == STATE_MAGIC_0
    &&& data[1] == STATE_MAGIC_1
}

/// A decoded snapshot of the device.
#[derive(Debug, Clone, Copy, PartialEq, Eq, Structural)]
pub struct State {
    pub belt_state: BeltState,
    pub speed: usize,
    pub mode: Mode,
    pub time: usize,
    pub distance: usize,
    pub steps: usize,
    pub last_speed: usize,
}

/// The snapshot a state notification stands for.
pub open spec fn decoded(data: Seq<u8>) -> State
    recommends
        is_state_frame(data),
{
    State {
        belt_state: belt_state_of(data[2]),
        speed: data[3] as usize,
        mode: mode_of(data[4]),
        time: be_value(data.subrange(5, 8)) as usize,
        distance: be_value(data.subrange(8, 11)) as usize,
        steps: be_value(data.subrange(11, 14)) as usize,
        last_speed: data[14] as usize,
    }
}

/// Why an inbound frame yields no snapshot.
#[derive(Debug, Clone, Copy, PartialEq, Eq, Structural)]
pub enum DecodeError {
    NotAStateFrame,
}

/// Decodes a state notification. Fails only when the frame is too short or
/// lacks the magic pair; unknown belt-state and mode bytes decode to `Undefined`.
pub fn decode(data: &[u8]) -> (r: Result<State, DecodeError>)
    ensures
        is_state_frame(data@) ==> r == Ok::<State, DecodeError>(decoded(data@)),
        !is_state_frame(data@) ==> r == Err::<State, DecodeError>(DecodeError::NotAStateFrame),
{
    if data.len() >= STATE_FRAME_LEN && data[0] == STATE_MAGIC_0 && data[1] == STATE_MAGIC_1 {
        let belt_state = BeltState::from(data[2]);
        let speed = data[3] as usize;
        let mode = Mode::from(data[4]);
        let time = State::convert(vstd::slice::slice_subrange(data, 5, 8));
        let distance = State::convert(vstd::slice::slice_subrange(data, 8, 11));
        let steps = State::convert(vstd::slice::slice_subrange(data, 11, 14));
        let last_speed = data[14] as usize;
        Ok(State { belt_state, speed, mode, time, distance, steps, last_speed })
    } else {
        Err(DecodeError::NotAStateFrame)
    }
}

impl State {
    /// Big-endian value of up to three bytes.
    pub fn convert(data: &[u8]) -> (r: usize)
        requires
            data@.len() <= 3,
        ensures
            r as nat == be_value(data@),
    {
        let mut value: usize = 0;
        let mut i: usize = 0;
        while i < data.len()
            invariant
                i <= data@.len() <= 3,
                value as nat == be_value(data@.subrange(0, i as int)),
            decreases data@.len() - i,
        {
            proof {
                let s = data@.subrange(0, i as int);
                assert(data@.subrange(0, i + 1).drop_last() =~= s);
                lemma_be_value_bound(s);
                assert(pow256(s.len()) <= 65536) by {
                    reveal_with_fuel(pow256, 3);
                }
                assert(value * 256 + data@[i as int] <= 16777215);
            }
            value = value * 256 + data[i] as usize;
            i = i + 1;
        }
        assert(data@.subrange(0, data@.len() as int) =~= data@);
        value
    }

    /// Whether `data` is a state notification (see [`decode`]).
    pub fn check_data(data: &Vec<u8>) -> (r: bool)
        ensures
            r == is_state_frame(data@),
    {
        if data.len() < STATE_FRAME_LEN {
            false
        } else if data[0] == STATE_MAGIC_0 && data[1] == STATE_MAGIC_1 {
            true
        } else {
            false
        }
    }

    /// The snapshot carried by a state notification, or `None` for any other frame.
    pub fn new(data: Vec<u8>) -> (r: Option<State>)
        ensures
            is_state_frame(data@) ==> r == Some(decoded(data@)),
            !is_state_frame(data@) ==> r.is_none(),
    {
        if State::check_data(&data) {
            match decode(data.as_slice()) {
                Ok(s) => Some(s),
                Err(_) => None,
            }
        } else {
            None
        }
    }
}

/// The three big-endian bytes of a value below `2^24`.
pub open spec fn be3(n: nat) -> Seq<u8> {
    seq![(n / 65536) as u8, ((n / 256) % 256) as u8, (n % 256) as u8]
}

/// A state notification as the device lays it out: the magic pair, then
/// belt state, speed, mode, three-byte time, distance and step count, and
/// the last speed.
pub open spec fn state_frame(
    belt: u8,
    speed: u8,
    mode: u8,
    time: nat,
    distance: nat,
    steps: nat,
    last_speed: u8,
) -> Seq<u8> {
    seq![STATE_MAGIC_0, STATE_MAGIC_1, belt, speed, mode] + be3(time) + be3(distance) + be3(
        steps,
    ) + seq![last_speed]
}

/// Three big-endian bytes read back the value they were written from.
pub proof fn lemma_be3(n: nat)
    requires
        n < 16777216,
    ensures
        be_value(be3(n)) == n,
{
    let s = be3(n);
    let a = n / 65536;
    let b = (n / 256) % 256;
    let c = n % 256;
    lemma_fundamental_div_mod(n as int, 256);
    lemma_fundamental_div_mod(n as int / 256, 256);
    lemma_div_denominator(n as int, 256, 256);
    assert(a < 256);
    assert(s.drop_last().drop_last() =~= seq![a as u8]);
    assert(s.drop_last() =~= seq![a as u8, b as u8]);
    assert(seq![a as u8].drop_last() =~= Seq::<u8>::empty());
    reveal_with_fuel(be_value, 4);
    assert(be_value(s) == (a * 256 + b) * 256 + c);
}

/// Decoding a notification laid out from given fields gives those fields
/// back, with the belt-state and mode bytes read as their enumerants.
pub proof fn lemma_decode_round_trip(
    belt: u8,
    speed: u8,
    mode: u8,
    time: nat,
    distance: nat,
    steps: nat,
    last_speed: u8,
)
    requires
        time < 16777216,
        distance < 16777216,
        steps < 16777216,
    ensures
        is_state_frame(state_frame(belt, speed, mode, time, distance, steps, last_speed)),
        decoded(state_frame(belt, speed, mode, time, distance, steps, last_speed)) == (State {
            belt_state: belt_state_of(belt),
            speed: speed as usize,
            mode: mode_of(mode),
            time: time as usize,
            distance: distance as usize,
            steps: steps as usize,
            last_speed: last_speed as usize,
        }),
{
    let f = state_frame(belt, speed, mode, time, distance, steps, last_speed);
    assert(f.subrange(5, 8) =~= be3(time));
    assert(f.subrange(8, 11) =~= be3(distance));
    assert(f.subrange(11, 14) =~= be3(steps));
    lemma_be3(time);
    lemma_be3(distance);
    lemma_be3(steps);
}

/// What a subscriber receives.
#[derive(Debug, Clone, Copy, PartialEq, Eq, Structural)]
pub enum Message {
    State(State),
}

} // verus!
