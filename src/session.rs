//! The decisions of a device session: which characteristics to use, and
//! which subscribers receive a notification.

use vstd::prelude::*;
use vstd::string::*;

use crate::state::{decode, decoded, is_state_frame, Message, State};

verus! {

/// Part of the identifier of the characteristic the device notifies on.
pub const FE01: &'static str = "0000fe01";

/// Part of the identifier of the characteristic commands are written to.
pub const FE02: &'static str = "0000fe02";

/// Whether `pattern` occurs in `s` as a contiguous run.
pub open spec fn contains(s: Seq<char>, pattern: Seq<char>) -> bool {
    exists|k: int| 0 <= k && k + pattern.len() <= s.len() && #[trigger] s.subrange(k, k + pattern.len()) == pattern
}

/// Whether `pattern` occurs in `s` starting at offset `k`.
fn occurs_at(s: &str, pattern: &str, k: usize) -> (r: bool)
    requires
        k + pattern@.len() <= s@.len() <= usize::MAX,
    ensures
        r == (s@.subrange(k as int, k + pattern@.len()) == pattern@),
{
    let n: usize = pattern.unicode_len();
    let mut j: usize = 0;
    while j < n
        invariant
            n == pattern@.len(),
            k + n <= s@.len() <= usize::MAX,
            j <= n,
            s@.subrange(k as int, k + j) == pattern@.subrange(0, j as int),
        decreases n - j,
    {
        if s.get_char(k + j) != pattern.get_char(j) {
            assert(s@.subrange(k as int, k + n)[j as int] != pattern@[j as int]);
            return false;
        }
        j = j + 1;
        assert(s@.subrange(k as int, k + j) =~= pattern@.subrange(0, j as int));
    }
    assert(pattern@.subrange(0, n as int) =~= pattern@);
    true
}

/// Whether `pattern` occurs anywhere in `s`.
pub fn str_contains(s: &str, pattern: &str) -> (r: bool)
    ensures
        r == contains(s@, pattern@),
{
    let len: usize = s.unicode_len();
    let n: usize = pattern.unicode_len();
    if n > len {
        return false;
    }
    if n == 0 {
        assert(s@.subrange(0, 0 + pattern@.len() as int) =~= pattern@);
        return true;
    }
    let mut k: usize = 0;
    while k <= len - n
        invariant
            len == s@.len(),
            n == pattern@.len(),
            1 <= n <= len,
            forall|i: int| 0 <= i < k ==> #[trigger] s@.subrange(i, i + n) != pattern@,
        decreases len - n + 1 - k,
    {
        if occurs_at(s, pattern, k) {
            return true;
        }
        k = k + 1;
    }
    false
}

/// Whether entry `i` is the first identifier in `uuids` that contains `pattern`.
pub open spec fn is_first_match(uuids: Seq<String>, pattern: Seq<char>, i: int) -> bool {
    &&& 0 <= i < uuids.len()
    &&& contains(uuids[i]@, pattern)
    &&& forall|j: int| 0 <= j < i ==> !contains(#[trigger] uuids[j]@, pattern)
}

/// Whether some identifier in `uuids` contains `pattern`.
pub open spec fn has_match(uuids: Seq<String>, pattern: Seq<char>) -> bool {
    exists|j: int| 0 <= j < uuids.len() && contains(#[trigger] uuids[j]@, pattern)
}

/// The position of the first identifier that contains `pattern`, if any.
pub fn get_char(uuids: &Vec<String>, pattern: &str) -> (r: Option<usize>)
    ensures
        r.is_some() <==> has_match(uuids@, pattern@),
        r matches Some(i) ==> is_first_match(uuids@, pattern@, i as int),
{
    let mut i: usize = 0;
    while i < uuids.len()
        invariant
            i <= uuids@.len(),
            forall|j: int| 0 <= j < i ==> !contains(#[trigger] uuids@[j]@, pattern@),
        decreases uuids@.len() - i,
    {
        if str_contains(uuids[i].as_str(), pattern) {
            return Some(i);
        }
        i = i + 1;
    }
    None
}

/// A failure reported as text.
#[derive(Debug, PartialEq, Eq)]
pub struct MyError {
    pub details: String,
}

/// Why a session could not be set up.
#[derive(Debug, PartialEq, Eq)]
pub enum ConnectError {
    /// The transport failed to connect or to discover services.
    Transport(String),
    /// One of the two characteristics the session needs is missing.
    CharacteristicNotFound,
}

/// The positions, among the discovered characteristics' identifiers, of the
/// notification characteristic and of the command characteristic: in each
/// case the first identifier containing [`FE01`], resp. [`FE02`].
pub fn locate_characteristics(uuids: &Vec<String>) -> (r: Result<(usize, usize), ConnectError>)
    ensures
        r is Ok <==> has_match(uuids@, FE01@) && has_match(uuids@, FE02@),
        r matches Ok((n, w)) ==> is_first_match(uuids@, FE01@, n as int) && is_first_match(
            uuids@,
            FE02@,
            w as int,
        ),
        r matches Err(e) ==> e == ConnectError::CharacteristicNotFound,
{
    let notify = get_char(uuids, FE01);
    let write = get_char(uuids, FE02);
    match (notify, write) {
        (Some(n), Some(w)) => Ok((n, w)),
        _ => Err(ConnectError::CharacteristicNotFound),
    }
}

/// The sinks that receive decoded snapshots, in order of registration.
pub struct Subscribers<S> {
    sinks: Vec<S>,
}

impl<S> View for Subscribers<S> {
    type V = Seq<S>;

    closed spec fn view(&self) -> Seq<S> {
        self.sinks@
    }
}

/// One message per subscriber, each carrying `state`.
pub open spec fn is_broadcast(r: Seq<Message>, n: nat, state: State) -> bool {
    &&& r.len() == n
    &&& forall|i: int| 0 <= i < r.len() ==> #[trigger] r[i] == Message::State(state)
}

impl<S> Subscribers<S> {
    /// An empty list.
    pub fn new() -> (r: Subscribers<S>)
        ensures
            r@ == Seq::<S>::empty(),
    {
        Subscribers { sinks: Vec::new() }
    }

    /// Appends a sink.
    pub fn register(&mut self, sink: S)
        ensures
            final(self)@ == old(self)@.push(sink),
    {
        self.sinks.push(sink);
    }

    /// The number of registered sinks.
    pub fn len(&self) -> (r: usize)
        ensures
            r == self@.len(),
    {
        self.sinks.len()
    }

    /// The registered sinks, in order of registration.
    pub fn sinks(&self) -> (r: &Vec<S>)
        ensures
            r@ == self@,
    {
        &self.sinks
    }

    /// The messages to deliver for one snapshot: the `i`-th goes to the
    /// `i`-th sink, and all carry the same snapshot.
    pub fn fan_out(&self, state: State) -> (r: Vec<Message>)
        ensures
            is_broadcast(r@, self@.len(), state),
    {
        let mut out: Vec<Message> = Vec::new();
        let mut i: usize = 0;
        while i < self.sinks.len()
            invariant
                i <= self@.len(),
                is_broadcast(out@, i as nat, state),
            decreases self@.len() - i,
        {
            out.push(Message::State(state));
            i = i + 1;
        }
        out
    }

    /// Handles one inbound notification: a state frame is decoded and
    /// delivered to every sink; any other frame is dropped and nothing is
    /// delivered.
    pub fn on_notification(&self, data: &[u8]) -> (r: Vec<Message>)
        ensures
            is_state_frame(data@) ==> is_broadcast(r@, self@.len(), decoded(data@)),
            !is_state_frame(data@) ==> r@.len() == 0,
    {
        match decode(data) {
            Ok(state) => self.fan_out(state),
            Err(_) => Vec::new(),
        }
    }
}

} // verus!
