//! The persistent state of the orchestrator and its byte encoding.
//!
//! Layout: each text is an 8-byte little-endian byte length followed by its
//! UTF-8 bytes; an optional text is a tag byte (0 absent, 1 present) followed,
//! when present, by the text. The state is its five fields in order, with
//! nothing after them.
use vstd::prelude::*;
use vstd::bytes::{spec_u64_from_le_bytes, spec_u64_to_le_bytes, lemma_auto_spec_u64_to_from_le_bytes, u64_from_le_bytes, u64_to_le_bytes};
use vstd::slice::slice_subrange;
use vstd::string::StringExecFns;
use vstd::utf8::{valid_utf8, decode_utf8, encode_utf8, encode_utf8_valid_utf8, encode_utf8_decode_utf8};

verus! {

/// The error given where a worker is needed and none is recorded.
pub open spec fn not_initialized_text() -> Seq<char> {
    "Chat state actor not initialized"@
}

/// Mathematical model of an [`OrchestratorState`].
pub ghost struct StateModel {
    pub self_id: Seq<char>,
    pub worker_id: Option<Seq<char>>,
    pub config: Seq<char>,
    pub current_directory: Option<Seq<char>>,
    pub task: Option<Seq<char>>,
}

/// What the orchestrator keeps between two calls of the host.
#[derive(Debug, PartialEq, Eq)]
pub struct OrchestratorState {
    /// The orchestrator's own actor id.
    pub self_id: String,
    /// The supervised worker, once it has been spawned.
    pub worker_id: Option<String>,
    /// The configuration document the worker was spawned with, as JSON text.
    pub config: String,
    /// Working directory of the task profile.
    pub current_directory: Option<String>,
    /// Task name of the task profile.
    pub task: Option<String>,
}

pub open spec fn opt_view(o: Option<String>) -> Option<Seq<char>> {
    match o {
        Some(s) => Some(s@),
        None => None,
    }
}

impl View for OrchestratorState {
    type V = StateModel;

    open spec fn view(&self) -> StateModel {
        StateModel {
            self_id: self.self_id@,
            worker_id: opt_view(self.worker_id),
            config: self.config@,
            current_directory: opt_view(self.current_directory),
            task: opt_view(self.task),
        }
    }
}

/// The state after recording worker `w`: a recorded worker is never replaced.
pub open spec fn with_worker(m: StateModel, w: Seq<char>) -> StateModel {
    match m.worker_id {
        Some(_) => m,
        None => StateModel { worker_id: Some(w), ..m },
    }
}

/// Once a worker id is recorded, recording another leaves it as it was.
pub proof fn lemma_worker_set_once(m: StateModel, w: Seq<char>)
    requires
        m.worker_id is Some,
    ensures
        with_worker(m, w).worker_id == m.worker_id,
        with_worker(m, w) == m,
{
}

/// Why a byte blob is not an encoded state.
#[derive(Debug, Clone, Copy, PartialEq, Eq)]
pub enum StateDecodeError {
    /// The bytes end inside a field.
    Truncated,
    /// A presence tag is neither 0 nor 1.
    BadTag,
    /// A text field is not UTF-8.
    BadText,
    /// Bytes follow the last field.
    TrailingBytes,
}

impl StateDecodeError {
    pub fn message(&self) -> (r: String) {
        match self {
            StateDecodeError::Truncated => String::from_str("state bytes end inside a field"),
            StateDecodeError::BadTag => String::from_str("state bytes hold an unknown presence tag"),
            StateDecodeError::BadText => String::from_str("state bytes hold text that is not UTF-8"),
            StateDecodeError::TrailingBytes => String::from_str("state bytes continue after the last field"),
        }
    }
}

/// The encoding of a text: its UTF-8 length, then its UTF-8 bytes.
pub open spec fn text_bytes(s: Seq<char>) -> Seq<u8> {
    spec_u64_to_le_bytes(encode_utf8(s).len() as u64) + encode_utf8(s)
}

pub open spec fn opt_text_bytes(o: Option<Seq<char>>) -> Seq<u8> {
    match o {
        None => seq![0u8],
        Some(s) => seq![1u8] + text_bytes(s),
    }
}

/// The encoding of a state.
pub open spec fn state_bytes(m: StateModel) -> Seq<u8> {
    text_bytes(m.self_id) + opt_text_bytes(m.worker_id) + text_bytes(m.config)
        + opt_text_bytes(m.current_directory) + opt_text_bytes(m.task)
}

/// A state is encodable when each text's UTF-8 length fits in 64 bits.
pub open spec fn text_fits(s: Seq<char>) -> bool {
    encode_utf8(s).len() <= u64::MAX
}

pub open spec fn opt_text_fits(o: Option<Seq<char>>) -> bool {
    match o {
        None => true,
        Some(s) => text_fits(s),
    }
}

pub open spec fn state_fits(m: StateModel) -> bool {
    text_fits(m.self_id) && opt_text_fits(m.worker_id) && text_fits(m.config)
        && opt_text_fits(m.current_directory) && opt_text_fits(m.task)
}

/// Reads a text at `pos`: the text and the position after it.
pub open spec fn parse_text(b: Seq<u8>, pos: int) -> Option<(Seq<char>, int)> {
    if 0 <= pos && pos + 8 <= b.len() {
        let n = spec_u64_from_le_bytes(b.subrange(pos, pos + 8)) as int;
        let body = b.subrange(pos + 8, pos + 8 + n);
        if pos + 8 + n <= b.len() && valid_utf8(body) {
            Some((decode_utf8(body), pos + 8 + n))
        } else {
            None
        }
    } else {
        None
    }
}

pub open spec fn parse_opt_text(b: Seq<u8>, pos: int) -> Option<(Option<Seq<char>>, int)> {
    if 0 <= pos && pos < b.len() && b[pos] == 0 {
        Some((None, pos + 1))
    } else if 0 <= pos && pos < b.len() && b[pos] == 1 {
        match parse_text(b, pos + 1) {
            Some((s, p)) => Some((Some(s), p)),
            None => None,
        }
    } else {
        None
    }
}

/// The state that a byte blob encodes, if it encodes one.
pub open spec fn parse_state(b: Seq<u8>) -> Option<StateModel> {
    match parse_text(b, 0) {
        None => None,
        Some((self_id, p1)) => match parse_opt_text(b, p1) {
            None => None,
            Some((worker_id, p2)) => match parse_text(b, p2) {
                None => None,
                Some((config, p3)) => match parse_opt_text(b, p3) {
                    None => None,
                    Some((current_directory, p4)) => match parse_opt_text(b, p4) {
                        None => None,
                        Some((task, p5)) => if p5 == b.len() {
                            Some(StateModel { self_id, worker_id, config, current_directory, task })
                        } else {
                            None
                        },
                    },
                },
            },
        },
    }
}

proof fn lemma_parse_text(b: Seq<u8>, pos: int, s: Seq<char>)
    requires
        0 <= pos,
        text_fits(s),
        pos + text_bytes(s).len() <= b.len(),
        b.subrange(pos, pos + text_bytes(s).len()) == text_bytes(s),
    ensures
        parse_text(b, pos) == Some((s, pos + text_bytes(s).len())),
{
    lemma_auto_spec_u64_to_from_le_bytes();
    let e = encode_utf8(s);
    let n = e.len() as u64;
    assert(spec_u64_to_le_bytes(n).len() == 8);
    assert(b.subrange(pos, pos + 8) == b.subrange(pos, pos + text_bytes(s).len()).subrange(0, 8));
    assert(text_bytes(s).subrange(0, 8) == spec_u64_to_le_bytes(n));
    assert(spec_u64_from_le_bytes(b.subrange(pos, pos + 8)) == n);
    assert(b.subrange(pos + 8, pos + 8 + e.len()) == text_bytes(s).subrange(8, 8 + e.len() as int));
    assert(text_bytes(s).subrange(8, 8 + e.len() as int) == e);
    encode_utf8_valid_utf8(s);
    encode_utf8_decode_utf8(s);
}

proof fn lemma_parse_opt_text(b: Seq<u8>, pos: int, o: Option<Seq<char>>)
    requires
        0 <= pos,
        opt_text_fits(o),
        pos + opt_text_bytes(o).len() <= b.len(),
        b.subrange(pos, pos + opt_text_bytes(o).len()) == opt_text_bytes(o),
    ensures
        parse_opt_text(b, pos) == Some((o, pos + opt_text_bytes(o).len())),
{
    assert(b[pos] == opt_text_bytes(o)[0]);
    if let Some(s) = o {
        let t = text_bytes(s);
        assert(b.subrange(pos + 1, pos + 1 + t.len()) == opt_text_bytes(o).subrange(1, 1 + t.len() as int));
        assert(opt_text_bytes(o).subrange(1, 1 + t.len() as int) == t);
        lemma_parse_text(b, pos + 1, s);
    }
}

/// Decoding the encoding of a state gives that state back.
pub proof fn lemma_state_round_trip(m: StateModel)
    requires
        state_fits(m),
    ensures
        parse_state(state_bytes(m)) == Some(m),
{
    let b = state_bytes(m);
    let t1 = text_bytes(m.self_id);
    let t2 = opt_text_bytes(m.worker_id);
    let t3 = text_bytes(m.config);
    let t4 = opt_text_bytes(m.current_directory);
    let t5 = opt_text_bytes(m.task);
    let p1 = t1.len() as int;
    let p2 = p1 + t2.len();
    let p3 = p2 + t3.len();
    let p4 = p3 + t4.len();
    let p5 = p4 + t5.len();
    assert(b == t1 + t2 + t3 + t4 + t5);
    assert(b.subrange(0, p1) == t1);
    assert(b.subrange(p1, p2) == t2);
    assert(b.subrange(p2, p3) == t3);
    assert(b.subrange(p3, p4) == t4);
    assert(b.subrange(p4, p5) == t5);
    lemma_parse_text(b, 0, m.self_id);
    lemma_parse_opt_text(b, p1, m.worker_id);
    lemma_parse_text(b, p2, m.config);
    lemma_parse_opt_text(b, p3, m.current_directory);
    lemma_parse_opt_text(b, p4, m.task);
}

/// Relies on String::from_utf8: valid UTF-8 becomes the text it encodes,
/// anything else is refused.
#[verifier::external_body]
fn text_from_utf8(bytes: Vec<u8>) -> (r: Option<String>)
    ensures
        r is Some <==> valid_utf8(bytes@),
        r matches Some(s) ==> s@ == decode_utf8(bytes@),
{
    String::from_utf8(bytes).ok()
}

fn push_bytes(out: &mut Vec<u8>, b: &[u8])
    ensures
        final(out)@ == old(out)@ + b@,
{
    let mut i: usize = 0;
    while i < b.len()
        invariant
            i <= b@.len(),
            out@ == old(out)@ + b@.subrange(0, i as int),
        decreases b@.len() - i,
    {
        out.push(b[i]);
        i = i + 1;
        assert(b@.subrange(0, i as int) == b@.subrange(0, i - 1) + seq![b@[i - 1]]);
    }
    assert(b@.subrange(0, b@.len() as int) == b@);
}

fn push_text(out: &mut Vec<u8>, s: &str)
    ensures
        final(out)@ == old(out)@ + text_bytes(s@),
        text_fits(s@),
{
    let bytes = s.as_bytes();
    let n = bytes.len() as u64;
    let len_bytes = u64_to_le_bytes(n);
    push_bytes(out, len_bytes.as_slice());
    push_bytes(out, bytes);
    assert(old(out)@ + text_bytes(s@) == old(out)@ + len_bytes@ + bytes@);
}

fn push_opt_text(out: &mut Vec<u8>, o: &Option<String>)
    ensures
        final(out)@ == old(out)@ + opt_text_bytes(opt_view(*o)),
        opt_text_fits(opt_view(*o)),
{
    match o {
        None => {
            out.push(0u8);
            assert(old(out)@.push(0u8) == old(out)@ + seq![0u8]);
        },
        Some(s) => {
            out.push(1u8);
            push_text(out, s.as_str());
            assert(old(out)@ + opt_text_bytes(opt_view(*o)) == old(out)@ + seq![1u8] + text_bytes(s@));
        },
    }
}

fn read_text(b: &[u8], pos: usize) -> (r: Result<(String, usize), StateDecodeError>)
    ensures
        match r {
            Ok((s, p)) => parse_text(b@, pos as int) == Some((s@, p as int)),
            Err(_) => parse_text(b@, pos as int) is None,
        },
{
    if pos > b.len() || b.len() - pos < 8 {
        return Err(StateDecodeError::Truncated);
    }
    let n = u64_from_le_bytes(slice_subrange(b, pos, pos + 8));
    if n > (b.len() - pos - 8) as u64 {
        return Err(StateDecodeError::Truncated);
    }
    let start = pos + 8;
    let end = start + n as usize;
    let mut body: Vec<u8> = Vec::new();
    push_bytes(&mut body, slice_subrange(b, start, end));
    assert(body@ == b@.subrange(start as int, end as int));
    match text_from_utf8(body) {
        Some(s) => Ok((s, end)),
        None => Err(StateDecodeError::BadText),
    }
}

fn read_opt_text(b: &[u8], pos: usize) -> (r: Result<(Option<String>, usize), StateDecodeError>)
    ensures
        match r {
            Ok((o, p)) => parse_opt_text(b@, pos as int) == Some((opt_view(o), p as int)),
            Err(_) => parse_opt_text(b@, pos as int) is None,
        },
{
    if pos >= b.len() {
        return Err(StateDecodeError::Truncated);
    }
    if b[pos] == 0 {
        Ok((None, pos + 1))
    } else if b[pos] == 1 {
        match read_text(b, pos + 1) {
            Ok((s, p)) => Ok((Some(s), p)),
            Err(e) => Err(e),
        }
    } else {
        Err(StateDecodeError::BadTag)
    }
}

impl OrchestratorState {
    /// A state for a worker that is not spawned yet.
    pub fn new(self_id: String, config: String, current_directory: Option<String>, task: Option<String>) -> (r: Self)
        ensures
            r.self_id == self_id,
            r.worker_id is None,
            r.config == config,
            r.current_directory == current_directory,
            r.task == task,
    {
        OrchestratorState { self_id, worker_id: None, config, current_directory, task }
    }

    /// Records the spawned worker. A worker id is set once: where one is
    /// already recorded it stays.
    pub fn set_worker_id(&mut self, worker_id: String)
        ensures
            final(self)@ == with_worker(old(self)@, worker_id@),
    {
        if self.worker_id.is_none() {
            self.worker_id = Some(worker_id);
        }
    }

    /// The worker id, or the error that no worker is recorded.
    pub fn worker_id(&self) -> (r: Result<&String, String>)
        ensures
            match self.worker_id {
                Some(w) => r == Ok::<&String, String>(&w),
                None => r matches Err(e) && e@ == not_initialized_text(),
            },
    {
        match &self.worker_id {
            Some(w) => Ok(w),
            None => Err(String::from_str("Chat state actor not initialized")),
        }
    }

    /// The byte encoding of this state.
    pub fn encode(&self) -> (r: Vec<u8>)
        ensures
            r@ == state_bytes(self@),
            state_fits(self@),
    {
        let mut out: Vec<u8> = Vec::new();
        push_text(&mut out, self.self_id.as_str());
        push_opt_text(&mut out, &self.worker_id);
        push_text(&mut out, self.config.as_str());
        push_opt_text(&mut out, &self.current_directory);
        push_opt_text(&mut out, &self.task);
        assert(out@ == state_bytes(self@));
        out
    }

    /// The state that `bytes` encodes; an error where they encode none.
    pub fn decode(bytes: &[u8]) -> (r: Result<OrchestratorState, StateDecodeError>)
        ensures
            match r {
                Ok(s) => parse_state(bytes@) == Some(s@),
                Err(_) => parse_state(bytes@) is None,
            },
    {
        let (self_id, p1) = match read_text(bytes, 0) {
            Ok(x) => x,
            Err(e) => return Err(e),
        };
        let (worker_id, p2) = match read_opt_text(bytes, p1) {
            Ok(x) => x,
            Err(e) => return Err(e),
        };
        let (config, p3) = match read_text(bytes, p2) {
            Ok(x) => x,
            Err(e) => return Err(e),
        };
        let (current_directory, p4) = match read_opt_text(bytes, p3) {
            Ok(x) => x,
            Err(e) => return Err(e),
        };
        let (task, p5) = match read_opt_text(bytes, p4) {
            Ok(x) => x,
            Err(e) => return Err(e),
        };
        if p5 != bytes.len() {
            return Err(StateDecodeError::TrailingBytes);
        }
        Ok(OrchestratorState { self_id, worker_id, config, current_directory, task })
    }
}

/// Decoding what [`OrchestratorState::encode`] wrote gives the same state.
pub fn round_trip(s: &OrchestratorState) -> (r: Result<OrchestratorState, StateDecodeError>)
    ensures
        r matches Ok(t) && t@ == s@,
{
    let bytes = s.encode();
    proof {
        lemma_state_round_trip(s@);
    }
    OrchestratorState::decode(bytes.as_slice())
}

} // verus!
