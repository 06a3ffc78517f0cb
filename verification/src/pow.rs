//! The proof-of-work challenge: collecting a candidate from the wire,
//! counting leading zero bits of a hash, and the accept/reject verdict.

use vstd::prelude::*;
use vstd::std_specs::bits::u8_leading_zeros;
use crate::is_printable;
use crate::messages::append_bytes;
use rand::RngExt;
use sha2::Digest;

verus! {

broadcast use vstd::std_specs::bits::axiom_u8_leading_zeros;

/// Cap on the number of candidate bytes collected from a client.
pub const INPUT_CAP: usize = 256;

/// Number of consecutive zero bits at the front of `h`, reading each byte
/// most significant bit first: a zero byte contributes 8, the first nonzero
/// byte contributes its own leading zeros and stops the count.
pub open spec fn leading_zero_bits(h: Seq<u8>) -> nat
    decreases h.len(),
{
    if h.len() == 0 {
        0
    } else if h[0] == 0 {
        (8 + leading_zero_bits(h.drop_first())) as nat
    } else {
        u8_leading_zeros(h[0]) as nat
    }
}

/// Counts the leading zero bits of a byte string.
pub fn count_leading_zero_bits(h: &Vec<u8>) -> (r: u32)
    requires
        h@.len() <= 0x1000_0000,
    ensures
        r == leading_zero_bits(h@),
{
    let mut i: usize = 0;
    let mut acc: u32 = 0;
    proof {
        assert(h@.skip(0) =~= h@);
    }
    while i < h.len()
        invariant
            i <= h@.len(),
            h@.len() <= 0x1000_0000,
            acc == 8 * i,
            leading_zero_bits(h@) == acc + leading_zero_bits(h@.skip(i as int)),
        decreases h@.len() - i,
    {
        let b = h[i];
        proof {
            assert(h@.skip(i as int)[0] == h@[i as int]);
        }
        if b == 0 {
            proof {
                assert(h@.skip(i as int).drop_first() =~= h@.skip(i as int + 1));
            }
            acc = acc + 8;
            i = i + 1;
        } else {
            return acc + b.leading_zeros();
        }
    }
    proof {
        assert(h@.skip(h@.len() as int) =~= Seq::<u8>::empty());
    }
    acc
}

/// The 32-byte SHA-256 digest of `data`. The value is not written out
/// here: it names whatever the hash function returns for `data`.
pub uninterp spec fn sha256_of(data: Seq<u8>) -> Seq<u8>;

/// Relies on sha2's `Sha256` through `Digest::digest`: the digest is a
/// function of the input bytes alone, 32 bytes long.
#[verifier::external_body]
fn sha256_digest(data: &Vec<u8>) -> (r: Vec<u8>)
    ensures
        r@ == sha256_of(data@),
        r@.len() == 32,
{
    sha2::Sha256::digest(data.as_slice()).as_slice().to_vec()
}

/// True iff `b` is an ASCII digit or letter.
pub open spec fn is_alphanumeric_byte(b: u8) -> bool {
    (0x30 <= b && b <= 0x39) || (0x41 <= b && b <= 0x5a) || (0x61 <= b && b <= 0x7a)
}

/// Relies on rand's `Alphanumeric` distribution: every sample is one of
/// the 62 ASCII alphanumeric bytes. Nothing more is assumed of the draw.
#[verifier::external_body]
fn sample_alphanumeric(count: usize) -> (r: Vec<u8>)
    ensures
        r@.len() == count,
        forall|i: int| 0 <= i < r@.len() ==> is_alphanumeric_byte(#[trigger] r@[i]),
{
    rand::rng().sample_iter(rand::distr::Alphanumeric).take(count).collect()
}

/// Length of the random prefix embedded in the prompt.
pub const PREFIX_LEN: usize = 16;

/// Draws a fresh challenge prefix: 16 alphanumeric, hence printable,
/// ASCII bytes.
pub fn generate_prefix() -> (r: Vec<u8>)
    ensures
        r@.len() == PREFIX_LEN,
        forall|i: int| 0 <= i < r@.len() ==> is_alphanumeric_byte(#[trigger] r@[i]),
        forall|i: int| 0 <= i < r@.len() ==> is_printable(#[trigger] r@[i]),
{
    sample_alphanumeric(PREFIX_LEN)
}

/// What one byte-sized read event does to the candidate collection.
#[derive(Clone, Copy, Debug, PartialEq, Eq, Structural)]
pub enum InputStep {
    /// The peer closed its write side before finishing a line: reject.
    Disconnected,
    /// The peer sent a cancel byte (0x03): reject.
    Cancelled,
    /// A line terminator arrived: the candidate is complete.
    Finished,
    /// Collection goes on (the byte was stored or silently dropped).
    Progress,
}

/// The candidate bytes collected so far during the proof-of-work input
/// phase: only printable ASCII, never more than [`INPUT_CAP`] bytes.
pub struct PowInput {
    /// Printable bytes collected so far.
    pub buf: Vec<u8>,
}

impl View for PowInput {
    type V = Seq<u8>;

    open spec fn view(&self) -> Seq<u8> {
        self.buf@
    }
}

/// Removes trailing CR, LF and NUL bytes.
pub open spec fn trim_trailing(s: Seq<u8>) -> Seq<u8>
    decreases s.len(),
{
    if s.len() > 0 && (s.last() == 10 || s.last() == 13 || s.last() == 0) {
        trim_trailing(s.drop_last())
    } else {
        s
    }
}

impl PowInput {
    /// The collection invariant: bounded and all printable.
    pub open spec fn wf(&self) -> bool {
        &&& self@.len() <= INPUT_CAP
        &&& forall|i: int| 0 <= i < self@.len() ==> is_printable(#[trigger] self@[i])
    }

    /// An empty collection.
    pub fn new() -> (s: Self)
        ensures
            s@ == Seq::<u8>::empty(),
            s.wf(),
    {
        PowInput { buf: Vec::new() }
    }

    /// True once the cap is reached and collection must stop.
    pub fn is_full(&self) -> (b: bool)
        ensures
            b == (self@.len() >= INPUT_CAP),
    {
        self.buf.len() >= INPUT_CAP
    }

    /// Feeds the result of one single-byte read: `None` is end of stream.
    /// A cancel byte or a line terminator never enters the buffer; a
    /// non-printable byte is dropped without consuming capacity.
    pub fn on_byte(&mut self, r: Option<u8>) -> (s: InputStep)
        requires
            old(self).wf(),
            old(self)@.len() < INPUT_CAP,
        ensures
            final(self).wf(),
            match r {
                None => s == InputStep::Disconnected && final(self)@ == old(self)@,
                Some(b) => {
                    if b == 3 {
                        s == InputStep::Cancelled && final(self)@ == old(self)@
                    } else if b == 0 || b == 10 {
                        s == InputStep::Finished && final(self)@ == old(self)@
                    } else if is_printable(b) {
                        s == InputStep::Progress && final(self)@ == old(self)@.push(b)
                    } else {
                        s == InputStep::Progress && final(self)@ == old(self)@
                    }
                },
            },
    {
        match r {
            None => InputStep::Disconnected,
            Some(b) => {
                if b == 3 {
                    InputStep::Cancelled
                } else if b == 0 || b == 10 {
                    InputStep::Finished
                } else if 0x20 <= b && b < 0x7f {
                    self.buf.push(b);
                    InputStep::Progress
                } else {
                    InputStep::Progress
                }
            },
        }
    }

    /// The collected candidate with trailing CR, LF and NUL removed.
    pub fn candidate(&self) -> (r: Vec<u8>)
        ensures
            r@ == trim_trailing(self@),
    {
        let mut n: usize = self.buf.len();
        proof {
            assert(self@.subrange(0, n as int) =~= self@);
        }
        while n > 0 && (self.buf[n - 1] == 10 || self.buf[n - 1] == 13 || self.buf[n - 1] == 0)
            invariant
                n <= self@.len(),
                trim_trailing(self@) == trim_trailing(self@.subrange(0, n as int)),
            decreases n,
        {
            proof {
                assert(self@.subrange(0, n as int).drop_last() =~= self@.subrange(0, n as int - 1));
            }
            n = n - 1;
        }
        proof {
            assert(trim_trailing(self@.subrange(0, n as int)) == self@.subrange(0, n as int));
        }
        let mut r: Vec<u8> = Vec::new();
        let mut i: usize = 0;
        while i < n
            invariant
                i <= n <= self@.len(),
                r@ == self@.subrange(0, i as int),
            decreases n - i,
        {
            r.push(self.buf[i]);
            proof {
                assert(self@.subrange(0, i as int).push(self@[i as int]) =~= self@.subrange(
                    0,
                    i as int + 1,
                ));
            }
            i = i + 1;
        }
        r
    }
}

/// Byte-for-byte equality of two byte strings.
pub fn bytes_equal(a: &Vec<u8>, b: &Vec<u8>) -> (r: bool)
    ensures
        r == (a@ == b@),
{
    if a.len() != b.len() {
        return false;
    }
    let mut i: usize = 0;
    while i < a.len()
        invariant
            i <= a@.len(),
            a@.len() == b@.len(),
            forall|j: int| 0 <= j < i ==> a@[j] == b@[j],
        decreases a@.len() - i,
    {
        if a[i] != b[i] {
            return false;
        }
        i = i + 1;
    }
    proof {
        assert(a@ =~= b@);
    }
    true
}

/// The leading-zero count of a byte string never exceeds its bit length.
pub proof fn lemma_leading_zero_bits_bound(h: Seq<u8>)
    ensures
        leading_zero_bits(h) <= 8 * h.len(),
    decreases h.len(),
{
    if h.len() > 0 {
        lemma_leading_zero_bits_bound(h.drop_first());
    }
}

/// True iff a backdoor is configured and the candidate equals it exactly.
pub open spec fn backdoor_matches(candidate: Seq<u8>, backdoor: Option<Seq<u8>>) -> bool {
    backdoor is Some && backdoor.unwrap() == candidate
}

/// The leading-zero bit count of SHA-256(prefix ‖ candidate).
pub open spec fn measured_bits(prefix: Seq<u8>, candidate: Seq<u8>) -> nat {
    leading_zero_bits(sha256_of(prefix + candidate))
}

/// The outcome of one proof-of-work attempt.
#[derive(Clone, Copy, Debug, PartialEq, Eq, Structural)]
pub enum PowVerdict {
    /// The candidate equalled the configured backdoor: accepted with no
    /// hashing and no closing message.
    BackdoorAccepted,
    /// The hash had at least the required leading zero bits; carries the
    /// measured count.
    Accepted(u32),
    /// The hash fell short; carries the measured count reported back to
    /// the client.
    Rejected(u32),
}

/// The verdict the challenge owes for given prefix, candidate, difficulty
/// and optional backdoor.
pub open spec fn verdict_of(
    prefix: Seq<u8>,
    candidate: Seq<u8>,
    difficulty: u32,
    backdoor: Option<Seq<u8>>,
) -> PowVerdict {
    if backdoor_matches(candidate, backdoor) {
        PowVerdict::BackdoorAccepted
    } else if measured_bits(prefix, candidate) >= difficulty {
        PowVerdict::Accepted(measured_bits(prefix, candidate) as u32)
    } else {
        PowVerdict::Rejected(measured_bits(prefix, candidate) as u32)
    }
}

/// Decides one proof-of-work attempt: backdoor equality first, then the
/// leading-zero count of SHA-256(prefix ‖ candidate) against `difficulty`.
pub fn pow_verdict(
    prefix: &Vec<u8>,
    candidate: &Vec<u8>,
    difficulty: u32,
    backdoor: &Option<Vec<u8>>,
) -> (v: PowVerdict)
    ensures
        v == verdict_of(
            prefix@,
            candidate@,
            difficulty,
            match backdoor {
                Some(b) => Some(b@),
                None => None,
            },
        ),
{
    if let Some(b) = backdoor {
        if bytes_equal(candidate, b) {
            return PowVerdict::BackdoorAccepted;
        }
    }
    let mut joined: Vec<u8> = Vec::new();
    append_bytes(&mut joined, prefix);
    append_bytes(&mut joined, candidate);
    let hash = sha256_digest(&joined);
    let measured = count_leading_zero_bits(&hash);
    proof {
        lemma_leading_zero_bits_bound(hash@);
    }
    if measured >= difficulty {
        PowVerdict::Accepted(measured)
    } else {
        PowVerdict::Rejected(measured)
    }
}

/// Whether a verdict lets the connection proceed to the relay.
pub fn verdict_accepted(v: &PowVerdict) -> (r: bool)
    ensures
        r == (v is BackdoorAccepted || v is Accepted),
{
    match v {
        PowVerdict::BackdoorAccepted => true,
        PowVerdict::Accepted(_) => true,
        PowVerdict::Rejected(_) => false,
    }
}

/// Unless the candidate equals a configured backdoor, the challenge
/// accepts exactly when the hash of prefix and candidate has at least
/// `difficulty` leading zero bits.
pub proof fn lemma_accept_iff_enough_bits(
    prefix: Seq<u8>,
    candidate: Seq<u8>,
    difficulty: u32,
    backdoor: Option<Seq<u8>>,
)
    requires
        !backdoor_matches(candidate, backdoor),
    ensures
        verdict_of(prefix, candidate, difficulty, backdoor) is Accepted <==> measured_bits(
            prefix,
            candidate,
        ) >= difficulty,
        verdict_of(prefix, candidate, difficulty, backdoor) is Rejected <==> measured_bits(
            prefix,
            candidate,
        ) < difficulty,
        !(verdict_of(prefix, candidate, difficulty, backdoor) is BackdoorAccepted),
{
}

/// The verdict is a function of prefix, candidate, difficulty and
/// backdoor alone: equal inputs give equal verdicts.
pub proof fn lemma_verdict_deterministic(
    prefix: Seq<u8>,
    candidate: Seq<u8>,
    difficulty: u32,
    backdoor: Option<Seq<u8>>,
    v1: PowVerdict,
    v2: PowVerdict,
)
    requires
        v1 == verdict_of(prefix, candidate, difficulty, backdoor),
        v2 == verdict_of(prefix, candidate, difficulty, backdoor),
    ensures
        v1 == v2,
{
}

/// A candidate equal to the configured backdoor is accepted whatever the
/// hash measures, for any nonzero difficulty.
pub proof fn lemma_backdoor_always_accepts(prefix: Seq<u8>, candidate: Seq<u8>, difficulty: u32)
    requires
        difficulty > 0,
    ensures
        verdict_of(prefix, candidate, difficulty, Some(candidate)) == PowVerdict::BackdoorAccepted,
{
}

} // verus!
