//! The exact lines the server writes to a client: greeting, proof-of-work
//! banner and prompt, and the closing lines for success and failure.

use vstd::prelude::*;
use crate::pow::PowVerdict;
use crate::text::{ascii_of, ascii_bytes, dec_digits, u32_decimal};

verus! {

/// Appends all of `src` to `dst`, in order.
pub fn append_bytes(dst: &mut Vec<u8>, src: &Vec<u8>)
    ensures
        final(dst)@ == old(dst)@ + src@,
{
    let mut i: usize = 0;
    while i < src.len()
        invariant
            i <= src@.len(),
            dst@ == old(dst)@ + src@.subrange(0, i as int),
        decreases src@.len() - i,
    {
        dst.push(src[i]);
        i = i + 1;
        proof {
            assert(dst@ =~= old(dst)@ + src@.subrange(0, i as int));
        }
    }
    proof {
        assert(dst@ =~= old(dst)@ + src@);
    }
}

/// The fixed banner that opens the proof-of-work phase.
pub open spec fn banner_text() -> Seq<char> {
    "= Proof of Work protection =\r\nTo launch this challenge, you need to solve a proof-of-work.\r\nMore details can be found on <https://fcsc.fr/pow>.\r\n"@
}

/// First fragment of the prompt line, before the prefix bytes.
pub open spec fn prompt_head_text() -> Seq<char> {
    "Please provide an ASCII printable string S such that SHA256("@
}

/// Middle fragment of the prompt line, between prefix and difficulty.
pub open spec fn prompt_mid_text() -> Seq<char> {
    " || S) starts with "@
}

/// Last fragment of the prompt line, after the difficulty.
pub open spec fn prompt_tail_text() -> Seq<char> {
    " bits equal to 0 (the string concatenation is denoted ||): "@
}

/// First fragment of the rejection line, before the measured bit count.
pub open spec fn reject_head_text() -> Seq<char> {
    "Wrong proof-of-work, hash starts with only "@
}

/// Last fragment of the rejection line, after the measured bit count.
pub open spec fn reject_tail_text() -> Seq<char> {
    " bits equal to 0.\r\n"@
}

/// The fixed line sent when the proof of work is accepted.
pub open spec fn success_text() -> Seq<char> {
    "Thank you for solving our proof-of-work, we hope you had a great time! Launching challenge...\r\n\r\n"@
}

/// Bytes of the proof-of-work banner.
pub open spec fn banner_bytes() -> Seq<u8> {
    ascii_of(banner_text())
}

/// Bytes of the prompt line for a given prefix and difficulty.
pub open spec fn prompt_bytes(prefix: Seq<u8>, difficulty: u32) -> Seq<u8> {
    ascii_of(prompt_head_text()) + prefix + ascii_of(prompt_mid_text()) + dec_digits(
        difficulty as nat,
    ) + ascii_of(prompt_tail_text())
}

/// Bytes of the rejection line for a measured leading-zero bit count.
pub open spec fn reject_bytes(measured: u32) -> Seq<u8> {
    ascii_of(reject_head_text()) + dec_digits(measured as nat) + ascii_of(reject_tail_text())
}

/// Bytes of the acceptance line.
pub open spec fn success_bytes() -> Seq<u8> {
    ascii_of(success_text())
}

/// Bytes of the greeting: the configured message of the day followed by CRLF.
pub open spec fn greeting_bytes(motd: Seq<u8>) -> Seq<u8> {
    motd + seq![13u8, 10u8]
}

/// Renders the proof-of-work banner.
pub fn render_banner() -> (r: Vec<u8>)
    ensures
        r@ == banner_bytes(),
{
    let s = "= Proof of Work protection =\r\nTo launch this challenge, you need to solve a proof-of-work.\r\nMore details can be found on <https://fcsc.fr/pow>.\r\n";
    proof {
        reveal_strlit(
            "= Proof of Work protection =\r\nTo launch this challenge, you need to solve a proof-of-work.\r\nMore details can be found on <https://fcsc.fr/pow>.\r\n",
        );
        assert(s.is_ascii());
    }
    ascii_bytes(s)
}

/// Renders the prompt line for a given prefix and difficulty.
pub fn render_prompt(prefix: &Vec<u8>, difficulty: u32) -> (r: Vec<u8>)
    ensures
        r@ == prompt_bytes(prefix@, difficulty),
{
    let head = "Please provide an ASCII printable string S such that SHA256(";
    let mid = " || S) starts with ";
    let tail = " bits equal to 0 (the string concatenation is denoted ||): ";
    proof {
        reveal_strlit("Please provide an ASCII printable string S such that SHA256(");
        reveal_strlit(" || S) starts with ");
        reveal_strlit(" bits equal to 0 (the string concatenation is denoted ||): ");
        assert(head.is_ascii());
        assert(mid.is_ascii());
        assert(tail.is_ascii());
    }
    let mut r = ascii_bytes(head);
    append_bytes(&mut r, prefix);
    let mut part = ascii_bytes(mid);
    append_bytes(&mut r, &part);
    part = u32_decimal(difficulty);
    append_bytes(&mut r, &part);
    part = ascii_bytes(tail);
    append_bytes(&mut r, &part);
    proof {
        assert(r@ =~= prompt_bytes(prefix@, difficulty));
    }
    r
}

/// Renders the rejection line carrying the measured bit count.
pub fn render_reject(measured: u32) -> (r: Vec<u8>)
    ensures
        r@ == reject_bytes(measured),
{
    let head = "Wrong proof-of-work, hash starts with only ";
    let tail = " bits equal to 0.\r\n";
    proof {
        reveal_strlit("Wrong proof-of-work, hash starts with only ");
        reveal_strlit(" bits equal to 0.\r\n");
        assert(head.is_ascii());
        assert(tail.is_ascii());
    }
    let mut r = ascii_bytes(head);
    let mut part = u32_decimal(measured);
    append_bytes(&mut r, &part);
    part = ascii_bytes(tail);
    append_bytes(&mut r, &part);
    proof {
        assert(r@ =~= reject_bytes(measured));
    }
    r
}

/// Renders the acceptance line.
pub fn render_success() -> (r: Vec<u8>)
    ensures
        r@ == success_bytes(),
{
    let s = "Thank you for solving our proof-of-work, we hope you had a great time! Launching challenge...\r\n\r\n";
    proof {
        reveal_strlit(
            "Thank you for solving our proof-of-work, we hope you had a great time! Launching challenge...\r\n\r\n",
        );
        assert(s.is_ascii());
    }
    ascii_bytes(s)
}

/// Renders the greeting for a configured message of the day.
pub fn render_greeting(motd: &Vec<u8>) -> (r: Vec<u8>)
    ensures
        r@ == greeting_bytes(motd@),
{
    let mut r: Vec<u8> = Vec::new();
    append_bytes(&mut r, motd);
    r.push(13);
    r.push(10);
    proof {
        assert(r@ =~= greeting_bytes(motd@));
    }
    r
}

/// What the server writes back after deciding a challenge attempt: the
/// fixed acceptance text, the rejection text carrying the measured count,
/// or nothing at all after a backdoor acceptance.
pub fn verdict_response(v: &PowVerdict) -> (r: Option<Vec<u8>>)
    ensures
        match v {
            PowVerdict::BackdoorAccepted => r is None,
            PowVerdict::Accepted(_) => r matches Some(line) && line@ == success_bytes(),
            PowVerdict::Rejected(m) => r matches Some(line) && line@ == reject_bytes(*m),
        },
{
    match v {
        PowVerdict::BackdoorAccepted => None,
        PowVerdict::Accepted(_) => Some(render_success()),
        PowVerdict::Rejected(m) => Some(render_reject(*m)),
    }
}

} // verus!
