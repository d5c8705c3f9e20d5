//! Jobs as the server sends them: one line `seed,digest-hex,difficulty`.

use vstd::prelude::*;
use vstd::utf8::{encode_utf8, valid_utf8};
use crate::search::MAX_DIFFICULTY;
use crate::text::{decimal_value, is_u64_decimal, parse_u64};

verus! {

/// Relies on `String::from_utf8`: the text whose UTF-8 encoding is `bytes`,
/// present exactly when `bytes` is valid UTF-8.
#[verifier::external_body]
fn utf8_text(bytes: Vec<u8>) -> (r: Option<String>)
    ensures
        r is Some <==> valid_utf8(bytes@),
        r matches Some(s) ==> encode_utf8(s@) == bytes@,
{
    String::from_utf8(bytes).ok()
}

#[verifier::external_type_specification]
#[verifier::external_body]
pub struct ExFromHexError(hex::FromHexError);

/// The value of a hexadecimal digit, either case.
pub open spec fn hex_digit_value(b: u8) -> Option<nat> {
    if 48 <= b <= 57 {
        Some((b - 48) as nat)
    } else if 97 <= b <= 102 {
        Some((b - 87) as nat)
    } else if 65 <= b <= 70 {
        Some((b - 55) as nat)
    } else {
        None
    }
}

/// An even number of hexadecimal digits.
pub open spec fn is_hex_text(s: Seq<u8>) -> bool {
    &&& s.len() % 2 == 0
    &&& forall|i: int| 0 <= i < s.len() ==> #[trigger] hex_digit_value(s[i]) is Some
}

/// The bytes that hexadecimal text spells, two digits each, high digit first.
pub open spec fn hex_decoded(s: Seq<u8>) -> Seq<u8> {
    Seq::new(
        s.len() / 2,
        |i: int|
            (hex_digit_value(s[2 * i])->0 * 16 + hex_digit_value(s[2 * i + 1])->0) as u8,
    )
}

/// Relies on `hex::decode`: it fails on an odd length or on a byte that is
/// no hexadecimal digit, and otherwise turns each pair of digits into a byte.
#[verifier::external_body]
fn decode_hex(text: &[u8]) -> (r: Result<Vec<u8>, hex::FromHexError>)
    ensures
        r is Ok <==> is_hex_text(text@),
        r matches Ok(v) ==> v@ == hex_decoded(text@),
{
    hex::decode(text)
}

/// A job: hash the seed followed by a nonce until the digest matches.
#[derive(Debug)]
pub struct Job {
    pub seed_hash: String,
    pub expected_digest: [u8; 20],
    pub difficulty: u64,
}

/// Why a job line was refused.
#[derive(Clone, Copy, Debug, PartialEq, Eq, Structural)]
pub enum JobError {
    /// The line does not hold exactly three comma-separated fields.
    FieldCount,
    /// The seed is not valid UTF-8.
    SeedNotText,
    /// The digest field is not an even run of hexadecimal digits.
    DigestNotHex,
    /// The digest does not decode to twenty bytes.
    DigestLength,
    /// The difficulty is not an unsigned decimal that fits in `u64`.
    DifficultyNotNumber,
    /// The difficulty's search space does not fit in `u64`.
    DifficultyTooLarge,
}

pub const COMMA: u8 = 44;
pub const NEWLINE: u8 = 10;

/// A line without its terminating newline, if it has one.
pub open spec fn strip_newline(s: Seq<u8>) -> Seq<u8> {
    if s.len() > 0 && s.last() == NEWLINE {
        s.drop_last()
    } else {
        s
    }
}

/// The index of the first comma of `s`, or its length when it has none.
pub open spec fn first_comma(s: Seq<u8>) -> nat
    decreases s.len(),
{
    if s.len() == 0 {
        0
    } else if s[0] == COMMA {
        0
    } else {
        1 + first_comma(s.drop_first())
    }
}

/// A first comma lies within the string, or just past its end.
pub proof fn lemma_first_comma_bound(s: Seq<u8>)
    ensures
        first_comma(s) <= s.len(),
    decreases s.len(),
{
    if s.len() > 0 && s[0] != COMMA {
        lemma_first_comma_bound(s.drop_first());
    }
}

/// The pieces of `s` between its commas: one more than it has commas.
pub open spec fn split_commas(s: Seq<u8>) -> Seq<Seq<u8>>
    decreases s.len(),
{
    let i = first_comma(s);
    if i >= s.len() {
        seq![s]
    } else {
        proof {
            lemma_first_comma_bound(s);
        }
        seq![s.subrange(0, i as int)] + split_commas(s.subrange(i + 1 as int, s.len() as int))
    }
}

/// A first comma is the first one: no comma before index `i`, and a comma
/// or the end at `i`.
proof fn lemma_first_comma_at(s: Seq<u8>, i: int)
    requires
        0 <= i <= s.len(),
        forall|m: int| 0 <= m < i ==> s[m] != COMMA,
        i == s.len() || s[i] == COMMA,
    ensures
        first_comma(s) == i,
    decreases s.len(),
{
    if i > 0 {
        let t = s.drop_first();
        assert forall|m: int| 0 <= m < i - 1 implies t[m] != COMMA by {
            assert(t[m] == s[m + 1]);
        }
        if i < s.len() {
            assert(t[i - 1] == s[i]);
        }
        lemma_first_comma_at(t, i - 1);
    }
}

/// The fields of a line: its pieces between commas, the newline left out.
pub open spec fn job_fields(line: Seq<u8>) -> Seq<Seq<u8>> {
    split_commas(strip_newline(line))
}

/// What a job line reads as: the job's seed bytes, digest and difficulty, or
/// the first thing wrong with it, checked field by field from the left.
pub open spec fn parse_job_spec(line: Seq<u8>) -> Result<(Seq<u8>, Seq<u8>, u64), JobError> {
    let f = job_fields(line);
    if f.len() != 3 {
        Err(JobError::FieldCount)
    } else if !valid_utf8(f[0]) {
        Err(JobError::SeedNotText)
    } else if !is_hex_text(f[1]) {
        Err(JobError::DigestNotHex)
    } else if hex_decoded(f[1]).len() != 20 {
        Err(JobError::DigestLength)
    } else if !is_u64_decimal(f[2]) {
        Err(JobError::DifficultyNotNumber)
    } else if decimal_value(f[2]) > MAX_DIFFICULTY {
        Err(JobError::DifficultyTooLarge)
    } else {
        Ok((f[0], hex_decoded(f[1]), decimal_value(f[2]) as u64))
    }
}

/// The bytes of `s` from `start` up to `end`.
fn copy_range(s: &[u8], start: usize, end: usize) -> (r: Vec<u8>)
    requires
        start <= end <= s@.len(),
    ensures
        r@ == s@.subrange(start as int, end as int),
{
    let mut out: Vec<u8> = Vec::new();
    let mut k: usize = start;
    while k < end
        invariant
            start <= k <= end <= s@.len(),
            out@ == s@.subrange(start as int, k as int),
        decreases end - k,
    {
        out.push(s[k]);
        k = k + 1;
        assert(out@ =~= s@.subrange(start as int, k as int));
    }
    out
}

/// Splits `line`, up to `len`, at every comma.
fn split_fields(line: &[u8], len: usize) -> (r: Vec<Vec<u8>>)
    requires
        len <= line@.len(),
    ensures
        r@.len() == split_commas(line@.subrange(0, len as int)).len(),
        forall|i: int| 0 <= i < r@.len() ==> #[trigger] r@[i]@ == split_commas(line@.subrange(0, len as int))[i],
{
    let ghost s = line@.subrange(0, len as int);
    let mut out: Vec<Vec<u8>> = Vec::new();
    let ghost done: Seq<Seq<u8>> = Seq::empty();
    let mut start: usize = 0;
    assert(s.subrange(0, len as int) =~= s);
    assert(done + split_commas(s) =~= split_commas(s));
    loop
        invariant
            len <= line@.len(),
            s == line@.subrange(0, len as int),
            start <= len,
            out@.len() == done.len(),
            forall|i: int| 0 <= i < out@.len() ==> #[trigger] out@[i]@ == done[i],
            split_commas(s) == done + split_commas(s.subrange(start as int, len as int)),
        decreases len - start,
    {
        let mut k: usize = start;
        while k < len && line[k] != COMMA
            invariant
                start <= k <= len <= line@.len(),
                forall|m: int| start <= m < k ==> line@[m] != COMMA,
            decreases len - k,
        {
            k = k + 1;
        }
        let ghost rest = s.subrange(start as int, len as int);
        proof {
            assert forall|m: int| 0 <= m < k - start implies rest[m] != COMMA by {
                assert(rest[m] == line@[start + m]);
            }
            if k < len {
                assert(rest[k - start] == line@[k as int]);
            }
            lemma_first_comma_at(rest, k - start);
        }
        let piece = copy_range(line, start, k);
        assert(piece@ =~= rest.subrange(0, k - start));
        if k == len {
            assert(split_commas(rest) == seq![rest]);
            assert(rest =~= piece@);
            out.push(piece);
            proof {
                done = done.push(piece@);
            }
            assert(split_commas(s) =~= done);
            return out;
        }
        assert(split_commas(rest) == seq![rest.subrange(0, k - start)]
            + split_commas(rest.subrange(k - start + 1, rest.len() as int)));
        assert(rest.subrange(k - start + 1, rest.len() as int) =~= s.subrange(k + 1, len as int));
        out.push(piece);
        proof {
            done = done.push(piece@);
            assert(split_commas(s) =~= done + split_commas(s.subrange(k + 1, len as int)));
        }
        start = k + 1;
    }
}

/// Reads a job line `seed,digest-hex,difficulty`, with or without its
/// newline. The seed must be UTF-8, the digest forty hexadecimal digits, and
/// the difficulty an unsigned decimal no larger than `MAX_DIFFICULTY`.
pub fn parse_job(line: &[u8]) -> (r: Result<Job, JobError>)
    ensures
        match (r, parse_job_spec(line@)) {
            (Ok(job), Ok((seed, digest, diff))) => {
                &&& encode_utf8(job.seed_hash@) == seed
                &&& job.expected_digest@ == digest
                &&& job.difficulty == diff
            },
            (Err(e), Err(f)) => e == f,
            _ => false,
        },
{
    let len: usize = if line.len() > 0 && line[line.len() - 1] == NEWLINE {
        line.len() - 1
    } else {
        line.len()
    };
    assert(line@.subrange(0, len as int) =~= strip_newline(line@));
    let fields = split_fields(line, len);
    if fields.len() != 3 {
        return Err(JobError::FieldCount);
    }
    let ghost f = job_fields(line@);
    let seed_bytes = copy_range(fields[0].as_slice(), 0, fields[0].len());
    assert(seed_bytes@ =~= f[0]);
    let seed_hash = match utf8_text(seed_bytes) {
        Some(s) => s,
        None => {
            return Err(JobError::SeedNotText);
        },
    };
    let digest = match decode_hex(fields[1].as_slice()) {
        Ok(v) => v,
        Err(_) => {
            return Err(JobError::DigestNotHex);
        },
    };
    if digest.len() != 20 {
        return Err(JobError::DigestLength);
    }
    let mut expected_digest: [u8; 20] = [0u8; 20];
    let mut i: usize = 0;
    while i < 20
        invariant
            i <= 20,
            digest@.len() == 20,
            expected_digest@.len() == 20,
            forall|m: int| 0 <= m < i ==> expected_digest@[m] == digest@[m],
        decreases 20 - i,
    {
        expected_digest[i] = digest[i];
        i = i + 1;
    }
    assert(expected_digest@ =~= digest@);
    let difficulty = match parse_u64(fields[2].as_slice()) {
        Some(d) => d,
        None => {
            return Err(JobError::DifficultyNotNumber);
        },
    };
    if difficulty > MAX_DIFFICULTY {
        return Err(JobError::DifficultyTooLarge);
    }
    Ok(Job { seed_hash, expected_digest, difficulty })
}

} // verus!
