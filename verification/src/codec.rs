//! The claims codec: a self-delimiting text encoding of a [`Claims`]
//! record, written into the session store and read back on every request.
//!
//! Every integer is written as exactly twenty decimal digits (enough for
//! any 64-bit value), every string as its length followed by its
//! characters, a boolean as one mark, and the optional second-factor
//! instant as a presence mark possibly followed by an instant. Decoding
//! anything that is not exactly an encoded record yields nothing — a
//! corrupt session degrades to anonymous, never to an error.

use vstd::prelude::*;

verus! {

use crate::claims::{Claims, ClaimsView};
use vstd::arithmetic::div_mod::{lemma_mod_breakdown, lemma_small_mod};
use vstd::string::StrSliceExecFns;

/// Relies on std's `String::push`: appends one character.
pub assume_specification[ String::push ](s: &mut String, c: char)
    ensures
        final(s)@ == old(s)@.push(c),
;

/// The character for decimal digit `d`.
pub open spec fn digit_char(d: int) -> char {
    ((48 + d) as u8) as char
}

/// Whether `c` is a decimal digit.
pub open spec fn is_digit_char(c: char) -> bool {
    48 <= c as u32 <= 57
}

/// The value of digit character `c`.
pub open spec fn digit_val(c: char) -> int {
    c as u32 - 48
}

/// Whether every character of `s` is a decimal digit.
pub open spec fn all_digits(s: Seq<char>) -> bool {
    forall|i: int| 0 <= i < s.len() ==> is_digit_char(#[trigger] s[i])
}

/// The number the digit string `s` denotes, most significant digit first.
pub open spec fn digits_val(s: Seq<char>) -> int
    decreases s.len(),
{
    if s.len() == 0 {
        0
    } else {
        digits_val(s.drop_last()) * 10 + digit_val(s.last())
    }
}

/// Ten to the `w`.
pub open spec fn pow10(w: nat) -> nat
    decreases w,
{
    if w == 0 {
        1
    } else {
        10 * pow10((w - 1) as nat)
    }
}

/// `n` modulo ten to the `w`, written as `w` decimal digits, most
/// significant first.
pub open spec fn enc_u64(n: nat, w: nat) -> Seq<char>
    decreases w,
{
    if w == 0 {
        Seq::empty()
    } else {
        enc_u64(n / 10, (w - 1) as nat).push(digit_char((n % 10) as int))
    }
}

/// A 64-bit value as its fixed twenty digits.
pub open spec fn enc_num(n: u64) -> Seq<char> {
    enc_u64(n as nat, 20)
}

/// A string field: its length, then its characters.
pub open spec fn enc_str(s: Seq<char>) -> Seq<char> {
    enc_u64(s.len(), 20) + s
}

/// A boolean as one mark.
pub open spec fn enc_bool(b: bool) -> Seq<char> {
    if b {
        seq!['T']
    } else {
        seq!['F']
    }
}

/// An optional instant: a presence mark, then the instant if present.
pub open spec fn enc_opt_num(o: Option<u64>) -> Seq<char> {
    match o {
        None => seq!['N'],
        Some(t) => seq!['S'] + enc_num(t),
    }
}

/// The encoding of a whole claims record.
pub open spec fn spec_encode_claims(c: ClaimsView) -> Seq<char> {
    enc_str(c.sub) + enc_str(c.username) + enc_str(c.uid) + enc_num(c.exp) + enc_bool(
        c.totp_enabled,
    ) + enc_num(c.totp_attempt) + enc_opt_num(c.totp)
}

/// Reads one 64-bit value off the front of `s`: twenty digits denoting at
/// most `u64::MAX`, and the remainder.
pub open spec fn take_num(s: Seq<char>) -> Option<(u64, Seq<char>)> {
    if s.len() < 20 {
        None
    } else {
        let d = s.take(20);
        if !all_digits(d) {
            None
        } else if digits_val(d) > u64::MAX {
            None
        } else {
            Some((digits_val(d) as u64, s.skip(20)))
        }
    }
}

/// Reads one string field off the front of `s`: a length, that many
/// characters, and the remainder.
pub open spec fn take_str(s: Seq<char>) -> Option<(Seq<char>, Seq<char>)> {
    match take_num(s) {
        None => None,
        Some((n, rest)) => if rest.len() < n {
            None
        } else {
            Some((rest.take(n as int), rest.skip(n as int)))
        },
    }
}

/// Reads one boolean mark off the front of `s`.
pub open spec fn take_bool(s: Seq<char>) -> Option<(bool, Seq<char>)> {
    if s.len() < 1 {
        None
    } else if s[0] == 'T' {
        Some((true, s.skip(1)))
    } else if s[0] == 'F' {
        Some((false, s.skip(1)))
    } else {
        None
    }
}

/// Reads one optional instant off the front of `s`.
pub open spec fn take_opt_num(s: Seq<char>) -> Option<(Option<u64>, Seq<char>)> {
    if s.len() < 1 {
        None
    } else if s[0] == 'N' {
        Some((None, s.skip(1)))
    } else if s[0] == 'S' {
        match take_num(s.skip(1)) {
            None => None,
            Some((n, rest)) => Some((Some(n), rest)),
        }
    } else {
        None
    }
}

/// The record `s` encodes, if `s` is exactly an encoded record.
pub open spec fn spec_decode_claims(s: Seq<char>) -> Option<ClaimsView> {
    match take_str(s) {
        None => None,
        Some((sub, s1)) => match take_str(s1) {
            None => None,
            Some((username, s2)) => match take_str(s2) {
                None => None,
                Some((uid, s3)) => match take_num(s3) {
                    None => None,
                    Some((exp, s4)) => match take_bool(s4) {
                        None => None,
                        Some((totp_enabled, s5)) => match take_num(s5) {
                            None => None,
                            Some((totp_attempt, s6)) => match take_opt_num(s6) {
                                None => None,
                                Some((totp, s7)) => if s7.len() == 0 {
                                    Some(
                                        ClaimsView {
                                            sub,
                                            username,
                                            uid,
                                            exp,
                                            totp_enabled,
                                            totp_attempt,
                                            totp,
                                        },
                                    )
                                } else {
                                    None
                                },
                            },
                        },
                    },
                },
            },
        },
    }
}

/// Ten to the twenty, spelled out: every 64-bit value is below it.
proof fn lemma_pow10_20()
    ensures
        pow10(20) == 100000000000000000000,
{
    assert(pow10(0) == 1);
    assert(pow10(1) == 10);
    assert(pow10(2) == 100);
    assert(pow10(3) == 1000);
    assert(pow10(4) == 10000);
    assert(pow10(5) == 100000);
    assert(pow10(6) == 1000000);
    assert(pow10(7) == 10000000);
    assert(pow10(8) == 100000000);
    assert(pow10(9) == 1000000000);
    assert(pow10(10) == 10000000000);
    assert(pow10(11) == 100000000000);
    assert(pow10(12) == 1000000000000);
    assert(pow10(13) == 10000000000000);
    assert(pow10(14) == 100000000000000);
    assert(pow10(15) == 1000000000000000);
    assert(pow10(16) == 10000000000000000);
    assert(pow10(17) == 100000000000000000);
    assert(pow10(18) == 1000000000000000000);
    assert(pow10(19) == 10000000000000000000);
    assert(pow10(20) == 100000000000000000000);
}

/// `pow10` is positive.
proof fn lemma_pow10_positive(w: nat)
    ensures
        pow10(w) >= 1,
    decreases w,
{
    if w > 0 {
        lemma_pow10_positive((w - 1) as nat);
    }
}

/// `pow10` never decreases.
proof fn lemma_pow10_increases(i: nat, j: nat)
    requires
        i <= j,
    ensures
        pow10(i) <= pow10(j),
    decreases j,
{
    if i < j {
        lemma_pow10_increases(i, (j - 1) as nat);
    }
}

/// A fixed-width encoding is all digits, has its width, and denotes the
/// encoded value modulo ten to the width.
proof fn lemma_enc_u64_props(n: nat, w: nat)
    ensures
        enc_u64(n, w).len() == w,
        all_digits(enc_u64(n, w)),
        digits_val(enc_u64(n, w)) == n % pow10(w),
    decreases w,
{
    if w == 0 {
        assert(n % pow10(0) == 0) by {
            assert(pow10(0) == 1);
            assert(n % 1 == 0) by (nonlinear_arith);
        }
    } else {
        let m = n / 10;
        let d = (n % 10) as int;
        lemma_enc_u64_props(m, (w - 1) as nat);
        lemma_pow10_positive((w - 1) as nat);
        let prefix = enc_u64(m, (w - 1) as nat);
        let e = enc_u64(n, w);
        vstd::arithmetic::div_mod::lemma_mod_bound(n as int, 10);
        assert(0 <= d < 10);
        assert(is_digit_char(digit_char(d)) && digit_val(digit_char(d)) == d);
        assert(e == prefix.push(digit_char(d)));
        assert(e.len() == w);
        assert(e.last() == digit_char(d));
        assert(e.drop_last() =~= prefix);
        assert(forall|i: int| 0 <= i < e.len() ==> is_digit_char(#[trigger] e[i])) by {
            assert(forall|i: int| 0 <= i < prefix.len() ==> is_digit_char(#[trigger] prefix[i]));
            assert(e[w - 1] == digit_char(d));
            assert(forall|i: int| 0 <= i < e.len() - 1 ==> e[i] == prefix[i]);
        }
        assert(digits_val(e) == digits_val(e.drop_last()) * 10 + digit_val(e.last()));
        assert(digits_val(e) == (m % pow10((w - 1) as nat)) * 10 + d);
        lemma_mod_breakdown(n as int, 10, pow10((w - 1) as nat) as int);
        assert(pow10(w) == 10 * pow10((w - 1) as nat));
    }
}

/// Reading a number off an encoding of `n` yields `n` and the rest.
proof fn lemma_take_num_of_enc(n: u64, rest: Seq<char>)
    ensures
        take_num(enc_num(n) + rest) == Some((n, rest)),
{
    lemma_enc_u64_props(n as nat, 20);
    lemma_pow10_20();
    lemma_small_mod(n as nat, pow10(20));
    let e = enc_num(n);
    let s = e + rest;
    assert(s.take(20) =~= e);
    assert(s.skip(20) =~= rest);
}

/// Reading a string field off an encoding of `f` yields `f` and the rest.
proof fn lemma_take_str_of_enc(f: Seq<char>, rest: Seq<char>)
    requires
        f.len() <= u64::MAX,
    ensures
        take_str(enc_str(f) + rest) == Some((f, rest)),
{
    let s = enc_str(f) + rest;
    let s2 = enc_num(f.len() as u64) + (f + rest);
    assert(s =~= s2);
    lemma_take_num_of_enc(f.len() as u64, f + rest);
    assert(take_num(s) == Some((f.len() as u64, f + rest)));
    assert((f + rest).take(f.len() as int) =~= f);
    assert((f + rest).skip(f.len() as int) =~= rest);
    assert(take_str(s) == Some((f, rest)));
}

/// Reading a boolean mark off an encoding of `b` yields `b` and the rest.
proof fn lemma_take_bool_of_enc(b: bool, rest: Seq<char>)
    ensures
        take_bool(enc_bool(b) + rest) == Some((b, rest)),
{
    let s = enc_bool(b) + rest;
    assert(s.skip(1) =~= rest);
}

/// Reading an optional instant off an encoding of `o` yields `o` and the
/// rest.
proof fn lemma_take_opt_num_of_enc(o: Option<u64>, rest: Seq<char>)
    ensures
        take_opt_num(enc_opt_num(o) + rest) == Some((o, rest)),
{
    let s = enc_opt_num(o) + rest;
    match o {
        None => {
            assert(s.skip(1) =~= rest);
        },
        Some(t) => {
            assert(s.skip(1) =~= enc_num(t) + rest);
            lemma_take_num_of_enc(t, rest);
        },
    }
}

/// The character for decimal digit `d`, executable side.
fn digit_to_char(d: u8) -> (c: char)
    requires
        d < 10,
    ensures
        c == digit_char(d as int),
{
    (48 + d) as char
}

/// Appends the fixed-width digits of `n` to `out`.
fn push_num_rec(out: &mut String, n: u64, width: usize)
    ensures
        final(out)@ == old(out)@ + enc_u64(n as nat, width as nat),
    decreases width,
{
    if width == 0 {
        proof {
            assert(old(out)@ + enc_u64(n as nat, 0) =~= old(out)@);
        }
        return ;
    }
    push_num_rec(out, n / 10, width - 1);
    out.push(digit_to_char((n % 10) as u8));
    proof {
        assert((old(out)@ + enc_u64((n / 10) as nat, (width - 1) as nat)).push(
            digit_char((n % 10) as int),
        ) =~= old(out)@ + enc_u64(n as nat, width as nat));
    }
}

/// Appends the twenty digits of `n` to `out`.
fn push_num(out: &mut String, n: u64)
    ensures
        final(out)@ == old(out)@ + enc_num(n),
{
    push_num_rec(out, n, 20);
}

/// Appends the characters of `s` to `out`.
fn push_chars(out: &mut String, s: &str)
    ensures
        final(out)@ == old(out)@ + s@,
{
    let n = s.unicode_len();
    let mut i: usize = 0;
    while i < n
        invariant
            i <= n,
            n == s@.len(),
            out@ == old(out)@ + s@.take(i as int),
        decreases n - i,
    {
        out.push(s.get_char(i));
        proof {
            assert((old(out)@ + s@.take(i as int)).push(s@[i as int]) =~= old(out)@ + s@.take(
                i + 1,
            ));
        }
        i = i + 1;
    }
    proof {
        assert(s@.take(n as int) =~= s@);
    }
}

/// Appends a string field (length, then characters) to `out`.
fn push_str_field(out: &mut String, s: &str)
    ensures
        final(out)@ == old(out)@ + enc_str(s@),
{
    let n = s.unicode_len();
    push_num(out, n as u64);
    push_chars(out, s);
    proof {
        assert((old(out)@ + enc_u64(s@.len(), 20)) + s@ =~= old(out)@ + enc_str(s@));
    }
}

/// Encodes a claims record for the session store.
pub fn encode_claims(c: &Claims) -> (out: String)
    ensures
        out@ == spec_encode_claims(c@),
{
    let mut out = String::new();
    push_str_field(&mut out, c.sub.as_str());
    push_str_field(&mut out, c.username.as_str());
    push_str_field(&mut out, c.uid.as_str());
    push_num(&mut out, c.exp);
    if c.totp_enabled {
        out.push('T');
    } else {
        out.push('F');
    }
    proof {
        assert(out@ =~= (enc_str(c.sub@) + enc_str(c.username@) + enc_str(c.uid@) + enc_num(c.exp))
            + enc_bool(c.totp_enabled));
    }
    push_num(&mut out, c.totp_attempt);
    match c.totp {
        None => {
            out.push('N');
        },
        Some(t) => {
            out.push('S');
            push_num(&mut out, t);
        },
    }
    proof {
        assert(out@ =~= spec_encode_claims(c@));
    }
    out
}

/// Reads twenty digits at `pos`, as `take_num` does on the remainder of
/// the input from `pos` on.
fn read_num(s: &str, pos: usize) -> (r: Option<(u64, usize)>)
    requires
        pos <= s@.len(),
    ensures
        match r {
            Some(v) => v.1 == pos + 20 && v.1 <= s@.len() && take_num(s@.skip(pos as int)) == Some(
                (v.0, s@.skip(v.1 as int)),
            ),
            None => take_num(s@.skip(pos as int)) is None,
        },
{
    let n = s.unicode_len();
    if n - pos < 20 {
        return None;
    }
    proof {
        lemma_pow10_20();
        assert(s@.skip(pos as int).take(20) =~= s@.subrange(pos as int, pos + 20));
    }
    let ghost chunk = s@.subrange(pos as int, pos + 20);
    let mut acc: u128 = 0;
    let mut i: usize = 0;
    while i < 20
        invariant
            i <= 20,
            pos + 20 <= n,
            n == s@.len(),
            chunk == s@.subrange(pos as int, pos + 20),
            s@.skip(pos as int).take(20) == chunk,
            all_digits(chunk.take(i as int)),
            acc == digits_val(chunk.take(i as int)),
            acc < pow10(i as nat),
        decreases 20 - i,
    {
        let c = s.get_char(pos + i);
        let u = c as u32;
        if u < 48 || u > 57 {
            proof {
                assert(chunk[i as int] == s@[pos + i]);
                assert(!is_digit_char(chunk[i as int]));
            }
            return None;
        }
        proof {
            lemma_pow10_20();
            lemma_pow10_increases(i as nat, 19);
            assert(chunk.take(i + 1).drop_last() =~= chunk.take(i as int));
            assert(chunk.take(i + 1).last() == s@[pos + i]);
            assert(pow10((i + 1) as nat) == 10 * pow10(i as nat));
        }
        acc = acc * 10 + ((u - 48) as u128);
        i = i + 1;
    }
    proof {
        assert(chunk.take(20) =~= chunk);
        assert(s@.skip(pos as int).skip(20) =~= s@.skip(pos + 20));
    }
    if acc > u64::MAX as u128 {
        return None;
    }
    Some((acc as u64, pos + 20))
}

/// Reads a string field at `pos`, as `take_str` does on the remainder of
/// the input from `pos` on.
fn read_str(s: &str, pos: usize) -> (r: Option<(String, usize)>)
    requires
        pos <= s@.len(),
    ensures
        match r {
            Some(v) => v.1 <= s@.len() && take_str(s@.skip(pos as int)) == Some(
                (v.0@, s@.skip(v.1 as int)),
            ),
            None => take_str(s@.skip(pos as int)) is None,
        },
{
    let n = s.unicode_len();
    match read_num(s, pos) {
        None => None,
        Some((len, p)) => {
            if len > (n - p) as u64 {
                return None;
            }
            let len_usize = len as usize;
            let mut f = String::new();
            let mut i: usize = 0;
            while i < len_usize
                invariant
                    i <= len_usize,
                    p + len_usize <= n,
                    n == s@.len(),
                    f@ == s@.subrange(p as int, p + i as int),
                decreases len_usize - i,
            {
                f.push(s.get_char(p + i));
                proof {
                    assert(s@.subrange(p as int, p + i as int).push(s@[p + i]) =~= s@.subrange(
                        p as int,
                        p + (i + 1),
                    ));
                }
                i = i + 1;
            }
            proof {
                assert(s@.skip(p as int).take(len as int) =~= s@.subrange(p as int, p + len_usize));
                assert(s@.skip(p as int).skip(len as int) =~= s@.skip(p + len_usize));
            }
            Some((f, p + len_usize))
        },
    }
}

/// Reads a boolean mark at `pos`, as `take_bool` does on the remainder of
/// the input from `pos` on.
fn read_bool(s: &str, pos: usize) -> (r: Option<(bool, usize)>)
    requires
        pos <= s@.len(),
    ensures
        match r {
            Some(v) => v.1 == pos + 1 && v.1 <= s@.len() && take_bool(s@.skip(pos as int)) == Some(
                (v.0, s@.skip(v.1 as int)),
            ),
            None => take_bool(s@.skip(pos as int)) is None,
        },
{
    let n = s.unicode_len();
    if n - pos < 1 {
        return None;
    }
    proof {
        assert(s@.skip(pos as int)[0] == s@[pos as int]);
        assert(s@.skip(pos as int).skip(1) =~= s@.skip(pos + 1));
    }
    let c = s.get_char(pos);
    if c == 'T' {
        Some((true, pos + 1))
    } else if c == 'F' {
        Some((false, pos + 1))
    } else {
        None
    }
}

/// Reads an optional instant at `pos`, as `take_opt_num` does on the
/// remainder of the input from `pos` on.
fn read_opt_num(s: &str, pos: usize) -> (r: Option<(Option<u64>, usize)>)
    requires
        pos <= s@.len(),
    ensures
        match r {
            Some(v) => v.1 <= s@.len() && take_opt_num(s@.skip(pos as int)) == Some(
                (v.0, s@.skip(v.1 as int)),
            ),
            None => take_opt_num(s@.skip(pos as int)) is None,
        },
{
    let n = s.unicode_len();
    if n - pos < 1 {
        return None;
    }
    proof {
        assert(s@.skip(pos as int)[0] == s@[pos as int]);
        assert(s@.skip(pos as int).skip(1) =~= s@.skip(pos + 1));
    }
    let c = s.get_char(pos);
    if c == 'N' {
        Some((None, pos + 1))
    } else if c == 'S' {
        match read_num(s, pos + 1) {
            None => None,
            Some((t, p)) => Some((Some(t), p)),
        }
    } else {
        None
    }
}

/// Decodes a session-store value back into a claims record. Anything that
/// is not exactly an encoded record — truncated, padded, or otherwise
/// corrupt — yields nothing, and the caller treats that as anonymous.
pub fn decode_claims(s: &str) -> (r: Option<Claims>)
    ensures
        match r {
            Some(c) => spec_decode_claims(s@) == Some(c@),
            None => spec_decode_claims(s@) is None,
        },
{
    proof {
        assert(s@.skip(0) =~= s@);
    }
    let n = s.unicode_len();
    let (sub, p1) = match read_str(s, 0) {
        Some(v) => v,
        None => {
            return None;
        },
    };
    let (username, p2) = match read_str(s, p1) {
        Some(v) => v,
        None => {
            return None;
        },
    };
    let (uid, p3) = match read_str(s, p2) {
        Some(v) => v,
        None => {
            return None;
        },
    };
    let (exp, p4) = match read_num(s, p3) {
        Some(v) => v,
        None => {
            return None;
        },
    };
    let (totp_enabled, p5) = match read_bool(s, p4) {
        Some(v) => v,
        None => {
            return None;
        },
    };
    let (totp_attempt, p6) = match read_num(s, p5) {
        Some(v) => v,
        None => {
            return None;
        },
    };
    let (totp, p7) = match read_opt_num(s, p6) {
        Some(v) => v,
        None => {
            return None;
        },
    };
    if p7 != n {
        return None;
    }
    Some(Claims { sub, username, uid, exp, totp_enabled, totp_attempt, totp })
}

/// The round-trip law: decoding an encoded record reproduces the record,
/// for every record whose string fields a real machine can hold.
pub proof fn lemma_codec_round_trip(c: ClaimsView)
    requires
        c.sub.len() <= u64::MAX,
        c.username.len() <= u64::MAX,
        c.uid.len() <= u64::MAX,
    ensures
        spec_decode_claims(spec_encode_claims(c)) == Some(c),
{
    let s = spec_encode_claims(c);
    let r7 = Seq::<char>::empty();
    let r6 = enc_opt_num(c.totp);
    let r5 = enc_num(c.totp_attempt) + r6;
    let r4 = enc_bool(c.totp_enabled) + r5;
    let r3 = enc_num(c.exp) + r4;
    let r2 = enc_str(c.uid) + r3;
    let r1 = enc_str(c.username) + r2;
    assert(s =~= enc_str(c.sub) + r1);
    lemma_take_str_of_enc(c.sub, r1);
    lemma_take_str_of_enc(c.username, r2);
    lemma_take_str_of_enc(c.uid, r3);
    lemma_take_num_of_enc(c.exp, r4);
    lemma_take_bool_of_enc(c.totp_enabled, r5);
    lemma_take_num_of_enc(c.totp_attempt, r6);
    assert(r6 =~= enc_opt_num(c.totp) + r7);
    lemma_take_opt_num_of_enc(c.totp, r7);
}

} // verus!
