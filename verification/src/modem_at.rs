//! Reading the answers of the tracker's LTE modem to AT commands.
//!
//! An answer that succeeded ends with `OK\r\n`.  The IMEI answer
//! (`AT+CGSN=1`) carries the fifteen IMEI digits from byte 8 on; the signal
//! quality answer (`AT+CESQ`) carries the RSRP index as its sixth
//! comma-separated field.

use vstd::prelude::*;

verus! {

/// The modem's answer was not the expected one.
#[derive(Clone, Copy, Debug, PartialEq, Eq, Structural)]
pub enum ModemError {
    Response,
}

/// `OK\r\n`.
pub open spec fn ok_suffix() -> Seq<u8> {
    seq![0x4Fu8, 0x4Bu8, 0x0Du8, 0x0Au8]
}

/// Whether an answer ends with `OK\r\n`.
pub open spec fn ends_with_ok(s: Seq<u8>) -> bool {
    s.len() >= 4 && s.subrange(s.len() - 4, s.len() as int) == ok_suffix()
}

/// Whether an answer ends with `OK\r\n`.
pub fn answer_ends_with_ok(s: &[u8]) -> (r: bool)
    ensures
        r == ends_with_ok(s@),
{
    if s.len() < 4 {
        return false;
    }
    let n = s.len();
    let r = s[n - 4] == 0x4F && s[n - 3] == 0x4B && s[n - 2] == 0x0D && s[n - 1] == 0x0A;
    assert(r == (s@.subrange(n - 4, n as int) =~= ok_suffix()));
    r
}

/// The IMEI in the answer to `AT+CGSN=1`: bytes 8 to 22, when the answer
/// ends with `OK\r\n` and is at least 23 bytes long.
pub fn parse_imei(answer: &[u8]) -> (r: Result<Vec<u8>, ModemError>)
    ensures
        (ends_with_ok(answer@) && answer@.len() >= 23) ==> (r matches Ok(v) && v@ == answer@.subrange(
            8,
            23,
        )),
        !(ends_with_ok(answer@) && answer@.len() >= 23) ==> r == Err::<Vec<u8>, ModemError>(
            ModemError::Response,
        ),
{
    if answer_ends_with_ok(answer) && answer.len() >= 23 {
        Ok(vstd::slice::slice_to_vec(vstd::slice::slice_subrange(answer, 8, 23)))
    } else {
        Err(ModemError::Response)
    }
}

// ---------------------------------------------------------------------------
// Fields.
// ---------------------------------------------------------------------------

/// The text after the first byte `b` of `s`, if `s` holds `b`.
pub open spec fn after_byte(s: Seq<u8>, b: u8) -> Option<Seq<u8>>
    decreases s.len(),
{
    if s.len() == 0 {
        None
    } else if s[0] == b {
        Some(s.drop_first())
    } else {
        after_byte(s.drop_first(), b)
    }
}

/// The text of `s` before its first byte `b`, or all of `s`.
pub open spec fn until_byte(s: Seq<u8>, b: u8) -> Seq<u8>
    decreases s.len(),
{
    if s.len() == 0 {
        s
    } else if s[0] == b {
        Seq::empty()
    } else {
        seq![s[0]] + until_byte(s.drop_first(), b)
    }
}

/// The text after the `n`-th comma, if there are `n` commas.
pub open spec fn after_commas(s: Seq<u8>, n: nat) -> Option<Seq<u8>>
    decreases n,
{
    if n == 0 {
        Some(s)
    } else {
        match after_byte(s, 0x2Cu8) {
            Some(rest) => after_commas(rest, (n - 1) as nat),
            None => None,
        }
    }
}

fn find_after_byte(s: &[u8], b: u8) -> (r: Option<&[u8]>)
    ensures
        r matches Some(t) ==> after_byte(s@, b) == Some(t@),
        r is None ==> after_byte(s@, b) is None,
{
    let mut i: usize = 0;
    assert(s@.skip(0) =~= s@);
    while i < s.len()
        invariant
            i <= s@.len(),
            after_byte(s@, b) == after_byte(s@.skip(i as int), b),
        decreases s@.len() - i,
    {
        if s[i] == b {
            let t = vstd::slice::slice_subrange(s, i + 1, s.len());
            assert(t@ =~= s@.skip(i as int).drop_first());
            return Some(t);
        }
        assert(s@.skip(i as int).drop_first() =~= s@.skip(i + 1));
        i = i + 1;
    }
    None
}

fn take_until_byte(s: &[u8], b: u8) -> (r: &[u8])
    ensures
        r@ == until_byte(s@, b),
{
    let mut i: usize = 0;
    assert(s@.skip(0) =~= s@);
    while i < s.len() && s[i] != b
        invariant
            i <= s@.len(),
            until_byte(s@, b) == s@.take(i as int) + until_byte(s@.skip(i as int), b),
        decreases s@.len() - i,
    {
        assert(s@.skip(i as int).drop_first() =~= s@.skip(i + 1));
        assert(s@.take(i + 1) =~= s@.take(i as int) + seq![s@[i as int]]);
        i = i + 1;
    }
    assert(until_byte(s@.skip(i as int), b) =~= Seq::<u8>::empty());
    let r = vstd::slice::slice_subrange(s, 0, i);
    assert(r@ =~= s@.take(i as int));
    r
}

fn find_after_commas(s: &[u8], n: usize) -> (r: Option<&[u8]>)
    ensures
        r matches Some(t) ==> after_commas(s@, n as nat) == Some(t@),
        r is None ==> after_commas(s@, n as nat) is None,
    decreases n,
{
    if n == 0 {
        return Some(s);
    }
    match find_after_byte(s, 0x2C) {
        Some(rest) => find_after_commas(rest, n - 1),
        None => None,
    }
}

// ---------------------------------------------------------------------------
// Decimal numbers.
// ---------------------------------------------------------------------------

pub open spec fn is_digit(b: u8) -> bool {
    0x30 <= b <= 0x39
}

pub open spec fn all_digits(s: Seq<u8>) -> bool {
    forall|i: int| 0 <= i < s.len() ==> is_digit(#[trigger] s[i])
}

/// The value of a string of decimal digits.
pub open spec fn digits_value(s: Seq<u8>) -> int
    decreases s.len(),
{
    if s.len() == 0 {
        0
    } else {
        digits_value(s.drop_last()) * 10 + (s.last() - 0x30)
    }
}

/// What `str::parse::<i16>` gives: an optional `+` or `-` followed by at
/// least one decimal digit and nothing else, with a value in range.
pub open spec fn parse_i16_spec(s: Seq<u8>) -> Option<i16> {
    let negative = s.len() > 0 && s[0] == 0x2Du8;
    let signed = s.len() > 0 && (s[0] == 0x2Du8 || s[0] == 0x2Bu8);
    let body = if signed { s.drop_first() } else { s };
    if body.len() == 0 || !all_digits(body) {
        None
    } else {
        let v = if negative { -digits_value(body) } else { digits_value(body) };
        if -32768 <= v <= 32767 {
            Some(v as i16)
        } else {
            None
        }
    }
}

proof fn lemma_digits_value_grows(s: Seq<u8>, j: int)
    requires
        all_digits(s),
        0 <= j <= s.len(),
    ensures
        digits_value(s) >= digits_value(s.take(j)),
        digits_value(s.take(j)) >= 0,
    decreases s.len(),
{
    if s.len() == 0 {
        assert(s.take(j) =~= s);
    } else if j == s.len() {
        assert(s.take(j) =~= s);
        lemma_digits_value_grows(s.drop_last(), j - 1);
    } else {
        assert(all_digits(s.drop_last()));
        lemma_digits_value_grows(s.drop_last(), j);
        assert(s.drop_last().take(j) =~= s.take(j));
        assert(is_digit(s.last()));
    }
}

/// Parses a decimal `i16` as `str::parse::<i16>` does.
pub fn parse_i16(s: &[u8]) -> (r: Option<i16>)
    ensures
        r == parse_i16_spec(s@),
{
    let negative = s.len() > 0 && s[0] == 0x2D;
    let signed = s.len() > 0 && (s[0] == 0x2D || s[0] == 0x2B);
    let start: usize = if signed { 1 } else { 0 };
    let body = vstd::slice::slice_subrange(s, start, s.len());
    assert(body@ =~= if signed { s@.drop_first() } else { s@ });
    if body.len() == 0 {
        return None;
    }
    let mut acc: i32 = 0;
    let mut i: usize = 0;
    assert(body@.take(0) =~= Seq::<u8>::empty());
    while i < body.len()
        invariant
            body@ == (if signed { s@.drop_first() } else { s@ }),
            negative == (s@.len() > 0 && s@[0] == 0x2Du8),
            signed == (s@.len() > 0 && (s@[0] == 0x2Du8 || s@[0] == 0x2Bu8)),
            body@.len() > 0,
            i <= body@.len(),
            all_digits(body@.take(i as int)),
            acc == digits_value(body@.take(i as int)),
            0 <= acc <= 32768,
        decreases body@.len() - i,
    {
        let b = body[i];
        if b < 0x30 || b > 0x39 {
            proof {
                assert(!all_digits(body@)) by {
                    assert(!is_digit(body@[i as int]));
                }
            }
            return None;
        }
        let ghost prefix = body@.take(i + 1);
        assert(prefix.drop_last() =~= body@.take(i as int));
        assert(all_digits(prefix));
        acc = acc * 10 + (b - 0x30) as i32;
        if acc > 32768 {
            proof {
                if all_digits(body@) {
                    lemma_digits_value_grows(body@, i + 1);
                }
            }
            return None;
        }
        i = i + 1;
    }
    assert(body@.take(i as int) =~= body@);
    let v: i32 = if negative { -acc } else { acc };
    if -32768 <= v && v <= 32767 {
        Some(v as i16)
    } else {
        None
    }
}

// ---------------------------------------------------------------------------
// Signal strength.
// ---------------------------------------------------------------------------

/// The number in the sixth field of a `AT+CESQ` answer, cut at the first
/// carriage return.
pub open spec fn rsrp_field(s: Seq<u8>) -> Seq<u8> {
    until_byte(until_byte(after_commas(s, 5)->0, 0x2Cu8), 0x0Du8)
}

/// Whether the answer can be read: an answer that ends with `OK\r\n` and
/// has at least 26 bytes has a sixth field, whose number (if any) is at
/// least -32628 so that subtracting 140 stays in range.
pub open spec fn cesq_readable(s: Seq<u8>) -> bool {
    (ends_with_ok(s) && s.len() >= 26) ==> {
        &&& after_commas(s, 5) is Some
        &&& parse_i16_spec(rsrp_field(s)) matches Some(v) ==> v >= -32628
    }
}

/// The signal strength in dBm that a `AT+CESQ` answer reports: the RSRP
/// index minus 140, or `None` for index 255 (not known).
pub open spec fn cesq_dbm(s: Seq<u8>) -> Result<Option<i16>, ModemError> {
    if !(ends_with_ok(s) && s.len() >= 26) {
        Err(ModemError::Response)
    } else {
        match parse_i16_spec(rsrp_field(s)) {
            None => Err(ModemError::Response),
            Some(v) => if v == 255 {
                Ok(None)
            } else {
                Ok(Some((v - 140) as i16))
            },
        }
    }
}

/// Whether `parse_dbm` may read the answer: false exactly where reading it
/// would fail outright (an answer that ends with `OK\r\n` and has at least
/// 26 bytes but fewer than five commas, or an index below -32628).
pub fn cesq_answer_readable(answer: &[u8]) -> (r: bool)
    ensures
        r == cesq_readable(answer@),
{
    if !(answer_ends_with_ok(answer) && answer.len() >= 26) {
        return true;
    }
    match find_after_commas(answer, 5) {
        None => false,
        Some(rest) => {
            let sixth = take_until_byte(rest, 0x2C);
            let field = take_until_byte(sixth, 0x0D);
            match parse_i16(field) {
                Some(v) => v >= -32628,
                None => true,
            }
        },
    }
}

/// Reads the signal strength from the answer to `AT+CESQ`.
pub fn parse_dbm(answer: &[u8]) -> (r: Result<Option<i16>, ModemError>)
    requires
        cesq_readable(answer@),
    ensures
        r == cesq_dbm(answer@),
{
    if !(answer_ends_with_ok(answer) && answer.len() >= 26) {
        return Err(ModemError::Response);
    }
    let sixth = match find_after_commas(answer, 5) {
        Some(rest) => take_until_byte(rest, 0x2C),
        None => {
            return Err(ModemError::Response);
        },
    };
    let field = take_until_byte(sixth, 0x0D);
    match parse_i16(field) {
        None => Err(ModemError::Response),
        Some(v) => {
            if v == 255 {
                Ok(None)
            } else {
                Ok(Some(v - 140))
            }
        },
    }
}

} // verus!
