//! Decoding of notification payloads.
//!
//! The peripheral emits UTF-8 JSON of the exact shape
//! `{"Rumqtt":{"Temperature":<number>,"Humidity":<number>,"Pressure":<number>}}`.
//! The decoder checks that shape on the raw bytes and hands the three number
//! literals back as text, exactly as they stood on the wire; any deviation
//! (non-UTF-8 bytes, malformed JSON, a missing field, a value that is not a
//! JSON number) is a `DecodeFailed` and the sample is dropped.

use vstd::prelude::*;

use crate::CoreError;
use crate::text::{byte_chars, bytes_string};

verus! {

/// JSON insignificant whitespace: space, tab, line feed, carriage return.
pub open spec fn is_ws(b: u8) -> bool {
    b == 32 || b == 9 || b == 10 || b == 13
}

/// An ASCII decimal digit.
pub open spec fn is_digit(b: u8) -> bool {
    48 <= b <= 57
}

/// The first index at or after `i` holding a byte that is not whitespace.
pub open spec fn skip_ws(s: Seq<u8>, i: int) -> int
    decreases s.len() - i,
{
    if 0 <= i < s.len() && is_ws(s[i]) {
        skip_ws(s, i + 1)
    } else {
        i
    }
}

/// The first index at or after `i` holding a byte that is not a digit.
pub open spec fn digits_end(s: Seq<u8>, i: int) -> int
    decreases s.len() - i,
{
    if 0 <= i < s.len() && is_digit(s[i]) {
        digits_end(s, i + 1)
    } else {
        i
    }
}

/// The byte at `i` exists and equals `b`.
pub open spec fn byte_at(s: Seq<u8>, i: int, b: u8) -> bool {
    0 <= i < s.len() && s[i] == b
}

/// The bytes `lit` stand at position `i` of `s`.
pub open spec fn has_lit(s: Seq<u8>, i: int, lit: Seq<u8>) -> bool {
    0 <= i && i + lit.len() <= s.len() && s.subrange(i, i + lit.len()) == lit
}

/// End of the integer part of a JSON number starting at `i`: a single `0`,
/// or a nonzero digit followed by any digits.
pub open spec fn int_end(s: Seq<u8>, i: int) -> Option<int> {
    if 0 <= i < s.len() && is_digit(s[i]) {
        if s[i] == 48 {
            Some(i + 1)
        } else {
            Some(digits_end(s, i + 1))
        }
    } else {
        None
    }
}

/// End of the optional fraction part at `i`: a `.` followed by one or more
/// digits, or nothing.
pub open spec fn frac_end(s: Seq<u8>, i: int) -> Option<int> {
    if 0 <= i < s.len() && s[i] == 46 {
        if i + 1 < s.len() && is_digit(s[i + 1]) {
            Some(digits_end(s, i + 1))
        } else {
            None
        }
    } else {
        Some(i)
    }
}

/// End of the optional exponent part at `i`: `e` or `E`, an optional sign,
/// and one or more digits; or nothing.
pub open spec fn exp_end(s: Seq<u8>, i: int) -> Option<int> {
    if 0 <= i < s.len() && (s[i] == 101 || s[i] == 69) {
        let j = if i + 1 < s.len() && (s[i + 1] == 43 || s[i + 1] == 45) {
            i + 2
        } else {
            i + 1
        };
        if 0 <= j < s.len() && is_digit(s[j]) {
            Some(digits_end(s, j))
        } else {
            None
        }
    } else {
        Some(i)
    }
}

/// End of a JSON number starting exactly at `i`, or `None` if no number
/// starts there: an optional minus sign, an integer part, an optional
/// fraction and an optional exponent.
pub open spec fn number_end(s: Seq<u8>, i: int) -> Option<int> {
    let j = if 0 <= i < s.len() && s[i] == 45 {
        i + 1
    } else {
        i
    };
    match int_end(s, j) {
        None => None,
        Some(j1) => match frac_end(s, j1) {
            None => None,
            Some(j2) => exp_end(s, j2),
        },
    }
}

/// The bytes of the quoted key `"Rumqtt"`.
pub open spec fn key_rumqtt() -> Seq<u8> {
    seq![34u8, 82u8, 117u8, 109u8, 113u8, 116u8, 116u8, 34u8]
}

/// The bytes of the quoted key `"Temperature"`.
pub open spec fn key_temperature() -> Seq<u8> {
    seq![34u8, 84u8, 101u8, 109u8, 112u8, 101u8, 114u8, 97u8, 116u8, 117u8, 114u8, 101u8, 34u8]
}

/// The bytes of the quoted key `"Humidity"`.
pub open spec fn key_humidity() -> Seq<u8> {
    seq![34u8, 72u8, 117u8, 109u8, 105u8, 100u8, 105u8, 116u8, 121u8, 34u8]
}

/// The bytes of the quoted key `"Pressure"`.
pub open spec fn key_pressure() -> Seq<u8> {
    seq![34u8, 80u8, 114u8, 101u8, 115u8, 115u8, 117u8, 114u8, 101u8, 34u8]
}

/// End of a `"key": <number>` group whose key bytes start exactly at `i`;
/// yields the start and end of the number literal.
pub open spec fn field_end(s: Seq<u8>, i: int, key: Seq<u8>) -> Option<(int, int)> {
    if has_lit(s, i, key) {
        let j = skip_ws(s, i + key.len());
        if byte_at(s, j, 58) {
            let k = skip_ws(s, j + 1);
            match number_end(s, k) {
                None => None,
                Some(e) => Some((k, e)),
            }
        } else {
            None
        }
    } else {
        None
    }
}

/// The whole payload grammar.  On a match, the result holds the byte ranges
/// of the three number literals, in the order temperature, humidity,
/// pressure; anything that deviates from the shape yields `None`.
pub open spec fn parse_payload(s: Seq<u8>) -> Option<(Seq<u8>, Seq<u8>, Seq<u8>)> {
    let i0 = skip_ws(s, 0);
    if !byte_at(s, i0, 123) {
        None
    } else {
        let i1 = skip_ws(s, i0 + 1);
        if !has_lit(s, i1, key_rumqtt()) {
            None
        } else {
            let i2 = skip_ws(s, i1 + key_rumqtt().len());
            if !byte_at(s, i2, 58) {
                None
            } else {
                let i3 = skip_ws(s, i2 + 1);
                if !byte_at(s, i3, 123) {
                    None
                } else {
                    let i4 = skip_ws(s, i3 + 1);
                    match field_end(s, i4, key_temperature()) {
                        None => None,
                        Some((ts, te)) => {
                            let i5 = skip_ws(s, te);
                            if !byte_at(s, i5, 44) {
                                None
                            } else {
                                let i6 = skip_ws(s, i5 + 1);
                                match field_end(s, i6, key_humidity()) {
                                    None => None,
                                    Some((hs, he)) => {
                                        let i7 = skip_ws(s, he);
                                        if !byte_at(s, i7, 44) {
                                            None
                                        } else {
                                            let i8 = skip_ws(s, i7 + 1);
                                            match field_end(s, i8, key_pressure()) {
                                                None => None,
                                                Some((ps, pe)) => {
                                                    let i9 = skip_ws(s, pe);
                                                    if !byte_at(s, i9, 125) {
                                                        None
                                                    } else {
                                                        let i10 = skip_ws(s, i9 + 1);
                                                        if !byte_at(s, i10, 125) {
                                                            None
                                                        } else {
                                                            let i11 = skip_ws(s, i10 + 1);
                                                            if i11 == s.len() {
                                                                Some(
                                                                    (
                                                                        s.subrange(ts, te),
                                                                        s.subrange(hs, he),
                                                                        s.subrange(ps, pe),
                                                                    ),
                                                                )
                                                            } else {
                                                                None
                                                            }
                                                        }
                                                    }
                                                },
                                            }
                                        }
                                    },
                                }
                            }
                        },
                    }
                }
            }
        }
    }
}

/// One decoded telemetry sample: the three number literals of the payload,
/// kept as the text that stood on the wire.
pub struct TelemetrySample {
    pub temperature: String,
    pub humidity: String,
    pub pressure: String,
}

/// The mathematical content of a [`TelemetrySample`].
pub struct TelemetrySampleV {
    pub temperature: Seq<char>,
    pub humidity: Seq<char>,
    pub pressure: Seq<char>,
}

impl View for TelemetrySample {
    type V = TelemetrySampleV;

    open spec fn view(&self) -> TelemetrySampleV {
        TelemetrySampleV {
            temperature: self.temperature@,
            humidity: self.humidity@,
            pressure: self.pressure@,
        }
    }
}

/// Executable mirror of [`is_ws`].
fn ws_byte(b: u8) -> (r: bool)
    ensures
        r == is_ws(b),
{
    b == 32 || b == 9 || b == 10 || b == 13
}

/// Executable mirror of [`is_digit`].
fn digit_byte(b: u8) -> (r: bool)
    ensures
        r == is_digit(b),
{
    48 <= b && b <= 57
}

/// Executable mirror of [`skip_ws`].
fn skip_ws_exec(s: &Vec<u8>, i: usize) -> (r: usize)
    requires
        i <= s@.len(),
    ensures
        i <= r <= s@.len(),
        r as int == skip_ws(s@, i as int),
{
    let mut j = i;
    while j < s.len() && ws_byte(s[j])
        invariant
            i <= j <= s@.len(),
            skip_ws(s@, i as int) == skip_ws(s@, j as int),
        decreases s@.len() - j,
    {
        j += 1;
    }
    j
}

/// Executable mirror of [`digits_end`].
fn digits_end_exec(s: &Vec<u8>, i: usize) -> (r: usize)
    requires
        i <= s@.len(),
    ensures
        i <= r <= s@.len(),
        r as int == digits_end(s@, i as int),
{
    let mut j = i;
    while j < s.len() && digit_byte(s[j])
        invariant
            i <= j <= s@.len(),
            digits_end(s@, i as int) == digits_end(s@, j as int),
        decreases s@.len() - j,
    {
        j += 1;
    }
    j
}

/// Executable mirror of [`byte_at`].
fn byte_at_exec(s: &Vec<u8>, i: usize, b: u8) -> (r: bool)
    ensures
        r == byte_at(s@, i as int, b),
{
    i < s.len() && s[i] == b
}

/// Executable mirror of [`has_lit`].
fn has_lit_exec(s: &Vec<u8>, i: usize, lit: &Vec<u8>) -> (r: bool)
    ensures
        r == has_lit(s@, i as int, lit@),
{
    let n = s.len();
    if lit.len() > n || i > n - lit.len() {
        return false;
    }
    let mut j: usize = 0;
    while j < lit.len()
        invariant
            i + lit@.len() <= s@.len() <= usize::MAX,
            0 <= j <= lit@.len(),
            forall|k: int| 0 <= k < j ==> s@[i + k] == lit@[k],
        decreases lit@.len() - j,
    {
        if s[i + j] != lit[j] {
            proof {
                assert(s@.subrange(i as int, i + lit@.len())[j as int] == s@[i + j]);
            }
            return false;
        }
        j += 1;
    }
    proof {
        assert(s@.subrange(i as int, i + lit@.len()) =~= lit@);
    }
    true
}

/// Executable mirror of [`number_end`].
fn number_end_exec(s: &Vec<u8>, i: usize) -> (r: Option<usize>)
    requires
        i <= s@.len(),
    ensures
        match r {
            Some(e) => number_end(s@, i as int) == Some(e as int) && i <= e <= s@.len(),
            None => number_end(s@, i as int) is None,
        },
{
    let j: usize = if i < s.len() && s[i] == 45 {
        i + 1
    } else {
        i
    };
    // integer part
    if !(j < s.len() && digit_byte(s[j])) {
        return None;
    }
    let j1: usize = if s[j] == 48 {
        j + 1
    } else {
        digits_end_exec(s, j + 1)
    };
    // fraction
    let j2: usize = if j1 < s.len() && s[j1] == 46 {
        if j1 + 1 < s.len() && digit_byte(s[j1 + 1]) {
            digits_end_exec(s, j1 + 1)
        } else {
            return None;
        }
    } else {
        j1
    };
    proof {
        assert(frac_end(s@, j1 as int) == Some(j2 as int));
    }
    // exponent
    if j2 < s.len() && (s[j2] == 101 || s[j2] == 69) {
        let k: usize = if j2 + 1 < s.len() && (s[j2 + 1] == 43 || s[j2 + 1] == 45) {
            j2 + 2
        } else {
            j2 + 1
        };
        if k < s.len() && digit_byte(s[k]) {
            let e = digits_end_exec(s, k);
            Some(e)
        } else {
            None
        }
    } else {
        Some(j2)
    }
}

/// Executable mirror of [`field_end`].
fn field_end_exec(s: &Vec<u8>, i: usize, key: &Vec<u8>) -> (r: Option<(usize, usize)>)
    ensures
        match r {
            Some(p) => field_end(s@, i as int, key@) == Some((p.0 as int, p.1 as int)) && p.0
                <= p.1 <= s@.len(),
            None => field_end(s@, i as int, key@) is None,
        },
{
    let n = s.len();
    if !has_lit_exec(s, i, key) {
        return None;
    }
    let j = skip_ws_exec(s, i + key.len());
    if !byte_at_exec(s, j, 58) {
        return None;
    }
    let k = skip_ws_exec(s, j + 1);
    match number_end_exec(s, k) {
        None => None,
        Some(e) => Some((k, e)),
    }
}

/// Decodes one notification payload.  Success is owed exactly on the inputs
/// that match the payload grammar, and the sample then holds the three
/// number literals as text; on every other input the sample is refused as
/// `DecodeFailed`.
pub fn decode_payload(data: &Vec<u8>) -> (r: Result<TelemetrySample, CoreError>)
    ensures
        match r {
            Ok(smp) => parse_payload(data@) matches Some(t) && smp.temperature@ == byte_chars(t.0)
                && smp.humidity@ == byte_chars(t.1) && smp.pressure@ == byte_chars(t.2),
            Err(e) => parse_payload(data@) is None && e == CoreError::DecodeFailed,
        },
{
    let n = data.len();
    let key_r = key_rumqtt_vec();
    let key_t = key_temperature_vec();
    let key_h = key_humidity_vec();
    let key_p = key_pressure_vec();
    let i0 = skip_ws_exec(data, 0);
    if !byte_at_exec(data, i0, 123) {
        return Err(CoreError::DecodeFailed);
    }
    let i1 = skip_ws_exec(data, i0 + 1);
    if !has_lit_exec(data, i1, &key_r) {
        return Err(CoreError::DecodeFailed);
    }
    let i2 = skip_ws_exec(data, i1 + key_r.len());
    if !byte_at_exec(data, i2, 58) {
        return Err(CoreError::DecodeFailed);
    }
    let i3 = skip_ws_exec(data, i2 + 1);
    if !byte_at_exec(data, i3, 123) {
        return Err(CoreError::DecodeFailed);
    }
    let i4 = skip_ws_exec(data, i3 + 1);
    let (ts, te) = match field_end_exec(data, i4, &key_t) {
        None => {
            return Err(CoreError::DecodeFailed);
        },
        Some(p) => p,
    };
    let i5 = skip_ws_exec(data, te);
    if !byte_at_exec(data, i5, 44) {
        return Err(CoreError::DecodeFailed);
    }
    let i6 = skip_ws_exec(data, i5 + 1);
    let (hs, he) = match field_end_exec(data, i6, &key_h) {
        None => {
            return Err(CoreError::DecodeFailed);
        },
        Some(p) => p,
    };
    let i7 = skip_ws_exec(data, he);
    if !byte_at_exec(data, i7, 44) {
        return Err(CoreError::DecodeFailed);
    }
    let i8 = skip_ws_exec(data, i7 + 1);
    let (ps, pe) = match field_end_exec(data, i8, &key_p) {
        None => {
            return Err(CoreError::DecodeFailed);
        },
        Some(p) => p,
    };
    let i9 = skip_ws_exec(data, pe);
    if !byte_at_exec(data, i9, 125) {
        return Err(CoreError::DecodeFailed);
    }
    let i10 = skip_ws_exec(data, i9 + 1);
    if !byte_at_exec(data, i10, 125) {
        return Err(CoreError::DecodeFailed);
    }
    let i11 = skip_ws_exec(data, i10 + 1);
    if i11 != data.len() {
        return Err(CoreError::DecodeFailed);
    }
    Ok(
        TelemetrySample {
            temperature: bytes_string(data, ts, te),
            humidity: bytes_string(data, hs, he),
            pressure: bytes_string(data, ps, pe),
        },
    )
}

/// The key bytes of `"Rumqtt"`, as a vector.
fn key_rumqtt_vec() -> (r: Vec<u8>)
    ensures
        r@ == key_rumqtt(),
{
    let v: Vec<u8> = vec![34u8, 82u8, 117u8, 109u8, 113u8, 116u8, 116u8, 34u8];
    proof {
        assert(v@ =~= key_rumqtt());
    }
    v
}

/// The key bytes of `"Temperature"`, as a vector.
fn key_temperature_vec() -> (r: Vec<u8>)
    ensures
        r@ == key_temperature(),
{
    let v: Vec<u8> = vec![
        34u8,
        84u8,
        101u8,
        109u8,
        112u8,
        101u8,
        114u8,
        97u8,
        116u8,
        117u8,
        114u8,
        101u8,
        34u8,
    ];
    proof {
        assert(v@ =~= key_temperature());
    }
    v
}

/// The key bytes of `"Humidity"`, as a vector.
fn key_humidity_vec() -> (r: Vec<u8>)
    ensures
        r@ == key_humidity(),
{
    let v: Vec<u8> = vec![34u8, 72u8, 117u8, 109u8, 105u8, 100u8, 105u8, 116u8, 121u8, 34u8];
    proof {
        assert(v@ =~= key_humidity());
    }
    v
}

/// The key bytes of `"Pressure"`, as a vector.
fn key_pressure_vec() -> (r: Vec<u8>)
    ensures
        r@ == key_pressure(),
{
    let v: Vec<u8> = vec![34u8, 80u8, 114u8, 101u8, 115u8, 115u8, 117u8, 114u8, 101u8, 34u8];
    proof {
        assert(v@ =~= key_pressure());
    }
    v
}

} // verus!
