//! UUID classification: extraction of the assigned number from the canonical
//! text form of a 128-bit Bluetooth UUID.

use vstd::prelude::*;

use crate::CoreError;
use crate::text::push_char;

verus! {

/// A canonical UUID hex digit: a decimal digit or one of the lower-case
/// letters `a` through `f`.
pub open spec fn is_hex_char(c: char) -> bool {
    ('0' <= c && c <= '9') || ('a' <= c && c <= 'f')
}

/// ASCII lower-casing of one character; everything outside `A`..`Z` is kept.
pub open spec fn lower_char(c: char) -> char {
    if 'A' <= c && c <= 'Z' {
        (((c as u8) + 32) as char)
    } else {
        c
    }
}

/// Pointwise ASCII lower-casing of a character sequence.
pub open spec fn lower_seq(s: Seq<char>) -> Seq<char> {
    s.map_values(|c: char| lower_char(c))
}

/// What the character at position `i` of a canonical UUID must be: a dash at
/// the four group boundaries, a lower-case hex digit everywhere else.
pub open spec fn uuid_char_ok(s: Seq<char>, i: int) -> bool {
    if i == 8 || i == 13 || i == 18 || i == 23 {
        s[i] == '-'
    } else {
        is_hex_char(s[i])
    }
}

/// The canonical UUID text form `xxxxxxxx-xxxx-xxxx-xxxx-xxxxxxxxxxxx`:
/// 36 characters, lower-case hex groups separated by dashes.
pub open spec fn is_canonical_uuid(s: Seq<char>) -> bool {
    s.len() == 36 && (forall|i: int| 0 <= i < 36 ==> #[trigger] uuid_char_ok(s, i))
}

/// Executable mirror of [`is_hex_char`].
fn hex_char(c: char) -> (r: bool)
    ensures
        r == is_hex_char(c),
{
    ('0' <= c && c <= '9') || ('a' <= c && c <= 'f')
}

/// Executable mirror of [`lower_char`].
fn lower_char_exec(c: char) -> (r: char)
    ensures
        r == lower_char(c),
{
    if 'A' <= c && c <= 'Z' {
        ((c as u8) + 32) as char
    } else {
        c
    }
}

/// The assigned number of a UUID: its first eight hex characters (the 32-bit
/// prefix), taken after ASCII lower-casing of the input.  Input that does not
/// match the canonical form is rejected as `MalformedUuid`; the function
/// never panics.
pub fn assigned_number(u: &str) -> (r: Result<String, CoreError>)
    ensures
        match r {
            Ok(a) => is_canonical_uuid(lower_seq(u@)) && a@ == lower_seq(u@).take(8),
            Err(e) => !is_canonical_uuid(lower_seq(u@)) && e == CoreError::MalformedUuid,
        },
{
    let n = u.unicode_len();
    if n != 36 {
        return Err(CoreError::MalformedUuid);
    }
    let mut out = String::new();
    let mut i: usize = 0;
    while i < 36
        invariant
            u@.len() == 36,
            0 <= i <= 36,
            out@ == lower_seq(u@).take(if i < 8 { i as int } else { 8 }),
            forall|k: int| 0 <= k < i ==> #[trigger] uuid_char_ok(lower_seq(u@), k),
        decreases 36 - i,
    {
        let c = u.get_char(i);
        let lc = lower_char_exec(c);
        proof {
            assert(lower_seq(u@)[i as int] == lower_char(u@[i as int]));
        }
        let ok = if i == 8 || i == 13 || i == 18 || i == 23 {
            lc == '-'
        } else {
            hex_char(lc)
        };
        if !ok {
            proof {
                assert(!uuid_char_ok(lower_seq(u@), i as int));
            }
            return Err(CoreError::MalformedUuid);
        }
        if i < 8 {
            push_char(&mut out, lc);
            proof {
                assert(lower_seq(u@).take(i + 1) =~= lower_seq(u@).take(i as int).push(
                    lower_seq(u@)[i as int],
                ));
            }
        }
        i += 1;
    }
    Ok(out)
}

/// The short code of a UUID: the low 16 bits of its assigned number, that is
/// characters 4..8 of the lower-cased prefix.  Short code `2901` marks the
/// Characteristic User Description descriptor.
pub fn short_code(u: &str) -> (r: Result<String, CoreError>)
    ensures
        match r {
            Ok(a) => is_canonical_uuid(lower_seq(u@)) && a@ == lower_seq(u@).subrange(4, 8),
            Err(e) => !is_canonical_uuid(lower_seq(u@)) && e == CoreError::MalformedUuid,
        },
{
    match assigned_number(u) {
        Ok(a) => {
            let code = a.as_str().substring_char(4, 8);
            proof {
                assert(lower_seq(u@).take(8).subrange(4, 8) =~= lower_seq(u@).subrange(4, 8));
            }
            Ok(String::from_str(code))
        },
        Err(e) => Err(e),
    }
}

} // verus!
