//! Small string-building helpers shared by the library.

use vstd::prelude::*;

verus! {

/// The characters of a byte sequence, one character per byte.  On the ASCII
/// bytes that the telemetry grammar admits this is plain ASCII decoding.
pub open spec fn byte_chars(bs: Seq<u8>) -> Seq<char> {
    bs.map_values(|b: u8| b as char)
}

/// Relies on `String::push`: appends exactly the given character.
#[verifier::external_body]
pub fn push_char(s: &mut String, c: char)
    ensures
        final(s)@ == old(s)@.push(c),
{
    s.push(c);
}

/// Relies on `String::from_utf8`: returns `Ok` exactly on valid UTF-8 input,
/// and the returned string holds the decoded characters of the bytes.
#[verifier::external_body]
pub fn utf8_string(bytes: &Vec<u8>) -> (r: Option<String>)
    ensures
        r is Some <==> vstd::utf8::valid_utf8(bytes@),
        r matches Some(s) ==> s@ == vstd::utf8::decode_utf8(bytes@),
{
    String::from_utf8(bytes.clone()).ok()
}

/// Builds the string whose characters are the bytes of `bytes[from..to]`.
pub fn bytes_string(bytes: &Vec<u8>, from: usize, to: usize) -> (r: String)
    requires
        from <= to <= bytes@.len(),
    ensures
        r@ == byte_chars(bytes@.subrange(from as int, to as int)),
{
    let mut r = String::new();
    let mut i: usize = from;
    while i < to
        invariant
            from <= i <= to <= bytes@.len(),
            r@ == byte_chars(bytes@.subrange(from as int, i as int)),
        decreases to - i,
    {
        let b = bytes[i];
        push_char(&mut r, b as char);
        proof {
            assert(bytes@.subrange(from as int, i + 1) =~= bytes@.subrange(
                from as int,
                i as int,
            ).push(bytes@[i as int]));
            assert(byte_chars(bytes@.subrange(from as int, i + 1)) =~= byte_chars(
                bytes@.subrange(from as int, i as int),
            ).push(b as char));
        }
        i += 1;
    }
    r
}

} // verus!
