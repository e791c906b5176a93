use vstd::prelude::*;
use vstd::utf8::{decode_utf8, encode_utf8, encode_utf8_decode_utf8, encode_utf8_valid_utf8, valid_utf8};

use crate::error::ErrorKind;

verus! {

/// `s` with every trailing zero byte removed; zero bytes before the last
/// non-zero byte stay.
pub open spec fn strip_zeros(s: Seq<u8>) -> Seq<u8>
    decreases s.len(),
{
    if s.len() > 0 && s.last() == 0 {
        strip_zeros(s.drop_last())
    } else {
        s
    }
}

/// How many zero bytes `s` ends with.
pub open spec fn trailing_zeros(s: Seq<u8>) -> nat
    decreases s.len(),
{
    if s.len() > 0 && s.last() == 0 {
        trailing_zeros(s.drop_last()) + 1
    } else {
        0
    }
}

/// `n` zero bytes.
pub open spec fn zeros(n: nat) -> Seq<u8> {
    Seq::new(n, |i: int| 0u8)
}

/// Whether the last byte of `s` is zero.
pub open spec fn ends_in_zero(s: Seq<u8>) -> bool {
    s.len() > 0 && s.last() == 0
}

/// Removes the zero bytes at the end of `bytes`, which the host may add as
/// padding when it copies a string out.
pub fn strip_trailing_zero_bytes(bytes: &mut Vec<u8>)
    ensures
        final(bytes)@ == strip_zeros(old(bytes)@),
{
    let mut len: usize = bytes.len();
    while len > 0 && bytes[len - 1] == 0
        invariant
            len == bytes@.len(),
            strip_zeros(bytes@) == strip_zeros(old(bytes)@),
        decreases len,
    {
        bytes.pop();
        len -= 1;
    }
}

/// What to do after the first of the two calls that copy a string out of
/// the host: that call, with no buffer, reports how many bytes to allocate;
/// the second fills a buffer of that size.
#[derive(Debug)]
pub enum ProbeStep<E> {
    /// Allocate a zeroed buffer of this many bytes and make the second call.
    Fill(usize),
    /// The host raised a signal or threw: hand this error to the caller.
    Fail(E),
    /// The host broke its own interface: it reported failure without
    /// raising, or a negative length. Nothing sound can follow, so the
    /// process must abort.
    Fatal,
}

/// What to do after the second of the two calls that copy a string out.
#[derive(Debug)]
pub enum CopyStep<E> {
    /// The copy is complete: these are the string's bytes.
    Done(Vec<u8>),
    /// The host raised a signal or threw: hand this error to the caller.
    Fail(E),
    /// The host reported failure without raising: the process must abort.
    Fatal,
}

/// The step that follows the length probe, given the probe's outcome (the
/// host's own success flag, or the error that its exit status gave) and the
/// length that it reported.
pub fn after_length_probe<E>(probe: Result<bool, E>, len: isize) -> (r: ProbeStep<E>)
    ensures
        match probe {
            Err(e) => r == ProbeStep::<E>::Fail(e),
            Ok(false) => r == ProbeStep::<E>::Fatal,
            Ok(true) => if len < 0 {
                r == ProbeStep::<E>::Fatal
            } else {
                r == ProbeStep::<E>::Fill(len as usize)
            },
        },
{
    match probe {
        Err(e) => ProbeStep::Fail(e),
        Ok(false) => ProbeStep::Fatal,
        Ok(true) => if len < 0 {
            ProbeStep::Fatal
        } else {
            ProbeStep::Fill(len as usize)
        },
    }
}

/// The step that follows the second call, given its outcome and the buffer
/// that it filled: on success the buffer without its trailing zero bytes.
pub fn after_copy<E>(copy: Result<bool, E>, buffer: Vec<u8>) -> (r: CopyStep<E>)
    ensures
        match copy {
            Err(e) => r == CopyStep::<E>::Fail(e),
            Ok(false) => r == CopyStep::<E>::Fatal,
            Ok(true) => r matches CopyStep::Done(b) && b@ == strip_zeros(buffer@),
        },
{
    match copy {
        Err(e) => CopyStep::Fail(e),
        Ok(false) => CopyStep::Fatal,
        Ok(true) => {
            let mut bytes = buffer;
            strip_trailing_zero_bytes(&mut bytes);
            CopyStep::Done(bytes)
        },
    }
}

/// Relies on `String::from_utf8`: it succeeds exactly on well-formed UTF-8,
/// and the string then holds those very bytes.
#[verifier::external_body]
fn utf8_string(bytes: Vec<u8>) -> (r: Option<String>)
    ensures
        r is Some <==> valid_utf8(bytes@),
        r matches Some(s) ==> s@ == decode_utf8(bytes@),
{
    String::from_utf8(bytes).ok()
}

/// Reads the bytes of a host string as text; malformed UTF-8 is an error.
pub fn string_from_bytes(bytes: Vec<u8>) -> (r: Result<String, ErrorKind>)
    ensures
        r is Ok <==> valid_utf8(bytes@),
        r matches Ok(s) ==> s@ == decode_utf8(bytes@),
        r matches Err(e) ==> e == ErrorKind::InvalidUtf8,
{
    match utf8_string(bytes) {
        Some(s) => Ok(s),
        None => Err(ErrorKind::InvalidUtf8),
    }
}

/// The bytes that the host is given to build a string from `s`: its UTF-8
/// encoding, with no terminator.
pub fn string_payload(s: &str) -> (r: &[u8])
    ensures
        r@ == encode_utf8(s@),
{
    s.as_bytes()
}

/// Stripping never removes more than zero bytes: what it leaves is a prefix
/// that does not end in zero, and the rest is all zeros, as many as
/// `trailing_zeros` counts. So the length that the host reported equals the
/// length after stripping plus the number of bytes stripped.
pub proof fn lemma_strip_splits(s: Seq<u8>)
    ensures
        s.len() == strip_zeros(s).len() + trailing_zeros(s),
        strip_zeros(s) == s.subrange(0, strip_zeros(s).len() as int),
        !ends_in_zero(strip_zeros(s)),
        forall|i: int| strip_zeros(s).len() <= i < s.len() ==> s[i] == 0,
    decreases s.len(),
{
    if s.len() > 0 && s.last() == 0 {
        let t = s.drop_last();
        lemma_strip_splits(t);
        assert forall|i: int| strip_zeros(s).len() <= i < s.len() implies s[i] == 0 by {
            if i < t.len() {
                assert(s[i] == t[i]);
            }
        }
        assert(s.subrange(0, strip_zeros(s).len() as int) =~= t.subrange(
            0,
            strip_zeros(t).len() as int,
        ));
    } else {
        assert(s.subrange(0, s.len() as int) =~= s);
    }
}

/// The length that the host reports in the first call is the length of
/// what the second call's buffer keeps after stripping plus the number of
/// zero bytes stripped from it, whatever padding the host added.
pub proof fn lemma_reported_length(len: isize, buffer: Seq<u8>)
    requires
        len >= 0,
        buffer.len() == len,
    ensures
        len == strip_zeros(buffer).len() + trailing_zeros(buffer),
{
    lemma_strip_splits(buffer);
}

/// For any padding of `pad` zero bytes that the host appends to a string's
/// bytes `content`, stripping gives `content` back exactly, zero bytes
/// inside it included, provided `content` does not itself end in a zero
/// byte; and it strips exactly `pad` bytes. Empty content comes back empty.
pub proof fn lemma_strip_padding(content: Seq<u8>, pad: nat)
    requires
        !ends_in_zero(content),
    ensures
        strip_zeros(content + zeros(pad)) == content,
        trailing_zeros(content + zeros(pad)) == pad,
    decreases pad,
{
    if pad == 0 {
        assert(content + zeros(0) =~= content);
    } else {
        let padded = content + zeros(pad);
        assert(padded.drop_last() =~= content + zeros((pad - 1) as nat));
        lemma_strip_padding(content, (pad - 1) as nat);
    }
}

/// A string sent to the host as its payload, copied back with any number
/// of trailing zero bytes as padding, stripped and read as text, is the
/// string it was, provided its encoding does not end in a zero byte.
pub proof fn lemma_string_round_trip(s: Seq<char>, pad: nat)
    requires
        !ends_in_zero(encode_utf8(s)),
    ensures
        valid_utf8(strip_zeros(encode_utf8(s) + zeros(pad))),
        decode_utf8(strip_zeros(encode_utf8(s) + zeros(pad))) == s,
{
    lemma_strip_padding(encode_utf8(s), pad);
    encode_utf8_valid_utf8(s);
    encode_utf8_decode_utf8(s);
}

} // verus!
