use vstd::prelude::*;
use vstd::string::StringSliceAdditionalSpecFns;
use vstd::utf8::{decode_utf8, encode_utf8, encode_utf8_decode_utf8, encode_utf8_valid_utf8, valid_utf8};

use crate::error::{null_ptr_error, MarshalError};
use crate::space::{Allocation, AddressSpace};

verus! {

/// What lossy UTF-8 decoding makes of some bytes: invalid sequences become
/// the replacement character.
pub uninterp spec fn utf8_lossy(bytes: Seq<u8>) -> Seq<char>;

/// Relies on `String::from_utf8_lossy`: the text that the bytes decode to,
/// with invalid sequences replaced; valid UTF-8 decodes exactly.
#[verifier::external_body]
fn decode_lossy(bytes: &[u8]) -> (r: String)
    ensures
        r@ == utf8_lossy(bytes@),
        valid_utf8(bytes@) ==> r@ == decode_utf8(bytes@),
{
    String::from_utf8_lossy(bytes).into_owned()
}

/// No byte is the terminator.
pub open spec fn nul_free(b: Seq<u8>) -> bool {
    forall|i: int| 0 <= i < b.len() ==> b[i] != 0
}

/// The bytes followed by the terminator.
pub open spec fn terminated(b: Seq<u8>) -> Seq<u8> {
    b.push(0)
}

/// The text of `b` ends at `n`: no terminator before it, and `n` is a
/// terminator or the end of the buffer.
pub open spec fn ends_text_at(b: Seq<u8>, n: int) -> bool {
    0 <= n <= b.len() && nul_free(b.take(n)) && (n == b.len() || b[n] == 0)
}

/// The bytes of a buffer before its first terminator.
pub open spec fn text_of(b: Seq<u8>) -> Seq<u8> {
    b.take(choose|n: int| ends_text_at(b, n))
}

/// The host text that foreign bytes decode to.
pub open spec fn decoded(b: Seq<u8>) -> Seq<char> {
    if valid_utf8(b) {
        decode_utf8(b)
    } else {
        utf8_lossy(b)
    }
}

/// The text of a buffer ends at one place only.
pub proof fn lemma_text_end(b: Seq<u8>, n: int)
    requires
        ends_text_at(b, n),
    ensures
        text_of(b) == b.take(n),
{
    let m = choose|m: int| ends_text_at(b, m);
    if m < n {
        assert(b.take(n)[m] == b[m]);
    }
    if n < m {
        assert(b.take(m)[n] == b[n]);
    }
}

/// Text without a terminator survives being written out null-terminated and
/// read back: the characters come back exactly.
pub proof fn lemma_text_round_trip(s: Seq<char>)
    requires
        nul_free(encode_utf8(s)),
    ensures
        decoded(text_of(terminated(encode_utf8(s)))) == s,
{
    let b = encode_utf8(s);
    let t = terminated(b);
    assert(t.take(b.len() as int) =~= b);
    lemma_text_end(t, b.len() as int);
    encode_utf8_valid_utf8(s);
    encode_utf8_decode_utf8(s);
}

/// Hands text across as a null-terminated buffer.
pub struct StringMarshaler;

impl StringMarshaler {
    /// Copies the text's bytes and a terminator into a fresh address. Text
    /// that holds the terminator byte is refused and nothing is allocated.
    pub fn to_foreign(space: &mut AddressSpace<u8>, s: &str) -> (r: Result<usize, MarshalError>)
        requires
            old(space).has_room(),
        ensures
            !nul_free(s.spec_bytes()) ==> r == Err::<usize, MarshalError>(MarshalError::EncodingError)
                && final(space)@ == old(space)@,
            nul_free(s.spec_bytes()) ==> r == Ok::<usize, MarshalError>(old(space).next_addr())
                && final(space)@.len() == old(space)@.len() + 1
                && final(space)@.take(old(space)@.len() as int) == old(space)@
                && final(space).is_buffer(old(space).next_addr())
                && final(space).buffer_of(old(space).next_addr()) == terminated(s.spec_bytes()),
    {
        let bytes = s.as_bytes();
        let mut buf: Vec<u8> = Vec::new();
        let mut i: usize = 0;
        while i < bytes.len()
            invariant
                0 <= i <= bytes@.len(),
                bytes@ == s.spec_bytes(),
                buf@ == bytes@.take(i as int),
                nul_free(buf@),
                space@ == old(space)@,
            decreases bytes@.len() - i,
        {
            let b = bytes[i];
            if b == 0 {
                assert(bytes@[i as int] == 0);
                return Err(MarshalError::EncodingError);
            }
            buf.push(b);
            i = i + 1;
            assert(buf@ =~= bytes@.take(i as int));
        }
        assert(buf@ =~= bytes@);
        buf.push(0);
        let addr = space.allocate(Allocation::Buffer(buf));
        assert(space@.take(old(space)@.len() as int) =~= old(space)@);
        Ok(addr)
    }

    /// Reads the null-terminated text at a foreign address; bytes that are
    /// not valid UTF-8 decode to the replacement character.
    pub fn from_foreign(space: &AddressSpace<u8>, addr: usize) -> (r: Result<String, MarshalError>)
        requires
            addr == 0 || space.is_buffer(addr),
        ensures
            addr == 0 ==> r == Err::<String, MarshalError>(MarshalError::InvalidData),
            addr != 0 ==> (r matches Ok(t) && t@ == decoded(text_of(space.buffer_of(addr)))),
    {
        if addr == 0 {
            return Err(null_ptr_error());
        }
        let buf = match space.get(addr) {
            Allocation::Buffer(v) => v,
            _ => vstd::pervasive::unreached(),
        };
        let mut text: Vec<u8> = Vec::new();
        let mut i: usize = 0;
        while i < buf.len() && buf[i] != 0
            invariant
                0 <= i <= buf@.len(),
                text@ == buf@.take(i as int),
                nul_free(text@),
            decreases buf@.len() - i,
        {
            text.push(buf[i]);
            i = i + 1;
            assert(text@ =~= buf@.take(i as int));
        }
        proof {
            lemma_text_end(buf@, i as int);
        }
        Ok(decode_lossy(text.as_slice()))
    }

    /// Frees a buffer that an outbound conversion handed out.
    pub fn release(space: &mut AddressSpace<u8>, addr: usize) -> (r: Result<(), MarshalError>)
        requires
            addr == 0 || old(space).is_buffer(addr),
        ensures
            addr == 0 ==> r == Err::<(), MarshalError>(MarshalError::InvalidData) && final(space)@ == old(space)@,
            addr != 0 ==> r == Ok::<(), MarshalError>(()) && final(space)@ == old(space)@.update(addr - 1, None),
    {
        if addr == 0 {
            return Err(null_ptr_error());
        }
        let _ = space.take(addr);
        Ok(())
    }
}

} // verus!
