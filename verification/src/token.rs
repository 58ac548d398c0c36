//! The shared secret: random bytes rendered as upper-case hexadecimal.

use vstd::prelude::*;
use vstd::string::*;

verus! {

/// The number of random bytes in a token.
pub const TOKEN_BYTES: usize = 16;

/// The hexadecimal digits in order of their value.
pub open spec fn digits() -> Seq<char> {
    "0123456789ABCDEF"@
}

/// The two digits of `byte`, the high one first.
pub open spec fn hex_pair(byte: u8) -> Seq<char> {
    seq![digits()[byte as int / 16], digits()[byte as int % 16]]
}

/// The digits of `bytes`: two for each byte, in order.
pub open spec fn hex(bytes: Seq<u8>) -> Seq<char>
    decreases bytes.len(),
{
    if bytes.len() == 0 {
        Seq::empty()
    } else {
        hex(bytes.drop_last()) + hex_pair(bytes.last())
    }
}

/// Whether `text` is a token: the digits of `TOKEN_BYTES` bytes.
pub open spec fn is_token(text: Seq<char>) -> bool {
    exists|bytes: Seq<u8>| bytes.len() == TOKEN_BYTES && text == #[trigger] hex(bytes)
}

/// A token has two digits for each byte.
pub proof fn lemma_hex_len(bytes: Seq<u8>)
    ensures
        hex(bytes).len() == 2 * bytes.len(),
    decreases bytes.len(),
{
    if bytes.len() > 0 {
        lemma_hex_len(bytes.drop_last());
    }
}

/// The digit of value `n`.
fn digit(n: u8) -> (d: &'static str)
    requires
        n < 16,
    ensures
        d@ == seq![digits()[n as int]],
{
    let all = "0123456789ABCDEF";
    proof {
        reveal_strlit("0123456789ABCDEF");
    }
    all.substring_ascii(n as usize, n as usize + 1)
}

/// The digits of `bytes` as a string.
pub fn render(bytes: &[u8]) -> (text: String)
    ensures
        text@ == hex(bytes@),
{
    let mut text = String::new();
    let mut i: usize = 0;
    while i < bytes.len()
        invariant
            i <= bytes@.len(),
            text@ == hex(bytes@.take(i as int)),
        decreases bytes@.len() - i,
    {
        let b = bytes[i];
        text.append(digit(b / 16));
        text.append(digit(b % 16));
        proof {
            let upto = bytes@.take(i + 1);
            assert(upto.drop_last() =~= bytes@.take(i as int));
        }
        i += 1;
    }
    proof {
        assert(bytes@.take(i as int) =~= bytes@);
    }
    text
}

/// Overwrites `buffer` with random bytes by `getrandom::fill`, and says
/// whether that succeeded. Trusted: the buffer keeps its length. Nothing is
/// claimed of its bytes, neither on success nor on failure.
#[verifier::external_body]
fn fill(buffer: &mut Vec<u8>) -> (filled: bool)
    ensures
        final(buffer)@.len() == old(buffer)@.len(),
{
    getrandom::fill(buffer.as_mut_slice()).is_ok()
}

/// A new token from the system's source of randomness, and whether that
/// source delivered. Where it did not, the token is made of whatever the
/// buffer then held, and is not secret.
pub fn generate() -> (made: (String, bool))
    ensures
        is_token(made.0@),
        made.0@.len() == 2 * TOKEN_BYTES,
{
    let mut buffer: Vec<u8> = Vec::new();
    let mut i: usize = 0;
    while i < TOKEN_BYTES
        invariant
            i <= TOKEN_BYTES,
            buffer@.len() == i,
        decreases TOKEN_BYTES - i,
    {
        buffer.push(0);
        i += 1;
    }
    let filled = fill(&mut buffer);
    let text = render(buffer.as_slice());
    proof {
        lemma_hex_len(buffer@);
    }
    (text, filled)
}

} // verus!
