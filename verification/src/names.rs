//! Fixed-width, null-padded name and string fields, as the host expects
//! them: a name of `n - 1` bytes at most is copied into an `n`-byte field
//! and the remainder is zero-filled. A name that would be truncated is a
//! precondition violation here; checked entry points sit beside the
//! strict ones for names that arrive at run time.

use vstd::prelude::*;

verus! {

use vstd::string::StringSliceAdditionalSpecFns;

/// The `n`-byte null-padded form of the character sequence `s` (one byte
/// per character; callers restrict themselves to ASCII).
pub open spec fn padded_chars(s: Seq<char>, n: int) -> Seq<u8> {
    Seq::new(n as nat, |i: int| if i < s.len() { s[i] as u8 } else { 0 })
}

/// The `n`-byte null-padded form of the byte sequence `s`.
pub open spec fn padded_bytes(s: Seq<u8>, n: int) -> Seq<u8> {
    Seq::new(n as nat, |i: int| if i < s.len() { s[i] } else { 0 })
}

/// Copies an ASCII string into a fixed-width, null-padded byte field of
/// `n` bytes. The string must leave room for at least one terminating
/// null byte; anything longer must fail driver initialization instead of
/// being truncated, so that case is excluded here.
pub fn str_to_slice(input: &str, n: usize) -> (r: Vec<u8>)
    requires
        vstd::string::is_ascii(input),
        input@.len() + 1 <= n,
    ensures
        r@ == padded_chars(input@, n as int),
{
    proof {
        broadcast use vstd::string::is_ascii_spec_bytes;
    }
    let bytes = input.as_bytes();
    proof {
        lemma_padded_ascii(input, n as int);
    }
    pad_bytes(bytes, n)
}

/// Copies raw name bytes into a fixed-width, null-padded field of `n`
/// bytes, leaving room for a terminating null byte.
pub fn pad_bytes(input: &[u8], n: usize) -> (r: Vec<u8>)
    requires
        input@.len() + 1 <= n,
    ensures
        r@ == padded_bytes(input@, n as int),
{
    let mut r: Vec<u8> = Vec::new();
    let mut i: usize = 0;
    while i < input.len()
        invariant
            i <= input@.len(),
            input@.len() + 1 <= n,
            r@.len() == i,
            forall|j: int| 0 <= j < i ==> r@[j] == input@[j],
        decreases input@.len() - i,
    {
        r.push(input[i]);
        i += 1;
    }
    while r.len() < n
        invariant
            input@.len() <= r@.len() <= n,
            forall|j: int| 0 <= j < input@.len() ==> r@[j] == input@[j],
            forall|j: int| input@.len() <= j < r@.len() ==> r@[j] == 0,
        decreases n - r@.len(),
    {
        r.push(0);
    }
    proof {
        assert(r@ =~= padded_bytes(input@, n as int));
    }
    r
}

/// For an ASCII string, padding its characters and padding its UTF-8
/// bytes agree.
pub proof fn lemma_padded_ascii(s: &str, n: int)
    requires
        vstd::string::is_ascii(s),
    ensures
        padded_bytes(s.spec_bytes(), n) =~= padded_chars(s@, n),
{
    broadcast use vstd::string::is_ascii_spec_bytes;
}

} // verus!
