//! The text side of the demo walkthrough and the interactive console:
//! command parsing, console session state, and the rendering of a chain.

pub mod demo;
pub mod lines;
pub mod repl;

use crate::crypto::{hex_chars, hex_encode};
use crate::transaction::{address_to_hex, Address};
use vstd::prelude::*;

verus! {

/// Trusted: `String::push`, appending one character.
#[verifier::external_body]
pub(crate) fn push_char(text: &mut String, c: char)
    ensures
        final(text)@ == old(text)@.push(c),
{
    text.push(c);
}

/// The first `n` characters of a text (all of it when it is shorter).
pub open spec fn take_chars(s: Seq<char>, n: nat) -> Seq<char> {
    if s.len() <= n {
        s
    } else {
        s.take(n as int)
    }
}

/// Returns the first `n` characters of `text` (all of it when it is
/// shorter).
pub fn prefix_chars(text: &str, n: usize) -> (prefix: String)
    ensures
        prefix@ == take_chars(text@, n as nat),
{
    let len = text.unicode_len();
    let end = if len < n {
        len
    } else {
        n
    };
    let mut prefix = String::new();
    let mut i: usize = 0;
    while i < end
        invariant
            i <= end,
            end <= text@.len(),
            end == (if text@.len() <= n { text@.len() } else { n as nat }),
            prefix@ == text@.take(i as int),
        decreases end - i,
    {
        let c = text.get_char(i);
        push_char(&mut prefix, c);
        assert(text@.take(i + 1) =~= text@.take(i as int).push(c));
        i = i + 1;
    }
    assert(text@.len() <= n ==> text@.take(end as int) =~= text@);
    prefix
}

/// Formats an address as a short lowercase hexadecimal prefix: the first
/// eight characters of its hexadecimal text.
pub fn short_address(address: &Address) -> (text: String)
    ensures
        text@ == take_chars(hex_chars(address@), 8),
{
    let hex = address_to_hex(address);
    prefix_chars(hex.as_str(), 8)
}

/// Formats a hash as a short lowercase hexadecimal prefix: the first eight
/// characters of its hexadecimal text.
pub fn short_hash(hash: &[u8; 32]) -> (text: String)
    ensures
        text@ == take_chars(hex_chars(hash@), 8),
{
    let hex = hex_encode(hash.as_slice());
    prefix_chars(hex.as_str(), 8)
}

} // verus!
