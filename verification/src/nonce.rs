//! The single-use token of a session.

use crate::text::{decimal_digits, hex_digits, push_decimal, push_hex};
use vstd::prelude::*;

verus! {

/// The token made from a reading of the clock and the length of the calling
/// thread's name: the first in base sixteen, then the second in base ten.
pub open spec fn nonce_text(timestamp_nanos: u128, thread_tag_len: usize) -> Seq<char> {
    hex_digits(timestamp_nanos as nat) + decimal_digits(thread_tag_len as nat)
}

/// Makes the token of a session from the nanoseconds since the epoch and the
/// length of the text that names the calling thread.
pub fn generate_nonce(timestamp_nanos: u128, thread_tag_len: usize) -> (nonce: String)
    ensures
        nonce@ == nonce_text(timestamp_nanos, thread_tag_len),
{
    let mut nonce = String::new();
    push_hex(&mut nonce, timestamp_nanos);
    push_decimal(&mut nonce, thread_tag_len as u64);
    nonce
}

} // verus!
