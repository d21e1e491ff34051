use vstd::prelude::*;
use vstd::utf8::{encode_utf8, is_char_boundary};
use crate::api::TokenResponse;

verus! {

/// How many bytes of a token a dry run shows: ten, or fewer where the token
/// is shorter.
pub open spec fn preview_len(token: Seq<char>) -> int {
    let n: usize = encode_utf8(token).len() as usize;
    if n < 10 {
        n as int
    } else {
        10
    }
}

/// The size of the token in bytes (as `str::len` reports it).
pub fn token_size(token: &TokenResponse) -> (n: usize)
    ensures
        n == encode_utf8(token.token@).len() as usize,
{
    token.token.as_str().len()
}

/// The first bytes of the token that a dry run shows: the first ten, or the
/// whole token where it is shorter. The cut must fall on a character
/// boundary.
pub fn token_preview(token: &TokenResponse) -> (p: &str)
    requires
        is_char_boundary(encode_utf8(token.token@), preview_len(token.token@)),
    ensures
        encode_utf8(p@) == encode_utf8(token.token@).subrange(0, preview_len(token.token@)),
{
    let s = token.token.as_str();
    let n: usize = s.len();
    let cut: usize = if n < 10 {
        n
    } else {
        10
    };
    let (head, _) = s.split_at(cut);
    head
}

} // verus!
