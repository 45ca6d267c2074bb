use vstd::prelude::*;

verus! {

/// The paging part of a Slack Web API answer.
pub struct ResponseMetadata {
    /// Where the next page starts; empty when there is no next page.
    pub next_cursor: String,
}

/// The value of the `Authorization` header that carries `token`.
pub open spec fn bearer_value(token: Seq<char>) -> Seq<char> {
    "Bearer "@ + token
}

/// The `Authorization` header value of every request made with `token`:
/// `Bearer ` followed by the token.
pub fn bearer_authorization(token: &str) -> (value: String)
    ensures
        value@ == bearer_value(token@),
{
    let mut value = String::from_str("Bearer ");
    value.append(token);
    value
}

/// The header value is `Bearer `, one space, then the whole token: it is
/// seven characters longer than the token, starts with `Bearer ` and ends
/// with the token.
pub proof fn lemma_bearer_value(token: Seq<char>)
    ensures
        bearer_value(token).len() == 7 + token.len(),
        bearer_value(token).subrange(0, 7) == seq!['B', 'e', 'a', 'r', 'e', 'r', ' '],
        bearer_value(token).subrange(7, bearer_value(token).len() as int) == token,
{
    reveal_strlit("Bearer ");
    assert(bearer_value(token).subrange(0, 7) =~= seq!['B', 'e', 'a', 'r', 'e', 'r', ' ']);
    assert(bearer_value(token).subrange(7, bearer_value(token).len() as int) =~= token);
}

} // verus!
