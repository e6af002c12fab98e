//! API keys and the shape of a newly registered integration.
use vstd::prelude::*;
use crate::manager::analysis::opt_view;
use crate::manager::lookup::{by_id, by_key};
use crate::manager::{CreateIntegrationRequest, Integration, IntegrationStatus};

verus! {

/// `s` without its hyphens.
pub open spec fn without_hyphens(s: Seq<char>) -> Seq<char>
    decreases s.len(),
{
    if s.len() == 0 {
        Seq::empty()
    } else if s.last() == '-' {
        without_hyphens(s.drop_last())
    } else {
        without_hyphens(s.drop_last()).push(s.last())
    }
}

/// The API key made from a random identifier.
pub open spec fn api_key_for(token: Seq<char>) -> Seq<char> {
    "json_oracle_"@ + without_hyphens(token)
}

/// An API key made from a random UUID in its hyphenated form.
pub open spec fn is_random_api_key(key: Seq<char>) -> bool {
    exists|u: Seq<char>| u.len() == 36 && #[trigger] api_key_for(u) == key
}

/// `x` is the integration registered for a request: active, without
/// activity yet, under a random API key.
pub open spec fn is_registered_for(
    x: Integration,
    id: String,
    request: CreateIntegrationRequest,
    owner_id: Option<Seq<char>>,
) -> bool {
    &&& x.id == id
    &&& x.name == request.name
    &&& x.system_type == request.system_type
    &&& is_random_api_key(x.api_key@)
    &&& x.webhook_url == request.webhook_url
    &&& x.status == IntegrationStatus::Active
    &&& x.last_activity is None
    &&& x.configuration == request.configuration
    &&& opt_view(x.owner_id) == owner_id
}

/// Some pair of drawn UUIDs, one for the id and one for the API key, would
/// collide with a registered integration. Only then can a creation fail.
pub open spec fn draw_can_collide(s: Seq<Integration>) -> bool {
    exists|u: Seq<char>, v: Seq<char>|
        u.len() == 36 && v.len() == 36 && (by_id(s, u) is Some || by_key(s, api_key_for(v)) is Some)
}

/// An empty store collides with no drawn value, so a creation there succeeds.
pub proof fn lemma_empty_store_cannot_collide(s: Seq<Integration>)
    requires
        s.len() == 0,
    ensures
        !draw_can_collide(s),
{
}

/// Removes the hyphens of a string.
pub fn strip_hyphens(s: &str) -> (r: String)
    ensures
        r@ == without_hyphens(s@),
{
    let n = s.unicode_len();
    let mut out = String::new();
    let mut i: usize = 0;
    while i < n
        invariant
            n == s@.len(),
            0 <= i <= n,
            out@ == without_hyphens(s@.subrange(0, i as int)),
        decreases n - i,
    {
        let piece = s.substring_char(i, i + 1);
        assert(s@.subrange(0, i + 1).drop_last() =~= s@.subrange(0, i as int));
        if s.get_char(i) != '-' {
            out.append(piece);
        }
        i = i + 1;
    }
    assert(s@.subrange(0, n as int) =~= s@);
    out
}

/// The API key made from a random identifier: `json_oracle_` and the
/// identifier without its hyphens.
pub fn api_key_from(token: &str) -> (r: String)
    ensures
        r@ == api_key_for(token@),
{
    let stripped = strip_hyphens(token);
    "json_oracle_".to_string().concat(stripped.as_str())
}

} // verus!
