//! The identity provider's naming scheme: the region that a user pool's id
//! carries, and the address under which a refresh token is exchanged.

use vstd::prelude::*;

verus! {

/// Whether `cut` is the place of the first underscore of `pool_id`.
pub open spec fn first_underscore_at(pool_id: Seq<char>, cut: int) -> bool {
    &&& 0 <= cut < pool_id.len()
    &&& pool_id[cut] == '_'
    &&& forall|i: int| 0 <= i < cut ==> pool_id[i] != '_'
}

/// Whether `pool_id` holds no underscore.
pub open spec fn no_underscore(pool_id: Seq<char>) -> bool {
    forall|i: int| 0 <= i < pool_id.len() ==> pool_id[i] != '_'
}

/// The address for the exchange of `refresh_token` at the management
/// service found under `base`.
pub open spec fn refresh_url_of(base: Seq<char>, refresh_token: Seq<char>) -> Seq<char> {
    base + "/refresh_token?refresh_token="@ + refresh_token
}

/// The region of a user pool: what its id holds before the first
/// underscore. An id without an underscore names no region.
pub fn pool_region(pool_id: &str) -> (region: Option<String>)
    ensures
        match region {
            Some(name) => exists|cut: int| #[trigger]
                first_underscore_at(pool_id@, cut) && name@ == pool_id@.subrange(0, cut),
            None => no_underscore(pool_id@),
        },
{
    let len = pool_id.unicode_len();
    let mut at: usize = 0;
    while at < len
        invariant
            at <= len,
            len == pool_id@.len(),
            forall|i: int| 0 <= i < at ==> pool_id@[i] != '_',
        decreases len - at,
    {
        if pool_id.get_char(at) == '_' {
            let name = pool_id.substring_char(0, at).to_owned();
            assert(first_underscore_at(pool_id@, at as int));
            return Some(name);
        }
        at += 1;
    }
    None
}

/// The address for the exchange of `refresh_token` at the management
/// service found under `base`.
pub fn refresh_url(base: &str, refresh_token: &str) -> (url: String)
    ensures
        url@ == refresh_url_of(base@, refresh_token@),
{
    let mut url = base.to_owned();
    url.append("/refresh_token?refresh_token=");
    url.append(refresh_token);
    url
}

/// An id has at most one place for its first underscore, so the region of
/// a user pool is well defined.
pub proof fn lemma_region_is_unique(pool_id: Seq<char>, a: int, b: int)
    requires
        first_underscore_at(pool_id, a),
        first_underscore_at(pool_id, b),
    ensures
        a == b,
        !no_underscore(pool_id),
{
}

} // verus!
