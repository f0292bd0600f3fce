//! Authentication data: the identity a verified session token names,
//! the claims a fresh token carries, and the extraction of the token
//! from an Authorization header.

use vstd::prelude::*;

use crate::text::{chars_of, string_from_chars};

verus! {

/// The identity of an authenticated caller: the user id named by the
/// request's verified session token.
#[derive(Clone, Debug)]
pub struct Auth(pub String);

/// The claims carried by a session token: the subject (a user id) and
/// the expiry time in seconds since the epoch.
#[derive(Clone, Debug)]
pub struct Claims {
    pub exp: u64,
    pub sub: String,
}

/// How long a session token stays valid.
pub const TWO_HOURS_IN_SECONDS: u64 = 2 * 60 * 60;

/// The claims for a fresh session token: the subject is the user's id
/// and the expiry lies two hours after `now` (seconds since epoch).
pub fn make_claims(user_id: &str, now: u64) -> (c: Claims)
    requires
        now + TWO_HOURS_IN_SECONDS <= u64::MAX,
    ensures
        c.exp == now + TWO_HOURS_IN_SECONDS,
        c.sub@ == user_id@,
{
    Claims { exp: now + TWO_HOURS_IN_SECONDS, sub: user_id.to_owned() }
}

/// The characters of the bearer scheme prefix, `"Bearer "`.
pub open spec fn bearer_prefix() -> Seq<char> {
    seq!['B', 'e', 'a', 'r', 'e', 'r', ' ']
}

/// `s` with every occurrence of `"Bearer "` removed, scanning left to
/// right without overlap, exactly as `str::replace` strips it.
pub open spec fn strip_bearer_spec(s: Seq<char>) -> Seq<char>
    decreases s.len(),
{
    if s.len() == 0 {
        s
    } else if s.len() >= 7 && s.subrange(0, 7) == bearer_prefix() {
        strip_bearer_spec(s.subrange(7, s.len() as int))
    } else {
        seq![s[0]] + strip_bearer_spec(s.drop_first())
    }
}

/// Whether the bearer prefix stands in `cs` at position `i`.
fn is_bearer_at(cs: &Vec<char>, i: usize) -> (r: bool)
    requires
        i <= cs@.len(),
    ensures
        r == (i + 7 <= cs@.len() && cs@.subrange(i as int, i + 7 as int) == bearer_prefix()),
{
    proof {
        assert(bearer_prefix()[0] == 'B');
        assert(bearer_prefix()[1] == 'e');
        assert(bearer_prefix()[2] == 'a');
        assert(bearer_prefix()[3] == 'r');
        assert(bearer_prefix()[4] == 'e');
        assert(bearer_prefix()[5] == 'r');
        assert(bearer_prefix()[6] == ' ');
    }
    if cs.len() - i < 7 {
        return false;
    }
    proof {
        assert(forall|k: int|
            0 <= k < 7 ==> #[trigger] cs@.subrange(i as int, i + 7 as int)[k] == cs@[i + k]);
    }
    let m = cs[i] == 'B' && cs[i + 1] == 'e' && cs[i + 2] == 'a' && cs[i + 3] == 'r' && cs[i + 4]
        == 'e' && cs[i + 5] == 'r' && cs[i + 6] == ' ';
    if m {
        proof {
            assert(cs@.subrange(i as int, i + 7 as int) =~= bearer_prefix());
        }
        true
    } else {
        false
    }
}

/// The token of an Authorization header: the header's text with every
/// occurrence of the `"Bearer "` scheme prefix removed.
pub fn bearer_token(header: &str) -> (r: String)
    ensures
        r@ == strip_bearer_spec(header@),
{
    let cs = chars_of(header);
    let mut out: Vec<char> = Vec::new();
    let mut i: usize = 0;
    assert(cs@.subrange(0, cs@.len() as int) =~= cs@);
    while i < cs.len()
        invariant
            i <= cs@.len(),
            cs@ == header@,
            strip_bearer_spec(header@) == out@ + strip_bearer_spec(
                cs@.subrange(i as int, cs@.len() as int),
            ),
        decreases cs@.len() - i,
    {
        let ghost rest = cs@.subrange(i as int, cs@.len() as int);
        if is_bearer_at(&cs, i) {
            proof {
                assert(rest.subrange(0, 7) =~= cs@.subrange(i as int, i + 7 as int));
                assert(rest.subrange(7, rest.len() as int) =~= cs@.subrange(
                    i + 7 as int,
                    cs@.len() as int,
                ));
            }
            i = i + 7;
        } else {
            proof {
                if rest.len() >= 7 {
                    assert(rest.subrange(0, 7) =~= cs@.subrange(i as int, i + 7 as int));
                }
                assert(rest.drop_first() =~= cs@.subrange(i + 1 as int, cs@.len() as int));
                assert(rest[0] == cs@[i as int]);
            }
            let ghost old_out = out@;
            out.push(cs[i]);
            proof {
                assert(old_out + (seq![rest[0]] + strip_bearer_spec(rest.drop_first())) =~= out@
                    + strip_bearer_spec(rest.drop_first()));
            }
            i = i + 1;
        }
    }
    assert(cs@.subrange(cs@.len() as int, cs@.len() as int) =~= Seq::<char>::empty());
    string_from_chars(&out)
}

} // verus!
