//! The pure parts of the authentication collaborator: request and response
//! bodies, reading the bearer token of an auth header, reading a list of
//! user keys, and the refresh-token cookie.
use crate::error::Error;
use crate::text::{all_digits, chars_of, digits_value};
use vstd::prelude::*;
use vstd::string::StrSliceExecFns;

verus! {

/// The body of a login request.
pub struct LoginRequest {
    pub user_name: String,
    pub password: String,
}

/// The body of a successful login or login refresh.
pub struct LoginResponse {
    pub token: String,
    pub expiration_secs: i64,
}

/// The body of a registration: a principal and its first user.
pub struct UserRegistration {
    pub name: String,
    pub address: String,
    pub zip_code: String,
    pub city: String,
    pub iban: String,
    pub country: String,
    pub user_name: String,
    pub password: String,
}

/// The body of a request that adds a user (a creditor) to a principal.
pub struct CreateUser {
    pub name: String,
    pub address: String,
    pub zip_code: String,
    pub city: String,
    pub iban: String,
    pub country: String,
}

/// How long a login token stays valid, in seconds.
pub const LOGIN_EXPIRATION_SECS: i64 = 900;

/// The prefix of a bearer auth header.
pub open spec fn bearer_prefix() -> Seq<char> {
    "Bearer "@
}

/// `s` starts with `p`.
pub open spec fn starts_with(s: Seq<char>, p: Seq<char>) -> bool {
    p.len() <= s.len() && s.subrange(0, p.len() as int) == p
}

/// `s` with every leading repetition of the bearer prefix removed.
pub open spec fn strip_bearer(s: Seq<char>) -> Seq<char>
    decreases s.len(),
{
    if starts_with(s, bearer_prefix()) && bearer_prefix().len() > 0 {
        strip_bearer(s.subrange(bearer_prefix().len() as int, s.len() as int))
    } else {
        s
    }
}

/// Whether `v[at..]` starts with `p`.
fn starts_with_at(v: &Vec<char>, at: usize, p: &Vec<char>) -> (r: bool)
    requires
        at <= v@.len(),
    ensures
        r == starts_with(v@.subrange(at as int, v@.len() as int), p@),
{
    let ghost rest = v@.subrange(at as int, v@.len() as int);
    if p.len() > v.len() - at {
        return false;
    }
    let n = v.len();
    let mut k: usize = 0;
    while k < p.len()
        invariant
            n == v@.len(),
            at + p@.len() <= v@.len(),
            rest == v@.subrange(at as int, v@.len() as int),
            k <= p@.len(),
            forall|j: int| 0 <= j < k ==> v@[at + j] == p@[j],
        decreases p.len() - k,
    {
        if v[at + k] != p[k] {
            assert(rest.subrange(0, p@.len() as int)[k as int] == v@[at + k]);
            return false;
        }
        k = k + 1;
    }
    assert(rest.subrange(0, p@.len() as int) =~= p@);
    true
}

/// The token of a bearer auth header: what follows the `Bearer ` prefix,
/// repeated prefixes removed too. A header without the prefix is refused.
pub fn bearer_token(header: &str) -> (r: Result<String, Error>)
    ensures
        starts_with(header@, bearer_prefix()) ==> (r matches Ok(t) && t@ == strip_bearer(header@)),
        !starts_with(header@, bearer_prefix()) ==> r matches Err(Error::InvalidAuthHeaderError),
{
    proof {
        reveal_strlit("Bearer ");
    }
    let v = chars_of(header);
    let p = chars_of("Bearer ");
    if !starts_with_at(&v, 0, &p) {
        assert(v@.subrange(0, v@.len() as int) =~= v@);
        return Err(Error::InvalidAuthHeaderError);
    }
    assert(v@.subrange(0, v@.len() as int) =~= v@);
    let n = v.len();
    let mut at: usize = 0;
    while starts_with_at(&v, at, &p)
        invariant
            n == v@.len(),
            v@ == header@,
            p@ == bearer_prefix(),
            p@.len() == 7,
            at <= v@.len(),
            strip_bearer(v@.subrange(at as int, v@.len() as int)) == strip_bearer(header@),
        decreases v@.len() - at,
    {
        let ghost rest = v@.subrange(at as int, v@.len() as int);
        assert(rest.subrange(7, rest.len() as int) =~= v@.subrange(at + 7, v@.len() as int));
        at = at + 7;
    }
    Ok(String::from_str(header.substring_char(at, v.len())))
}

/// The value of a refresh-token cookie.
pub open spec fn refresh_cookie(uuid: Seq<char>, expiry: Seq<char>) -> Seq<char> {
    "refresh_token="@ + uuid + "; Expires="@ + expiry + "; HttpOnly"@
}

/// The refresh-token cookie for a token id and its expiry date (RFC 2822).
pub fn refresh_token_cookie(uuid: &str, expiry: &str) -> (r: String)
    ensures
        r@ == refresh_cookie(uuid@, expiry@),
{
    let mut s = String::from_str("refresh_token=");
    s.append(uuid);
    s.append("; Expires=");
    s.append(expiry);
    s.append("; HttpOnly");
    s
}

/// The expiry, in seconds since the epoch, of a login token issued at
/// `now`; `None` where it would not fit in an `i64`.
pub fn login_expiry(now: i64) -> (r: Option<i64>)
    ensures
        r == (if now + LOGIN_EXPIRATION_SECS <= i64::MAX {
            Some((now + LOGIN_EXPIRATION_SECS) as i64)
        } else {
            None
        }),
{
    now.checked_add(LOGIN_EXPIRATION_SECS)
}

/// The pieces of `s` between commas, in order; one piece where `s` has no
/// comma, an empty piece on either side of a leading or trailing comma.
pub open spec fn comma_pieces(s: Seq<char>) -> Seq<Seq<char>>
    decreases s.len(),
{
    if s.len() == 0 {
        seq![Seq::<char>::empty()]
    } else {
        let p = comma_pieces(s.drop_last());
        if s.last() == ',' {
            p.push(Seq::<char>::empty())
        } else {
            p.update(p.len() - 1, p.last().push(s.last()))
        }
    }
}

/// The integer that `s` writes: an optional `+` or `-`, then one or more
/// decimal digits.
pub open spec fn signed_value(s: Seq<char>) -> Option<int> {
    if s.len() > 0 && (s[0] == '+' || s[0] == '-') {
        let d = s.subrange(1, s.len() as int);
        if d.len() > 0 && all_digits(d) {
            Some(
                if s[0] == '-' {
                    -digits_value(d)
                } else {
                    digits_value(d) as int
                },
            )
        } else {
            None
        }
    } else if s.len() > 0 && all_digits(s) {
        Some(digits_value(s) as int)
    } else {
        None
    }
}

/// The `i32` that `s` writes, where it writes one in range.
pub open spec fn i32_text(s: Seq<char>) -> Option<i32> {
    match signed_value(s) {
        Some(v) => if i32::MIN <= v <= i32::MAX {
            Some(v as i32)
        } else {
            None
        },
        None => None,
    }
}

/// Relies on `str::parse::<i32>`: an optional `+` or `-` followed by one or
/// more ASCII digits whose value fits in an `i32`; anything else, white
/// space included, is refused.
#[verifier::external_body]
fn parse_i32(s: &str) -> (r: Option<i32>)
    ensures
        r == i32_text(s@),
{
    s.parse::<i32>().ok()
}

/// `s` without its leading and trailing white space.
pub uninterp spec fn trimmed(s: Seq<char>) -> Seq<char>;

/// Relies on `str::trim`: `s` without leading and trailing characters of
/// Unicode's `White_Space` property; the result depends on `s` alone.
#[verifier::external_body]
fn trim_text(s: &str) -> (r: String)
    ensures
        r@ == trimmed(s@),
{
    s.trim().to_string()
}

/// The key that one piece of a key list gives.
pub open spec fn piece_key(piece: Seq<char>) -> Option<i32> {
    i32_text(trimmed(piece))
}

proof fn lemma_pieces_step(v: Seq<char>, k: int, done: Seq<Seq<char>>, start: int)
    requires
        0 <= start <= k < v.len(),
        comma_pieces(v.subrange(0, k)) == done.push(v.subrange(start, k)),
    ensures
        v[k] == ',' ==> comma_pieces(v.subrange(0, k + 1)) == done.push(v.subrange(start, k)).push(
            v.subrange(k + 1, k + 1),
        ),
        v[k] != ',' ==> comma_pieces(v.subrange(0, k + 1)) == done.push(v.subrange(start, k + 1)),
{
    let w = v.subrange(0, k + 1);
    assert(w.drop_last() =~= v.subrange(0, k));
    assert(w.last() == v[k]);
    if v[k] == ',' {
        assert(v.subrange(k + 1, k + 1) =~= Seq::<char>::empty());
    } else {
        assert(v.subrange(start, k).push(v[k]) =~= v.subrange(start, k + 1));
        assert(done.push(v.subrange(start, k)).update(done.len() as int, v.subrange(start, k + 1))
            =~= done.push(v.subrange(start, k + 1)));
    }
}

/// The pieces of `s` between commas.
fn split_commas(s: &str) -> (r: Vec<String>)
    ensures
        r@.len() == comma_pieces(s@).len(),
        forall|i: int| 0 <= i < r@.len() ==> #[trigger] r@[i]@ == comma_pieces(s@)[i],
{
    let v = chars_of(s);
    let n = v.len();
    let mut pieces: Vec<String> = Vec::new();
    let ghost mut done: Seq<Seq<char>> = Seq::empty();
    let mut start: usize = 0;
    let mut k: usize = 0;
    assert(v@.subrange(0, 0).len() == 0);
    assert(v@.subrange(0, 0) =~= Seq::<char>::empty());
    assert(comma_pieces(v@.subrange(0, 0)) =~= done.push(v@.subrange(0, 0)));
    while k < n
        invariant
            n == v@.len(),
            v@ == s@,
            start <= k <= n,
            comma_pieces(v@.subrange(0, k as int)) == done.push(v@.subrange(start as int, k as int)),
            pieces@.len() == done.len(),
            forall|i: int| 0 <= i < done.len() ==> #[trigger] pieces@[i]@ == done[i],
        decreases n - k,
    {
        proof {
            lemma_pieces_step(v@, k as int, done, start as int);
        }
        if v[k] == ',' {
            let piece = String::from_str(s.substring_char(start, k));
            pieces.push(piece);
            proof {
                done = done.push(v@.subrange(start as int, k as int));
            }
            start = k + 1;
        }
        k = k + 1;
    }
    pieces.push(String::from_str(s.substring_char(start, n)));
    proof {
        assert(v@.subrange(0, n as int) =~= v@);
        done = done.push(v@.subrange(start as int, n as int));
    }
    pieces
}

/// The user keys of a comma-separated list, each piece read as an `i32`
/// once trimmed of white space; a piece that is not one fails the list.
pub fn parse_user_keys(user_keys_str: &str) -> (r: Result<Vec<i32>, Error>)
    ensures
        r is Ok <==> forall|i: int|
            0 <= i < comma_pieces(user_keys_str@).len() ==> #[trigger] piece_key(
                comma_pieces(user_keys_str@)[i],
            ) is Some,
        r matches Ok(keys) ==> {
            &&& keys@.len() == comma_pieces(user_keys_str@).len()
            &&& forall|i: int|
                0 <= i < keys@.len() ==> Some(#[trigger] keys@[i]) == piece_key(
                    comma_pieces(user_keys_str@)[i],
                )
        },
        r is Err ==> r matches Err(Error::BadRequestError),
{
    let pieces = split_commas(user_keys_str);
    let ghost all = comma_pieces(user_keys_str@);
    let mut keys: Vec<i32> = Vec::new();
    let mut i: usize = 0;
    while i < pieces.len()
        invariant
            pieces@.len() == all.len(),
            forall|j: int| 0 <= j < pieces@.len() ==> #[trigger] pieces@[j]@ == all[j],
            all == comma_pieces(user_keys_str@),
            i <= pieces@.len(),
            keys@.len() == i,
            forall|j: int| 0 <= j < i ==> Some(#[trigger] keys@[j]) == piece_key(all[j]),
        decreases pieces.len() - i,
    {
        let trimmed_piece = trim_text(pieces[i].as_str());
        match parse_i32(trimmed_piece.as_str()) {
            Some(key) => {
                keys.push(key);
            },
            None => {
                assert(piece_key(all[i as int]) is None);
                return Err(Error::BadRequestError);
            },
        }
        i = i + 1;
    }
    assert forall|j: int| 0 <= j < all.len() implies #[trigger] piece_key(all[j]) is Some by {
        assert(Some(keys@[j]) == piece_key(all[j]));
    }
    Ok(keys)
}

} // verus!
