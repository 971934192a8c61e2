//! The owner's session: the claims of a verified session token, and the
//! owner identifier they carry.

use vstd::prelude::*;

verus! {

/// The claims of a session token: the owner's identifier and the expiry.
#[derive(Debug, Clone)]
pub struct Claims {
    pub sub: String,
    pub exp: usize,
}

/// Every character of `s` is an ASCII digit.
pub open spec fn all_digits(s: Seq<char>) -> bool {
    forall|i: int| 0 <= i < s.len() ==> '0' <= #[trigger] s[i] && s[i] <= '9'
}

/// The value of a string of decimal digits.
pub open spec fn digits_value(s: Seq<char>) -> int
    decreases s.len(),
{
    if s.len() == 0 {
        0
    } else {
        digits_value(s.drop_last()) * 10 + (s.last() as int - '0' as int)
    }
}

/// The sign of decimal text (`true` for a leading `-`) and its digits.
pub open spec fn split_sign(s: Seq<char>) -> (bool, Seq<char>) {
    if s.len() > 0 && s[0] == '-' {
        (true, s.drop_first())
    } else if s.len() > 0 && s[0] == '+' {
        (false, s.drop_first())
    } else {
        (false, s)
    }
}

/// The `i32` that decimal text denotes: an optional sign, then one or more
/// digits, with a value in the range of `i32`.
pub open spec fn decimal_i32(s: Seq<char>) -> Option<i32> {
    let neg = split_sign(s).0;
    let ds = split_sign(s).1;
    let v = if neg {
        -digits_value(ds)
    } else {
        digits_value(ds)
    };
    if ds.len() == 0 || !all_digits(ds) || v < i32::MIN || v > i32::MAX {
        None
    } else {
        Some(v as i32)
    }
}

proof fn lemma_digits_value_nonneg(s: Seq<char>)
    requires
        all_digits(s),
    ensures
        digits_value(s) >= 0,
    decreases s.len(),
{
    if s.len() > 0 {
        assert(all_digits(s.drop_last()));
        lemma_digits_value_nonneg(s.drop_last());
        assert('0' <= s[s.len() - 1]);
    }
}

proof fn lemma_digits_value_prefix(s: Seq<char>, k: int)
    requires
        all_digits(s),
        0 <= k <= s.len(),
    ensures
        digits_value(s) >= digits_value(s.subrange(0, k)),
    decreases s.len() - k,
{
    if k < s.len() {
        lemma_digits_value_prefix(s, k + 1);
        let p = s.subrange(0, k + 1);
        assert(p.drop_last() =~= s.subrange(0, k));
        assert(all_digits(s.subrange(0, k)));
        lemma_digits_value_nonneg(s.subrange(0, k));
        assert('0' <= p[k]);
    } else {
        assert(s.subrange(0, k) =~= s);
    }
}

/// Reads decimal text as an `i32`, as `decimal_i32` says.
pub fn parse_i32(s: &str) -> (r: Option<i32>)
    ensures
        r == decimal_i32(s@),
{
    let n = s.unicode_len();
    let mut start: usize = 0;
    let mut neg = false;
    if n > 0 {
        let c = s.get_char(0);
        if c == '-' {
            neg = true;
            start = 1;
        } else if c == '+' {
            start = 1;
        }
    }
    let ghost ds = split_sign(s@).1;
    assert(ds =~= s@.subrange(start as int, n as int));
    assert(neg == split_sign(s@).0);
    if start == n {
        return None;
    }
    let mut acc: i64 = 0;
    let mut i: usize = start;
    while i < n
        invariant
            start <= i <= n,
            n == s@.len(),
            start < n,
            ds == s@.subrange(start as int, n as int),
            ds == split_sign(s@).1,
            neg == split_sign(s@).0,
            all_digits(ds.subrange(0, i - start)),
            acc as int == digits_value(ds.subrange(0, i - start)),
            0 <= acc <= 2147483648,
        decreases n - i,
    {
        let c = s.get_char(i);
        if c < '0' || c > '9' {
            assert(ds[i - start] == c);
            assert(!all_digits(ds));
            return None;
        }
        let ghost prev = ds.subrange(0, i - start);
        acc = acc * 10 + (c as i64 - '0' as i64);
        assert(ds.subrange(0, i + 1 - start).drop_last() =~= prev);
        assert(all_digits(ds.subrange(0, i + 1 - start)));
        i = i + 1;
        if acc > 2147483648 {
            proof {
                if all_digits(ds) {
                    lemma_digits_value_prefix(ds, i - start);
                    assert(digits_value(ds) > 2147483648);
                }
            }
            return None;
        }
    }
    assert(ds.subrange(0, n - start) =~= ds);
    if neg {
        Some((-acc) as i32)
    } else if acc > 2147483647 {
        None
    } else {
        Some(acc as i32)
    }
}

/// The owner identifier in the claims of a session token, when the subject
/// is decimal text for an `i32`; `None` without claims.
pub fn get_user_id_from_cookie(claims: Option<&Claims>) -> (r: Option<i32>)
    ensures
        claims is None ==> r is None,
        claims matches Some(c) ==> r == decimal_i32(c.sub@),
{
    match claims {
        None => None,
        Some(c) => parse_i32(c.sub.as_str()),
    }
}

/// The owner behind a request, once its session has been checked.
#[derive(Debug, PartialEq, Eq, Structural, Clone, Copy)]
pub struct AuthUser {
    pub user_id: i32,
}

/// Why a request has no owner.
#[derive(Debug, PartialEq, Eq, Structural, Clone, Copy)]
pub enum UserError {
    /// No session, or one whose subject is not an owner identifier.
    UserNotLoggedIn,
}

/// The owner that the claims of a request's session token identify.
pub fn authenticate(claims: Option<&Claims>) -> (r: Result<AuthUser, UserError>)
    ensures
        r matches Ok(u) ==> claims is Some && decimal_i32(claims->0.sub@) == Some(u.user_id),
        r is Err ==> r == Err::<AuthUser, UserError>(UserError::UserNotLoggedIn) && (claims is None
            || decimal_i32(claims->0.sub@) is None),
{
    match get_user_id_from_cookie(claims) {
        None => Err(UserError::UserNotLoggedIn),
        Some(user_id) => Ok(AuthUser { user_id }),
    }
}

} // verus!
