//! The issuer: bearer tokens and refresh tokens, kept in two indices that
//! always agree.

use crate::grant::{Grant, GrantView};
use crate::token::{now_seconds, tag_token};
use oxide_auth::primitives::generator::RandomGenerator;
use vstd::hash_map::StringHashMap;
use vstd::prelude::*;

verus! {

/// What the issuer keeps for one live access token.
pub struct TokenRecord {
    pub refresh: String,
    pub grant: Grant,
}

/// The mathematical value of a token record.
pub struct TokenView {
    pub refresh: Seq<char>,
    pub grant: GrantView,
}

impl View for TokenRecord {
    type V = TokenView;

    open spec fn view(&self) -> TokenView {
        TokenView { refresh: self.refresh@, grant: self.grant@ }
    }
}

/// The issuer's state: each live access token with its record, and each live
/// refresh token with the access token it is paired with.
pub struct IssuerView {
    pub access: Map<Seq<char>, TokenView>,
    pub refresh: Map<Seq<char>, Seq<char>>,
}

impl IssuerView {
    /// The two indices agree: every record's refresh token leads back to its
    /// access token, every refresh token leads to a record that names it, and
    /// no string is both an access token and a refresh token.
    pub open spec fn wf(self) -> bool {
        &&& forall|a: Seq<char>| #[trigger]
            self.access.contains_key(a) ==> {
                &&& self.refresh.contains_key(self.access[a].refresh)
                &&& self.refresh[self.access[a].refresh] == a
                &&& !self.refresh.contains_key(a)
            }
        &&& forall|r: Seq<char>| #[trigger]
            self.refresh.contains_key(r) ==> {
                &&& self.access.contains_key(self.refresh[r])
                &&& self.access[self.refresh[r]].refresh == r
            }
    }

    /// `t` is a live access token or a live refresh token.
    pub open spec fn is_live(self, t: Seq<char>) -> bool {
        self.access.contains_key(t) || self.refresh.contains_key(t)
    }

    /// Two non-empty, distinct strings that are not live yet.
    pub open spec fn fresh_pair(self, a: Seq<char>, r: Seq<char>) -> bool {
        &&& a.len() > 0
        &&& r.len() > 0
        &&& a != r
        &&& !self.is_live(a)
        &&& !self.is_live(r)
    }

    /// The grant that access token `t` was issued for, if it is live.
    pub open spec fn access_grant(self, t: Seq<char>) -> Option<GrantView> {
        if self.access.contains_key(t) {
            Some(self.access[t].grant)
        } else {
            None
        }
    }

    /// The grant that refresh token `t` belongs to, if it is live.
    pub open spec fn refresh_grant(self, t: Seq<char>) -> Option<GrantView> {
        if self.refresh.contains_key(t) {
            Some(self.access[self.refresh[t]].grant)
        } else {
            None
        }
    }

    /// The state after issuing access token `a` and refresh token `r` for `g`.
    pub open spec fn issued(self, g: GrantView, a: Seq<char>, r: Seq<char>) -> IssuerView {
        IssuerView {
            access: self.access.insert(a, TokenView { refresh: r, grant: g }),
            refresh: self.refresh.insert(r, a),
        }
    }

    /// The state after refresh token `old` was exchanged for access token `a`
    /// and refresh token `r` on grant `g`: the old pair is gone, the new one live.
    pub open spec fn rotated(self, old: Seq<char>, g: GrantView, a: Seq<char>, r: Seq<char>) -> IssuerView {
        IssuerView {
            access: self.access.remove(self.refresh[old]).insert(a, TokenView { refresh: r, grant: g }),
            refresh: self.refresh.remove(old).insert(r, a),
        }
    }
}

/// The expiry that the duration policy gives: unchanged without a policy,
/// else `now + d`, held within the range of `i64`.
pub open spec fn policy_until(duration: Option<i64>, now: i64, until: int) -> int {
    match duration {
        None => until,
        Some(d) => {
            let t = now + d;
            if t > i64::MAX {
                i64::MAX as int
            } else if t < i64::MIN {
                i64::MIN as int
            } else {
                t
            }
        },
    }
}

/// Why the issuer did not hand out tokens.
#[derive(Debug, PartialEq, Eq, Structural, Clone, Copy)]
pub enum IssuerError {
    /// The refresh token is not live.
    NotFound,
    /// No usable token could be drawn, or the indices disagreed.
    Fatal,
}

/// Tokens handed out for a grant.
pub struct IssuedToken {
    pub token: String,
    pub refresh: String,
    pub until: i64,
}

/// Keeps the live tokens and the grants they were issued for.
pub struct Issuer {
    duration: Option<i64>,
    generator: RandomGenerator,
    usage: u64,
    access: StringHashMap<TokenRecord>,
    refresh: StringHashMap<String>,
}

impl View for Issuer {
    type V = IssuerView;

    closed spec fn view(&self) -> IssuerView {
        IssuerView {
            access: self.access@.map_values(|rec: TokenRecord| rec@),
            refresh: self.refresh@.map_values(|s: String| s@),
        }
    }
}

proof fn lemma_issued_wf(v: IssuerView, g: GrantView, a: Seq<char>, r: Seq<char>)
    requires
        v.wf(),
        v.fresh_pair(a, r),
    ensures
        v.issued(g, a, r).wf(),
{
    let w = v.issued(g, a, r);
    assert forall|x: Seq<char>| #[trigger] w.access.contains_key(x) implies {
        &&& w.refresh.contains_key(w.access[x].refresh)
        &&& w.refresh[w.access[x].refresh] == x
        &&& !w.refresh.contains_key(x)
    } by {
        if x != a {
            assert(v.access.contains_key(x));
            assert(v.refresh.contains_key(v.access[x].refresh));
        }
    }
    assert forall|y: Seq<char>| #[trigger] w.refresh.contains_key(y) implies {
        &&& w.access.contains_key(w.refresh[y])
        &&& w.access[w.refresh[y]].refresh == y
    } by {
        if y != r {
            assert(v.refresh.contains_key(y));
            assert(v.access.contains_key(v.refresh[y]));
        }
    }
}

proof fn lemma_rotated_wf(v: IssuerView, old: Seq<char>, g: GrantView, a: Seq<char>, r: Seq<char>)
    requires
        v.wf(),
        v.refresh.contains_key(old),
        v.fresh_pair(a, r),
    ensures
        v.rotated(old, g, a, r).wf(),
{
    let w = v.rotated(old, g, a, r);
    let old_access = v.refresh[old];
    assert(v.access.contains_key(old_access));
    assert forall|x: Seq<char>| #[trigger] w.access.contains_key(x) implies {
        &&& w.refresh.contains_key(w.access[x].refresh)
        &&& w.refresh[w.access[x].refresh] == x
        &&& !w.refresh.contains_key(x)
    } by {
        if x != a {
            assert(v.access.contains_key(x));
            assert(v.refresh.contains_key(v.access[x].refresh));
        }
    }
    assert forall|y: Seq<char>| #[trigger] w.refresh.contains_key(y) implies {
        &&& w.access.contains_key(w.refresh[y])
        &&& w.access[w.refresh[y]].refresh == y
    } by {
        if y != r {
            assert(v.refresh.contains_key(y));
            assert(v.access.contains_key(v.refresh[y]));
        }
    }
}

/// Issuing a fresh pair for a grant: the access token and the refresh token
/// both resolve to the grant, whose expiry alone the policy may have set, and
/// the two tokens differ.
pub proof fn lemma_issued_tokens_resolve(v: IssuerView, g: GrantView, until: int, a: Seq<char>, r: Seq<char>)
    requires
        v.wf(),
        v.fresh_pair(a, r),
    ensures
        v.issued(g.with_until(until), a, r).wf(),
        v.issued(g.with_until(until), a, r).access_grant(a) == Some(g.with_until(until)),
        v.issued(g.with_until(until), a, r).refresh_grant(r) == Some(g.with_until(until)),
        g.with_until(until).same_authorization(g),
        a != r,
{
    lemma_issued_wf(v, g.with_until(until), a, r);
}

/// After refresh token `old` is exchanged for a new pair, neither the old
/// access token nor `old` resolves any more (so a second exchange of `old`
/// finds nothing), and the new pair resolves to the new grant.
pub proof fn lemma_rotation_invalidates(v: IssuerView, old: Seq<char>, g: GrantView, a: Seq<char>, r: Seq<char>)
    requires
        v.wf(),
        v.refresh.contains_key(old),
        v.fresh_pair(a, r),
    ensures
        v.rotated(old, g, a, r).wf(),
        v.rotated(old, g, a, r).access_grant(v.refresh[old]) is None,
        v.rotated(old, g, a, r).refresh_grant(old) is None,
        !v.rotated(old, g, a, r).refresh.contains_key(old),
        v.rotated(old, g, a, r).access_grant(a) == Some(g),
        v.rotated(old, g, a, r).refresh_grant(r) == Some(g),
{
    lemma_rotated_wf(v, old, g, a, r);
    assert(v.access.contains_key(v.refresh[old]));
}

/// A run of issues, each on the state the previous one left.
pub open spec fn issue_run(
    states: Seq<IssuerView>,
    grants: Seq<GrantView>,
    access: Seq<Seq<char>>,
    refresh: Seq<Seq<char>>,
) -> bool {
    &&& states.len() == access.len() + 1
    &&& grants.len() == access.len()
    &&& refresh.len() == access.len()
    &&& forall|i: int|
        0 <= i < access.len() ==> {
            &&& #[trigger] states[i].fresh_pair(access[i], refresh[i])
            &&& states[i + 1] == states[i].issued(grants[i], access[i], refresh[i])
        }
}

proof fn lemma_issue_run_keeps_live(
    states: Seq<IssuerView>,
    grants: Seq<GrantView>,
    access: Seq<Seq<char>>,
    refresh: Seq<Seq<char>>,
    i: int,
    j: int,
)
    requires
        issue_run(states, grants, access, refresh),
        0 <= i < j <= access.len(),
    ensures
        states[j].is_live(access[i]),
        states[j].is_live(refresh[i]),
    decreases j - i,
{
    assert(states[i].fresh_pair(access[i], refresh[i]));
    if j > i + 1 {
        lemma_issue_run_keeps_live(states, grants, access, refresh, i, j - 1);
        assert(states[j - 1].fresh_pair(access[j - 1], refresh[j - 1]));
    }
}

/// Issuing grants one after another hands out pairwise distinct access
/// tokens and pairwise distinct refresh tokens, and no access token equals
/// any refresh token.
pub proof fn lemma_issued_tokens_distinct(
    states: Seq<IssuerView>,
    grants: Seq<GrantView>,
    access: Seq<Seq<char>>,
    refresh: Seq<Seq<char>>,
)
    requires
        issue_run(states, grants, access, refresh),
    ensures
        forall|i: int, j: int|
            0 <= i < access.len() && 0 <= j < access.len() && i != j ==> #[trigger] access[i]
                != #[trigger] access[j],
        forall|i: int, j: int|
            0 <= i < access.len() && 0 <= j < access.len() && i != j ==> #[trigger] refresh[i]
                != #[trigger] refresh[j],
        forall|i: int, j: int|
            0 <= i < access.len() && 0 <= j < access.len() ==> #[trigger] access[i]
                != #[trigger] refresh[j],
{
    assert forall|i: int, j: int| 0 <= i < access.len() && 0 <= j < access.len() && i < j implies access[i]
        != access[j] && refresh[i] != refresh[j] && access[i] != refresh[j] && refresh[i] != access[j] by {
        lemma_issue_run_keeps_live(states, grants, access, refresh, i, j);
        assert(states[j].fresh_pair(access[j], refresh[j]));
    }
    assert forall|i: int| 0 <= i < access.len() implies access[i] != refresh[i] by {
        assert(states[i].fresh_pair(access[i], refresh[i]));
    }
}

impl Issuer {
    /// An issuer with no live tokens and no duration policy.
    pub fn new(generator: RandomGenerator) -> (r: Issuer)
        ensures
            r@.access == Map::<Seq<char>, TokenView>::empty(),
            r@.refresh == Map::<Seq<char>, Seq<char>>::empty(),
            r@.wf(),
            r.duration() == None::<i64>,
    {
        let r = Issuer {
            duration: None,
            generator,
            usage: 0,
            access: StringHashMap::new(),
            refresh: StringHashMap::new(),
        };
        assert(r@.access =~= Map::<Seq<char>, TokenView>::empty());
        assert(r@.refresh =~= Map::<Seq<char>, Seq<char>>::empty());
        r
    }

    /// The duration policy: the lifetime in seconds given to each issued grant.
    pub closed spec fn duration(&self) -> Option<i64> {
        self.duration
    }

    /// Sets the duration policy.
    pub fn set_duration(&mut self, duration: Option<i64>)
        ensures
            final(self)@ == old(self)@,
            final(self).duration() == duration,
    {
        self.duration = duration;
    }

    /// Applies the duration policy to `grant` at time `now`.
    pub fn apply_duration(&self, grant: &mut Grant, now: i64)
        ensures
            final(grant)@ == old(grant)@.with_until(policy_until(self.duration(), now, old(grant)@.until)),
    {
        match self.duration {
            None => {},
            Some(d) => {
                if d > 0 && now > i64::MAX - d {
                    grant.until = i64::MAX;
                } else if d < 0 && now < i64::MIN - d {
                    grant.until = i64::MIN;
                } else {
                    grant.until = now + d;
                }
            },
        }
    }

    /// Whether `t` is a live access token or refresh token.
    fn is_live(&self, t: &str) -> (r: bool)
        ensures
            r == self@.is_live(t@),
    {
        self.access.contains_key(t) || self.refresh.contains_key(t)
    }

    /// Whether `a` and `r` may become a new token pair.
    fn is_fresh_pair(&self, a: &String, r: &String) -> (b: bool)
        ensures
            b == self@.fresh_pair(a@, r@),
    {
        !a.as_str().is_empty() && !r.as_str().is_empty() && !(*a == *r) && !self.is_live(a.as_str())
            && !self.is_live(r.as_str())
    }

    /// Issues `access` and `refresh` for `grant`, with the duration policy
    /// applied at `now`. The pair is taken only when both are non-empty,
    /// distinct and not live yet; otherwise nothing changes and the result
    /// is `Fatal`.
    pub fn issue_with(&mut self, grant: Grant, now: i64, access: String, refresh: String) -> (r:
        Result<IssuedToken, IssuerError>)
        requires
            old(self)@.wf(),
        ensures
            forall|t: Seq<char>| old(self)@.is_live(t) ==> #[trigger] final(self)@.is_live(t),
            r matches Ok(t) ==> final(self)@.is_live(t.token@) && final(self)@.is_live(t.refresh@),
            final(self)@.wf(),
            final(self).duration() == old(self).duration(),
            r is Ok <==> old(self)@.fresh_pair(access@, refresh@),
            r matches Ok(t) ==> {
                let g = grant@.with_until(policy_until(old(self).duration(), now, grant@.until));
                &&& t.token@ == access@
                &&& t.refresh@ == refresh@
                &&& t.until == g.until
                &&& final(self)@ == old(self)@.issued(g, access@, refresh@)
            },
            r matches Err(e) ==> e == IssuerError::Fatal && final(self)@ == old(self)@,
    {
        if !self.is_fresh_pair(&access, &refresh) {
            return Err(IssuerError::Fatal);
        }
        let mut grant = grant;
        self.apply_duration(&mut grant, now);
        let until = grant.until;
        let ghost pre = self@;
        let ghost g = grant@;
        let record = TokenRecord { refresh: refresh.clone(), grant };
        self.access.insert(access.clone(), record);
        self.refresh.insert(refresh.clone(), access.clone());
        proof {
            lemma_issued_wf(pre, g, access@, refresh@);
            assert(self@.access =~= pre.issued(g, access@, refresh@).access);
            assert(self@.refresh =~= pre.issued(g, access@, refresh@).refresh);
        }
        Ok(IssuedToken { token: access, refresh, until })
    }

    /// Exchanges the live refresh token `refresh` for `new_access` and
    /// `new_refresh` on `grant`, with the duration policy applied at `now`.
    /// An unknown refresh token gives `NotFound`; a new pair that is empty,
    /// repeated or already live gives `Fatal`; either way nothing changes.
    pub fn refresh_with(
        &mut self,
        refresh: &str,
        grant: Grant,
        now: i64,
        new_access: String,
        new_refresh: String,
    ) -> (r: Result<IssuedToken, IssuerError>)
        requires
            old(self)@.wf(),
        ensures
            r is Ok ==> {
                &&& final(self)@.access_grant(old(self)@.refresh[refresh@]) is None
                &&& final(self)@.refresh_grant(refresh@) is None
                &&& !final(self)@.refresh.contains_key(refresh@)
            },
            final(self)@.wf(),
            final(self).duration() == old(self).duration(),
            r == Err::<IssuedToken, IssuerError>(IssuerError::NotFound) <==> !old(
                self,
            )@.refresh.contains_key(refresh@),
            r is Ok <==> old(self)@.refresh.contains_key(refresh@) && old(self)@.fresh_pair(
                new_access@,
                new_refresh@,
            ),
            r matches Ok(t) ==> {
                let g = grant@.with_until(policy_until(old(self).duration(), now, grant@.until));
                &&& t.token@ == new_access@
                &&& t.refresh@ == new_refresh@
                &&& t.until == g.until
                &&& final(self)@ == old(self)@.rotated(refresh@, g, new_access@, new_refresh@)
            },
            r is Err ==> final(self)@ == old(self)@,
    {
        let old_access = match self.refresh.get(refresh) {
            None => return Err(IssuerError::NotFound),
            Some(a) => a.clone(),
        };
        // The record reached through the refresh index must name that refresh token.
        let key: String = refresh.to_owned();
        let consistent = match self.access.get(old_access.as_str()) {
            None => false,
            Some(rec) => rec.refresh == key,
        };
        if !consistent {
            return Err(IssuerError::Fatal);
        }
        if !self.is_fresh_pair(&new_access, &new_refresh) {
            return Err(IssuerError::Fatal);
        }
        let mut grant = grant;
        self.apply_duration(&mut grant, now);
        let until = grant.until;
        let ghost pre = self@;
        let ghost g = grant@;
        proof {
            assert(pre.refresh.contains_key(refresh@));
            assert(pre.refresh[refresh@] == old_access@);
        }
        self.access.remove(old_access.as_str());
        self.refresh.remove(refresh);
        let record = TokenRecord { refresh: new_refresh.clone(), grant };
        self.access.insert(new_access.clone(), record);
        self.refresh.insert(new_refresh.clone(), new_access.clone());
        proof {
            lemma_rotation_invalidates(pre, refresh@, g, new_access@, new_refresh@);
            assert(self@.access =~= pre.rotated(refresh@, g, new_access@, new_refresh@).access);
            assert(self@.refresh =~= pre.rotated(refresh@, g, new_access@, new_refresh@).refresh);
        }
        Ok(IssuedToken { token: new_access, refresh: new_refresh, until })
    }

    /// The grant that access token `token` was issued for, if it is live.
    pub fn recover_by_access(&self, token: &str) -> (r: Option<Grant>)
        ensures
            r matches Some(g) ==> self@.access_grant(token@) == Some(g@),
            r is None ==> self@.access_grant(token@) is None,
    {
        match self.access.get(token) {
            None => None,
            Some(rec) => Some(rec.grant.duplicate()),
        }
    }

    /// The grant that refresh token `token` belongs to, if it is live.
    pub fn recover_by_refresh(&self, token: &str) -> (r: Option<Grant>)
        requires
            self@.wf(),
        ensures
            r matches Some(g) ==> self@.refresh_grant(token@) == Some(g@),
            r is None ==> self@.refresh_grant(token@) is None,
    {
        match self.refresh.get(token) {
            None => None,
            Some(a) => match self.access.get(a.as_str()) {
                None => None,
                Some(rec) => Some(rec.grant.duplicate()),
            },
        }
    }

    /// Draws two tokens from the generator, advancing the usage counter.
    fn draw_pair(&mut self, grant: &Grant) -> (r: Option<(String, String)>)
        ensures
            final(self)@ == old(self)@,
            final(self).duration() == old(self).duration(),
    {
        let access = match tag_token(&mut self.generator, self.usage, grant) {
            Ok(t) => t,
            Err(_) => return None,
        };
        let refresh = match tag_token(&mut self.generator, self.usage.wrapping_add(1), grant) {
            Ok(t) => t,
            Err(_) => return None,
        };
        self.usage = self.usage.wrapping_add(2);
        Some((access, refresh))
    }

    /// Issues a fresh access token and refresh token for `grant`, with the
    /// duration policy applied at `now`.
    pub fn issue_at(&mut self, grant: Grant, now: i64) -> (r: Result<IssuedToken, IssuerError>)
        requires
            old(self)@.wf(),
        ensures
            forall|t: Seq<char>| old(self)@.is_live(t) ==> #[trigger] final(self)@.is_live(t),
            r matches Ok(t) ==> final(self)@.is_live(t.token@) && final(self)@.is_live(t.refresh@),
            final(self)@.wf(),
            final(self).duration() == old(self).duration(),
            r matches Ok(t) ==> {
                let g = grant@.with_until(policy_until(old(self).duration(), now, grant@.until));
                &&& old(self)@.fresh_pair(t.token@, t.refresh@)
                &&& t.until == g.until
                &&& final(self)@ == old(self)@.issued(g, t.token@, t.refresh@)
            },
            r matches Err(e) ==> e == IssuerError::Fatal && final(self)@ == old(self)@,
    {
        match self.draw_pair(&grant) {
            None => Err(IssuerError::Fatal),
            Some((access, refresh)) => self.issue_with(grant, now, access, refresh),
        }
    }

    /// Issues a fresh access token and refresh token for `grant`, with the
    /// duration policy applied at the current time.
    pub fn issue(&mut self, grant: Grant) -> (r: Result<IssuedToken, IssuerError>)
        requires
            old(self)@.wf(),
        ensures
            forall|t: Seq<char>| old(self)@.is_live(t) ==> #[trigger] final(self)@.is_live(t),
            r matches Ok(t) ==> final(self)@.is_live(t.token@) && final(self)@.is_live(t.refresh@),
            final(self)@.wf(),
            final(self).duration() == old(self).duration(),
            r matches Ok(t) ==> {
                &&& old(self)@.fresh_pair(t.token@, t.refresh@)
                &&& final(self)@ == old(self)@.issued(grant@.with_until(t.until as int), t.token@, t.refresh@)
                &&& old(self).duration() is None ==> t.until == grant.until
            },
            r matches Err(e) ==> e == IssuerError::Fatal && final(self)@ == old(self)@,
    {
        let now = now_seconds();
        self.issue_at(grant, now)
    }

    /// Exchanges the live refresh token `refresh` for a fresh pair on
    /// `grant`, with the duration policy applied at `now`.
    pub fn refresh_at(&mut self, refresh: &str, grant: Grant, now: i64) -> (r: Result<
        IssuedToken,
        IssuerError,
    >)
        requires
            old(self)@.wf(),
        ensures
            r is Ok ==> {
                &&& final(self)@.access_grant(old(self)@.refresh[refresh@]) is None
                &&& final(self)@.refresh_grant(refresh@) is None
                &&& !final(self)@.refresh.contains_key(refresh@)
            },
            final(self)@.wf(),
            final(self).duration() == old(self).duration(),
            r == Err::<IssuedToken, IssuerError>(IssuerError::NotFound) <==> !old(
                self,
            )@.refresh.contains_key(refresh@),
            r matches Ok(t) ==> {
                let g = grant@.with_until(policy_until(old(self).duration(), now, grant@.until));
                &&& old(self)@.refresh.contains_key(refresh@)
                &&& old(self)@.fresh_pair(t.token@, t.refresh@)
                &&& t.until == g.until
                &&& final(self)@ == old(self)@.rotated(refresh@, g, t.token@, t.refresh@)
            },
            r is Err ==> final(self)@ == old(self)@,
    {
        if !self.refresh.contains_key(refresh) {
            return Err(IssuerError::NotFound);
        }
        match self.draw_pair(&grant) {
            None => Err(IssuerError::Fatal),
            Some((access, new_refresh)) => self.refresh_with(refresh, grant, now, access, new_refresh),
        }
    }

    /// Exchanges the live refresh token `refresh` for a fresh pair on
    /// `grant`, with the duration policy applied at the current time.
    pub fn refresh(&mut self, refresh: &str, grant: Grant) -> (r: Result<IssuedToken, IssuerError>)
        requires
            old(self)@.wf(),
        ensures
            r is Ok ==> {
                &&& final(self)@.access_grant(old(self)@.refresh[refresh@]) is None
                &&& final(self)@.refresh_grant(refresh@) is None
                &&& !final(self)@.refresh.contains_key(refresh@)
            },
            final(self)@.wf(),
            final(self).duration() == old(self).duration(),
            r == Err::<IssuedToken, IssuerError>(IssuerError::NotFound) <==> !old(
                self,
            )@.refresh.contains_key(refresh@),
            r matches Ok(t) ==> {
                &&& old(self)@.refresh.contains_key(refresh@)
                &&& old(self)@.fresh_pair(t.token@, t.refresh@)
                &&& final(self)@ == old(self)@.rotated(refresh@, grant@.with_until(t.until as int), t.token@, t.refresh@)
                &&& old(self).duration() is None ==> t.until == grant.until
            },
            r is Err ==> final(self)@ == old(self)@,
    {
        let now = now_seconds();
        self.refresh_at(refresh, grant, now)
    }
}

} // verus!
