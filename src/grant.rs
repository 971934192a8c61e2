//! The grant model: who authorized which client, for what, and until when.

use oxide_auth::primitives::scope::Scope;
use vstd::prelude::*;

verus! {

/// oxide_auth's scope: a set of scope tokens.
#[verifier::external_type_specification]
#[verifier::external_body]
pub struct ExScope(Scope);

/// The set of scope tokens that a `Scope` holds.
pub uninterp spec fn scope_tokens(s: Scope) -> Set<Seq<char>>;

/// A character that may stand in scope text: the token characters
/// `!`, `#`..=`[`, `]`..=`~`, and the space that separates tokens.
pub open spec fn scope_char_ok(c: char) -> bool {
    c == '!' || ('#' <= c && c <= '[') || (']' <= c && c <= '~') || c == ' '
}

/// Scope text is accepted when every character of it may stand there.
pub open spec fn scope_text_ok(s: Seq<char>) -> bool {
    forall|i: int| 0 <= i < s.len() ==> scope_char_ok(#[trigger] s[i])
}

/// `w` stands in `s` at `i` as a whole word: bounded by spaces or by the ends.
pub open spec fn word_at(s: Seq<char>, w: Seq<char>, i: int) -> bool {
    &&& 0 <= i
    &&& i + w.len() <= s.len()
    &&& s.subrange(i, i + w.len()) == w
    &&& (i == 0 || s[i - 1] == ' ')
    &&& (i + w.len() == s.len() || s[i + w.len()] == ' ')
}

/// The non-empty words of `s` separated by single spaces.
pub open spec fn scope_words(s: Seq<char>) -> Set<Seq<char>> {
    Set::new(|w: Seq<char>| w.len() > 0 && !w.contains(' ') && exists|i: int| word_at(s, w, i))
}

/// Relies on `<Scope as FromStr>::from_str`: it refuses text with a character
/// outside the scope alphabet, and otherwise keeps the non-empty pieces
/// between spaces as the set of tokens.
#[verifier::external_body]
pub(crate) fn parse_scope_text(s: &str) -> (r: Option<Scope>)
    ensures
        r is Some <==> scope_text_ok(s@),
        r matches Some(sc) ==> scope_tokens(sc) == scope_words(s@),
{
    s.parse::<Scope>().ok()
}

/// Relies on `Scope::allow_access`: `required.allow_access(granted)` holds
/// exactly when every token of `required` is a token of `granted`.
#[verifier::external_body]
pub(crate) fn scope_allows(required: &Scope, granted: &Scope) -> (r: bool)
    ensures
        r == scope_tokens(*required).subset_of(scope_tokens(*granted)),
{
    required.allow_access(granted)
}

/// Relies on the derived `Clone` of `Scope`: the copy holds the same tokens.
pub assume_specification[ <Scope as Clone>::clone ](s: &Scope) -> (r: Scope)
    ensures
        scope_tokens(r) == scope_tokens(*s),
;

/// One authorization: a client acting for a resource owner, within a scope,
/// bound to a redirect URI, valid until an instant in seconds since the epoch.
#[derive(Clone, Debug)]
pub struct Grant {
    pub owner_id: String,
    pub client_id: String,
    pub redirect_uri: String,
    pub scope: Scope,
    pub until: i64,
}

/// The mathematical value of a grant.
pub struct GrantView {
    pub owner_id: Seq<char>,
    pub client_id: Seq<char>,
    pub redirect_uri: Seq<char>,
    pub scope: Set<Seq<char>>,
    pub until: int,
}

impl View for Grant {
    type V = GrantView;

    open spec fn view(&self) -> GrantView {
        GrantView {
            owner_id: self.owner_id@,
            client_id: self.client_id@,
            redirect_uri: self.redirect_uri@,
            scope: scope_tokens(self.scope),
            until: self.until as int,
        }
    }
}

impl GrantView {
    /// The same grant with another expiry.
    pub open spec fn with_until(self, until: int) -> GrantView {
        GrantView { until, ..self }
    }

    /// Two grants agree on everything but their expiry.
    pub open spec fn same_authorization(self, other: GrantView) -> bool {
        self.with_until(0) == other.with_until(0)
    }
}

impl Grant {
    /// A copy of the grant.
    pub fn duplicate(&self) -> (r: Grant)
        ensures
            r@ == self@,
    {
        Grant {
            owner_id: self.owner_id.clone(),
            client_id: self.client_id.clone(),
            redirect_uri: self.redirect_uri.clone(),
            scope: self.scope.clone(),
            until: self.until,
        }
    }

    /// Whether the grant has run out at `now`: its expiry is not after `now`.
    pub fn is_expired(&self, now: i64) -> (r: bool)
        ensures
            r == (self@.until <= now),
    {
        self.until <= now
    }
}

} // verus!
