//! The authorizer: single-use authorization codes, each bound to one grant.

use crate::grant::{Grant, GrantView};
use crate::token::tag_token;
use oxide_auth::primitives::generator::RandomGenerator;
use vstd::hash_map::StringHashMap;
use vstd::prelude::*;

verus! {

/// Why the authorizer gave no code or no grant.
#[derive(Debug, PartialEq, Eq, Structural, Clone, Copy)]
pub enum AuthorizerError {
    /// The code is not pending: never issued, or already redeemed.
    NotFound,
    /// No usable code could be drawn.
    Fatal,
}

/// What redeeming `code` against the pending codes `m` gives: the grant, if
/// the code is pending, and the pending codes afterwards.
pub open spec fn redeem_outcome(m: Map<Seq<char>, GrantView>, code: Seq<char>) -> (Option<GrantView>, Map<
    Seq<char>,
    GrantView,
>) {
    if m.contains_key(code) {
        (Some(m[code]), m.remove(code))
    } else {
        (None, m)
    }
}

/// Hands out authorization codes and takes each back exactly once.
pub struct Authorizer {
    generator: RandomGenerator,
    usage: u64,
    codes: StringHashMap<Grant>,
}

impl View for Authorizer {
    type V = Map<Seq<char>, GrantView>;

    /// The pending codes and their grants.
    closed spec fn view(&self) -> Map<Seq<char>, GrantView> {
        self.codes@.map_values(|g: Grant| g@)
    }
}

/// A code issued for a grant redeems to that grant once, leaving the pending
/// codes as they were before the issue; redeeming it again finds nothing.
pub proof fn lemma_code_single_use(codes: Map<Seq<char>, GrantView>, g: GrantView, code: Seq<char>)
    requires
        !codes.contains_key(code),
    ensures
        redeem_outcome(codes.insert(code, g), code) == (Some(g), codes),
        redeem_outcome(redeem_outcome(codes.insert(code, g), code).1, code).0 is None,
{
    assert(codes.insert(code, g).remove(code) =~= codes);
}

impl Authorizer {
    /// An authorizer with no pending codes.
    pub fn new(generator: RandomGenerator) -> (r: Authorizer)
        ensures
            r@ == Map::<Seq<char>, GrantView>::empty(),
    {
        let r = Authorizer { generator, usage: 0, codes: StringHashMap::new() };
        assert(r@ =~= Map::<Seq<char>, GrantView>::empty());
        r
    }

    /// Binds `code` to `grant`. The code is taken only when it is non-empty
    /// and not pending yet; otherwise nothing changes and the result is `Fatal`.
    pub fn issue_with_code(&mut self, grant: Grant, code: String) -> (r: Result<String, AuthorizerError>)
        ensures
            r is Ok <==> code@.len() > 0 && !old(self)@.contains_key(code@),
            r matches Ok(c) ==> c@ == code@ && final(self)@ == old(self)@.insert(code@, grant@),
            r matches Err(e) ==> e == AuthorizerError::Fatal && final(self)@ == old(self)@,
    {
        if code.as_str().is_empty() || self.codes.contains_key(code.as_str()) {
            return Err(AuthorizerError::Fatal);
        }
        let ghost pre = self@;
        let ghost g = grant@;
        self.codes.insert(code.clone(), grant);
        assert(self@ =~= pre.insert(code@, g));
        Ok(code)
    }

    /// Binds a fresh code, drawn from the generator, to `grant`.
    pub fn issue(&mut self, grant: Grant) -> (r: Result<String, AuthorizerError>)
        ensures
            r matches Ok(c) ==> {
                &&& c@.len() > 0
                &&& !old(self)@.contains_key(c@)
                &&& final(self)@ == old(self)@.insert(c@, grant@)
            },
            r matches Err(e) ==> e == AuthorizerError::Fatal && final(self)@ == old(self)@,
    {
        let code = match tag_token(&mut self.generator, self.usage, &grant) {
            Ok(c) => c,
            Err(_) => return Err(AuthorizerError::Fatal),
        };
        self.usage = self.usage.wrapping_add(1);
        self.issue_with_code(grant, code)
    }

    /// Takes back the grant bound to `code` and forgets the code, so that it
    /// cannot be redeemed twice. A code that is not pending gives `NotFound`.
    pub fn redeem(&mut self, code: &str) -> (r: Result<Grant, AuthorizerError>)
        ensures
            final(self)@ == redeem_outcome(old(self)@, code@).1,
            r matches Ok(g) ==> redeem_outcome(old(self)@, code@).0 == Some(g@),
            r matches Err(e) ==> e == AuthorizerError::NotFound && redeem_outcome(
                old(self)@,
                code@,
            ).0 is None,
    {
        let grant = match self.codes.get(code) {
            None => return Err(AuthorizerError::NotFound),
            Some(g) => g.duplicate(),
        };
        let ghost pre = self@;
        self.codes.remove(code);
        assert(self@ =~= pre.remove(code@));
        Ok(grant)
    }
}

} // verus!
