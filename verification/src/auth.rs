//! Token authentication: the access-token table and the per-request
//! authentication context.

use vstd::prelude::*;
use vstd::string::StringExecFns;
use crate::text::str_eq;
use crate::validate::view_opt;

verus! {

/// One access credential: an opaque token bound to a principal (username).
pub struct AccessToken {
    pub token: String,
    pub principal: String,
}

/// Abstract token table: token/principal pairs in stored order.
pub type TokenModel = Seq<(Seq<char>, Seq<char>)>;

pub open spec fn has_token(t: TokenModel, tok: Seq<char>) -> bool {
    exists|i: int| 0 <= i < t.len() && (#[trigger] t[i]).0 == tok
}

pub open spec fn token_idx(t: TokenModel, tok: Seq<char>) -> int {
    choose|i: int| 0 <= i < t.len() && (#[trigger] t[i]).0 == tok
}

/// Resolution of an optional request token: an absent or unknown token is
/// anonymous, a stored token yields its principal.
pub open spec fn spec_resolve(t: TokenModel, tok: Option<Seq<char>>) -> Option<Seq<char>> {
    match tok {
        None => None,
        Some(s) => if has_token(t, s) {
            Some(t[token_idx(t, s)].1)
        } else {
            None
        },
    }
}

/// Insertion binds a new token, or rebinds an already stored one.
pub open spec fn spec_insert(t: TokenModel, tok: Seq<char>, principal: Seq<char>) -> TokenModel {
    if has_token(t, tok) {
        Seq::new(
            t.len(),
            |i: int|
                if t[i].0 == tok {
                    (t[i].0, principal)
                } else {
                    t[i]
                },
        )
    } else {
        t.push((tok, principal))
    }
}

pub open spec fn tokens_unique(t: TokenModel) -> bool {
    forall|i: int, j: int| 0 <= i < j < t.len() ==> t[i].0 != t[j].0
}

pub open spec fn opt_string_view(o: Option<String>) -> Option<Seq<char>> {
    match o {
        Some(s) => Some(s@),
        None => None,
    }
}

/// The token table, read-only while requests are served.
pub struct AccessTokenStore {
    tokens: Vec<AccessToken>,
}

spec fn tokens_model_of(s: Seq<AccessToken>) -> TokenModel {
    s.map(|i: int, a: AccessToken| (a.token@, a.principal@))
}

impl AccessTokenStore {
    pub closed spec fn model(&self) -> TokenModel {
        tokens_model_of(self.tokens@)
    }

    #[verifier::type_invariant]
    spec fn inv(&self) -> bool {
        tokens_unique(self.model())
    }

    pub fn new() -> (r: AccessTokenStore)
        ensures
            r.model() == Seq::<(Seq<char>, Seq<char>)>::empty(),
    {
        let r = AccessTokenStore { tokens: Vec::new() };
        proof {
            assert(r.model() =~= Seq::<(Seq<char>, Seq<char>)>::empty());
        }
        r
    }

    fn find_index(&self, tok: &str) -> (r: Option<usize>)
        ensures
            match r {
                Some(i) => i < self.model().len() && self.model()[i as int].0 == tok@,
                None => !has_token(self.model(), tok@),
            },
    {
        let n = self.tokens.len();
        let mut i: usize = 0;
        while i < n
            invariant
                i <= n,
                n == self.tokens@.len(),
                forall|j: int| 0 <= j < i ==> (#[trigger] self.model()[j]).0 != tok@,
            decreases n - i,
        {
            if str_eq(self.tokens[i].token.as_str(), tok) {
                return Some(i);
            }
            i = i + 1;
        }
        None
    }

    /// Binds a token to a principal, replacing the binding of an already
    /// stored token.
    pub fn insert(&mut self, token: String, principal: String)
        ensures
            final(self).model() == spec_insert(old(self).model(), token@, principal@),
    {
        proof {
            use_type_invariant(&*self);
        }
        let ghost t0 = self.model();
        match self.find_index(token.as_str()) {
            Some(i) => {
                let kept = self.tokens[i].token.clone();
                let mut tokens: Vec<AccessToken> = Vec::new();
                proof {
                    assert(tokens_unique(tokens_model_of(tokens@)));
                }
                core::mem::swap(&mut self.tokens, &mut tokens);
                tokens.set(i, AccessToken { token: kept, principal });
                proof {
                    assert(tokens_model_of(tokens@) =~= spec_insert(t0, token@, principal@));
                    assert(tokens_unique(tokens_model_of(tokens@)));
                }
                core::mem::swap(&mut self.tokens, &mut tokens);
            },
            None => {
                let mut tokens: Vec<AccessToken> = Vec::new();
                proof {
                    assert(tokens_unique(tokens_model_of(tokens@)));
                }
                core::mem::swap(&mut self.tokens, &mut tokens);
                tokens.push(AccessToken { token, principal });
                proof {
                    assert(tokens_model_of(tokens@) =~= spec_insert(t0, token@, principal@));
                    assert(tokens_unique(tokens_model_of(tokens@)));
                }
                core::mem::swap(&mut self.tokens, &mut tokens);
            },
        }
    }

    /// Resolves an optional request token to its principal, or to anonymous.
    pub fn resolve(&self, token: Option<&str>) -> (r: Option<String>)
        ensures
            opt_string_view(r) == spec_resolve(self.model(), view_opt(token)),
    {
        proof {
            use_type_invariant(&*self);
        }
        match token {
            None => None,
            Some(tok) => match self.find_index(tok) {
                Some(i) => {
                    proof {
                        let k = token_idx(self.model(), tok@);
                        assert(0 <= k < self.model().len() && self.model()[k].0 == tok@);
                        assert(k == i);
                    }
                    Some(self.tokens[i].principal.clone())
                },
                None => None,
            },
        }
    }
}

/// Per-request authentication result, created before any handler body runs.
pub struct RequestContext {
    pub current_user: Option<String>,
}

impl Default for RequestContext {
    /// An anonymous context.
    fn default() -> (r: RequestContext)
        ensures
            r.current_user is None,
    {
        RequestContext { current_user: None }
    }
}

/// Resolves the request token and attaches the outcome to a fresh context.
pub fn authenticate(store: &AccessTokenStore, token: Option<&str>) -> (r: RequestContext)
    ensures
        opt_string_view(r.current_user) == spec_resolve(store.model(), view_opt(token)),
{
    RequestContext { current_user: store.resolve(token) }
}

} // verus!
