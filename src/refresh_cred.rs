use vstd::prelude::*;

verus! {

/// A refresh token.
#[derive(Clone)]
pub struct RefreshToken {
    token: String,
}

impl RefreshToken {
    pub closed spec fn spec_token(&self) -> Seq<char> {
        self.token@
    }

    pub fn new(token: String) -> (r: Self)
        ensures
            r.spec_token() == token@,
    {
        RefreshToken { token }
    }

    pub fn token(&self) -> (r: &str)
        ensures
            r@ == self.spec_token(),
    {
        self.token.as_str()
    }
}

/// A JSON web token.
#[derive(Clone)]
pub struct JwtToken {
    token: String,
}

impl JwtToken {
    pub closed spec fn spec_token(&self) -> Seq<char> {
        self.token@
    }

    pub fn new(token: String) -> (r: Self)
        ensures
            r.spec_token() == token@,
    {
        JwtToken { token }
    }

    pub fn token(&self) -> (r: &str)
        ensures
            r@ == self.spec_token(),
    {
        self.token.as_str()
    }
}

/// A freshly issued pair of tokens.
#[derive(Clone)]
pub struct NewGeneratedAuthTokens {
    refresh_token: RefreshToken,
    jwt_token: JwtToken,
}

impl NewGeneratedAuthTokens {
    pub closed spec fn spec_refresh_token(&self) -> Seq<char> {
        self.refresh_token.spec_token()
    }

    pub closed spec fn spec_jwt(&self) -> Seq<char> {
        self.jwt_token.spec_token()
    }

    pub fn new(refresh_token: String, jwt_token: String) -> (r: Self)
        ensures
            r.spec_refresh_token() == refresh_token@,
            r.spec_jwt() == jwt_token@,
    {
        NewGeneratedAuthTokens {
            refresh_token: RefreshToken::new(refresh_token),
            jwt_token: JwtToken::new(jwt_token),
        }
    }

    pub fn refresh_token(&self) -> (r: &str)
        ensures
            r@ == self.spec_refresh_token(),
    {
        self.refresh_token.token()
    }

    pub fn jwt(&self) -> (r: &str)
        ensures
            r@ == self.spec_jwt(),
    {
        self.jwt_token.token()
    }
}

} // verus!
