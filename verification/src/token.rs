use vstd::prelude::*;

verus! {

/// The provider-mandated claim set, decoded from the payload segment.
/// Constructed only by decoding; immutable afterwards.
#[derive(Clone, Debug, PartialEq)]
pub struct RequiredClaims {
    pub(crate) issuer: String,
    pub(crate) subject: String,
    pub(crate) audience: String,
    pub(crate) android_audience: String,
    pub(crate) issued_at: u64,
    pub(crate) expires_at: u64,
}

/// The mathematical value of a `RequiredClaims`.
pub ghost struct RequiredClaimsV {
    pub issuer: Seq<char>,
    pub subject: Seq<char>,
    pub audience: Seq<char>,
    pub android_audience: Seq<char>,
    pub issued_at: u64,
    pub expires_at: u64,
}

impl View for RequiredClaims {
    type V = RequiredClaimsV;

    closed spec fn view(&self) -> RequiredClaimsV {
        RequiredClaimsV {
            issuer: self.issuer@,
            subject: self.subject@,
            audience: self.audience@,
            android_audience: self.android_audience@,
            issued_at: self.issued_at,
            expires_at: self.expires_at,
        }
    }
}

impl RequiredClaims {
    pub(crate) fn new(
        issuer: String,
        subject: String,
        audience: String,
        android_audience: String,
        issued_at: u64,
        expires_at: u64,
    ) -> (r: RequiredClaims)
        ensures
            r@.issuer == issuer@,
            r@.subject == subject@,
            r@.audience == audience@,
            r@.android_audience == android_audience@,
            r@.issued_at == issued_at,
            r@.expires_at == expires_at,
    {
        RequiredClaims { issuer, subject, audience, android_audience, issued_at, expires_at }
    }

    pub(crate) fn duplicate(&self) -> (r: RequiredClaims)
        ensures
            r@ == self@,
    {
        RequiredClaims {
            issuer: self.issuer.clone(),
            subject: self.subject.clone(),
            audience: self.audience.clone(),
            android_audience: self.android_audience.clone(),
            issued_at: self.issued_at,
            expires_at: self.expires_at,
        }
    }

    pub fn get_issuer(&self) -> (r: String)
        ensures
            r@ == self@.issuer,
    {
        self.issuer.clone()
    }

    pub fn get_subject(&self) -> (r: String)
        ensures
            r@ == self@.subject,
    {
        self.subject.clone()
    }

    pub fn get_audience(&self) -> (r: String)
        ensures
            r@ == self@.audience,
    {
        self.audience.clone()
    }

    pub fn get_android_audience(&self) -> (r: String)
        ensures
            r@ == self@.android_audience,
    {
        self.android_audience.clone()
    }

    pub fn get_issued_at(&self) -> (r: u64)
        ensures
            r == self@.issued_at,
    {
        self.issued_at
    }

    pub fn get_expires_at(&self) -> (r: u64)
        ensures
            r == self@.expires_at,
    {
        self.expires_at
    }
}

/// The open-ended payload shape the identity provider fills beside the
/// mandatory claims. Every field is optional; absence is not an error.
#[derive(Clone, Debug, PartialEq)]
pub struct IdPayload {
    pub(crate) iss: Option<String>,
    pub(crate) nbf: Option<u64>,
    pub(crate) aud: Option<String>,
    pub(crate) sub: Option<String>,
    pub(crate) hd: Option<String>,
    pub(crate) email: Option<String>,
    pub(crate) email_verified: Option<bool>,
    pub(crate) azp: Option<String>,
    pub(crate) name: Option<String>,
    pub(crate) picture: Option<String>,
    pub(crate) given_name: Option<String>,
    pub(crate) family_name: Option<String>,
    pub(crate) iat: Option<u64>,
    pub(crate) exp: Option<u64>,
}

/// The mathematical value of an `IdPayload`.
pub ghost struct IdPayloadV {
    pub iss: Option<Seq<char>>,
    pub nbf: Option<u64>,
    pub aud: Option<Seq<char>>,
    pub sub: Option<Seq<char>>,
    pub hd: Option<Seq<char>>,
    pub email: Option<Seq<char>>,
    pub email_verified: Option<bool>,
    pub azp: Option<Seq<char>>,
    pub name: Option<Seq<char>>,
    pub picture: Option<Seq<char>>,
    pub given_name: Option<Seq<char>>,
    pub family_name: Option<Seq<char>>,
    pub iat: Option<u64>,
    pub exp: Option<u64>,
}

impl View for IdPayload {
    type V = IdPayloadV;

    closed spec fn view(&self) -> IdPayloadV {
        IdPayloadV {
            iss: self.iss.deep_view(),
            nbf: self.nbf,
            aud: self.aud.deep_view(),
            sub: self.sub.deep_view(),
            hd: self.hd.deep_view(),
            email: self.email.deep_view(),
            email_verified: self.email_verified,
            azp: self.azp.deep_view(),
            name: self.name.deep_view(),
            picture: self.picture.deep_view(),
            given_name: self.given_name.deep_view(),
            family_name: self.family_name.deep_view(),
            iat: self.iat,
            exp: self.exp,
        }
    }
}

impl IdPayload {
    pub(crate) fn from_parts(
        iss: Option<String>,
        nbf: Option<u64>,
        aud: Option<String>,
        sub: Option<String>,
        hd: Option<String>,
        email: Option<String>,
        email_verified: Option<bool>,
        azp: Option<String>,
        name: Option<String>,
        picture: Option<String>,
        given_name: Option<String>,
        family_name: Option<String>,
        iat: Option<u64>,
        exp: Option<u64>,
    ) -> (r: IdPayload)
        ensures
            r@.iss == iss.deep_view(),
            r@.nbf == nbf,
            r@.aud == aud.deep_view(),
            r@.sub == sub.deep_view(),
            r@.hd == hd.deep_view(),
            r@.email == email.deep_view(),
            r@.email_verified == email_verified,
            r@.azp == azp.deep_view(),
            r@.name == name.deep_view(),
            r@.picture == picture.deep_view(),
            r@.given_name == given_name.deep_view(),
            r@.family_name == family_name.deep_view(),
            r@.iat == iat,
            r@.exp == exp,
    {
        IdPayload {
            iss,
            nbf,
            aud,
            sub,
            hd,
            email,
            email_verified,
            azp,
            name,
            picture,
            given_name,
            family_name,
            iat,
            exp,
        }
    }
}

fn clone_opt_string(o: &Option<String>) -> (r: Option<String>)
    ensures
        r.deep_view() == o.deep_view(),
{
    match o {
        Some(s) => Some(s.clone()),
        None => None,
    }
}

impl IdPayload {
    pub fn get_iss(&self) -> (r: Option<String>)
        ensures
            r.deep_view() == self@.iss,
    {
        clone_opt_string(&self.iss)
    }

    pub fn get_nbf(&self) -> (r: Option<u64>)
        ensures
            r == self@.nbf,
    {
        self.nbf
    }

    pub fn get_aud(&self) -> (r: Option<String>)
        ensures
            r.deep_view() == self@.aud,
    {
        clone_opt_string(&self.aud)
    }

    pub fn get_sub(&self) -> (r: Option<String>)
        ensures
            r.deep_view() == self@.sub,
    {
        clone_opt_string(&self.sub)
    }

    pub fn get_domain(&self) -> (r: Option<String>)
        ensures
            r.deep_view() == self@.hd,
    {
        clone_opt_string(&self.hd)
    }

    pub fn get_email(&self) -> (r: Option<String>)
        ensures
            r.deep_view() == self@.email,
    {
        clone_opt_string(&self.email)
    }

    pub fn is_email_verified(&self) -> (r: Option<bool>)
        ensures
            r == self@.email_verified,
    {
        self.email_verified
    }

    pub fn get_azp(&self) -> (r: Option<String>)
        ensures
            r.deep_view() == self@.azp,
    {
        clone_opt_string(&self.azp)
    }

    pub fn get_name(&self) -> (r: Option<String>)
        ensures
            r.deep_view() == self@.name,
    {
        clone_opt_string(&self.name)
    }

    pub fn get_picture_url(&self) -> (r: Option<String>)
        ensures
            r.deep_view() == self@.picture,
    {
        clone_opt_string(&self.picture)
    }

    pub fn get_given_name(&self) -> (r: Option<String>)
        ensures
            r.deep_view() == self@.given_name,
    {
        clone_opt_string(&self.given_name)
    }

    pub fn get_family_name(&self) -> (r: Option<String>)
        ensures
            r.deep_view() == self@.family_name,
    {
        clone_opt_string(&self.family_name)
    }

    pub fn get_iat(&self) -> (r: Option<u64>)
        ensures
            r == self@.iat,
    {
        self.iat
    }

    pub fn get_exp(&self) -> (r: Option<u64>)
        ensures
            r == self@.exp,
    {
        self.exp
    }
}

/// A token whose signature has been cryptographically confirmed. This is the
/// only type a caller should trust as authenticated.
#[derive(Debug, PartialEq)]
pub struct Token<P> {
    pub(crate) required_claims: RequiredClaims,
    pub(crate) payload: P,
}

/// The mathematical value of a `Token`.
pub ghost struct TokenV<PV> {
    pub claims: RequiredClaimsV,
    pub payload: PV,
}

impl<P: View> View for Token<P> {
    type V = TokenV<P::V>;

    closed spec fn view(&self) -> TokenV<P::V> {
        TokenV { claims: self.required_claims@, payload: self.payload@ }
    }
}

impl<P: View> Token<P> {
    /// Pairs a claim set with its payload.
    pub fn new(required_claims: RequiredClaims, payload: P) -> (r: Token<P>)
        ensures
            r@.claims == required_claims@,
            r@.payload == payload@,
    {
        Token { required_claims, payload }
    }

    pub fn get_payload(&self) -> (r: &P)
        ensures
            r@ == self@.payload,
    {
        &self.payload
    }

    pub fn get_claims(&self) -> (r: RequiredClaims)
        ensures
            r@ == self@.claims,
    {
        self.required_claims.duplicate()
    }
}

} // verus!
