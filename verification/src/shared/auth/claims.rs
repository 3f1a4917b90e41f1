//! The claims an access token carries.

use vstd::prelude::*;
use vstd::string::*;

use crate::shared::digits::{append_decimal, decimal};
use crate::shared::json::{append_json_string, json_string};

verus! {

/// Claims of an access token.
pub struct Claims {
    /// Subject: the id of the user the token was issued to.
    pub sub: String,
    /// Token id, so that one token can be revoked.
    pub jti: String,
    /// Expiry, in seconds since the Unix epoch.
    pub exp: usize,
    /// Issue time, in seconds since the Unix epoch.
    pub iat: usize,
}

/// The compact JSON object for claims with these fields, in the field
/// order `sub`, `jti`, `exp`, `iat`: what `serde_json` writes for them.
pub open spec fn claims_json(sub: Seq<char>, jti: Seq<char>, exp: nat, iat: nat) -> Seq<char> {
    seq!['{', '"', 's', 'u', 'b', '"', ':'] + json_string(sub)
        + seq![',', '"', 'j', 't', 'i', '"', ':'] + json_string(jti)
        + seq![',', '"', 'e', 'x', 'p', '"', ':'] + decimal(exp)
        + seq![',', '"', 'i', 'a', 't', '"', ':'] + decimal(iat)
        + seq!['}']
}

impl Claims {
    /// The JSON object for these claims.
    pub fn to_json(&self) -> (r: String)
        ensures
            r@ == claims_json(self.sub@, self.jti@, self.exp as nat, self.iat as nat),
    {
        let mut out = String::new();
        out.append("{\"sub\":");
        append_json_string(&mut out, self.sub.as_str());
        out.append(",\"jti\":");
        append_json_string(&mut out, self.jti.as_str());
        out.append(",\"exp\":");
        append_decimal(&mut out, self.exp);
        out.append(",\"iat\":");
        append_decimal(&mut out, self.iat);
        out.append("}");
        proof {
            reveal_strlit("{\"sub\":");
            reveal_strlit(",\"jti\":");
            reveal_strlit(",\"exp\":");
            reveal_strlit(",\"iat\":");
            reveal_strlit("}");
        }
        out
    }
}

} // verus!
