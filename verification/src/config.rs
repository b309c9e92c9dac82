//! The configuration of the entitlement authority: fixed when the process
//! starts, and handed on explicitly from there.

use vstd::prelude::*;
use vstd::string::StringExecFns;

verus! {

/// Where the authority is found and under which account and product the
/// licenses are kept.
#[derive(Clone, Debug, PartialEq, Eq)]
pub struct AuthorityConfig {
    pub api_url: String,
    pub api_version: String,
    pub api_prefix: String,
    pub account: String,
    pub product: String,
    pub public_key: Option<String>,
}

/// The configuration as a mathematical value.
pub struct AuthorityConfigView {
    pub api_url: Seq<char>,
    pub api_version: Seq<char>,
    pub api_prefix: Seq<char>,
    pub account: Seq<char>,
    pub product: Seq<char>,
    pub public_key: Option<Seq<char>>,
}

impl View for AuthorityConfig {
    type V = AuthorityConfigView;

    open spec fn view(&self) -> AuthorityConfigView {
        AuthorityConfigView {
            api_url: self.api_url@,
            api_version: self.api_version@,
            api_prefix: self.api_prefix@,
            account: self.account@,
            product: self.product@,
            public_key: match self.public_key {
                Some(key) => Some(key@),
                None => None,
            },
        }
    }
}

impl AuthorityConfigView {
    /// The configuration that this application runs with.
    pub open spec fn fixed() -> AuthorityConfigView {
        AuthorityConfigView {
            api_url: "https://api.keygen.sh"@,
            api_version: "1.8"@,
            api_prefix: "v1"@,
            account: "fastrepl"@,
            product: "a5a28e7d-f1b9-4ef3-b29a-4579ecf0dab7"@,
            public_key: Some(""@),
        }
    }
}

impl AuthorityConfig {
    /// The configuration that this application runs with.
    pub fn fixed() -> (config: AuthorityConfig)
        ensures
            config@ == AuthorityConfigView::fixed(),
    {
        AuthorityConfig {
            api_url: String::from_str("https://api.keygen.sh"),
            api_version: String::from_str("1.8"),
            api_prefix: String::from_str("v1"),
            account: String::from_str("fastrepl"),
            product: String::from_str("a5a28e7d-f1b9-4ef3-b29a-4579ecf0dab7"),
            public_key: Some(String::from_str("")),
        }
    }

    /// Makes this configuration the one that the `keygen_rs` client works
    /// with, by a call of `keygen_rs::config::set_config`. The fields that
    /// this type does not hold keep the defaults of `keygen_rs`. Nothing is
    /// returned, so nothing is claimed.
    #[verifier::external_body]
    pub(crate) fn install(&self) {
        keygen_rs::config::set_config(
            keygen_rs::config::KeygenConfig {
                api_url: self.api_url.clone(),
                api_version: self.api_version.clone(),
                api_prefix: self.api_prefix.clone(),
                account: self.account.clone(),
                product: self.product.clone(),
                public_key: self.public_key.clone(),
                ..Default::default()
            },
        );
    }
}

} // verus!
