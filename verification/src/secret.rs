//! The redacting holder of configured credentials and tokens.

use vstd::prelude::*;

verus! {

/// A secret string, kept in a `secrecy::SecretString` so that it is redacted
/// from `Debug` output and wiped from memory when dropped.
///
/// The box is held in a private field and its text is read only through
/// [`Secret::expose`]; [`secret_text`] names that text, and
/// [`Secret::from_string`] is the only way to make one.
#[verifier::external_body]
#[derive(Debug)]
pub struct Secret {
    inner: secrecy::SecretString,
}

/// The text held inside a [`Secret`].
pub uninterp spec fn secret_text(secret: Secret) -> Seq<char>;

impl View for Secret {
    type V = Seq<char>;

    open spec fn view(&self) -> Seq<char> {
        secret_text(*self)
    }
}

impl Secret {
    /// Calls `<secrecy::SecretString as From<String>>::from`: the new secret
    /// holds exactly the characters of `text`.
    #[verifier::external_body]
    pub fn from_string(text: String) -> (secret: Secret)
        ensures
            secret_text(secret) == text@,
    {
        Secret { inner: secrecy::SecretString::from(text) }
    }

    /// Calls `secrecy::ExposeSecret::expose_secret`: the returned slice holds
    /// exactly the characters stored in the secret.
    #[verifier::external_body]
    pub fn expose(&self) -> (text: &str)
        ensures
            text@ == secret_text(*self),
    {
        secrecy::ExposeSecret::expose_secret(&self.inner)
    }
}

} // verus!
