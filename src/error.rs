use vstd::prelude::*;

verus! {

/// The ways in which obtaining or checking a credential can fail.
#[derive(Debug, PartialEq, Eq)]
pub enum Error {
    /// The carrier holds no credential at all.
    CredentialMissing,
    /// A credential is present but malformed, forged or expired; the text
    /// says why.
    BadCredentialReceived(String),
    /// A credential could not be issued; the text says why.
    BadCredential(String),
    /// The credential is valid but grants none of the allowed roles.
    Unauthorized,
}

impl Error {
    /// The human-readable description of this error.
    pub fn message(&self) -> (r: String)
        ensures
            (self is CredentialMissing) ==> r@ == "Invalid credential for this resource"@,
            (self is Unauthorized) ==> r@ == "Unauthorized for this resource"@,
            self matches Error::BadCredentialReceived(reason) ==> r@ == "Malformed credential: `"@ + reason@ + "`"@,
            self matches Error::BadCredential(reason) ==> r@ == "Can't create credential: `"@ + reason@ + "`"@,
    {
        match self {
            Error::CredentialMissing => "Invalid credential for this resource".to_string(),
            Error::BadCredentialReceived(reason) => {
                let mut s = "Malformed credential: `".to_string();
                s.append(reason.as_str());
                s.append("`");
                s
            },
            Error::BadCredential(reason) => {
                let mut s = "Can't create credential: `".to_string();
                s.append(reason.as_str());
                s.append("`");
                s
            },
            Error::Unauthorized => "Unauthorized for this resource".to_string(),
        }
    }
}

} // verus!
