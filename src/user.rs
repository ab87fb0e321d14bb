use vstd::prelude::*;

use x509_parser::error::X509Error;

verus! {

#[verifier::external_type_specification]
#[verifier::external_body]
pub struct ExX509Error(X509Error);

/// What reading the subject's first common name out of the DER certificate
/// `der` gives: `None` when the certificate or the name cannot be decoded,
/// `Some(None)` when the subject has no common name, `Some(Some(cn))` otherwise.
pub uninterp spec fn subject_common_name(der: Seq<u8>) -> Option<Option<Seq<char>>>;

/// Relies on x509_parser::parse_x509_certificate, X509Name::iter_common_name
/// and AttributeTypeAndValue::as_str: the subject's first common name as text.
/// Parse errors, an incomplete input included, come out through the crate's
/// own conversion into `X509Error`.
#[verifier::external_body]
fn read_common_name(der: &[u8]) -> (r: Result<Option<String>, X509Error>)
    ensures
        r is Err <==> subject_common_name(der@) is None,
        r matches Ok(None) <==> subject_common_name(der@) == Some(None::<Seq<char>>),
        r matches Ok(Some(cn)) ==> subject_common_name(der@) == Some(Some(cn@)),
{
    let (_, cert) = x509_parser::parse_x509_certificate(der).map_err(X509Error::from)?;
    let first = cert.subject().iter_common_name().next();
    match first {
        None => Ok(None),
        Some(attr) => attr.as_str().map(|cn| Some(cn.to_string())),
    }
}

/// The error produced by unsuccessful authentication of a user from a client
/// certificate.
#[derive(Debug)]
pub enum AuthError {
    /// The certificate, or its common name, could not be decoded.
    X509(X509Error),
    /// The certificate's subject has no common name.
    NoCommonName,
}

/// A user that has been authenticated by a TLS client certificate: the
/// common name of the certificate's subject.
#[derive(Clone, Debug)]
pub struct UserId(pub String);

impl PartialEq for UserId {
    fn eq(&self, other: &UserId) -> (r: bool) {
        self.0 == other.0
    }
}

impl vstd::std_specs::cmp::PartialEqSpecImpl for UserId {
    open spec fn obeys_eq_spec() -> bool {
        true
    }

    open spec fn eq_spec(&self, other: &UserId) -> bool {
        self.0@ == other.0@
    }
}

impl Eq for UserId {

}

impl UserId {
    /// Turns the outcome of reading a certificate's first common name into a
    /// user: a decoding error or a missing name is an authentication error.
    pub fn from_common_name(found: Result<Option<String>, X509Error>) -> (r: Result<UserId, AuthError>)
        ensures
            found matches Err(e) ==> r matches Err(AuthError::X509(e2)) && e2 == e,
            found matches Ok(None) ==> r matches Err(AuthError::NoCommonName),
            found matches Ok(Some(cn)) ==> r matches Ok(u) && u.0@ == cn@,
    {
        match found {
            Err(e) => Err(AuthError::X509(e)),
            Ok(None) => Err(AuthError::NoCommonName),
            Ok(Some(cn)) => Ok(UserId(cn)),
        }
    }

    /// The user named by the first common name of the subject of the DER
    /// certificate `der`.
    pub fn from_certificate(der: &[u8]) -> (r: Result<UserId, AuthError>)
        ensures
            subject_common_name(der@) is None <==> r matches Err(AuthError::X509(_)),
            subject_common_name(der@) == Some(None::<Seq<char>>) <==> r matches Err(
                AuthError::NoCommonName,
            ),
            subject_common_name(der@) matches Some(Some(cn)) ==> r matches Ok(u) && u.0@ == cn,
    {
        UserId::from_common_name(read_common_name(der))
    }
}

} // verus!
