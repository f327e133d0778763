//! The credential store: the operator's identity material and its
//! validation.
//!
//! The raw values come from the process environment; reading the environment
//! is the caller's concern. Validation collects every missing required field
//! rather than stopping at the first.

use vstd::prelude::*;

verus! {

/// Why credentials could not be loaded.
#[derive(Debug)]
pub enum CredentialsError {
    /// No credential material was available at all.
    MissingCredentials,
    /// The named required fields were empty; every missing field is listed.
    MissingFields(Vec<&'static str>),
}

/// The operator's identity material. The three required fields are
/// non-empty; a pre-issued token may be empty, meaning "not provided".
#[derive(Debug, Clone)]
pub struct Credentials {
    pub client_id: String,
    pub private_key: String,
    pub domain: String,
    pub developer_jwt: String,
    pub vehicle_jwt: String,
}

/// A valid credential record: the required fields are non-empty.
pub open spec fn credentials_well_formed(c: Credentials) -> bool {
    &&& c.client_id@.len() > 0
    &&& c.private_key@.len() > 0
    &&& c.domain@.len() > 0
}

/// The canonical names of the required fields that are empty, in order.
pub open spec fn missing_field_names(
    client_id: Seq<char>,
    private_key: Seq<char>,
    domain: Seq<char>,
) -> Seq<&'static str> {
    (if client_id.len() == 0 {
        seq!["client_id"]
    } else {
        Seq::empty()
    }) + (if private_key.len() == 0 {
        seq!["api_key"]
    } else {
        Seq::empty()
    }) + (if domain.len() == 0 {
        seq!["redirect_uri"]
    } else {
        Seq::empty()
    })
}

/// Validates raw credential values, as read from the environment by the
/// caller: wallet id, private key and redirect domain are required, the two
/// pre-issued tokens are optional and default to empty.
///
/// Fails exactly when a required field is empty, naming every missing field,
/// not just the first.
pub fn get_credentials(
    client_id: String,
    private_key: String,
    domain: String,
    developer_jwt: String,
    vehicle_jwt: String,
) -> (r: Result<Credentials, CredentialsError>)
    ensures
        r is Ok <==> (client_id@.len() > 0 && private_key@.len() > 0 && domain@.len() > 0),
        r matches Ok(c) ==> c == (Credentials {
            client_id: client_id,
            private_key: private_key,
            domain: domain,
            developer_jwt: developer_jwt,
            vehicle_jwt: vehicle_jwt,
        }),
        r matches Err(e) ==> e matches CredentialsError::MissingFields(names) && names@
            == missing_field_names(client_id@, private_key@, domain@),
{
    let mut missing_fields: Vec<&'static str> = Vec::new();
    if client_id.as_str().is_empty() {
        missing_fields.push("client_id");
    }
    if private_key.as_str().is_empty() {
        missing_fields.push("api_key");
    }
    if domain.as_str().is_empty() {
        missing_fields.push("redirect_uri");
    }
    if missing_fields.len() > 0 {
        proof {
            assert(missing_fields@ =~= missing_field_names(client_id@, private_key@, domain@));
        }
        return Err(CredentialsError::MissingFields(missing_fields));
    }
    Ok(
        Credentials {
            client_id,
            private_key,
            domain,
            developer_jwt,
            vehicle_jwt,
        },
    )
}

} // verus!
