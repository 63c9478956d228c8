use vstd::prelude::*;

use crate::errors::ConnectorError;
use crate::types::ConnectorAuthType;

verus! {

/// The gateway's credentials: the login, the transaction key and the
/// signing secret.
pub struct DlocalAuthType {
    pub x_login: String,
    pub x_trans_key: String,
    pub secret: String,
}

impl DlocalAuthType {
    /// Resolves the credentials from the signature-key variant of the
    /// bundle; any other variant fails with `FailedToObtainAuthType`.
    pub fn try_from(auth_type: &ConnectorAuthType) -> (r: Result<Self, ConnectorError>)
        ensures
            match *auth_type {
                ConnectorAuthType::SignatureKey { api_key, key1, api_secret } => r matches Ok(a)
                    && a.x_login == api_key && a.x_trans_key == key1 && a.secret == api_secret,
                _ => r == Err::<Self, ConnectorError>(ConnectorError::FailedToObtainAuthType),
            },
    {
        match auth_type {
            ConnectorAuthType::SignatureKey { api_key, key1, api_secret } => Ok(
                DlocalAuthType {
                    x_login: api_key.clone(),
                    x_trans_key: key1.clone(),
                    secret: api_secret.clone(),
                },
            ),
            _ => Err(ConnectorError::FailedToObtainAuthType),
        }
    }
}

} // verus!
