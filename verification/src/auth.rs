//! The credential the gateway expects with every call.

use vstd::prelude::*;
use vstd::std_specs::convert::TryFromSpecImpl;
use crate::errors::{ConnectorError, ConnectorErrorView};
use crate::types::{result_view, ConnectorAuthType};

verus! {

/// Bearer token and API version sent to the gateway.
#[derive(Debug, PartialEq, Eq)]
pub struct SquareAuthType {
    pub access_token: String,
    pub api_version: String,
}

/// Mathematical value of a [`SquareAuthType`].
pub struct SquareAuthTypeView {
    pub access_token: Seq<char>,
    pub api_version: Seq<char>,
}

impl View for SquareAuthType {
    type V = SquareAuthTypeView;

    open spec fn view(&self) -> SquareAuthTypeView {
        SquareAuthTypeView { access_token: self.access_token@, api_version: self.api_version@ }
    }
}

impl SquareAuthType {
    /// What reading the gateway's credential out of `auth_type` comes to: a
    /// body key gives its key as the token and its second key as the API
    /// version; no other shape of credential will do.
    pub open spec fn extraction(auth_type: &ConnectorAuthType) -> Result<
        SquareAuthTypeView,
        ConnectorErrorView,
    > {
        match auth_type {
            ConnectorAuthType::BodyKey { api_key, key1 } => Ok(
                SquareAuthTypeView { access_token: api_key@, api_version: key1@ },
            ),
            _ => Err(ConnectorErrorView::FailedToObtainAuthType),
        }
    }

    /// A credential is read out of a body key and of nothing else, and
    /// what is read is the body key's two texts, unchanged.
    pub proof fn lemma_extraction(auth_type: &ConnectorAuthType)
        ensures
            auth_type is BodyKey <==> Self::extraction(auth_type) is Ok,
            auth_type !is BodyKey ==> Self::extraction(auth_type) == Err::<
                SquareAuthTypeView,
                ConnectorErrorView,
            >(ConnectorErrorView::FailedToObtainAuthType),
            auth_type is BodyKey ==> Self::extraction(auth_type) == Ok::<
                SquareAuthTypeView,
                ConnectorErrorView,
            >(
                SquareAuthTypeView {
                    access_token: auth_type->BodyKey_api_key@,
                    api_version: auth_type->BodyKey_key1@,
                },
            ),
    {
    }
}

impl TryFrom<&ConnectorAuthType> for SquareAuthType {
    type Error = ConnectorError;

    /// Reads the gateway's credential out of the merchant's. Fails with
    /// [`ConnectorError::FailedToObtainAuthType`] on every credential that
    /// is no body key.
    fn try_from(auth_type: &ConnectorAuthType) -> (res: Result<Self, Self::Error>)
        ensures
            result_view(res) == Self::extraction(auth_type),
    {
        if let ConnectorAuthType::BodyKey { api_key, key1 } = auth_type {
            Ok(Self { access_token: api_key.clone(), api_version: key1.clone() })
        } else {
            Err(ConnectorError::FailedToObtainAuthType)
        }
    }
}

impl TryFromSpecImpl<&ConnectorAuthType> for SquareAuthType {
    open spec fn obeys_try_from_spec() -> bool {
        true
    }

    open spec fn try_from_spec(auth_type: &ConnectorAuthType) -> Result<Self, Self::Error> {
        match auth_type {
            ConnectorAuthType::BodyKey { api_key, key1 } => Ok(
                SquareAuthType { access_token: *api_key, api_version: *key1 },
            ),
            _ => Err(ConnectorError::FailedToObtainAuthType),
        }
    }
}

} // verus!
