//! How the client of an object store is to be set up: which region it talks
//! to and where its credentials come from.

use crate::record::opt_chars;
use vstd::prelude::*;
use vstd::string::StringExecFns;

verus! {

/// What is given for one object store: an endpoint for a store that is not
/// the default one, and a pair of keys for one that is not reached with the
/// ambient credentials.
#[derive(Clone, Debug)]
pub struct EndpointConfig {
    pub endpoint: Option<String>,
    pub access_key: Option<String>,
    pub secret_key: Option<String>,
}

/// The region that a client talks to.
#[derive(Clone, Debug)]
pub enum RegionChoice {
    /// The region of the given endpoint, under the given name.
    Custom { name: String, endpoint: String },
    /// The default region.
    Default,
}

/// Where a client takes its credentials from.
#[derive(Clone, Debug)]
pub enum CredentialChoice {
    /// The given pair of keys.
    Static { access_key: String, secret_key: String },
    /// The ambient chain of credential sources.
    Ambient,
}

/// How a client is to be set up.
#[derive(Clone, Debug)]
pub struct ClientPlan {
    pub region: RegionChoice,
    pub credentials: CredentialChoice,
}

/// The mathematical content of a [`RegionChoice`].
pub ghost enum RegionView {
    Custom { name: Seq<char>, endpoint: Seq<char> },
    Default,
}

/// The mathematical content of a [`CredentialChoice`].
pub ghost enum CredentialView {
    Static { access_key: Seq<char>, secret_key: Seq<char> },
    Ambient,
}

impl View for RegionChoice {
    type V = RegionView;

    open spec fn view(&self) -> RegionView {
        match self {
            RegionChoice::Custom { name, endpoint } => RegionView::Custom {
                name: name@,
                endpoint: endpoint@,
            },
            RegionChoice::Default => RegionView::Default,
        }
    }
}

impl View for CredentialChoice {
    type V = CredentialView;

    open spec fn view(&self) -> CredentialView {
        match self {
            CredentialChoice::Static { access_key, secret_key } => CredentialView::Static {
                access_key: access_key@,
                secret_key: secret_key@,
            },
            CredentialChoice::Ambient => CredentialView::Ambient,
        }
    }
}

/// The name under which a region with an endpoint of its own goes.
pub open spec fn custom_region_name() -> Seq<char> {
    "custom"@
}

/// The region for an endpoint: a custom one where an endpoint is given.
pub open spec fn region_for(endpoint: Option<Seq<char>>) -> RegionView {
    match endpoint {
        Some(url) => RegionView::Custom { name: custom_region_name(), endpoint: url },
        None => RegionView::Default,
    }
}

/// The credentials for a pair of keys: the pair where both are given, and
/// the ambient chain otherwise.
pub open spec fn credentials_for(
    access_key: Option<Seq<char>>,
    secret_key: Option<Seq<char>>,
) -> CredentialView {
    match (access_key, secret_key) {
        (Some(access), Some(secret)) => CredentialView::Static {
            access_key: access,
            secret_key: secret,
        },
        _ => CredentialView::Ambient,
    }
}

/// Decides how the client of one object store is to be set up.
pub fn plan_client(config: EndpointConfig) -> (plan: ClientPlan)
    ensures
        plan.region@ == region_for(opt_chars(config.endpoint)),
        plan.credentials@ == credentials_for(
            opt_chars(config.access_key),
            opt_chars(config.secret_key),
        ),
{
    let region = match config.endpoint {
        Some(url) => RegionChoice::Custom { name: String::from_str("custom"), endpoint: url },
        None => RegionChoice::Default,
    };
    let credentials = match (config.access_key, config.secret_key) {
        (Some(access), Some(secret)) => CredentialChoice::Static {
            access_key: access,
            secret_key: secret,
        },
        _ => CredentialChoice::Ambient,
    };
    ClientPlan { region, credentials }
}

} // verus!
