//! A standard client assembled from a builder that holds the API host.

use vstd::prelude::*;
use crate::errors::Error;
use crate::ll_client;

verus! {

#[verifier::external_type_specification]
#[verifier::external_body]
pub struct ExUrl(url::Url);

/// A builder for a standard client; holds the URL of the API host.
pub struct StandardClientBuilder {
    url: url::Url,
}

/// Relies on url::Url::parse: parsing this fixed, well-formed API host
/// succeeds.
#[verifier::external_body]
fn default_api_url() -> url::Url {
    url::Url::parse("https://api.segment.io").unwrap()
}

impl Default for StandardClientBuilder {
    /// A builder pointed at the default API host.
    fn default() -> StandardClientBuilder {
        StandardClientBuilder { url: default_api_url() }
    }
}

impl StandardClientBuilder {
    /// The URL of the API host the client will talk to.
    pub closed spec fn spec_url(&self) -> url::Url {
        self.url
    }

    /// Replaces the API host.
    pub fn url(self, url: url::Url) -> (r: StandardClientBuilder)
        ensures
            r.spec_url() == url,
    {
        let mut this = self;
        this.url = url;
        this
    }

    /// Builds the standard client; never fails.
    pub fn build(self) -> (r: Result<StandardClient, Error>)
        ensures
            r is Ok,
    {
        Ok(StandardClient { ll_client: ll_client::Client::new() })
    }
}

/// A client over the low-level transport.
pub struct StandardClient {
    #[allow(dead_code)]
    ll_client: ll_client::Client,
}

} // verus!
