//! Webhook configurations as the configuration store holds them, and what
//! comes back when one is looked up.

use vstd::prelude::*;

verus! {

/// One webhook configuration: the endpoints of its two groups and the number
/// of seconds by which the delayed group trails the instant one.
#[derive(Debug, PartialEq, Eq)]
pub struct WebhookDBItem {
    pub id: String,
    pub name: String,
    pub delay_seconds: i64,
    pub delay_webhooks: Vec<String>,
    pub instant_webhooks: Vec<String>,
}

/// A configuration as a mathematical value.
pub struct WebhookConfig {
    pub id: Seq<char>,
    pub name: Seq<char>,
    pub delay_seconds: int,
    pub delay_webhooks: Seq<Seq<char>>,
    pub instant_webhooks: Seq<Seq<char>>,
}

impl View for WebhookDBItem {
    type V = WebhookConfig;

    open spec fn view(&self) -> WebhookConfig {
        WebhookConfig {
            id: self.id@,
            name: self.name@,
            delay_seconds: self.delay_seconds as int,
            delay_webhooks: self.delay_webhooks.deep_view(),
            instant_webhooks: self.instant_webhooks.deep_view(),
        }
    }
}

/// Why a configuration could not be had from the store.
#[derive(Clone, Copy, Debug, PartialEq, Eq, Structural)]
pub enum ResolveError {
    /// The store holds no configuration under the id.
    NotFound,
    /// The store could not be asked.
    Unavailable,
}

/// What the store answered when asked for a configuration, as a
/// mathematical value.
pub open spec fn resolution_view(resolved: Result<WebhookDBItem, ResolveError>) -> Result<
    WebhookConfig,
    ResolveError,
> {
    match resolved {
        Ok(config) => Ok(config@),
        Err(e) => Err(e),
    }
}

} // verus!
