//! A verified core for a Kubernetes operator that reconciles custom
//! resources describing managed add-ons against a remote PaaS API.
//!
//! The library holds the logic of the operator: the OAuth1 request signer,
//! the flat-document diff/patch used for resource updates, the finalizer and
//! secret-projection helpers, the event recorder model, the add-on API data
//! model, and the reconciliation state machine.  All I/O (Kubernetes API
//! calls, HTTP requests) is performed outside the library, which only
//! decides what is to be done and proves what each decision guarantees.

pub mod addon;
pub mod client;
pub mod provider;
pub mod crd;
pub mod document;
pub mod finalizer;
pub mod http;
pub mod logging;
pub mod reconciler;
pub mod recorder;
pub mod resource;
pub mod secret;
pub mod oauth;
pub mod text;
