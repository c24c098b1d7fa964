//! Admission-control policy for Kubernetes port-forward requests.
//!
//! The library decides whether an admission request may proceed: requests for
//! kinds other than the watched `PodPortForwardOptions` sub-resource pass
//! through, dry runs pass through, and everything else is allowed only when a
//! configured exemption covers the acting user, the target pod's name and its
//! namespace, all three at once.  With no exemption set configured, no
//! exemption is possible and the request is rejected.

pub mod settings;
pub mod validator;
