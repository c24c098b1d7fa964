//! The decision function: one verdict per admission request.
//!
//! Evaluation is a linear filter chain: requests for kinds other than the
//! watched `PodPortForwardOptions` sub-resource pass through, dry runs pass
//! through, and what remains is accepted only when the configured exemptions
//! cover the acting user, the target pod's name and its namespace.  With no
//! exemption set configured, no exemption is possible and the request is
//! rejected.

use vstd::prelude::*;

use crate::settings::{Settings, SettingsView};

verus! {

/// The fields of an admission request that the policy reads.  The request is
/// handed in well-formed and is never mutated.
pub struct AdmissionRequest {
    /// The Kubernetes sub-resource kind being acted on.
    pub kind: String,
    /// Whether the request only simulates the operation.
    pub dry_run: bool,
    /// The acting user's name.
    pub username: String,
    /// The target resource's name (here: the pod's name).
    pub name: String,
    /// The namespace the request acts in.
    pub namespace: String,
}

/// The mathematical model of an admission request.
#[verifier::ext_equal]
pub struct RequestView {
    pub kind: Seq<char>,
    pub dry_run: bool,
    pub username: Seq<char>,
    pub name: Seq<char>,
    pub namespace: Seq<char>,
}

impl View for AdmissionRequest {
    type V = RequestView;

    open spec fn view(&self) -> RequestView {
        RequestView {
            kind: self.kind@,
            dry_run: self.dry_run,
            username: self.username@,
            name: self.name@,
            namespace: self.namespace@,
        }
    }
}

/// The outcome of one evaluation.  The policy never emits a patch: a verdict
/// carries no mutation of the admitted object in any form.
pub enum Verdict {
    /// Let the request proceed.
    Accept,
    /// Deny the request, with an optional explanation and status code.
    Reject { message: Option<String>, code: Option<u16> },
}

/// The mathematical model of a verdict.
#[verifier::ext_equal]
pub enum VerdictView {
    Accept,
    Reject { message: Option<Seq<char>>, code: Option<u16> },
}

impl View for Verdict {
    type V = VerdictView;

    open spec fn view(&self) -> VerdictView {
        match self {
            Verdict::Accept => VerdictView::Accept,
            Verdict::Reject { message, code } => VerdictView::Reject {
                message: match message {
                    Some(m) => Some(m@),
                    None => None,
                },
                code: *code,
            },
        }
    }
}

/// The one sub-resource kind this policy watches.
pub open spec fn watched_kind() -> Seq<char> {
    "PodPortForwardOptions"@
}

/// The watched sub-resource kind, for the host layer to agree on.
pub fn watched_kind_name() -> (kind: String)
    ensures
        kind@ == watched_kind(),
{
    String::from_str("PodPortForwardOptions")
}

/// The kubectl sub-command this policy denies, as it appears in messages.
pub open spec fn port_forward_action() -> Seq<char> {
    "port-forward"@
}

/// The explanation attached to every rejection: it names the denied
/// action between quotes, so the watched action always occurs in it.
pub open spec fn deny_message() -> Seq<char> {
    "The '"@ + port_forward_action() + "' is on the deny kubectl sub-command list"@
}

/// The verdict for a request under given settings: requests of other kinds
/// and dry runs pass through; the rest is accepted exactly when the
/// exemptions cover the triple, and otherwise rejected with the fixed
/// explanation and no status code.
pub open spec fn spec_evaluate(request: RequestView, settings: SettingsView) -> VerdictView {
    if request.kind != watched_kind() {
        VerdictView::Accept
    } else if request.dry_run {
        VerdictView::Accept
    } else if settings.is_exempt(request.username, request.name, request.namespace) {
        VerdictView::Accept
    } else {
        VerdictView::Reject { message: Some(deny_message()), code: None }
    }
}

/// Decide one admission request: the verdict is exactly what
/// [`spec_evaluate`] assigns to the request's and the settings' models.
pub fn evaluate(request: &AdmissionRequest, settings: &Settings) -> (verdict: Verdict)
    ensures
        verdict@ == spec_evaluate(request@, settings@),
{
    let watched: String = String::from_str("PodPortForwardOptions");
    if !request.kind.eq(&watched) {
        return Verdict::Accept;
    }
    if request.dry_run {
        return Verdict::Accept;
    }
    if settings.exempt(&request.username, &request.name, &request.namespace) {
        return Verdict::Accept;
    }
    proof {
        reveal_strlit("The 'port-forward' is on the deny kubectl sub-command list");
        reveal_strlit("The '");
        reveal_strlit("port-forward");
        reveal_strlit("' is on the deny kubectl sub-command list");
        assert(("The 'port-forward' is on the deny kubectl sub-command list")@ =~= deny_message());
    }
    Verdict::Reject {
        message: Some(String::from_str("The 'port-forward' is on the deny kubectl sub-command list")),
        code: None,
    }
}

/// The protocol version the policy speaks, a fixed constant answer for the
/// host's versioning query.
pub fn protocol_version() -> (version: String)
    ensures
        version@ == "v1"@,
{
    String::from_str("v1")
}

/// Requests whose kind is not the watched one are accepted outright,
/// whatever the settings and whether or not the request is a dry run.
pub proof fn lemma_other_kind_accepted(request: RequestView, settings: SettingsView)
    requires
        request.kind != watched_kind(),
    ensures
        spec_evaluate(request, settings) == VerdictView::Accept,
{
}

/// Dry runs are accepted, whatever the settings, the user, the pod's name
/// and the namespace.
pub proof fn lemma_dry_run_accepted(request: RequestView, settings: SettingsView)
    requires
        request.dry_run,
    ensures
        spec_evaluate(request, settings) == VerdictView::Accept,
{
}

/// A watched-kind request that is no dry run is rejected, with the fixed
/// explanation and no status code, whenever every exemption set is absent or
/// empty: no exemption is possible when nothing is configured.
pub proof fn lemma_nothing_configured_rejected(request: RequestView, settings: SettingsView)
    requires
        request.kind == watched_kind(),
        !request.dry_run,
        settings.exempt_usernames.is_empty(),
        settings.exempt_pod_names.is_empty(),
        settings.exempt_namespaces.is_empty(),
    ensures
        spec_evaluate(request, settings) == (VerdictView::Reject {
            message: Some(deny_message()),
            code: None,
        }),
{
    crate::settings::lemma_nothing_configured_not_exempt(
        settings,
        request.username,
        request.name,
        request.namespace,
    );
}

} // verus!
