//! Payload builders: the three pure functions that assemble the remote-call
//! payloads from configuration values and generated identity. Builders never
//! fail; unset configuration values pass through as empty strings.

use vstd::prelude::*;
use crate::config::{Config, ConfigModel};
use crate::digits::{dec_rep, u64_to_string};
use crate::identity::ServiceIdentity;

verus! {

/// The variable name under which a provisioned instance reads its own depth.
pub const LEVEL_VAR: &'static str = "LEVEL";

/// The variable name under which a provisioned instance reads its credential.
pub const TOKEN_VAR: &'static str = "RAILWAY_TOKEN";

/// Payload of the service-creation call.
pub struct CreatePayload {
    /// The project the service is created in.
    pub project_id: String,
    /// The environment the service is created in.
    pub environment_id: Option<String>,
    /// The derived display name of the new service.
    pub name: Option<String>,
    /// Branch to deploy; left unset at creation time.
    pub branch: Option<String>,
    /// Source to deploy; left unset at creation time.
    pub source: Option<String>,
    /// The new service's own variable set, as name/value pairs.
    pub variables: Vec<(String, String)>,
}

/// The mathematical reading of a creation payload.
#[verifier::ext_equal]
pub ghost struct CreatePayloadModel {
    pub project_id: Seq<char>,
    pub environment_id: Option<Seq<char>>,
    pub name: Option<Seq<char>>,
    pub branch: Option<Seq<char>>,
    pub source: Option<Seq<char>>,
    pub variables: Seq<(Seq<char>, Seq<char>)>,
}

impl View for CreatePayload {
    type V = CreatePayloadModel;

    open spec fn view(&self) -> CreatePayloadModel {
        CreatePayloadModel {
            project_id: self.project_id@,
            environment_id: self.environment_id.deep_view(),
            name: self.name.deep_view(),
            branch: self.branch.deep_view(),
            source: self.source.deep_view(),
            variables: self.variables.deep_view(),
        }
    }
}

/// Payload of the source-attachment call.
pub struct AttachPayload {
    /// The backend-assigned identifier of the created service.
    pub service_id: String,
    /// The combined owner/name repository reference.
    pub repo: Option<String>,
    /// The branch to track.
    pub branch: Option<String>,
    /// A container image to deploy instead; never set by this workflow.
    pub image: Option<String>,
}

/// The mathematical reading of an attachment payload.
#[verifier::ext_equal]
pub ghost struct AttachPayloadModel {
    pub service_id: Seq<char>,
    pub repo: Option<Seq<char>>,
    pub branch: Option<Seq<char>>,
    pub image: Option<Seq<char>>,
}

impl View for AttachPayload {
    type V = AttachPayloadModel;

    open spec fn view(&self) -> AttachPayloadModel {
        AttachPayloadModel {
            service_id: self.service_id@,
            repo: self.repo.deep_view(),
            branch: self.branch.deep_view(),
            image: self.image.deep_view(),
        }
    }
}

/// Payload of the domain-exposure call.
pub struct DomainPayload {
    /// The backend-assigned identifier of the created service.
    pub service_id: String,
    /// The environment the domain is created in.
    pub environment_id: String,
}

/// The mathematical reading of a domain payload.
#[verifier::ext_equal]
pub ghost struct DomainPayloadModel {
    pub service_id: Seq<char>,
    pub environment_id: Seq<char>,
}

impl View for DomainPayload {
    type V = DomainPayloadModel;

    open spec fn view(&self) -> DomainPayloadModel {
        DomainPayloadModel {
            service_id: self.service_id@,
            environment_id: self.environment_id@,
        }
    }
}

/// The creation payload owed for a configuration, a derived service name,
/// and the depth of the instance being provisioned: branch and source stay
/// unset, and the child's variable set carries exactly its own depth and
/// the credential it authenticates with.
pub open spec fn spec_create_payload(cfg: ConfigModel, name: Seq<char>, next_level: nat) -> CreatePayloadModel {
    CreatePayloadModel {
        project_id: cfg.project_id,
        environment_id: Some(cfg.environment_id),
        name: Some(name),
        branch: None,
        source: None,
        variables: seq![(LEVEL_VAR@, dec_rep(next_level)), (TOKEN_VAR@, cfg.token)],
    }
}

/// The attachment payload owed for a configuration and a service identifier:
/// the repository reference is owner and name joined by a slash.
pub open spec fn spec_attach_payload(cfg: ConfigModel, service_id: Seq<char>) -> AttachPayloadModel {
    AttachPayloadModel {
        service_id: service_id,
        repo: Some(cfg.repo_owner + "/"@ + cfg.repo_name),
        branch: Some(cfg.branch),
        image: None,
    }
}

/// The domain payload owed for a configuration and a service identifier.
pub open spec fn spec_domain_payload(cfg: ConfigModel, service_id: Seq<char>) -> DomainPayloadModel {
    DomainPayloadModel {
        service_id: service_id,
        environment_id: cfg.environment_id,
    }
}

/// Builds the service-creation payload.
pub fn build_create_payload(cfg: &Config, identity: &ServiceIdentity, next_level: u32) -> (r: CreatePayload)
    ensures
        r@ == spec_create_payload(cfg@, identity.name@, next_level as nat),
{
    let mut variables: Vec<(String, String)> = Vec::new();
    variables.push((LEVEL_VAR.to_owned(), u64_to_string(next_level as u64)));
    variables.push((TOKEN_VAR.to_owned(), cfg.token.clone()));
    let r = CreatePayload {
        project_id: cfg.project_id.clone(),
        environment_id: Some(cfg.environment_id.clone()),
        name: Some(identity.name.clone()),
        branch: None,
        source: None,
        variables,
    };
    proof {
        let m = spec_create_payload(cfg@, identity.name@, next_level as nat);
        assert(r@.variables =~~= m.variables);
        assert(r@ =~~= m);
    }
    r
}

/// Builds the source-attachment payload.
pub fn build_attach_payload(cfg: &Config, service_id: &String) -> (r: AttachPayload)
    ensures
        r@ == spec_attach_payload(cfg@, service_id@),
{
    let mut repo = cfg.repo_owner.clone();
    repo.append("/");
    repo.append(cfg.repo_name.as_str());
    let r = AttachPayload {
        service_id: service_id.clone(),
        repo: Some(repo),
        branch: Some(cfg.branch.clone()),
        image: None,
    };
    proof {
        assert(r@ =~~= spec_attach_payload(cfg@, service_id@));
    }
    r
}

/// Builds the domain-exposure payload.
pub fn build_domain_payload(cfg: &Config, service_id: &String) -> (r: DomainPayload)
    ensures
        r@ == spec_domain_payload(cfg@, service_id@),
{
    DomainPayload {
        service_id: service_id.clone(),
        environment_id: cfg.environment_id.clone(),
    }
}

} // verus!
