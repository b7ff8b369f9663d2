//! Process configuration: one immutable value, constructed at startup and
//! passed explicitly into the workflow.

use vstd::prelude::*;

verus! {

/// The configuration of one provisioning process. Every string is optional
/// at its source; absence is represented by an empty string (or `None` for
/// the recursion depth), never by a failure.
pub struct Config {
    /// Bearer credential for the provisioning backend, also handed to the
    /// provisioned instance so it can authenticate in turn.
    pub token: String,
    /// Identifier of the project the service is created in.
    pub project_id: String,
    /// Identifier of the environment the service is created in.
    pub environment_id: String,
    /// Owner of the source repository to connect.
    pub repo_owner: String,
    /// Name of the source repository to connect.
    pub repo_name: String,
    /// Branch of the source repository to connect.
    pub branch: String,
    /// The current recursion depth, as the configuration spells it.
    pub level_input: Option<String>,
}

/// The mathematical reading of a configuration.
#[verifier::ext_equal]
pub ghost struct ConfigModel {
    pub token: Seq<char>,
    pub project_id: Seq<char>,
    pub environment_id: Seq<char>,
    pub repo_owner: Seq<char>,
    pub repo_name: Seq<char>,
    pub branch: Seq<char>,
    pub level_input: Option<Seq<char>>,
}

impl View for Config {
    type V = ConfigModel;

    open spec fn view(&self) -> ConfigModel {
        ConfigModel {
            token: self.token@,
            project_id: self.project_id@,
            environment_id: self.environment_id@,
            repo_owner: self.repo_owner@,
            repo_name: self.repo_name@,
            branch: self.branch@,
            level_input: self.level_input.deep_view(),
        }
    }
}

} // verus!
