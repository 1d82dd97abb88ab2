//! The server's configuration: the constants and names the dual listener is
//! built from. The listeners themselves are network plumbing owned by the
//! embedding process; everything it needs from configuration — ports, route
//! segments, the TLS identity's subject alternative names — is computed here.

use vstd::prelude::*;
use vstd::string::StringExecFns;

verus! {

/// Port of the plaintext listener.
pub const HTTP_PORT: u16 = 8080;

/// Port of the TLS listener.
pub const HTTPS_PORT: u16 = 8443;

/// Connection settings of the DNS provider's API.
pub struct PleskSettings {
    pub url: String,
    pub siteid: String,
    pub username: String,
    pub password: String,
}

/// Names the certificate controller addresses this solver by; they form the
/// route paths.
pub struct CommonSettings {
    pub groupname: String,
    pub solvername: String,
    pub solverversion: String,
}

/// Everything read from configuration at startup.
pub struct Settings {
    pub plesk: PleskSettings,
    pub common: CommonSettings,
}

/// The construction inputs of the provider client, kept by the server for the
/// lifetime of the process.
pub struct ProviderConfig {
    pub url: String,
    pub site_id: String,
    pub username: String,
    pub password: String,
}

/// The webhook server: the provider client's configuration plus the names its
/// routes are built from.
pub struct HttpServer {
    pub provider: ProviderConfig,
    pub group_name: String,
    pub solver_name: String,
    pub solver_version: String,
}

impl HttpServer {
    /// Build the server from configuration: the provider client's inputs and
    /// the route names are taken over unchanged.
    pub fn new(settings: &Settings) -> (s: Self)
        ensures
            s.provider.url@ == settings.plesk.url@,
            s.provider.site_id@ == settings.plesk.siteid@,
            s.provider.username@ == settings.plesk.username@,
            s.provider.password@ == settings.plesk.password@,
            s.group_name@ == settings.common.groupname@,
            s.solver_name@ == settings.common.solvername@,
            s.solver_version@ == settings.common.solverversion@,
    {
        let provider = ProviderConfig {
            url: settings.plesk.url.clone(),
            site_id: settings.plesk.siteid.clone(),
            username: settings.plesk.username.clone(),
            password: settings.plesk.password.clone(),
        };
        HttpServer {
            provider,
            group_name: settings.common.groupname.clone(),
            solver_name: settings.common.solvername.clone(),
            solver_version: settings.common.solverversion.clone(),
        }
    }

    /// Path segments of the route prefix the controller calls:
    /// `apis/<group>/<version>`. A POST appends the solver's name as one more
    /// segment; a GET on the prefix (or below) is answered with the fixed
    /// not-implemented envelope.
    pub fn base_path_segments(&self) -> (segs: Vec<String>)
        ensures
            segs@.len() == 3,
            segs@[0]@ == "apis"@,
            segs@[1]@ == self.group_name@,
            segs@[2]@ == self.solver_version@,
    {
        let mut segs: Vec<String> = Vec::new();
        segs.push("apis".to_owned());
        segs.push(self.group_name.clone());
        segs.push(self.solver_version.clone());
        segs
    }

    /// Subject alternative names of the self-signed TLS identity:
    /// `localhost` and the solver's in-cluster service name.
    pub fn subject_alt_names(&self) -> (names: Vec<String>)
        ensures
            names@.len() == 2,
            names@[0]@ == "localhost"@,
            names@[1]@ == self.solver_name@ + ".cert-manager.svc.cluster.local"@,
    {
        let mut names: Vec<String> = Vec::new();
        names.push("localhost".to_owned());
        names.push(self.solver_name.clone().concat(".cert-manager.svc.cluster.local"));
        names
    }
}

} // verus!
