//! The provider adapters: SSH (signing through the ssh-agent protocol),
//! TOTP (one-time codes, RFC 6238, without exposing the seed) and GitHub
//! (OAuth 2.0 with PKCE, and a deliberate subset of the API). None of them
//! carries out operations yet: each names its capabilities and answers
//! every operation with an upstream error.
use vstd::prelude::*;
use crate::identity::CallerIdentity;
use crate::manager::{AdapterError, Capability, Operation, ProviderAdapter};

verus! {

/// A capability with the given name and description.
fn capability(name: &str, description: &str) -> (r: Capability)
    ensures
        r@ == (name@, description@),
{
    Capability { name: String::from_str(name), description: String::from_str(description) }
}

/// The GitHub adapter.
#[derive(Default)]
pub struct GithubAdapter;

impl GithubAdapter {
    pub fn new() -> (r: Self) {
        GithubAdapter
    }
}

impl ProviderAdapter for GithubAdapter {
    open spec fn spec_id(&self) -> Seq<char> {
        "github"@
    }

    open spec fn spec_capabilities(&self) -> Seq<(Seq<char>, Seq<char>)> {
        seq![
            ("github.repos.read"@, "Leer repositorios"@),
            ("github.repos.write"@, "Escribir en repositorios"@),
            ("github.deployments.create"@, "Crear deployments"@),
        ]
    }

    fn id(&self) -> (r: &str) {
        "github"
    }

    fn capabilities(&self) -> (r: Vec<Capability>) {
        let mut v: Vec<Capability> = Vec::new();
        v.push(capability("github.repos.read", "Leer repositorios"));
        v.push(capability("github.repos.write", "Escribir en repositorios"));
        v.push(capability("github.deployments.create", "Crear deployments"));
        assert(crate::manager::capabilities_view(v@) =~= self.spec_capabilities());
        v
    }

    /// Not carried out yet: always an upstream error.
    open spec fn execute_promise(
        &self,
        operation: Operation,
        caller: CallerIdentity,
        r: Result<serde_json::Value, AdapterError>,
    ) -> bool {
        r matches Err(AdapterError::Upstream(m)) && m@ == "adapter GitHub aún no implementado"@
    }

    /// Not carried out yet: always an upstream error.
    fn execute(&self, _operation: &Operation, _caller: &CallerIdentity) -> (r: Result<
        serde_json::Value,
        AdapterError,
    >)
        ensures
            r matches Err(AdapterError::Upstream(m)) && m@ == "adapter GitHub aún no implementado"@,
    {
        Err(AdapterError::Upstream(String::from_str("adapter GitHub aún no implementado")))
    }
}

/// The SSH adapter.
#[derive(Default)]
pub struct SshAdapter;

impl SshAdapter {
    pub fn new() -> (r: Self) {
        SshAdapter
    }
}

impl ProviderAdapter for SshAdapter {
    open spec fn spec_id(&self) -> Seq<char> {
        "ssh"@
    }

    open spec fn spec_capabilities(&self) -> Seq<(Seq<char>, Seq<char>)> {
        seq![("ssh.sign"@, "Firma un desafío con una clave gestionada por el broker"@)]
    }

    fn id(&self) -> (r: &str) {
        "ssh"
    }

    fn capabilities(&self) -> (r: Vec<Capability>) {
        let mut v: Vec<Capability> = Vec::new();
        v.push(capability("ssh.sign", "Firma un desafío con una clave gestionada por el broker"));
        assert(crate::manager::capabilities_view(v@) =~= self.spec_capabilities());
        v
    }

    /// Not carried out yet: always an upstream error.
    open spec fn execute_promise(
        &self,
        operation: Operation,
        caller: CallerIdentity,
        r: Result<serde_json::Value, AdapterError>,
    ) -> bool {
        r matches Err(AdapterError::Upstream(m)) && m@ == "adapter SSH aún no implementado"@
    }

    /// Not carried out yet: always an upstream error.
    fn execute(&self, _operation: &Operation, _caller: &CallerIdentity) -> (r: Result<
        serde_json::Value,
        AdapterError,
    >)
        ensures
            r matches Err(AdapterError::Upstream(m)) && m@ == "adapter SSH aún no implementado"@,
    {
        Err(AdapterError::Upstream(String::from_str("adapter SSH aún no implementado")))
    }
}

/// The TOTP adapter.
#[derive(Default)]
pub struct TotpAdapter;

impl TotpAdapter {
    pub fn new() -> (r: Self) {
        TotpAdapter
    }
}

impl ProviderAdapter for TotpAdapter {
    open spec fn spec_id(&self) -> Seq<char> {
        "totp"@
    }

    open spec fn spec_capabilities(&self) -> Seq<(Seq<char>, Seq<char>)> {
        seq![("totp.generate"@, "Genera un código TOTP a partir del seed almacenado"@)]
    }

    fn id(&self) -> (r: &str) {
        "totp"
    }

    fn capabilities(&self) -> (r: Vec<Capability>) {
        let mut v: Vec<Capability> = Vec::new();
        v.push(capability("totp.generate", "Genera un código TOTP a partir del seed almacenado"));
        assert(crate::manager::capabilities_view(v@) =~= self.spec_capabilities());
        v
    }

    /// Not carried out yet: always an upstream error.
    open spec fn execute_promise(
        &self,
        operation: Operation,
        caller: CallerIdentity,
        r: Result<serde_json::Value, AdapterError>,
    ) -> bool {
        r matches Err(AdapterError::Upstream(m)) && m@ == "adapter TOTP aún no implementado"@
    }

    /// Not carried out yet: always an upstream error.
    fn execute(&self, _operation: &Operation, _caller: &CallerIdentity) -> (r: Result<
        serde_json::Value,
        AdapterError,
    >)
        ensures
            r matches Err(AdapterError::Upstream(m)) && m@ == "adapter TOTP aún no implementado"@,
    {
        Err(AdapterError::Upstream(String::from_str("adapter TOTP aún no implementado")))
    }
}

} // verus!
