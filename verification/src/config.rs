//! Desired-state schema for one container: image, logical name, network
//! identity hints, informational port list, bind mounts and environment
//! variables.

use vstd::prelude::*;

verus! {

/// One bind mount: a host-side path prefix, an in-container path suffix,
/// and a read-only flag.
pub struct StorageMount {
    pub host: String,
    pub local: String,
    pub ro: bool,
}

/// Mathematical image of a [`StorageMount`].
#[verifier::ext_equal]
pub struct StorageMountView {
    pub host: Seq<char>,
    pub local: Seq<char>,
    pub ro: bool,
}

impl View for StorageMount {
    type V = StorageMountView;

    open spec fn view(&self) -> StorageMountView {
        StorageMountView { host: self.host@, local: self.local@, ro: self.ro }
    }
}

impl DeepView for StorageMount {
    type V = StorageMountView;

    open spec fn deep_view(&self) -> StorageMountView {
        self.view()
    }
}

/// One environment variable: a name and a value.
pub struct EnvEntry {
    pub key: String,
    pub value: String,
}

/// Mathematical image of an [`EnvEntry`].
#[verifier::ext_equal]
pub struct EnvEntryView {
    pub key: Seq<char>,
    pub value: Seq<char>,
}

impl View for EnvEntry {
    type V = EnvEntryView;

    open spec fn view(&self) -> EnvEntryView {
        EnvEntryView { key: self.key@, value: self.value@ }
    }
}

impl DeepView for EnvEntry {
    type V = EnvEntryView;

    open spec fn deep_view(&self) -> EnvEntryView {
        self.view()
    }
}

/// Desired state for one container. `name` is the sole identity used for
/// existence checks against the engine; `ports` is carried but not yet
/// turned into any engine port binding.
pub struct ContainerConfiguration {
    pub image: String,
    pub name: String,
    pub hostname: Option<String>,
    pub domain: Option<String>,
    pub ports: Option<Vec<u16>>,
    pub storage: Option<Vec<StorageMount>>,
    pub environment: Option<Vec<EnvEntry>>,
}

/// Mathematical image of a [`ContainerConfiguration`].
#[verifier::ext_equal]
pub struct ContainerConfigurationView {
    pub image: Seq<char>,
    pub name: Seq<char>,
    pub hostname: Option<Seq<char>>,
    pub domain: Option<Seq<char>>,
    pub ports: Option<Seq<u16>>,
    pub storage: Option<Seq<StorageMountView>>,
    pub environment: Option<Seq<EnvEntryView>>,
}

impl View for ContainerConfiguration {
    type V = ContainerConfigurationView;

    open spec fn view(&self) -> ContainerConfigurationView {
        ContainerConfigurationView {
            image: self.image@,
            name: self.name@,
            hostname: self.hostname.deep_view(),
            domain: self.domain.deep_view(),
            ports: self.ports.deep_view(),
            storage: self.storage.deep_view(),
            environment: self.environment.deep_view(),
        }
    }
}

impl ContainerConfigurationView {
    /// The stated invariant of a configuration: the name is non-empty and
    /// the environment binds each variable name at most once. The core
    /// performs no validation of its own — the boundary that builds the
    /// configuration establishes this, and malformed values are left to
    /// the engine to reject.
    pub open spec fn wf(self) -> bool {
        &&& self.name.len() > 0
        &&& match self.environment {
            Some(env) => forall|i: int, j: int|
                0 <= i < j < env.len() ==> env[i].key != env[j].key,
            None => true,
        }
    }
}

} // verus!
