//! Building the engine's create options from a desired-state
//! configuration: environment entries flatten to `KEY=VALUE` strings,
//! storage mounts become host-configuration bind strings.

use vstd::prelude::*;

use crate::config::{
    ContainerConfiguration, ContainerConfigurationView, EnvEntry, EnvEntryView, StorageMount,
    StorageMountView,
};

verus! {

/// The create options handed to the engine: container name, image,
/// network identity passed through verbatim, flattened environment, and
/// the host-configuration bind list (absent storage yields no binds).
pub struct CreateRequest {
    pub name: String,
    pub image: String,
    pub hostname: Option<String>,
    pub domain: Option<String>,
    pub env: Option<Vec<String>>,
    pub binds: Option<Vec<String>>,
}

/// Mathematical image of a [`CreateRequest`].
#[verifier::ext_equal]
pub struct CreateRequestView {
    pub name: Seq<char>,
    pub image: Seq<char>,
    pub hostname: Option<Seq<char>>,
    pub domain: Option<Seq<char>>,
    pub env: Option<Seq<Seq<char>>>,
    pub binds: Option<Seq<Seq<char>>>,
}

impl View for CreateRequest {
    type V = CreateRequestView;

    open spec fn view(&self) -> CreateRequestView {
        CreateRequestView {
            name: self.name@,
            image: self.image@,
            hostname: self.hostname.deep_view(),
            domain: self.domain.deep_view(),
            env: self.env.deep_view(),
            binds: self.binds.deep_view(),
        }
    }
}

/// The bind string of one storage mount: the host path with the
/// in-container path concatenated directly onto it, and a `:ro` suffix
/// exactly when the mount is read-only.
pub open spec fn bind_string_of(m: StorageMountView) -> Seq<char> {
    if m.ro {
        m.host + m.local + ":ro"@
    } else {
        m.host + m.local
    }
}

/// The engine form of one environment entry: `KEY=VALUE`.
pub open spec fn env_string_of(e: EnvEntryView) -> Seq<char> {
    e.key + "="@ + e.value
}

/// The create options a configuration maps to: name and image are
/// taken as given, hostname and domain pass through verbatim, each
/// environment entry becomes its `KEY=VALUE` string, each storage mount
/// its bind string; an absent environment or storage list stays absent.
pub open spec fn request_of(c: ContainerConfigurationView) -> CreateRequestView {
    CreateRequestView {
        name: c.name,
        image: c.image,
        hostname: c.hostname,
        domain: c.domain,
        env: match c.environment {
            Some(es) => Some(es.map_values(|e: EnvEntryView| env_string_of(e))),
            None => None,
        },
        binds: match c.storage {
            Some(ms) => Some(ms.map_values(|m: StorageMountView| bind_string_of(m))),
            None => None,
        },
    }
}

/// Builds the bind string of one storage mount.
pub fn bind_string(m: &StorageMount) -> (r: String)
    ensures
        r@ == bind_string_of(m@),
{
    let mut s = m.host.clone();
    s.append(m.local.as_str());
    if m.ro {
        s.append(":ro");
    }
    s
}

/// Flattens an environment to its `KEY=VALUE` strings, one per entry, in
/// order: nothing is dropped and nothing is duplicated.
pub fn flatten_environment(env: &Vec<EnvEntry>) -> (r: Vec<String>)
    ensures
        r.deep_view() == env.deep_view().map_values(|e: EnvEntryView| env_string_of(e)),
{
    let mut r: Vec<String> = Vec::new();
    let mut i: usize = 0;
    while i < env.len()
        invariant
            i <= env.len(),
            r@.len() == i,
            forall|t: int| 0 <= t < i ==> (#[trigger] r@[t])@ == env_string_of(env@[t]@),
        decreases env.len() - i,
    {
        let mut s = env[i].key.clone();
        s.append("=");
        s.append(env[i].value.as_str());
        r.push(s);
        i += 1;
    }
    proof {
        assert(r.deep_view() =~= env.deep_view().map_values(|e: EnvEntryView| env_string_of(e)));
    }
    r
}

/// Builds the bind strings of a storage list, one per mount, in order.
pub fn binds_of_storage(storage: &Vec<StorageMount>) -> (r: Vec<String>)
    ensures
        r.deep_view() == storage.deep_view().map_values(|m: StorageMountView| bind_string_of(m)),
{
    let mut r: Vec<String> = Vec::new();
    let mut i: usize = 0;
    while i < storage.len()
        invariant
            i <= storage.len(),
            r@.len() == i,
            forall|t: int| 0 <= t < i ==> (#[trigger] r@[t])@ == bind_string_of(storage@[t]@),
        decreases storage.len() - i,
    {
        let s = bind_string(&storage[i]);
        r.push(s);
        i += 1;
    }
    proof {
        assert(r.deep_view() =~= storage.deep_view().map_values(
            |m: StorageMountView| bind_string_of(m),
        ));
    }
    r
}

/// Builds the full create options for a configuration, exactly as
/// [`request_of`] states them.
pub fn build_create_request(conf: &ContainerConfiguration) -> (r: CreateRequest)
    ensures
        r@ == request_of(conf@),
{
    let env = match &conf.environment {
        Some(entries) => Some(flatten_environment(entries)),
        None => None,
    };
    let binds = match &conf.storage {
        Some(mounts) => Some(binds_of_storage(mounts)),
        None => None,
    };
    let hostname = match &conf.hostname {
        Some(h) => Some(h.clone()),
        None => None,
    };
    let domain = match &conf.domain {
        Some(d) => Some(d.clone()),
        None => None,
    };
    let r = CreateRequest {
        name: conf.name.clone(),
        image: conf.image.clone(),
        hostname,
        domain,
        env,
        binds,
    };
    proof {
        assert(r@ =~~= request_of(conf@));
    }
    r
}

} // verus!
