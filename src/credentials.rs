use vstd::prelude::*;

use crate::Error;

verus! {

/// The Secret type that holds docker-config-JSON pull credentials.
pub open spec fn docker_config_json_type() -> Seq<char> {
    "kubernetes.io/dockerconfigjson"@
}

/// A pull secret as read from the cluster: its declared type and the
/// `.dockerconfigjson` payload, if the Secret has that key.
#[derive(Debug)]
pub struct PullSecret {
    pub secret_type: Option<String>,
    pub docker_config_json: Option<Vec<u8>>,
}

/// One registry's entry of a decoded docker config.
#[derive(Debug)]
pub struct RegistryEntry {
    pub registry: String,
    pub username: String,
    pub password: String,
}

/// A decoded docker config: its registry entries in document order.
#[derive(Debug)]
pub struct DockerConfig {
    pub auths: Vec<RegistryEntry>,
}

/// How the artifact resolver authenticates against a registry.
#[derive(Debug)]
pub enum RegistryAuth {
    Anonymous,
    Basic(String, String),
}

/// Picks the pull secret that an AppInstance in `namespace` refers to.
/// At most one reference is supported; no reference means anonymous pull.
pub fn select_pull_secret(namespace: &Option<String>, pull_secrets: &Vec<String>) -> (r: Result<
    Option<String>,
    Error,
>)
    ensures
        namespace is None ==> r matches Err(Error::NamespaceRequired),
        namespace is Some && pull_secrets.len() > 1 ==> r matches Err(
            Error::UnsupportedMultipleImagePullSecrets,
        ),
        namespace is Some && pull_secrets.len() == 0 ==> r matches Ok(None),
        namespace is Some && pull_secrets.len() == 1 ==> (r matches Ok(Some(s)) && s@
            == pull_secrets[0]@),
{
    if namespace.is_none() {
        return Err(Error::NamespaceRequired);
    }
    if pull_secrets.len() > 1 {
        return Err(Error::UnsupportedMultipleImagePullSecrets);
    }
    if pull_secrets.len() == 0 {
        Ok(None)
    } else {
        Ok(Some(pull_secrets[0].clone()))
    }
}

/// The outcome of checking a pull secret, in the order the checks run:
/// first its type, then the presence of the payload.
pub open spec fn spec_is_docker_config_secret(secret: PullSecret) -> bool {
    secret.secret_type matches Some(t) && t@ == docker_config_json_type()
}

/// Checks that `secret` is a docker-config-JSON Secret holding its payload,
/// and hands out that payload.
pub fn docker_config_payload(secret: &PullSecret) -> (r: Result<&Vec<u8>, Error>)
    ensures
        !spec_is_docker_config_secret(*secret) ==> (r matches Err(
            Error::BadImagePullSecretType(t),
        ) && t == secret.secret_type),
        spec_is_docker_config_secret(*secret) && secret.docker_config_json is None ==> r matches Err(
            Error::NoDockerConfigJsonInImagePullSecret,
        ),
        spec_is_docker_config_secret(*secret) ==> (secret.docker_config_json matches Some(d) ==> (r
            matches Ok(p) && p == d)),
{
    let expected = "kubernetes.io/dockerconfigjson".to_owned();
    proof {
        reveal_strlit("kubernetes.io/dockerconfigjson");
    }
    let ok_type = match &secret.secret_type {
        Some(t) => *t == expected,
        None => false,
    };
    if !ok_type {
        let observed = match &secret.secret_type {
            Some(t) => Some(t.clone()),
            None => None,
        };
        return Err(Error::BadImagePullSecretType(observed));
    }
    match &secret.docker_config_json {
        Some(d) => Ok(d),
        None => Err(Error::NoDockerConfigJsonInImagePullSecret),
    }
}

/// The index of the first entry of `auths` for `registry`, if any.
pub open spec fn is_first_entry(auths: Seq<RegistryEntry>, registry: Seq<char>, i: int) -> bool {
    &&& 0 <= i < auths.len()
    &&& auths[i].registry@ == registry
    &&& forall|j: int| 0 <= j < i ==> auths[j].registry@ != registry
}

/// Whether `a` is what `config` gives for `registry`: the credentials of
/// its first entry for that registry, or anonymous access when it has none.
pub open spec fn spec_auth_for(config: DockerConfig, registry: Seq<char>, a: RegistryAuth) -> bool {
    &&& (a is Anonymous <==> forall|i: int|
        0 <= i < config.auths.len() ==> config.auths[i].registry@ != registry)
    &&& (a matches RegistryAuth::Basic(u, p) ==> exists|i: int|
        is_first_entry(config.auths@, registry, i) && u@ == config.auths[i].username@ && p@
            == config.auths[i].password@)
}

/// The credentials that `config` gives for `registry`: those of its first
/// entry for that registry, or anonymous access when it has none.
pub fn auth_for(config: &DockerConfig, registry: &String) -> (r: RegistryAuth)
    ensures
        spec_auth_for(*config, registry@, r),
{
    let mut i: usize = 0;
    while i < config.auths.len()
        invariant
            0 <= i <= config.auths.len(),
            forall|j: int| 0 <= j < i ==> config.auths[j].registry@ != registry@,
        decreases config.auths.len() - i,
    {
        let e = &config.auths[i];
        if e.registry == *registry {
            assert(is_first_entry(config.auths@, registry@, i as int));
            return RegistryAuth::Basic(e.username.clone(), e.password.clone());
        }
        i += 1;
    }
    RegistryAuth::Anonymous
}

/// The registry part of `s` read as an OCI image reference, or `None` when
/// `s` is not a valid reference.
pub uninterp spec fn parsed_registry(s: Seq<char>) -> Option<Seq<char>>;

/// Relies on `oci_distribution::Reference::try_from` and
/// `Reference::registry`: whether `reference` parses as an image reference
/// (an empty one never does), and the registry it names. The error carries
/// the parser's message.
#[verifier::external_body]
pub(crate) fn reference_registry(reference: &String) -> (r: core::result::Result<String, String>)
    ensures
        r is Ok <==> parsed_registry(reference@) is Some,
        r matches Ok(reg) ==> parsed_registry(reference@) == Some(reg@),
        reference@.len() == 0 ==> r is Err,
{
    match oci_distribution::Reference::try_from(reference.as_str()) {
        Ok(parsed) => Ok(parsed.registry().to_string()),
        Err(e) => Err(e.to_string()),
    }
}

/// Turns the decoded payload of a pull secret into the credentials for
/// `registry`; a payload that did not decode is reported as such.
pub fn resolve_auth(decoded: core::result::Result<DockerConfig, String>, registry: &String) -> (r:
    Result<RegistryAuth, Error>)
    ensures
        decoded matches Err(m) ==> (r matches Err(Error::DecodeDockerConfig(m2)) && m2 == m),
        decoded matches Ok(c) ==> (r matches Ok(a) && spec_auth_for(c, registry@, a)),
{
    match decoded {
        Ok(c) => Ok(auth_for(&c, registry)),
        Err(m) => Err(Error::DecodeDockerConfig(m)),
    }
}


/// Resolves the credentials for the artifact `reference` from the decoded
/// payload of its pull secret: the reference must parse, then the payload
/// must have decoded, and the entry for the reference's registry is used.
pub fn registry_auth(reference: &String, decoded: core::result::Result<DockerConfig, String>) -> (r:
    Result<RegistryAuth, Error>)
    ensures
        parsed_registry(reference@) is None ==> r matches Err(Error::OCIParseError(_)),
        parsed_registry(reference@) is Some ==> (decoded matches Err(m) ==> (r matches Err(
            Error::DecodeDockerConfig(m2),
        ) && m2 == m)),
        parsed_registry(reference@) matches Some(reg) ==> (decoded matches Ok(c) ==> (r matches Ok(a)
            && spec_auth_for(c, reg, a))),
{
    let registry = match reference_registry(reference) {
        Ok(reg) => reg,
        Err(m) => return Err(Error::OCIParseError(m)),
    };
    resolve_auth(decoded, &registry)
}

} // verus!
