use vstd::prelude::*;
use vstd::string::StringExecFns;

verus! {

#[verifier::external_type_specification]
#[verifier::external_body]
pub struct ExDeployment(k8s_openapi::api::apps::v1::Deployment);

#[verifier::external_type_specification]
#[verifier::external_body]
pub struct ExService(k8s_openapi::api::core::v1::Service);

#[verifier::external_type_specification]
#[verifier::external_body]
pub struct ExConfigMap(k8s_openapi::api::core::v1::ConfigMap);

#[verifier::external_type_specification]
#[verifier::external_body]
pub struct ExSecret(k8s_openapi::api::core::v1::Secret);

/// A manifest in the typed schema of its kind.
pub enum ManifestBody {
    Deployment(k8s_openapi::api::apps::v1::Deployment),
    Service(k8s_openapi::api::core::v1::Service),
    ConfigMap(k8s_openapi::api::core::v1::ConfigMap),
    Secret(k8s_openapi::api::core::v1::Secret),
}

impl ManifestBody {
    /// The kind whose schema the body is in.
    pub open spec fn kind(&self) -> ResourceKind {
        match self {
            ManifestBody::Deployment(_) => ResourceKind::Deployment,
            ManifestBody::Service(_) => ResourceKind::Service,
            ManifestBody::ConfigMap(_) => ResourceKind::ConfigMap,
            ManifestBody::Secret(_) => ResourceKind::Secret,
        }
    }
}

/// The resource kinds that the dispatcher creates.
#[derive(Clone, Copy, Debug, PartialEq, Eq, Structural)]
pub enum ResourceKind {
    Deployment,
    Service,
    ConfigMap,
    Secret,
}

impl ResourceKind {
    /// The kind as a manifest spells it.
    pub open spec fn name(self) -> Seq<char> {
        match self {
            ResourceKind::Deployment => "Deployment"@,
            ResourceKind::Service => "Service"@,
            ResourceKind::ConfigMap => "ConfigMap"@,
            ResourceKind::Secret => "Secret"@,
        }
    }

    /// The kind that a manifest means by `text`, if it is one of those the
    /// dispatcher creates.
    pub open spec fn recognized(text: Seq<char>) -> Option<ResourceKind> {
        if text == "Deployment"@ {
            Some(ResourceKind::Deployment)
        } else if text == "Service"@ {
            Some(ResourceKind::Service)
        } else if text == "ConfigMap"@ {
            Some(ResourceKind::ConfigMap)
        } else if text == "Secret"@ {
            Some(ResourceKind::Secret)
        } else {
            None
        }
    }

    /// The kind as a manifest spells it.
    pub fn as_str(self) -> (text: &'static str)
        ensures
            text@ == self.name(),
    {
        match self {
            ResourceKind::Deployment => "Deployment",
            ResourceKind::Service => "Service",
            ResourceKind::ConfigMap => "ConfigMap",
            ResourceKind::Secret => "Secret",
        }
    }

    /// Reads a kind as a manifest spells it. The match is exact.
    pub fn parse(text: &str) -> (kind: Option<ResourceKind>)
        ensures
            kind == Self::recognized(text@),
    {
        let text = String::from_str(text);
        if text == String::from_str("Deployment") {
            Some(ResourceKind::Deployment)
        } else if text == String::from_str("Service") {
            Some(ResourceKind::Service)
        } else if text == String::from_str("ConfigMap") {
            Some(ResourceKind::ConfigMap)
        } else if text == String::from_str("Secret") {
            Some(ResourceKind::Secret)
        } else {
            None
        }
    }
}

/// Every kind that the dispatcher creates is recognized under its own name,
/// and under no other kind's.
pub proof fn lemma_name_is_recognized(kind: ResourceKind)
    ensures
        ResourceKind::recognized(kind.name()) == Some(kind),
{
    reveal_strlit("Deployment");
    reveal_strlit("Service");
    reveal_strlit("ConfigMap");
    reveal_strlit("Secret");
    assert("Deployment"@.len() == 10);
    assert("Service"@.len() == 7);
    assert("ConfigMap"@.len() == 9);
    assert("Secret"@.len() == 6);
}

} // verus!
