use vstd::prelude::*;
use vstd::string::StringExecFns;
use crate::document::{manifest_of, parsed_view, yaml_document, ManifestDocument, Node, NodeView};
use crate::error::{Error, TypeField};
use crate::gvk::{
    declared_type, find_resource, resolve, DiscoverySnapshot, GvkView, ResourceDescriptor,
    ResourceView,
};
use crate::pod::CollectInput;

verus! {

/// The identity under which every patch is submitted.
pub open spec fn field_manager() -> Seq<char> {
    "ktime"@
}

/// One server-side-apply patch, ready to be sent.
#[derive(Clone, Debug)]
pub struct ApplyRequest {
    /// The resource that accepts the object.
    pub resource: ResourceDescriptor,
    /// The namespace to apply into.
    pub namespace: String,
    /// The object's name.
    pub name: String,
    /// The identity that will own the applied fields.
    pub field_manager: String,
    /// Whether conflicting ownership is overridden.
    pub force: bool,
}

/// An [`ApplyRequest`] as plain values.
pub struct ApplyRequestView {
    pub resource: ResourceView,
    pub namespace: Seq<char>,
    pub name: Seq<char>,
    pub field_manager: Seq<char>,
    pub force: bool,
}

impl View for ApplyRequest {
    type V = ApplyRequestView;

    open spec fn view(&self) -> ApplyRequestView {
        ApplyRequestView {
            resource: self.resource@,
            namespace: self.namespace@,
            name: self.name@,
            field_manager: self.field_manager@,
            force: self.force,
        }
    }
}

/// Why a manifest cannot be turned into a patch.
pub enum Refusal {
    /// `apiVersion` or `kind` is absent or malformed.
    TypeMetadata(TypeField),
    /// The cluster serves no resource for the declared type.
    Unserved(GvkView),
    /// `metadata.name` is absent or is not text.
    Unnamed,
}

/// The namespace a manifest is applied into: its own `metadata.namespace`
/// when it names one, the caller's default otherwise.
pub open spec fn target_namespace(tree: NodeView, default_namespace: Seq<char>) -> Seq<char> {
    match tree.metadata_text("namespace"@) {
        Some(namespace) => namespace,
        None => default_namespace,
    }
}

/// The patch a manifest calls for against a discovery snapshot, or the
/// reason there is none. The type is resolved first, then looked up, then
/// the name is read.
pub open spec fn planned(
    tree: NodeView,
    snapshot: Seq<ResourceView>,
    default_namespace: Seq<char>,
) -> Result<ApplyRequestView, Refusal> {
    match declared_type(tree) {
        Err(field) => Err(Refusal::TypeMetadata(field)),
        Ok(gvk) => match find_resource(snapshot, gvk, 0) {
            None => Err(Refusal::Unserved(gvk)),
            Some(i) => match tree.metadata_text("name"@) {
                None => Err(Refusal::Unnamed),
                Some(name) => Ok(
                    ApplyRequestView {
                        resource: snapshot[i],
                        namespace: target_namespace(tree, default_namespace),
                        name,
                        field_manager: field_manager(),
                        force: true,
                    },
                ),
            },
        },
    }
}

/// Whether `error` reports the refusal `refusal`.
pub open spec fn reports(error: Error, refusal: Refusal) -> bool {
    match refusal {
        Refusal::TypeMetadata(f) => error matches Error::MissingTypeMetadata { field } && field == f,
        Refusal::Unserved(gvk) => error matches Error::DiscoveryMismatch { group, version, kind }
            && group@ == gvk.group && version@ == gvk.version && kind@ == gvk.kind,
        Refusal::Unnamed => error is MissingName,
    }
}

/// Resolves the namespace a manifest is applied into.
pub fn namespace_for(doc: &ManifestDocument, default_namespace: &str) -> (namespace: String)
    ensures
        namespace@ == target_namespace(doc@, default_namespace@),
{
    match doc.namespace() {
        Some(namespace) => namespace.clone(),
        None => String::from_str(default_namespace),
    }
}

/// Plans the server-side-apply patch for a manifest.
///
/// The patch is always forced and always owned by the same field manager,
/// which is what lets the same manifest be applied again without a prior
/// read of the live object.
pub fn plan(
    doc: &ManifestDocument,
    snapshot: &DiscoverySnapshot,
    default_namespace: &str,
) -> (planned_request: Result<ApplyRequest, Error>)
    ensures
        match planned_request {
            Ok(request) => planned(doc@, snapshot@, default_namespace@) == Ok::<
                ApplyRequestView,
                Refusal,
            >(request@),
            Err(e) => planned(doc@, snapshot@, default_namespace@) matches Err(refusal)
                && reports(e, refusal),
        },
{
    let gvk = match resolve(doc) {
        Ok(gvk) => gvk,
        Err(e) => {
            return Err(e);
        },
    };
    let resource = match snapshot.lookup(&gvk) {
        Some(resource) => resource,
        None => {
            return Err(
                Error::DiscoveryMismatch { group: gvk.group, version: gvk.version, kind: gvk.kind },
            );
        },
    };
    let name = match doc.name() {
        Some(name) => name,
        None => {
            return Err(Error::MissingName);
        },
    };
    Ok(
        ApplyRequest {
            resource: ResourceDescriptor {
                group: resource.group.clone(),
                version: resource.version.clone(),
                kind: resource.kind.clone(),
                plural: resource.plural.clone(),
                namespaced: resource.namespaced,
            },
            namespace: namespace_for(doc, default_namespace),
            name: name.clone(),
            field_manager: String::from_str("ktime"),
            force: true,
        },
    )
}

/// Whether `outcome` is the right answer to a parser's outcome: what is no
/// manifest is refused with the reason it is none, and a manifest is planned
/// as [`plan`] does.
pub open spec fn answers(
    parsed: Result<NodeView, Seq<char>>,
    snapshot: Seq<ResourceView>,
    default_namespace: Seq<char>,
    outcome: Result<ApplyRequest, Error>,
) -> bool {
    match manifest_of(parsed) {
        Err(why) => outcome matches Err(Error::ManifestParse { reason }) && reason@ == why,
        Ok(root) => match planned(root, snapshot, default_namespace) {
            Ok(request) => outcome matches Ok(made) && made@ == request,
            Err(refusal) => outcome matches Err(e) && reports(e, refusal),
        },
    }
}

/// Every planned patch is forced and owned by the one field manager, so
/// that planning the same manifest again asks the server for the same
/// thing.
pub proof fn lemma_planned_patch_is_forced(
    tree: NodeView,
    snapshot: Seq<ResourceView>,
    default_namespace: Seq<char>,
)
    ensures
        planned(tree, snapshot, default_namespace) matches Ok(request) ==> request.force
            && request.field_manager == field_manager(),
{
}

/// Plans the patch for an already parsed document.
pub fn apply_parsed(
    parsed: Result<Node, String>,
    snapshot: &DiscoverySnapshot,
    default_namespace: &str,
) -> (outcome: Result<ApplyRequest, Error>)
    ensures
        answers(parsed_view(parsed), snapshot@, default_namespace@, outcome),
{
    match ManifestDocument::from_parsed(parsed) {
        Ok(doc) => plan(&doc, snapshot, default_namespace),
        Err(e) => Err(e),
    }
}

/// Reads a manifest's text and plans its server-side-apply patch.
pub fn apply(text: &str, snapshot: &DiscoverySnapshot, default_namespace: &str) -> (outcome: Result<
    ApplyRequest,
    Error,
>)
    ensures
        answers(yaml_document(text@), snapshot@, default_namespace@, outcome),
{
    match ManifestDocument::parse(text) {
        Ok(doc) => plan(&doc, snapshot, default_namespace),
        Err(e) => Err(e),
    }
}

impl ApplyRequest {
    /// The pod to observe once the patch has been applied.
    pub fn collect_input(&self) -> (input: CollectInput)
        ensures
            input.name@ == self.name@,
            input.namespace@ == self.namespace@,
    {
        CollectInput { name: self.name.clone(), namespace: self.namespace.clone() }
    }

    /// The error that reports the server's refusal of this patch, with the
    /// object's kind and name attached and the server's words unchanged.
    pub fn rejected(&self, reason: String) -> (error: Error)
        ensures
            error matches Error::ApplyRejected { kind, name, reason: r } && kind@
                == self.resource.kind@ && name@ == self.name@ && r == reason,
    {
        Error::ApplyRejected { kind: self.resource.kind.clone(), name: self.name.clone(), reason }
    }
}

} // verus!
