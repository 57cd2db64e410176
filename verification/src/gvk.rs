use vstd::prelude::*;
use vstd::string::StringExecFns;
use vstd::string::StrSliceExecFns;
use crate::document::{ManifestDocument, NodeView};
use crate::error::{Error, TypeField};

verus! {

/// The three-part identifier of an API type.
#[derive(Clone, Debug)]
pub struct GroupVersionKind {
    /// API group; empty for the core group.
    pub group: String,
    /// Version within the group.
    pub version: String,
    /// Kind within the group and version.
    pub kind: String,
}

/// A [`GroupVersionKind`] as plain character sequences.
pub struct GvkView {
    pub group: Seq<char>,
    pub version: Seq<char>,
    pub kind: Seq<char>,
}

impl View for GroupVersionKind {
    type V = GvkView;

    open spec fn view(&self) -> GvkView {
        GvkView { group: self.group@, version: self.version@, kind: self.kind@ }
    }
}

/// `i` is the position of the first `/` of `s`.
pub open spec fn first_slash(s: Seq<char>, i: int) -> bool {
    &&& 0 <= i < s.len()
    &&& s[i] == '/'
    &&& forall|j: int| 0 <= j < i ==> s[j] != '/'
}

/// Group and version named by an `apiVersion`: `version` alone stands for the
/// core group, `group/version` for any other. Both parts must be non-empty
/// and at most one `/` may occur; everything else is malformed.
pub open spec fn api_version_parts(s: Seq<char>) -> Option<(Seq<char>, Seq<char>)> {
    if s.len() == 0 {
        None
    } else if !s.contains('/') {
        Some((Seq::empty(), s))
    } else {
        let i = choose|i: int| first_slash(s, i);
        let group = s.subrange(0, i);
        let version = s.subrange(i + 1, s.len() as int);
        if group.len() > 0 && version.len() > 0 && !version.contains('/') {
            Some((group, version))
        } else {
            None
        }
    }
}

/// The `apiVersion` that names a group and a version.
pub open spec fn api_version_of(group: Seq<char>, version: Seq<char>) -> Seq<char> {
    if group.len() == 0 {
        version
    } else {
        group + seq!['/'] + version
    }
}

/// Splitting undoes joining: an `apiVersion` written from a group and a
/// non-empty version, neither holding a `/`, splits into just these two.
pub proof fn lemma_api_version_round_trip(group: Seq<char>, version: Seq<char>)
    requires
        !group.contains('/'),
        !version.contains('/'),
        version.len() > 0,
    ensures
        api_version_parts(api_version_of(group, version)) == Some((group, version)),
{
    let s = api_version_of(group, version);
    if group.len() == 0 {
        assert(group == Seq::<char>::empty());
    } else {
        let i = group.len() as int;
        assert(s[i] == '/');
        assert(s.contains('/'));
        assert forall|j: int| 0 <= j < i implies s[j] != '/' by {
            assert(s[j] == group[j]);
            assert(group.contains(group[j]));
        }
        assert(first_slash(s, i));
        let c = choose|c: int| first_slash(s, c);
        assert(c == i) by {
            if c < i {
                assert(s[c] != '/');
            } else if i < c {
                assert(s[i] != '/');
            }
        }
        assert(s.subrange(0, i) == group);
        assert(s.subrange(i + 1, s.len() as int) == version);
    }
}

/// The type a manifest declares, or the field that keeps it from declaring
/// one. `apiVersion` is examined before `kind`.
pub open spec fn declared_type(tree: NodeView) -> Result<GvkView, TypeField> {
    match tree.lookup_text("apiVersion"@) {
        None => Err(TypeField::ApiVersion),
        Some(api_version) => match api_version_parts(api_version) {
            None => Err(TypeField::ApiVersion),
            Some((group, version)) => match tree.lookup_text("kind"@) {
                None => Err(TypeField::Kind),
                Some(kind) => if kind.len() == 0 {
                    Err(TypeField::Kind)
                } else {
                    Ok(GvkView { group, version, kind })
                },
            },
        },
    }
}

/// Position of the first `/` in `text` at or after `from`, if there is one.
fn find_slash(text: &str, from: usize) -> (found: Option<usize>)
    requires
        from <= text@.len(),
    ensures
        match found {
            Some(i) => from <= i < text@.len() && text@[i as int] == '/' && forall|j: int|
                from <= j < i ==> text@[j] != '/',
            None => forall|j: int| from <= j < text@.len() ==> text@[j] != '/',
        },
{
    let n = text.unicode_len();
    let mut i: usize = from;
    while i < n
        invariant
            from <= i <= n,
            n == text@.len(),
            forall|j: int| from <= j < i ==> text@[j] != '/',
        decreases n - i,
    {
        if text.get_char(i) == '/' {
            return Some(i);
        }
        i += 1;
    }
    None
}

/// Splits an `apiVersion` into group and version.
pub fn split_api_version(api_version: &str) -> (parts: Option<(String, String)>)
    ensures
        match parts {
            Some((group, version)) => api_version_parts(api_version@) == Some((group@, version@)),
            None => api_version_parts(api_version@) is None,
        },
{
    let n = api_version.unicode_len();
    if n == 0 {
        return None;
    }
    match find_slash(api_version, 0) {
        None => {
            proof {
                if api_version@.contains('/') {
                    let k = choose|k: int| 0 <= k < api_version@.len() && api_version@[k] == '/';
                    assert(api_version@[k] != '/');
                }
            }
            Some((String::new(), String::from_str(api_version)))
        },
        Some(i) => {
            proof {
                assert(first_slash(api_version@, i as int));
                assert(api_version@.contains('/'));
                let c = choose|c: int| first_slash(api_version@, c);
                assert(c == i) by {
                    if c < i {
                        assert(api_version@[c] != '/');
                    } else if i < c {
                        assert(api_version@[i as int] != '/');
                    }
                }
            }
            let ghost rest = api_version@.subrange(i + 1, n as int);
            if i == 0 || i + 1 == n {
                return None;
            }
            match find_slash(api_version, i + 1) {
                Some(k) => {
                    proof {
                        assert(rest[k - (i + 1)] == '/');
                        assert(rest.contains('/'));
                    }
                    None
                },
                None => {
                    proof {
                        if rest.contains('/') {
                            let k = choose|k: int| 0 <= k < rest.len() && rest[k] == '/';
                            assert(api_version@[k + i + 1] == '/');
                        }
                    }
                    let group = String::from_str(api_version.substring_char(0, i));
                    let version = String::from_str(api_version.substring_char(i + 1, n));
                    Some((group, version))
                },
            }
        },
    }
}

/// Derives a manifest's API type from its `apiVersion` and `kind`.
///
/// Fails with [`Error::MissingTypeMetadata`] when either is absent, is not
/// text, or is malformed, naming the first field at fault.
pub fn resolve(doc: &ManifestDocument) -> (resolved: Result<GroupVersionKind, Error>)
    ensures
        match resolved {
            Ok(gvk) => declared_type(doc@) == Ok::<GvkView, TypeField>(gvk@),
            Err(e) => e matches Error::MissingTypeMetadata { field } && declared_type(doc@) == Err::<
                GvkView,
                TypeField,
            >(field),
        },
{
    let api_version = match doc.top_text("apiVersion") {
        Some(s) => s,
        None => {
            return Err(Error::MissingTypeMetadata { field: TypeField::ApiVersion });
        },
    };
    let (group, version) = match split_api_version(api_version.as_str()) {
        Some(parts) => parts,
        None => {
            return Err(Error::MissingTypeMetadata { field: TypeField::ApiVersion });
        },
    };
    let kind = match doc.top_text("kind") {
        Some(s) => s,
        None => {
            return Err(Error::MissingTypeMetadata { field: TypeField::Kind });
        },
    };
    if kind.as_str().is_empty() {
        return Err(Error::MissingTypeMetadata { field: TypeField::Kind });
    }
    Ok(GroupVersionKind { group, version, kind: kind.clone() })
}

/// What the server needs to be told to address objects of one API type.
#[derive(Clone, Debug)]
pub struct ResourceDescriptor {
    /// API group; empty for the core group.
    pub group: String,
    /// Version within the group.
    pub version: String,
    /// Kind served at this resource.
    pub kind: String,
    /// Plural name, the last segment of the resource's REST path.
    pub plural: String,
    /// Whether objects of this kind live in a namespace.
    pub namespaced: bool,
}

/// A [`ResourceDescriptor`] as plain values.
pub struct ResourceView {
    pub group: Seq<char>,
    pub version: Seq<char>,
    pub kind: Seq<char>,
    pub plural: Seq<char>,
    pub namespaced: bool,
}

impl ResourceView {
    /// The API type this resource serves.
    pub open spec fn gvk(self) -> GvkView {
        GvkView { group: self.group, version: self.version, kind: self.kind }
    }
}

impl View for ResourceDescriptor {
    type V = ResourceView;

    open spec fn view(&self) -> ResourceView {
        ResourceView {
            group: self.group@,
            version: self.version@,
            kind: self.kind@,
            plural: self.plural@,
            namespaced: self.namespaced,
        }
    }
}

impl ResourceDescriptor {
    /// Whether this resource serves the API type `gvk`.
    pub fn serves(&self, gvk: &GroupVersionKind) -> (yes: bool)
        ensures
            yes == (self@.gvk() == gvk@),
    {
        self.group == gvk.group && self.version == gvk.version && self.kind == gvk.kind
    }
}

/// Index of the first resource at or after `from` that serves `gvk`.
pub open spec fn find_resource(resources: Seq<ResourceView>, gvk: GvkView, from: int) -> Option<int>
    decreases resources.len() - from,
{
    if from < 0 || from >= resources.len() {
        None
    } else if resources[from].gvk() == gvk {
        Some(from)
    } else {
        find_resource(resources, gvk, from + 1)
    }
}

/// The API surface of a cluster as one discovery run reported it.
#[derive(Clone, Debug)]
pub struct DiscoverySnapshot {
    resources: Vec<ResourceDescriptor>,
}

impl View for DiscoverySnapshot {
    type V = Seq<ResourceView>;

    closed spec fn view(&self) -> Seq<ResourceView> {
        Seq::new(self.resources@.len(), |i: int| self.resources@[i]@)
    }
}

impl DiscoverySnapshot {
    /// A snapshot of a cluster that serves nothing.
    pub fn new() -> (snapshot: DiscoverySnapshot)
        ensures
            snapshot@ == Seq::<ResourceView>::empty(),
    {
        DiscoverySnapshot { resources: Vec::new() }
    }

    /// Records one served resource after those already recorded.
    pub fn record(&mut self, resource: ResourceDescriptor)
        ensures
            final(self)@ == old(self)@.push(resource@),
    {
        self.resources.push(resource);
    }

    /// How many resources the snapshot holds.
    pub fn len(&self) -> (n: usize)
        ensures
            n == self@.len(),
    {
        self.resources.len()
    }

    /// The resource registered for `gvk`: the first recorded one that serves
    /// it, or `None` when the cluster serves no such type.
    pub fn lookup(&self, gvk: &GroupVersionKind) -> (found: Option<&ResourceDescriptor>)
        ensures
            match found {
                Some(resource) => find_resource(self@, gvk@, 0) matches Some(i) && self@[i]
                    == resource@,
                None => find_resource(self@, gvk@, 0) is None,
            },
    {
        let mut i: usize = 0;
        while i < self.resources.len()
            invariant
                i <= self.resources.len(),
                self@.len() == self.resources.len(),
                forall|k: int| 0 <= k < self.resources.len() ==> self@[k] == self.resources@[k]@,
                find_resource(self@, gvk@, 0) == find_resource(self@, gvk@, i as int),
            decreases self.resources.len() - i,
        {
            let resource = &self.resources[i];
            if resource.serves(gvk) {
                return Some(resource);
            }
            i += 1;
        }
        None
    }
}

/// A lookup finds a resource exactly when some recorded resource serves the
/// type, and what it finds serves that type.
pub proof fn lemma_find_resource(resources: Seq<ResourceView>, gvk: GvkView, from: int)
    requires
        0 <= from,
    ensures
        match find_resource(resources, gvk, from) {
            Some(i) => from <= i < resources.len() && resources[i].gvk() == gvk && forall|j: int|
                from <= j < i ==> resources[j].gvk() != gvk,
            None => forall|j: int| from <= j < resources.len() ==> resources[j].gvk() != gvk,
        },
    decreases resources.len() - from,
{
    if from < resources.len() && resources[from].gvk() != gvk {
        lemma_find_resource(resources, gvk, from + 1);
    }
}

} // verus!
