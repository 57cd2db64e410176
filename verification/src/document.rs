use vstd::prelude::*;
use vstd::string::StringExecFns;
use crate::error::Error;

verus! {

/// One value of a structured document.
///
/// A mapping keeps its entries in document order, keys included as values,
/// so that nothing of the source document is lost or reinterpreted.
#[derive(Debug)]
pub enum Node {
    /// The null value.
    Null,
    /// A boolean.
    Bool(bool),
    /// A number, kept as its canonical text.
    Number(String),
    /// A string.
    Text(String),
    /// A sequence of values.
    Sequence(Vec<Node>),
    /// Key/value entries in document order.
    Mapping(Vec<(Node, Node)>),
    /// A value carrying an explicit tag.
    Tagged(String, Box<Node>),
}

/// A [`Node`] as a mathematical value: its strings as character sequences,
/// its vectors as sequences.
pub enum NodeView {
    Null,
    Bool(bool),
    Number(Seq<char>),
    Text(Seq<char>),
    Sequence(Seq<NodeView>),
    Mapping(Seq<(NodeView, NodeView)>),
    Tagged(Seq<char>, Box<NodeView>),
}

/// Index of the first entry at or after `from` whose key is the text `key`.
pub open spec fn find_key(entries: Seq<(NodeView, NodeView)>, key: Seq<char>, from: int) -> Option<int>
    decreases entries.len() - from,
{
    if from < 0 || from >= entries.len() {
        None
    } else if entries[from].0.as_text() == Some(key) {
        Some(from)
    } else {
        find_key(entries, key, from + 1)
    }
}

impl NodeView {
    /// The characters of a text node; `None` for every other node.
    pub open spec fn as_text(self) -> Option<Seq<char>> {
        match self {
            NodeView::Text(s) => Some(s),
            _ => None,
        }
    }

    /// The entries of a mapping; empty for every other node.
    pub open spec fn entries(self) -> Seq<(NodeView, NodeView)> {
        match self {
            NodeView::Mapping(entries) => entries,
            _ => Seq::empty(),
        }
    }

    /// The value stored under the text key `key`: the first such entry of a
    /// mapping, `None` when there is none or the node is no mapping.
    pub open spec fn lookup(self, key: Seq<char>) -> Option<NodeView> {
        match find_key(self.entries(), key, 0) {
            Some(i) => Some(self.entries()[i].1),
            None => None,
        }
    }

    /// The text stored under `key`, if the entry exists and is text.
    pub open spec fn lookup_text(self, key: Seq<char>) -> Option<Seq<char>> {
        match self.lookup(key) {
            Some(node) => node.as_text(),
            None => None,
        }
    }

    /// The text stored at `metadata.<key>` of a document's root.
    pub open spec fn metadata_text(self, key: Seq<char>) -> Option<Seq<char>> {
        match self.lookup("metadata"@) {
            Some(metadata) => metadata.lookup_text(key),
            None => None,
        }
    }
}

impl View for Node {
    type V = NodeView;

    open spec fn view(&self) -> NodeView {
        self.model()
    }
}

impl Node {
    /// The node as a mathematical value.
    pub open spec fn model(&self) -> NodeView
        decreases self,
    {
        match self {
            Node::Null => NodeView::Null,
            Node::Bool(b) => NodeView::Bool(*b),
            Node::Number(text) => NodeView::Number(text@),
            Node::Text(text) => NodeView::Text(text@),
            Node::Sequence(items) => NodeView::Sequence(
                Seq::new(
                    items@.len(),
                    |i: int|
                        if 0 <= i < items@.len() {
                            items@[i].model()
                        } else {
                            NodeView::Null
                        },
                ),
            ),
            Node::Mapping(entries) => NodeView::Mapping(
                Seq::new(
                    entries@.len(),
                    |i: int|
                        if 0 <= i < entries@.len() {
                            (entries@[i].0.model(), entries@[i].1.model())
                        } else {
                            (NodeView::Null, NodeView::Null)
                        },
                ),
            ),
            Node::Tagged(tag, inner) => NodeView::Tagged(tag@, Box::new(inner.model())),
        }
    }

    /// The string held by a text node.
    pub fn text(&self) -> (found: Option<&String>)
        ensures
            match found {
                Some(s) => self@.as_text() == Some(s@),
                None => self@.as_text() is None,
            },
    {
        match self {
            Node::Text(s) => Some(s),
            _ => None,
        }
    }

    /// Looks `key` up among the entries of a mapping.
    pub fn get(&self, key: &str) -> (found: Option<&Node>)
        ensures
            match found {
                Some(node) => self@.lookup(key@) == Some(node@),
                None => self@.lookup(key@) is None,
            },
    {
        match self {
            Node::Mapping(entries) => {
                let wanted = String::from_str(key);
                let mut i: usize = 0;
                while i < entries.len()
                    invariant
                        i <= entries.len(),
                        wanted@ == key@,
                        self@.entries().len() == entries@.len(),
                        forall|k: int|
                            0 <= k < entries@.len() ==> self@.entries()[k] == (
                                entries@[k].0@,
                                entries@[k].1@,
                            ),
                        find_key(self@.entries(), key@, 0) == find_key(
                            self@.entries(),
                            key@,
                            i as int,
                        ),
                    decreases entries.len() - i,
                {
                    let entry = &entries[i];
                    match &entry.0 {
                        Node::Text(s) => {
                            if *s == wanted {
                                return Some(&entry.1);
                            }
                        },
                        _ => {},
                    }
                    i += 1;
                }
                None
            },
            _ => None,
        }
    }

    /// Looks up `key` and returns the entry's string when it is text.
    pub fn get_text(&self, key: &str) -> (found: Option<&String>)
        ensures
            match found {
                Some(s) => self@.lookup_text(key@) == Some(s@),
                None => self@.lookup_text(key@) is None,
            },
    {
        match self.get(key) {
            Some(node) => node.text(),
            None => None,
        }
    }
}

#[verifier::external_type_specification]
#[verifier::external_body]
pub struct ExYamlValue(serde_yaml::Value);

/// What `serde_yaml` makes of a text: the document's tree, or the parser's
/// complaint when the text is not exactly one YAML document.
pub uninterp spec fn yaml_document(text: Seq<char>) -> Result<NodeView, Seq<char>>;

/// A parser's outcome as a mathematical value.
pub open spec fn parsed_view(parsed: Result<Node, String>) -> Result<NodeView, Seq<char>> {
    match parsed {
        Ok(root) => Ok(root@),
        Err(message) => Err(message@),
    }
}

/// Rebuilds a `serde_yaml::Value` as a [`Node`], variant by variant: scalars
/// move over unchanged, a number and a tag are written out with their
/// `Display`, sequences and mappings are walked in their own order. Nothing
/// is claimed of the outcome here; [`parse_yaml`] names what the two together
/// return.
#[verifier::external_body]
fn lift(value: serde_yaml::Value) -> (node: Node) {
    match value {
        serde_yaml::Value::Null => Node::Null,
        serde_yaml::Value::Bool(b) => Node::Bool(b),
        serde_yaml::Value::Number(n) => Node::Number(n.to_string()),
        serde_yaml::Value::String(s) => Node::Text(s),
        serde_yaml::Value::Sequence(items) => Node::Sequence(items.into_iter().map(lift).collect()),
        serde_yaml::Value::Mapping(m) => {
            Node::Mapping(m.into_iter().map(|(k, v)| (lift(k), lift(v))).collect())
        },
        serde_yaml::Value::Tagged(t) => Node::Tagged(t.tag.to_string(), Box::new(lift(t.value))),
    }
}

/// Calls `serde_yaml::from_str` for a `serde_yaml::Value`. The claim is only
/// that the outcome depends on the text alone: the same text always gives the
/// same tree or the same error message.
#[verifier::external_body]
fn parse_yaml(text: &str) -> (parsed: Result<Node, String>)
    ensures
        parsed_view(parsed) == yaml_document(text@),
{
    match serde_yaml::from_str::<serde_yaml::Value>(text) {
        Ok(value) => Ok(lift(value)),
        Err(e) => Err(e.to_string()),
    }
}

/// What a tree is told when it is refused as a manifest.
pub open spec fn not_a_mapping() -> Seq<char> {
    "the document is not a mapping"@
}

/// The manifest a parser's outcome amounts to: a parse failure keeps the
/// parser's message, a tree whose root is no mapping is refused, and a
/// mapping is the manifest.
pub open spec fn manifest_of(parsed: Result<NodeView, Seq<char>>) -> Result<NodeView, Seq<char>> {
    match parsed {
        Err(message) => Err(message),
        Ok(root) => if root is Mapping {
            Ok(root)
        } else {
            Err(not_a_mapping())
        },
    }
}

/// Whether `made` is the manifest that `expected` calls for, or the parse
/// error that carries its reason.
pub open spec fn is_manifest(
    made: Result<ManifestDocument, Error>,
    expected: Result<NodeView, Seq<char>>,
) -> bool {
    match expected {
        Ok(root) => made matches Ok(doc) && doc@ == root,
        Err(why) => made matches Err(Error::ManifestParse { reason }) && reason@ == why,
    }
}

/// A manifest: an untyped mapping from keys to arbitrary values.
#[derive(Debug)]
pub struct ManifestDocument {
    root: Node,
}

impl View for ManifestDocument {
    type V = NodeView;

    closed spec fn view(&self) -> NodeView {
        self.root@
    }
}

impl ManifestDocument {
    #[verifier::type_invariant]
    spec fn is_mapping(self) -> bool {
        self.root is Mapping
    }

    /// Accepts a tree as a manifest when its root is a mapping.
    pub fn new(root: Node) -> (made: Result<ManifestDocument, Error>)
        ensures
            is_manifest(made, manifest_of(Ok(root@))),
    {
        match root {
            Node::Mapping(_) => Ok(ManifestDocument { root }),
            _ => Err(Error::ManifestParse { reason: String::from_str("the document is not a mapping") }),
        }
    }

    /// Turns a parser's outcome into a manifest: a parse failure keeps the
    /// parser's message, a tree is accepted as [`ManifestDocument::new`] does.
    pub fn from_parsed(parsed: Result<Node, String>) -> (made: Result<ManifestDocument, Error>)
        ensures
            is_manifest(made, manifest_of(parsed_view(parsed))),
    {
        match parsed {
            Ok(root) => ManifestDocument::new(root),
            Err(message) => Err(Error::ManifestParse { reason: message }),
        }
    }

    /// Parses `text` as a single YAML (or JSON) document.
    pub fn parse(text: &str) -> (made: Result<ManifestDocument, Error>)
        ensures
            is_manifest(made, manifest_of(yaml_document(text@))),
    {
        ManifestDocument::from_parsed(parse_yaml(text))
    }

    /// The document's tree.
    pub fn root(&self) -> (root: &Node)
        ensures
            root@ == self@,
            root@ is Mapping,
    {
        proof {
            use_type_invariant(self);
        }
        &self.root
    }

    /// The text stored under the top-level key `key`.
    pub fn top_text(&self, key: &str) -> (found: Option<&String>)
        ensures
            match found {
                Some(s) => self@.lookup_text(key@) == Some(s@),
                None => self@.lookup_text(key@) is None,
            },
    {
        self.root.get_text(key)
    }

    /// The text stored at `metadata.<key>`.
    pub fn metadata(&self, key: &str) -> (found: Option<&String>)
        ensures
            match found {
                Some(s) => self@.metadata_text(key@) == Some(s@),
                None => self@.metadata_text(key@) is None,
            },
    {
        match self.root.get("metadata") {
            Some(metadata) => metadata.get_text(key),
            None => None,
        }
    }

    /// The object's name, `metadata.name`.
    pub fn name(&self) -> (found: Option<&String>)
        ensures
            match found {
                Some(s) => self@.metadata_text("name"@) == Some(s@),
                None => self@.metadata_text("name"@) is None,
            },
    {
        self.metadata("name")
    }

    /// The object's namespace, `metadata.namespace`, when it names one.
    pub fn namespace(&self) -> (found: Option<&String>)
        ensures
            match found {
                Some(s) => self@.metadata_text("namespace"@) == Some(s@),
                None => self@.metadata_text("namespace"@) is None,
            },
    {
        self.metadata("namespace")
    }
}

} // verus!
