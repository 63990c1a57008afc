//! The object model: the versioned envelope that every resource is stored in.
use vstd::prelude::*;

verus! {

/// Identity and addressing of an object.
#[derive(Debug)]
pub struct Metadata {
    /// The canonical key; absent on a creation request, assigned by the store.
    pub uuid: Option<u128>,
    pub kind: String,
    pub namespace: String,
    pub name: String,
    /// Free-form tags; informational only.
    pub labels: Vec<String>,
    /// Starts at 0 on creation and grows by one with each successful update.
    pub version: u64,
}

pub struct MetadataView {
    pub uuid: Option<u128>,
    pub kind: Seq<char>,
    pub namespace: Seq<char>,
    pub name: Seq<char>,
    pub labels: Seq<Seq<char>>,
    pub version: u64,
}

impl View for Metadata {
    type V = MetadataView;

    open spec fn view(&self) -> MetadataView {
        MetadataView {
            uuid: self.uuid,
            kind: self.kind@,
            namespace: self.namespace@,
            name: self.name@,
            labels: self.labels.deep_view(),
            version: self.version,
        }
    }
}

/// The `{kind}/{namespace}/{name}` form of an address.
pub open spec fn display_form(m: MetadataView) -> Seq<char> {
    m.kind + seq!['/'] + m.namespace + seq!['/'] + m.name
}

fn clone_labels(v: &Vec<String>) -> (r: Vec<String>)
    ensures
        r.deep_view() == v.deep_view(),
{
    let mut r: Vec<String> = Vec::new();
    let mut i: usize = 0;
    while i < v.len()
        invariant
            i <= v.len(),
            r@.len() == i,
            forall|j: int| 0 <= j < i ==> #[trigger] r@[j]@ == v@[j]@,
        decreases v.len() - i,
    {
        r.push(v[i].clone());
        i += 1;
    }
    assert(r.deep_view() =~= v.deep_view());
    r
}

impl Clone for Metadata {
    fn clone(&self) -> (r: Self)
        ensures
            r@ == self@,
    {
        Metadata {
            uuid: self.uuid,
            kind: self.kind.clone(),
            namespace: self.namespace.clone(),
            name: self.name.clone(),
            labels: clone_labels(&self.labels),
            version: self.version,
        }
    }
}

impl Metadata {
    /// Renders the address as `{kind}/{namespace}/{name}`, for logs and diagnostics.
    pub fn display_name(&self) -> (r: String)
        ensures
            r@ == display_form(self@),
    {
        let mut r = self.kind.clone();
        r.append("/");
        r.append(self.namespace.as_str());
        r.append("/");
        r.append(self.name.as_str());
        proof {
            reveal_strlit("/");
        }
        assert(r@ =~= display_form(self@));
        r
    }
}

/// The generic storage envelope: metadata and two opaque serialized payloads.
#[derive(Debug)]
pub struct Object {
    pub metadata: Metadata,
    /// Desired state, written by clients.
    pub spec: String,
    /// Observed state, written by controllers.
    pub status: String,
}

pub struct ObjectView {
    pub metadata: MetadataView,
    pub spec: Seq<char>,
    pub status: Seq<char>,
}

impl View for Object {
    type V = ObjectView;

    open spec fn view(&self) -> ObjectView {
        ObjectView { metadata: self.metadata@, spec: self.spec@, status: self.status@ }
    }
}

impl Clone for Object {
    fn clone(&self) -> (r: Self)
        ensures
            r@ == self@,
    {
        Object {
            metadata: self.metadata.clone(),
            spec: self.spec.clone(),
            status: self.status.clone(),
        }
    }
}

impl Object {
    /// Renders the object's address as `{kind}/{namespace}/{name}`.
    pub fn display_name(&self) -> (r: String)
        ensures
            r@ == display_form(self.metadata@),
    {
        self.metadata.display_name()
    }
}

/// A namespace/name filter; an absent field imposes no constraint.
#[derive(Debug)]
pub struct NamespaceName {
    pub namespace: Option<String>,
    pub name: Option<String>,
}

/// The filter that selects every object of a kind.
pub fn all() -> (r: NamespaceName)
    ensures
        r.namespace is None,
        r.name is None,
{
    NamespaceName { namespace: None, name: None }
}

/// A schema version and a resource kind: the type that a client or a controller is bound to.
#[derive(Debug)]
pub struct VersionKind {
    pub version: &'static str,
    pub kind: &'static str,
}

impl Clone for VersionKind {
    fn clone(&self) -> (r: Self)
        ensures
            r.version@ == self.version@,
            r.kind@ == self.kind@,
    {
        VersionKind { version: self.version, kind: self.kind }
    }
}

} // verus!
