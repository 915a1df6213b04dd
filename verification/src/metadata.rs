//! Names, labels and ownership: the metadata that every synthesized
//! resource carries, whatever its kind.

use vstd::prelude::*;

verus! {

/// One label: a key and its value.
#[derive(Debug, PartialEq, Eq)]
pub struct Label {
    pub key: String,
    pub value: String,
}

/// The mathematical value of a [`Label`].
pub ghost struct LabelView {
    pub key: Seq<char>,
    pub value: Seq<char>,
}

impl View for Label {
    type V = LabelView;

    open spec fn view(&self) -> LabelView {
        LabelView { key: self.key@, value: self.value@ }
    }
}

impl DeepView for Label {
    type V = LabelView;

    open spec fn deep_view(&self) -> LabelView {
        self@
    }
}

impl Clone for Label {
    fn clone(&self) -> (out: Self)
        ensures
            out@ == self@,
    {
        Label { key: self.key.clone(), value: self.value.clone() }
    }
}

/// A back-link to an owning object, by which the control plane removes a
/// resource once its owner is deleted.
#[derive(Debug, PartialEq, Eq)]
pub struct OwnerRef {
    pub api_version: String,
    pub kind: String,
    pub name: String,
    pub uid: String,
    pub controller: Option<bool>,
    pub block_owner_deletion: Option<bool>,
}

/// The mathematical value of an [`OwnerRef`].
pub ghost struct OwnerRefView {
    pub api_version: Seq<char>,
    pub kind: Seq<char>,
    pub name: Seq<char>,
    pub uid: Seq<char>,
    pub controller: Option<bool>,
    pub block_owner_deletion: Option<bool>,
}

impl View for OwnerRef {
    type V = OwnerRefView;

    open spec fn view(&self) -> OwnerRefView {
        OwnerRefView {
            api_version: self.api_version@,
            kind: self.kind@,
            name: self.name@,
            uid: self.uid@,
            controller: self.controller,
            block_owner_deletion: self.block_owner_deletion,
        }
    }
}

impl DeepView for OwnerRef {
    type V = OwnerRefView;

    open spec fn deep_view(&self) -> OwnerRefView {
        self@
    }
}

impl Clone for OwnerRef {
    fn clone(&self) -> (out: Self)
        ensures
            out@ == self@,
    {
        OwnerRef {
            api_version: self.api_version.clone(),
            kind: self.kind.clone(),
            name: self.name.clone(),
            uid: self.uid.clone(),
            controller: self.controller,
            block_owner_deletion: self.block_owner_deletion,
        }
    }
}

/// What names one running occurrence of a component, and who owns it.
#[derive(Debug, PartialEq, Eq)]
pub struct InstanceIdentity {
    pub namespace: String,
    pub component_name: String,
    pub instance_name: String,
    pub owner_ref: Option<Vec<OwnerRef>>,
}

/// The mathematical value of an [`InstanceIdentity`].
pub ghost struct InstanceIdentityView {
    pub namespace: Seq<char>,
    pub component_name: Seq<char>,
    pub instance_name: Seq<char>,
    pub owner_ref: Option<Seq<OwnerRefView>>,
}

impl View for InstanceIdentity {
    type V = InstanceIdentityView;

    open spec fn view(&self) -> InstanceIdentityView {
        InstanceIdentityView {
            namespace: self.namespace@,
            component_name: self.component_name@,
            instance_name: self.instance_name@,
            owner_ref: self.owner_ref.deep_view(),
        }
    }
}

impl Clone for InstanceIdentity {
    fn clone(&self) -> (out: Self)
        ensures
            out@ == self@,
    {
        InstanceIdentity {
            namespace: self.namespace.clone(),
            component_name: self.component_name.clone(),
            instance_name: self.instance_name.clone(),
            owner_ref: copy_owner_chain(&self.owner_ref),
        }
    }
}

/// The name, labels and owners of a resource.
#[derive(Debug, PartialEq, Eq)]
pub struct Metadata {
    pub name: String,
    /// The labels, in the order given. What synthesis puts here holds no
    /// key twice.
    pub labels: Vec<Label>,
    pub owner_references: Option<Vec<OwnerRef>>,
}

/// The mathematical value of an [`Metadata`].
pub ghost struct MetadataView {
    pub name: Seq<char>,
    pub labels: Seq<LabelView>,
    pub owner_references: Option<Seq<OwnerRefView>>,
}

impl View for Metadata {
    type V = MetadataView;

    open spec fn view(&self) -> MetadataView {
        MetadataView {
            name: self.name@,
            labels: self.labels.deep_view(),
            owner_references: self.owner_references.deep_view(),
        }
    }
}

impl Clone for Metadata {
    fn clone(&self) -> (out: Self)
        ensures
            out@ == self@,
    {
        Metadata {
            name: self.name.clone(),
            labels: copy_labels(&self.labels),
            owner_references: copy_owner_chain(&self.owner_references),
        }
    }
}

/// A copy of a label set, label for label.
fn copy_labels(labels: &Vec<Label>) -> (out: Vec<Label>)
    ensures
        out.deep_view() == labels.deep_view(),
{
    let mut out: Vec<Label> = Vec::new();
    let mut i: usize = 0;
    while i < labels.len()
        invariant
            i <= labels.len(),
            out.len() == i,
            forall|j: int| 0 <= j < i ==> out[j]@ == labels[j]@,
        decreases labels.len() - i,
    {
        out.push(labels[i].clone());
        i = i + 1;
    }
    assert(out.deep_view() =~= labels.deep_view());
    out
}

/// A copy of an owner-reference chain, reference for reference; an absent
/// chain stays absent.
pub(crate) fn copy_owner_chain(chain: &Option<Vec<OwnerRef>>) -> (out: Option<Vec<OwnerRef>>)
    ensures
        out.deep_view() == chain.deep_view(),
{
    match chain {
        None => None,
        Some(owners) => {
            let mut out: Vec<OwnerRef> = Vec::new();
            let mut i: usize = 0;
            while i < owners.len()
                invariant
                    i <= owners.len(),
                    out.len() == i,
                    forall|j: int| 0 <= j < i ==> out[j]@ == owners[j]@,
                decreases owners.len() - i,
            {
                out.push(owners[i].clone());
                i = i + 1;
            }
            assert(out.deep_view() =~= owners.deep_view());
            Some(out)
        },
    }
}

/// Whether no key occurs twice among the labels. A resource holds its
/// labels as a map, one value to a key, so only a list of distinct keys is
/// held there label for label.
pub open spec fn label_keys_distinct(labels: Seq<LabelView>) -> bool {
    forall|i: int, j: int|
        0 <= i < labels.len() && 0 <= j < labels.len() && i != j ==> labels[i].key
            != labels[j].key
}

/// The label set of an instance: one label, `app`, whose value is the
/// component's name.
pub open spec fn instance_labels(identity: InstanceIdentityView) -> Seq<LabelView> {
    seq![LabelView { key: "app"@, value: identity.component_name }]
}

/// The label set of an instance holds no key twice.
pub proof fn lemma_instance_labels_distinct(identity: InstanceIdentityView)
    ensures
        label_keys_distinct(instance_labels(identity)),
{
}

/// The metadata of a resource made for `identity` that carries `labels`: it
/// is named after the instance and owned by the instance's owners.
pub open spec fn instance_metadata(
    identity: InstanceIdentityView,
    labels: Seq<LabelView>,
) -> MetadataView {
    MetadataView {
        name: identity.instance_name,
        labels: labels,
        owner_references: identity.owner_ref,
    }
}

impl InstanceIdentity {
    /// The labels by which a resource of this instance finds its pods.
    pub fn labels(&self) -> (out: Vec<Label>)
        ensures
            out.deep_view() == instance_labels(self@),
            label_keys_distinct(out.deep_view()),
    {
        let mut out: Vec<Label> = Vec::new();
        out.push(Label { key: String::from_str("app"), value: self.component_name.clone() });
        assert(out.deep_view() =~= instance_labels(self@));
        out
    }

    /// The metadata envelope for a resource of this instance, with the
    /// given labels. The same envelope goes on the outer resource and on
    /// the pod template inside it.
    pub fn metadata(&self, labels: &Vec<Label>) -> (out: Metadata)
        ensures
            out@ == instance_metadata(self@, labels.deep_view()),
    {
        Metadata {
            name: self.instance_name.clone(),
            labels: copy_labels(labels),
            owner_references: copy_owner_chain(&self.owner_ref),
        }
    }
}

} // verus!
