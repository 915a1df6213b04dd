//! The boundary to the control plane: what is submitted, what comes back,
//! and what a reply means for the caller.
//!
//! Sending a request is not done here. The library says what to submit,
//! the caller sends it and hands back the reply, and the library says what
//! that reply means. The store at the end of this file behaves the way the
//! control plane does on creation, and takes its place wherever a real one
//! is not wanted.

use crate::assoc::{
    key_absent, keys_distinct, lemma_absent_is_unmapped, lemma_map_size, lemma_pair_is_mapped,
    lemma_push_inserts, pairs_map,
};
use crate::error::{WorkloadError, WorkloadErrorView};
use crate::kubernetes::{create_request, make_create_request};
use vstd::prelude::*;

verus! {

/// The status code with which the control plane refuses to create a
/// resource under a name that is taken.
pub const STATUS_CONFLICT: u16 = 409;

/// The part of the API that holds one kind of resource in one namespace.
#[derive(Debug, PartialEq, Eq)]
pub struct ApiTarget {
    pub group: String,
    pub version: String,
    pub resource: String,
    pub prefix: String,
    pub namespace: String,
}

/// The mathematical value of an [`ApiTarget`].
pub ghost struct ApiTargetView {
    pub group: Seq<char>,
    pub version: Seq<char>,
    pub resource: Seq<char>,
    pub prefix: Seq<char>,
    pub namespace: Seq<char>,
}

impl View for ApiTarget {
    type V = ApiTargetView;

    open spec fn view(&self) -> ApiTargetView {
        ApiTargetView {
            group: self.group@,
            version: self.version@,
            resource: self.resource@,
            prefix: self.prefix@,
            namespace: self.namespace@,
        }
    }
}

impl Clone for ApiTarget {
    fn clone(&self) -> (out: Self)
        ensures
            out@ == self@,
    {
        ApiTarget {
            group: self.group.clone(),
            version: self.version.clone(),
            resource: self.resource.clone(),
            prefix: self.prefix.clone(),
            namespace: self.namespace.clone(),
        }
    }
}

impl ApiTarget {
    /// Whether two targets are the same part of the API.
    pub fn same(&self, other: &ApiTarget) -> (out: bool)
        ensures
            out == (self@ == other@),
    {
        self.group == other.group && self.version == other.version && self.resource
            == other.resource && self.prefix == other.prefix && self.namespace == other.namespace
    }
}

/// What identifies a resource in the cluster: where it lives and its name.
pub ghost struct ResourceKey {
    pub target: ApiTargetView,
    pub name: Seq<char>,
}

/// A resource ready to be created: where it goes, the name it will have
/// there, and its document.
#[derive(Debug, PartialEq, Eq)]
pub struct Submission {
    pub target: ApiTarget,
    pub name: String,
    pub body: Vec<u8>,
}

/// The mathematical value of a [`Submission`].
pub ghost struct SubmissionView {
    pub target: ApiTargetView,
    pub name: Seq<char>,
    pub body: Seq<u8>,
}

impl SubmissionView {
    /// The key under which the resource would be stored.
    pub open spec fn key(self) -> ResourceKey {
        ResourceKey { target: self.target, name: self.name }
    }
}

impl View for Submission {
    type V = SubmissionView;

    open spec fn view(&self) -> SubmissionView {
        SubmissionView { target: self.target@, name: self.name@, body: self.body@ }
    }
}

impl Clone for Submission {
    fn clone(&self) -> (out: Self)
        ensures
            out@ == self@,
    {
        Submission {
            target: self.target.clone(),
            name: self.name.clone(),
            body: self.body.clone(),
        }
    }
}

/// The request that creates the resource of a submission, or `None` where
/// no such request can be built.
pub open spec fn submission_request(submission: SubmissionView) -> Option<http::Request<Vec<u8>>> {
    create_request(
        submission.target.group,
        submission.target.resource,
        submission.target.prefix,
        submission.target.namespace,
        submission.target.version,
        submission.body,
    )
}

/// What an answer of the request builder means: the request is handed on,
/// and an error, whatever it says, is a serialization failure.
pub fn request_of(built: Result<http::Request<Vec<u8>>, kube::Error>) -> (out: Result<
    http::Request<Vec<u8>>,
    WorkloadError,
>)
    ensures
        match built {
            Ok(request) => out matches Ok(handed) && handed == request,
            Err(_) => out matches Err(error) && error@ == WorkloadErrorView::SerializationFailure,
        },
{
    match built {
        Ok(request) => Ok(request),
        Err(_) => Err(WorkloadError::SerializationFailure),
    }
}

impl Submission {
    /// The request that creates this resource. Fails with
    /// `SerializationFailure` exactly where the request cannot be built.
    pub fn request(&self) -> (out: Result<http::Request<Vec<u8>>, WorkloadError>)
        ensures
            match out {
                Ok(request) => submission_request(self@) == Some(request),
                Err(error) => error@ == WorkloadErrorView::SerializationFailure
                    && submission_request(self@).is_none(),
            },
    {
        request_of(
            make_create_request(
                &self.target.group,
                &self.target.resource,
                &self.target.prefix,
                &self.target.namespace,
                &self.target.version,
                self.body.clone(),
            ),
        )
    }
}

/// What came back from an attempt to create a resource.
#[derive(Debug, PartialEq, Eq)]
pub enum ClusterReply {
    /// The resource was created.
    Created,
    /// The control plane answered with an error status.
    Rejected { code: u16, reason: String, message: String },
    /// No answer could be had or understood.
    Unreachable { message: String },
}

/// The mathematical value of a [`ClusterReply`].
pub ghost enum ClusterReplyView {
    Created,
    Rejected { code: u16, reason: Seq<char>, message: Seq<char> },
    Unreachable { message: Seq<char> },
}

impl View for ClusterReply {
    type V = ClusterReplyView;

    open spec fn view(&self) -> ClusterReplyView {
        match self {
            ClusterReply::Created => ClusterReplyView::Created,
            ClusterReply::Rejected { code, reason, message } => ClusterReplyView::Rejected {
                code: *code,
                reason: reason@,
                message: message@,
            },
            ClusterReply::Unreachable { message } => ClusterReplyView::Unreachable {
                message: message@,
            },
        }
    }
}

impl ClusterReplyView {
    /// Whether the reply says that the name is taken.
    pub open spec fn already_exists(self) -> bool {
        self matches ClusterReplyView::Rejected { code, .. } && code == STATUS_CONFLICT
    }
}

/// What a reply means for the caller. A created resource is a success, and
/// so is a name that is taken: the resource is there, which is all that was
/// asked. Anything else is a transport failure that carries the reply's
/// message.
pub open spec fn settled(reply: ClusterReplyView) -> Result<(), WorkloadErrorView> {
    match reply {
        ClusterReplyView::Created => Ok(()),
        ClusterReplyView::Rejected { code, reason, message } => if code == STATUS_CONFLICT {
            Ok(())
        } else {
            Err(WorkloadErrorView::TransportFailure(message))
        },
        ClusterReplyView::Unreachable { message } => Err(
            WorkloadErrorView::TransportFailure(message),
        ),
    }
}

/// The view of a result of applying.
pub open spec fn outcome_view(outcome: Result<(), WorkloadError>) -> Result<(), WorkloadErrorView> {
    match outcome {
        Ok(_) => Ok(()),
        Err(error) => Err(error@),
    }
}

impl ClusterReply {
    /// Whether the reply says that the name is taken.
    pub fn already_exists(&self) -> (out: bool)
        ensures
            out == self@.already_exists(),
    {
        match self {
            ClusterReply::Rejected { code, .. } => *code == STATUS_CONFLICT,
            _ => false,
        }
    }

    /// What this reply means for the caller.
    pub fn settle(&self) -> (out: Result<(), WorkloadError>)
        ensures
            outcome_view(out) == settled(self@),
    {
        match self {
            ClusterReply::Created => Ok(()),
            ClusterReply::Rejected { code, reason, message } => {
                if *code == STATUS_CONFLICT {
                    Ok(())
                } else {
                    Err(WorkloadError::TransportFailure(message.clone()))
                }
            },
            ClusterReply::Unreachable { message } => Err(
                WorkloadError::TransportFailure(message.clone()),
            ),
        }
    }
}

/// The store after an attempt to create a resource: the resource is added
/// unless its key is taken, and then nothing changes.
pub open spec fn store_after_create(
    store: Map<ResourceKey, Seq<u8>>,
    submission: SubmissionView,
) -> Map<ResourceKey, Seq<u8>> {
    if store.dom().contains(submission.key()) {
        store
    } else {
        store.insert(submission.key(), submission.body)
    }
}

/// The reply to an attempt to create a resource: a conflict if its key is
/// taken, and a success otherwise.
pub open spec fn reply_to_create(
    store: Map<ResourceKey, Seq<u8>>,
    submission: SubmissionView,
) -> ClusterReplyView {
    if store.dom().contains(submission.key()) {
        ClusterReplyView::Rejected {
            code: STATUS_CONFLICT,
            reason: "AlreadyExists"@,
            message: "the resource already exists"@,
        }
    } else {
        ClusterReplyView::Created
    }
}

/// A store of resources that answers creation the way the control plane
/// does: it holds at most one resource under a key.
#[derive(Debug, PartialEq, Eq)]
pub struct Cluster {
    resources: Vec<Submission>,
}

/// The stored resources as pairs of key and document.
spec fn stored_pairs(resources: Seq<Submission>) -> Seq<(ResourceKey, Seq<u8>)> {
    resources.map_values(|stored: Submission| (stored@.key(), stored.body@))
}

impl View for Cluster {
    type V = Map<ResourceKey, Seq<u8>>;

    closed spec fn view(&self) -> Map<ResourceKey, Seq<u8>> {
        pairs_map(stored_pairs(self.resources@))
    }
}

impl Cluster {
    #[verifier::type_invariant]
    spec fn well_formed(&self) -> bool {
        keys_distinct(stored_pairs(self.resources@))
    }

    /// The store without any resource.
    pub fn new() -> (out: Self)
        ensures
            out@ == Map::<ResourceKey, Seq<u8>>::empty(),
    {
        let out = Cluster { resources: Vec::new() };
        assert(out@ =~= Map::<ResourceKey, Seq<u8>>::empty()) by {
            assert forall|key: ResourceKey| !out@.dom().contains(key) by {
                lemma_absent_is_unmapped(stored_pairs(out.resources@), key);
            }
        }
        out
    }

    /// How many resources the store holds.
    pub fn len(&self) -> (out: usize)
        ensures
            self@.dom().finite(),
            out == self@.dom().len(),
    {
        proof {
            use_type_invariant(self);
            lemma_map_size(stored_pairs(self.resources@));
        }
        self.resources.len()
    }

    /// The place of the resource called `name` at `target`, if it is held.
    fn position(&self, target: &ApiTarget, name: &String) -> (out: Option<usize>)
        ensures
            match out {
                Some(i) => i < self.resources.len() && self.resources[i as int]@.key() == (
                ResourceKey { target: target@, name: name@ }),
                None => key_absent(
                    stored_pairs(self.resources@),
                    ResourceKey { target: target@, name: name@ },
                ),
            },
    {
        let mut i: usize = 0;
        while i < self.resources.len()
            invariant
                i <= self.resources.len(),
                forall|j: int|
                    0 <= j < i ==> self.resources[j]@.key() != (ResourceKey {
                        target: target@,
                        name: name@,
                    }),
            decreases self.resources.len() - i,
        {
            if self.resources[i].target.same(target) && self.resources[i].name == *name {
                return Some(i);
            }
            i = i + 1;
        }
        None
    }

    /// The document of the resource called `name` at `target`, if the store
    /// holds it.
    pub fn get(&self, target: &ApiTarget, name: &String) -> (out: Option<&Vec<u8>>)
        ensures
            match out {
                Some(body) => self@.dom().contains(ResourceKey { target: target@, name: name@ })
                    && self@[ResourceKey { target: target@, name: name@ }] == body@,
                None => !self@.dom().contains(ResourceKey { target: target@, name: name@ }),
            },
    {
        proof {
            use_type_invariant(self);
        }
        match self.position(target, name) {
            Some(i) => {
                proof {
                    lemma_pair_is_mapped(stored_pairs(self.resources@), i as int);
                }
                Some(&self.resources[i].body)
            },
            None => {
                proof {
                    lemma_absent_is_unmapped(
                        stored_pairs(self.resources@),
                        ResourceKey { target: target@, name: name@ },
                    );
                }
                None
            },
        }
    }

    /// Creates the resource of `submission`, unless one is held under its
    /// key already: then the store stays as it is and the reply is a
    /// conflict.
    pub fn create(&mut self, submission: &Submission) -> (out: ClusterReply)
        ensures
            final(self)@ == store_after_create(old(self)@, submission@),
            out@ == reply_to_create(old(self)@, submission@),
    {
        proof {
            use_type_invariant(&*self);
        }
        let ghost before = stored_pairs(self.resources@);
        let ghost pair = (submission@.key(), submission.body@);
        match self.position(&submission.target, &submission.name) {
            Some(i) => {
                proof {
                    lemma_pair_is_mapped(before, i as int);
                }
                ClusterReply::Rejected {
                    code: STATUS_CONFLICT,
                    reason: String::from_str("AlreadyExists"),
                    message: String::from_str("the resource already exists"),
                }
            },
            None => {
                proof {
                    lemma_absent_is_unmapped(before, submission@.key());
                    lemma_push_inserts(before, pair);
                }
                let mut resources: Vec<Submission> = Vec::new();
                std::mem::swap(&mut self.resources, &mut resources);
                resources.push(submission.clone());
                assert(stored_pairs(resources@) =~= before.push(pair));
                self.resources = resources;
                ClusterReply::Created
            },
        }
    }
}

} // verus!
