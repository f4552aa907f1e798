//! The nodes in the graph of container resources.

use petgraph::stable_graph::NodeIndex;
use vstd::prelude::*;

verus! {

/// The place of a node in the graph.
#[verifier::external_type_specification]
#[verifier::external_body]
#[verifier::reject_recursive_types(Ix)]
pub struct ExNodeIndex<Ix>(petgraph::stable_graph::NodeIndex<Ix>);

/// The identifier of a resource.
#[derive(Debug, PartialEq, Eq, Hash)]
pub struct Id {
    id: String,
}

impl View for Id {
    type V = Seq<char>;

    closed spec fn view(&self) -> Seq<char> {
        self.id@
    }
}

impl Id {
    /// The identifier with the given text.
    pub fn new(id: &str) -> (res: Id)
        ensures
            res@ == id@,
    {
        Id { id: id.to_owned() }
    }
}

/// How far the resource of a node has come; from the store on the resource is
/// known.
#[derive(Debug, PartialEq)]
pub enum State<N> {
    Missing,
    Stored(N),
    Created(N),
    Up(N),
}

impl<N> Default for State<N> {
    fn default() -> (state: State<N>)
        ensures
            state is Missing,
    {
        State::Missing
    }
}

impl<N> State<N> {
    /// Whether nothing is known of the resource.
    pub fn is_missing(&self) -> (missing: bool)
        ensures
            missing == (self is Missing),
    {
        matches!(self, State::Missing)
    }
}

/// A node: the identifier of its resource, its place in the graph and the
/// state of the resource.
#[derive(Debug)]
pub struct Node<N> {
    pub id: Id,
    pub idx: NodeIndex<u32>,
    pub state: State<N>,
}

impl<N> Node<N> {
    /// A node of whose resource nothing is known.
    pub fn new(id: Id, idx: NodeIndex<u32>) -> (node: Node<N>)
        ensures
            node.id == id,
            node.idx == idx,
            node.state is Missing,
    {
        Node { id, idx, state: State::default() }
    }

    /// A node whose resource has come to a state.
    pub fn with_state(id: Id, idx: NodeIndex<u32>, state: State<N>) -> (node: Node<N>)
        ensures
            node.id == id,
            node.idx == idx,
            node.state == state,
    {
        Node { id, idx, state }
    }

    /// The identifier of the resource.
    pub fn id(&self) -> (id: &Id)
        ensures
            *id == self.id,
    {
        &self.id
    }

    /// The resource, where it is known.
    pub fn node_type(&self) -> (node_type: Option<&N>)
        ensures
            node_type == (match self.state {
                State::Missing => None,
                State::Stored(nt) | State::Created(nt) | State::Up(nt) => Some(&nt),
            }),
    {
        match &self.state {
            State::Missing => None,
            State::Stored(nt) => Some(nt),
            State::Created(nt) => Some(nt),
            State::Up(nt) => Some(nt),
        }
    }

    /// The state of the resource.
    pub fn state(&self) -> (state: &State<N>)
        ensures
            *state == self.state,
    {
        &self.state
    }
}

} // verus!
