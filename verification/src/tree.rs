//! The element tree of a parsed document, and the text it holds.

use vstd::prelude::*;
use vstd::seq_lib::lemma_flatten_concat;

verus! {

/// A node of a document tree: an element, or a run of text.
#[derive(Debug, PartialEq, Eq)]
pub enum Node {
    Element(ElementTree),
    Text(String),
}

/// An element of a document tree. Its tag and attributes play no part in the
/// text of a document, so only the nodes beneath it are kept, in document
/// order.
#[derive(Debug, PartialEq, Eq)]
pub struct ElementTree {
    pub children: Vec<Node>,
}

/// The text of a sequence of nodes: the text of each, one after the other.
pub open spec fn nodes_text(nodes: Seq<Node>) -> Seq<char>
    decreases nodes, 0int,
{
    if nodes.len() == 0 {
        Seq::empty()
    } else {
        nodes_text(nodes.drop_last()) + nodes.last().text()
    }
}

/// The text runs at or beneath a sequence of nodes, in document order: depth
/// first, and at each depth from the first node to the last.
pub open spec fn nodes_runs(nodes: Seq<Node>) -> Seq<Seq<char>>
    decreases nodes, 0int,
{
    if nodes.len() == 0 {
        Seq::empty()
    } else {
        nodes_runs(nodes.drop_last()) + nodes.last().runs()
    }
}

impl Node {
    /// The characters of every text run at or beneath this node, in document
    /// order, with nothing put between them.
    pub open spec fn text(&self) -> Seq<char>
        decreases self, 1int,
    {
        match self {
            Node::Element(element) => nodes_text(element.children@),
            Node::Text(run) => run@,
        }
    }

    /// The text runs at or beneath this node, in document order.
    pub open spec fn runs(&self) -> Seq<Seq<char>>
        decreases self, 1int,
    {
        match self {
            Node::Element(element) => nodes_runs(element.children@),
            Node::Text(run) => seq![run@],
        }
    }
}

impl ElementTree {
    /// The characters of every text run beneath this element, in document
    /// order, with nothing put between them.
    pub open spec fn text(&self) -> Seq<char> {
        nodes_text(self.children@)
    }

    /// The text runs beneath this element, in document order.
    pub open spec fn runs(&self) -> Seq<Seq<char>> {
        nodes_runs(self.children@)
    }
}

/// Where a run starts in the text that a sequence of runs makes: behind all
/// the runs before it.
pub open spec fn run_start(runs: Seq<Seq<char>>, at: int) -> int {
    runs.take(at).flatten().len() as int
}

/// The text of a sequence of nodes is made of its text runs and of nothing
/// else: it is the runs, in document order, one after the other.
pub proof fn lemma_text_is_runs(nodes: Seq<Node>)
    ensures
        nodes_text(nodes) == nodes_runs(nodes).flatten(),
    decreases nodes,
{
    if nodes.len() != 0 {
        let last = nodes.last();
        lemma_text_is_runs(nodes.drop_last());
        match last {
            Node::Element(element) => {
                lemma_text_is_runs(element.children@);
            },
            Node::Text(run) => {
                seq![run@].lemma_flatten_one_element();
            },
        }
        assert(last.text() == last.runs().flatten());
        lemma_flatten_concat(nodes_runs(nodes.drop_last()), last.runs());
    }
}

/// Every text run of a sequence of nodes stands in their text with its exact
/// characters, at the place that document order gives it: behind all the
/// runs before it and before all the runs after it.
pub proof fn lemma_run_in_text(nodes: Seq<Node>, at: int)
    requires
        0 <= at < nodes_runs(nodes).len(),
    ensures
        run_start(nodes_runs(nodes), at) + nodes_runs(nodes)[at].len() == run_start(
            nodes_runs(nodes),
            at + 1,
        ),
        run_start(nodes_runs(nodes), at + 1) <= nodes_text(nodes).len(),
        nodes_text(nodes).subrange(
            run_start(nodes_runs(nodes), at),
            run_start(nodes_runs(nodes), at + 1),
        ) == nodes_runs(nodes)[at],
{
    let runs = nodes_runs(nodes);
    let before = runs.take(at);
    let upto = runs.take(at + 1);
    let after = runs.skip(at + 1);
    lemma_text_is_runs(nodes);
    assert(upto == before.push(runs[at]));
    assert(runs == upto + after);
    lemma_flatten_concat(upto, after);
    assert(upto.flatten() == before.flatten() + runs[at]) by {
        Seq::lemma_flatten_push(before, runs[at]);
    }
}

/// Nodes without a text run have no text.
pub proof fn lemma_no_runs_no_text(nodes: Seq<Node>)
    requires
        nodes_runs(nodes).len() == 0,
    ensures
        nodes_text(nodes) == Seq::<char>::empty(),
{
    lemma_text_is_runs(nodes);
}

} // verus!
