//! A plain document tree and its outline rendering.
//!
//! The outside HTML parser produces its own reference-counted DOM; this
//! module converts that tree once, at the trust boundary, into a plain
//! recursive value that verified code can walk. The outline rendering —
//! one indented line per text and element node, in document order — is
//! ordinary verified recursion over that value.

use html5ever::tendril::TendrilSink;
use vstd::prelude::*;

verus! {

/// A document node as plain data: the document root, a text run, an
/// element with its tag name, or any other node kind.
#[derive(Debug)]
pub enum DomNode {
    Document { children: Vec<DomNode> },
    Text { contents: String },
    Element { name: String, children: Vec<DomNode> },
    Other { children: Vec<DomNode> },
}

/// The document tree an HTML string parses to. Stands for the outside
/// parser's output, which depends on the input string alone.
pub uninterp spec fn dom_of(s: Seq<char>) -> DomNode;

#[verifier::external_type_specification]
#[verifier::external_body]
pub struct ExNode(markup5ever_rcdom::Node);

/// Relies on markup5ever_rcdom's node layout: copies one parsed node and
/// its children into plain data, keeping document order.
#[verifier::external_body]
fn convert_node(handle: &std::rc::Rc<markup5ever_rcdom::Node>) -> DomNode {
    let mut children: Vec<DomNode> = Vec::new();
    for child in handle.children.borrow().iter() {
        children.push(convert_node(child));
    }
    match &handle.data {
        markup5ever_rcdom::NodeData::Document => DomNode::Document { children },
        markup5ever_rcdom::NodeData::Text { contents } => DomNode::Text {
            contents: contents.borrow().to_string(),
        },
        markup5ever_rcdom::NodeData::Element { name, .. } => DomNode::Element {
            name: name.local.to_string(),
            children,
        },
        _ => DomNode::Other { children },
    }
}

/// Relies on html5ever::parse_document driving markup5ever_rcdom: the
/// parsed tree depends on the HTML string alone, and parsing never fails
/// (malformed input yields a recovery tree, as HTML demands).
#[verifier::external_body]
pub fn parse_html(html: &str) -> (r: DomNode)
    ensures
        r == dom_of(html@),
{
    let dom = html5ever::parse_document(
        markup5ever_rcdom::RcDom::default(),
        Default::default(),
    ).from_utf8().read_from(&mut html.as_bytes()).unwrap();
    convert_node(&dom.document)
}

/// The outline lines of one node at the given indent: nothing of its own
/// for the root and for other node kinds, one line for a text run or an
/// element, then the children's lines two spaces deeper.
pub open spec fn node_lines(node: DomNode, indent: Seq<char>) -> Seq<Seq<char>>
    decreases node,
{
    match node {
        DomNode::Document { children } => forest_lines(children@, indent + "  "@),
        DomNode::Text { contents } => seq![indent + "Text: "@ + contents@],
        DomNode::Element { name, children } => seq![indent + "Element: "@ + name@]
            + forest_lines(children@, indent + "  "@),
        DomNode::Other { children } => forest_lines(children@, indent + "  "@),
    }
}

/// The outline lines of a forest, in order.
pub open spec fn forest_lines(nodes: Seq<DomNode>, indent: Seq<char>) -> Seq<Seq<char>>
    decreases nodes,
{
    if nodes.len() == 0 {
        Seq::empty()
    } else {
        node_lines(nodes[0], indent) + forest_lines(nodes.drop_first(), indent)
    }
}

/// Appending one node to a forest appends its lines.
proof fn lemma_forest_lines_push(nodes: Seq<DomNode>, x: DomNode, indent: Seq<char>)
    ensures
        forest_lines(nodes.push(x), indent) == forest_lines(nodes, indent) + node_lines(
            x,
            indent,
        ),
    decreases nodes.len(),
{
    if nodes.len() == 0 {
        let p = nodes.push(x);
        assert(p[0] == x);
        assert(p.drop_first() =~= Seq::<DomNode>::empty());
        assert(forest_lines(p.drop_first(), indent) =~= Seq::<Seq<char>>::empty());
        assert(forest_lines(p, indent) =~= node_lines(x, indent));
        assert(forest_lines(nodes, indent) =~= Seq::<Seq<char>>::empty());
        assert(forest_lines(nodes, indent) + node_lines(x, indent) =~= node_lines(x, indent));
    } else {
        lemma_forest_lines_push(nodes.drop_first(), x, indent);
        assert(nodes.push(x).drop_first() =~= nodes.drop_first().push(x));
        assert(nodes.push(x)[0] == nodes[0]);
        assert(forest_lines(nodes, indent) + node_lines(x, indent) =~= node_lines(
            nodes[0],
            indent,
        ) + (forest_lines(nodes.drop_first(), indent) + node_lines(x, indent)));
    }
}

/// Renders the outline of one node: exactly the lines of `node_lines`, as
/// strings.
pub fn render_node(node: &DomNode, indent: &str) -> (r: Vec<String>)
    ensures
        r@.len() == node_lines(*node, indent@).len(),
        forall|k: int| 0 <= k < r@.len() ==> r@[k]@ == node_lines(*node, indent@)[k],
    decreases *node,
{
    let mut out: Vec<String> = Vec::new();
    match node {
        DomNode::Document { children } => {
            render_children(children, indent, &mut out);
            assert(node_lines(*node, indent@) == forest_lines(children@, indent@ + "  "@));
        },
        DomNode::Text { contents } => {
            let mut line = String::from_str(indent);
            line.append("Text: ");
            line.append(contents.as_str());
            out.push(line);
            assert(node_lines(*node, indent@) =~= seq![indent@ + "Text: "@ + contents@]);
        },
        DomNode::Element { name, children } => {
            let mut line = String::from_str(indent);
            line.append("Element: ");
            line.append(name.as_str());
            out.push(line);
            render_children(children, indent, &mut out);
            assert(node_lines(*node, indent@) == seq![indent@ + "Element: "@ + name@]
                + forest_lines(children@, indent@ + "  "@));
        },
        DomNode::Other { children } => {
            render_children(children, indent, &mut out);
            assert(node_lines(*node, indent@) == forest_lines(children@, indent@ + "  "@));
        },
    }
    out
}

/// Appends the children's outline, two spaces deeper, to `out`.
fn render_children(children: &Vec<DomNode>, indent: &str, out: &mut Vec<String>)
    ensures
        final(out)@.len() == old(out)@.len() + forest_lines(children@, indent@ + "  "@).len(),
        forall|k: int| 0 <= k < old(out)@.len() ==> final(out)@[k] == old(out)@[k],
        forall|k: int|
            old(out)@.len() <= k < final(out)@.len() ==> final(out)@[k]@ == forest_lines(
                children@,
                indent@ + "  "@,
            )[k - old(out)@.len()],
    decreases *children,
{
    let mut child_indent = String::from_str(indent);
    child_indent.append("  ");
    let ghost ind: Seq<char> = indent@ + "  "@;
    let ghost base: int = out@.len() as int;
    let mut i: usize = 0;
    assert(children@.take(0) =~= Seq::<DomNode>::empty());
    assert(forest_lines(children@.take(0), ind) =~= Seq::<Seq<char>>::empty());
    while i < children.len()
        invariant
            0 <= i <= children@.len(),
            child_indent@ == ind,
            base == old(out)@.len(),
            out@.len() == base + forest_lines(children@.take(i as int), ind).len(),
            forall|k: int| 0 <= k < base ==> out@[k] == old(out)@[k],
            forall|k: int|
                base <= k < out@.len() ==> out@[k]@ == forest_lines(
                    children@.take(i as int),
                    ind,
                )[k - base],
        decreases children@.len() - i,
    {
        assert(decreases_to!(*children => children@[i as int]));
        let lines = render_node(&children[i], child_indent.as_str());
        let ghost pre_inner: Seq<String> = out@;
        let ghost before: int = out@.len() as int;
        let n = lines.len();
        let mut j: usize = 0;
        while j < n
            invariant
                0 <= j <= n,
                n == lines@.len(),
                before == pre_inner.len(),
                out@.len() == before + j,
                forall|k: int| 0 <= k < before ==> out@[k] == pre_inner[k],
                forall|k: int| before <= k < out@.len() ==> out@[k] == lines@[k - before],
            decreases n - j,
        {
            let ghost prev: Seq<String> = out@;
            let s = lines[j].clone();
            out.push(s);
            assert(out@ =~= prev.push(lines@[j as int]));
            j += 1;
        }
        proof {
            lemma_forest_lines_push(children@.take(i as int), children@[i as int], ind);
            assert(children@.take(i as int + 1) =~= children@.take(i as int).push(
                children@[i as int],
            ));
            let whole = forest_lines(children@.take(i as int + 1), ind);
            let head = forest_lines(children@.take(i as int), ind);
            let tail = node_lines(children@[i as int], ind);
            assert(whole =~= head + tail);
            assert(out@.len() == base + whole.len());
            assert forall|k: int| base <= k < out@.len() implies out@[k]@ == whole[k - base] by {
                if k < before {
                    assert(out@[k] == pre_inner[k]);
                    assert(out@[k]@ == head[k - base]);
                    assert(whole[k - base] == head[k - base]);
                } else {
                    assert(out@[k] == lines@[k - before]);
                    assert(lines@[k - before]@ == tail[k - before]);
                    assert(whole[k - base] == tail[k - before]);
                }
            }
        }
        i += 1;
    }
    assert(children@.take(children@.len() as int) =~= children@);
}

} // verus!
