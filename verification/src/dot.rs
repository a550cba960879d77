use vstd::prelude::*;

use dot_writer::{Attributes, DotWriter, Node, Scope, Shape};
use vstd::utf8::encode_utf8;

use crate::graphs::decimal_chars;

verus! {

#[verifier::external_type_specification]
#[verifier::external_body]
pub struct ExDotWriter<'w>(DotWriter<'w>);

#[verifier::external_type_specification]
#[verifier::external_body]
pub struct ExScope<'d, 'w>(Scope<'d, 'w>);

#[verifier::external_type_specification]
#[verifier::external_body]
pub struct ExNode<'d, 'w>(Node<'d, 'w>);

/// The two node shapes the module graph draws with.
#[derive(Clone, Copy, Debug, PartialEq, Eq, Structural)]
pub enum NodeShape {
    Rectangle,
    Circle,
}

/// How a shape is written in DOT.
pub open spec fn shape_name(s: NodeShape) -> Seq<char> {
    match s {
        NodeShape::Rectangle => "rectangle"@,
        NodeShape::Circle => "circle"@,
    }
}

/// `n` spaces.
pub open spec fn spaces(n: nat) -> Seq<char> {
    Seq::new(n, |i: int| ' ')
}

/// A line of DOT text: indented by `indent` spaces and ended by a newline.
pub open spec fn dot_line(indent: nat, body: Seq<char>) -> Seq<char> {
    spaces(indent) + body + "\n"@
}

/// A quoted DOT value.
pub open spec fn quoted(s: Seq<char>) -> Seq<char> {
    "\""@ + s + "\""@
}

/// The text written to a DOT document, character by character, and the
/// state of the writer that decides how the next call is written: the
/// indentation, the number of the next cluster, how many scopes and nodes
/// are open, and whether the open node has begun its attribute list. Only
/// `writer_into` makes one, for the document it starts, and only the calls
/// below change it, each as the call writes.
pub struct DotText {
    text: Ghost<Seq<char>>,
    indent: Ghost<nat>,
    next_cluster: Ghost<nat>,
    open: Ghost<nat>,
    attrs: Ghost<bool>,
    doc: Ghost<int>,
}

impl DotText {
    /// The characters written so far.
    pub closed spec fn text(self) -> Seq<char> {
        self.text@
    }

    /// The indentation of the next line.
    pub closed spec fn indent(self) -> nat {
        self.indent@
    }

    /// The number the next cluster gets.
    pub closed spec fn next_cluster(self) -> nat {
        self.next_cluster@
    }

    /// How many scopes and nodes are open.
    pub closed spec fn open(self) -> nat {
        self.open@
    }

    /// Whether the open node has begun its attribute list.
    pub closed spec fn attrs(self) -> bool {
        self.attrs@
    }

    /// The document this text belongs to.
    pub closed spec fn doc(self) -> int {
        self.doc@
    }
}

/// A DOT writer, and the document it writes to.
pub struct DotDoc<'w> {
    writer: DotWriter<'w>,
    doc: Ghost<int>,
}

impl<'w> DotDoc<'w> {
    /// The document written to.
    pub closed spec fn doc(self) -> int {
        self.doc@
    }
}

/// An open graph or subgraph of a DOT document.
pub struct DotScope<'d, 'w> {
    scope: Scope<'d, 'w>,
    doc: Ghost<int>,
}

impl<'d, 'w> DotScope<'d, 'w> {
    /// The document written to.
    pub closed spec fn doc(self) -> int {
        self.doc@
    }
}

/// An open node statement of a DOT document.
pub struct DotNode<'d, 'w> {
    node: Node<'d, 'w>,
    doc: Ghost<int>,
}

impl<'d, 'w> DotNode<'d, 'w> {
    /// The document written to.
    pub closed spec fn doc(self) -> int {
        self.doc@
    }
}

/// Starts DOT output into `bytes` with `dot_writer::DotWriter::from`
/// (pretty printed, indentation 0, clusters numbered from 0), as a document
/// of its own, and puts into `slot` a fresh record of what is written to
/// it, returned as `r.1`. The records of the calls below are the only
/// `DotText` values there are; each carries the id of the document it was
/// made for, and the calls below write to a document only with its own
/// record. The writer writes the UTF-8 encoding of each character it
/// writes, after what `bytes` held. So, when the record left in `r.1` at the
/// end is still this document's and has every scope and node closed,
/// `bytes` ends as it began followed by the encoding of the characters
/// recorded.
#[verifier::external_body]
pub(crate) fn writer_into<'a>(bytes: &'a mut Vec<u8>, slot: &'a mut Option<DotText>) -> (r: (
    DotDoc<'a>,
    &'a mut DotText,
))
    ensures
        r.1.text() == Seq::<char>::empty(),
        r.1.indent() == 0,
        r.1.next_cluster() == 0,
        r.1.open() == 0,
        r.1.doc() == r.0.doc(),
        final(r.1).open() == 0 && final(r.1).doc() == r.0.doc() ==> final(bytes)@ == old(bytes)@
            + encode_utf8(final(r.1).text()),
{
    *slot = Some(
        DotText {
            text: Ghost(Seq::empty()),
            indent: Ghost(0),
            next_cluster: Ghost(0),
            open: Ghost(0),
            attrs: Ghost(false),
            doc: Ghost(0),
        },
    );
    (DotDoc { writer: DotWriter::from(bytes), doc: Ghost(0) }, slot.as_mut().unwrap())
}

/// Opens a directed graph with `dot_writer::DotWriter::digraph`, which
/// writes the line "digraph {" and indents what follows by two.
#[verifier::external_body]
pub(crate) fn open_digraph<'a, 'w>(doc: &'a mut DotDoc<'w>, log: &mut DotText) -> (s: DotScope<'a, 'w>)
    requires
        old(log).doc() == old(doc).doc(),
    ensures
        s.doc() == old(doc).doc(),
        final(doc).doc() == old(doc).doc(),
        final(log).text() == old(log).text() + dot_line(old(log).indent(), "digraph {"@),
        final(log).indent() == old(log).indent() + 2,
        final(log).next_cluster() == old(log).next_cluster(),
        final(log).open() == old(log).open() + 1,
        final(log).doc() == old(log).doc(),
{
    DotScope { scope: doc.writer.digraph(), doc: Ghost(0) }
}

/// Opens a cluster subgraph with `dot_writer::Scope::cluster`, which writes
/// the line "subgraph cluster_N {" with the writer's next cluster number N
/// and indents what follows by two.
#[verifier::external_body]
pub(crate) fn open_cluster<'a, 'd, 'w>(scope: &'a mut DotScope<'d, 'w>, log: &mut DotText) -> (s: DotScope<'a, 'w>)
    requires
        old(log).doc() == old(scope).doc(),
    ensures
        s.doc() == old(scope).doc(),
        final(scope).doc() == old(scope).doc(),
        final(log).text() == old(log).text() + dot_line(
            old(log).indent(),
            "subgraph cluster_"@ + decimal_chars(old(log).next_cluster()) + " {"@,
        ),
        final(log).indent() == old(log).indent() + 2,
        final(log).next_cluster() == old(log).next_cluster() + 1,
        final(log).open() == old(log).open() + 1,
        final(log).doc() == old(log).doc(),
{
    DotScope { scope: scope.scope.cluster(), doc: Ghost(0) }
}

/// Opens a subgraph with `dot_writer::Scope::subgraph`, which writes the
/// line "subgraph {" and indents what follows by two.
#[verifier::external_body]
pub(crate) fn open_subgraph<'a, 'd, 'w>(scope: &'a mut DotScope<'d, 'w>, log: &mut DotText) -> (s: DotScope<'a, 'w>)
    requires
        old(log).doc() == old(scope).doc(),
    ensures
        s.doc() == old(scope).doc(),
        final(scope).doc() == old(scope).doc(),
        final(log).text() == old(log).text() + dot_line(old(log).indent(), "subgraph {"@),
        final(log).indent() == old(log).indent() + 2,
        final(log).next_cluster() == old(log).next_cluster(),
        final(log).open() == old(log).open() + 1,
        final(log).doc() == old(log).doc(),
{
    DotScope { scope: scope.scope.subgraph(), doc: Ghost(0) }
}

/// Closes a scope by dropping the `dot_writer::Scope`, which takes the
/// indentation back by two and writes the line "}".
#[verifier::external_body]
pub(crate) fn close_scope(scope: DotScope<'_, '_>, log: &mut DotText)
    requires
        old(log).doc() == scope.doc(),
        old(log).indent() >= 2,
        old(log).open() >= 1,
    ensures
        final(log).text() == old(log).text() + dot_line((old(log).indent() - 2) as nat, "}"@),
        final(log).indent() == old(log).indent() - 2,
        final(log).next_cluster() == old(log).next_cluster(),
        final(log).open() == old(log).open() - 1,
        final(log).doc() == old(log).doc(),
{
    drop(scope.scope);
}

/// Sets the shape of a scope with `dot_writer::Attributes::set_shape`,
/// which writes the line "shape=S;".
#[verifier::external_body]
pub(crate) fn scope_shape(scope: &mut DotScope<'_, '_>, log: &mut DotText, shape: NodeShape)
    requires
        old(log).doc() == old(scope).doc(),
    ensures
        final(scope).doc() == old(scope).doc(),
        final(log).text() == old(log).text() + dot_line(
            old(log).indent(),
            "shape="@ + shape_name(shape) + ";"@,
        ),
        final(log).indent() == old(log).indent(),
        final(log).next_cluster() == old(log).next_cluster(),
        final(log).open() == old(log).open(),
        final(log).doc() == old(log).doc(),
{
    match shape {
        NodeShape::Rectangle => scope.scope.set_shape(Shape::Rectangle),
        NodeShape::Circle => scope.scope.set_shape(Shape::Circle),
    };
}

/// Sets the label of a scope with `dot_writer::Attributes::set_label`,
/// which writes the line `label="L";`.
#[verifier::external_body]
pub(crate) fn scope_label(scope: &mut DotScope<'_, '_>, log: &mut DotText, label: &str)
    requires
        old(log).doc() == old(scope).doc(),
    ensures
        final(scope).doc() == old(scope).doc(),
        final(log).text() == old(log).text() + dot_line(
            old(log).indent(),
            "label="@ + quoted(label@) + ";"@,
        ),
        final(log).indent() == old(log).indent(),
        final(log).next_cluster() == old(log).next_cluster(),
        final(log).open() == old(log).open(),
        final(log).doc() == old(log).doc(),
{
    scope.scope.set_label(label);
}

/// Starts a node statement with `dot_writer::Scope::node_named`, which
/// writes the indentation and the id; the attribute list is still empty.
#[verifier::external_body]
pub(crate) fn named_node<'a, 'd, 'w>(scope: &'a mut DotScope<'d, 'w>, log: &mut DotText, id: String) -> (n:
    DotNode<'a, 'w>)
    requires
        old(log).doc() == old(scope).doc(),
    ensures
        n.doc() == old(scope).doc(),
        final(scope).doc() == old(scope).doc(),
        final(log).text() == old(log).text() + spaces(old(log).indent()) + id@,
        final(log).indent() == old(log).indent(),
        final(log).next_cluster() == old(log).next_cluster(),
        final(log).open() == old(log).open() + 1,
        !final(log).attrs(),
        final(log).doc() == old(log).doc(),
{
    DotNode { node: scope.scope.node_named(id), doc: Ghost(0) }
}

/// What an attribute of a node writes: " [" before the first attribute of
/// the list, ", " before the others, then `name=value`.
pub open spec fn node_attr(first: bool, name: Seq<char>, value: Seq<char>) -> Seq<char> {
    (if first {
        " ["@
    } else {
        ", "@
    }) + name + "="@ + value
}

/// Sets the shape of a node with `dot_writer::Attributes::set_shape`.
#[verifier::external_body]
pub(crate) fn node_shape(node: &mut DotNode<'_, '_>, log: &mut DotText, shape: NodeShape)
    requires
        old(log).doc() == old(node).doc(),
    ensures
        final(node).doc() == old(node).doc(),
        final(log).text() == old(log).text() + node_attr(
            !old(log).attrs(),
            "shape"@,
            shape_name(shape),
        ),
        final(log).indent() == old(log).indent(),
        final(log).next_cluster() == old(log).next_cluster(),
        final(log).open() == old(log).open(),
        final(log).attrs(),
        final(log).doc() == old(log).doc(),
{
    match shape {
        NodeShape::Rectangle => node.node.set_shape(Shape::Rectangle),
        NodeShape::Circle => node.node.set_shape(Shape::Circle),
    };
}

/// Sets the label of a node with `dot_writer::Attributes::set_label`.
#[verifier::external_body]
pub(crate) fn node_label(node: &mut DotNode<'_, '_>, log: &mut DotText, label: &str)
    requires
        old(log).doc() == old(node).doc(),
    ensures
        final(node).doc() == old(node).doc(),
        final(log).text() == old(log).text() + node_attr(
            !old(log).attrs(),
            "label"@,
            quoted(label@),
        ),
        final(log).indent() == old(log).indent(),
        final(log).next_cluster() == old(log).next_cluster(),
        final(log).open() == old(log).open(),
        final(log).attrs(),
        final(log).doc() == old(log).doc(),
{
    node.node.set_label(label);
}

/// Ends a node statement by dropping the `dot_writer::Node`, which closes
/// the attribute list with "]" when it has one, then writes ";" and ends
/// the line.
#[verifier::external_body]
pub(crate) fn end_node(node: DotNode<'_, '_>, log: &mut DotText)
    requires
        old(log).doc() == node.doc(),
        old(log).open() >= 1,
    ensures
        final(log).text() == old(log).text() + (if old(log).attrs() {
            "]"@
        } else {
            Seq::<char>::empty()
        }) + ";\n"@,
        final(log).indent() == old(log).indent(),
        final(log).next_cluster() == old(log).next_cluster(),
        final(log).open() == old(log).open() - 1,
        final(log).doc() == old(log).doc(),
{
    drop(node.node);
}

} // verus!
