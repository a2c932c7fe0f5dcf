//! The command tree and its rendering as one flat document.

use vstd::prelude::*;

verus! {

/// Which of a node's two help texts a rendering takes.
#[derive(Clone, Copy, Debug, PartialEq, Eq, Structural)]
pub enum RenderingStyle {
    /// The long form.
    Verbose,
    /// The short form.
    Terse,
}

/// One command of a command-line interface, with its subcommands in the
/// order in which they were declared. A node owns its children, so a tree is
/// finite and has no cycles, and every traversal of it ends.
#[derive(Debug)]
pub struct CommandNode {
    /// The command's name. No rendering reads it.
    pub name: String,
    /// The help text in its long form, as the user would see it.
    pub long_help: String,
    /// The help text in its short form, as the user would see it.
    pub short_help: String,
    /// The subcommands, in declared order.
    pub children: Vec<CommandNode>,
}

/// A [`CommandNode`] as a mathematical tree.
pub struct NodeView {
    pub name: Seq<char>,
    pub long_help: Seq<char>,
    pub short_help: Seq<char>,
    pub children: Seq<NodeView>,
}

/// The tree that `node` stands for.
pub open spec fn tree_of(node: CommandNode) -> NodeView
    decreases node,
{
    NodeView {
        name: node.name@,
        long_help: node.long_help@,
        short_help: node.short_help@,
        children: Seq::new(
            node.children@.len(),
            |i: int|
                if 0 <= i < node.children@.len() {
                    tree_of(node.children@[i])
                } else {
                    arbitrary()
                },
        ),
    }
}

impl View for CommandNode {
    type V = NodeView;

    open spec fn view(&self) -> NodeView {
        tree_of(*self)
    }
}

/// What stands between the help text of one node and that of the next: the
/// end of the line, a blank line, a line of three dashes, a blank line.
pub const SEPARATOR: &'static str = "\n\n---\n\n";

impl CommandNode {
    /// The children of the view are the views of the children.
    pub proof fn children_view(self)
        ensures
            self@.children.len() == self.children.len(),
            forall|i: int|
                0 <= i < self.children.len() ==> self@.children[i]
                    == (#[trigger] self.children[i])@,
    {
    }
}

/// The help text of `node` under `style`.
pub open spec fn help_text(node: NodeView, style: RenderingStyle) -> Seq<char> {
    match style {
        RenderingStyle::Verbose => node.long_help,
        RenderingStyle::Terse => node.short_help,
    }
}

/// The document of the tree under `node`: the node's own help text, then,
/// for each child in declared order, the separator and the child's document.
pub open spec fn document(node: NodeView, style: RenderingStyle) -> Seq<char>
    decreases node,
{
    help_text(node, style) + subdocuments(node.children, style)
}

/// The documents of `children` in order, each behind a separator.
pub open spec fn subdocuments(children: Seq<NodeView>, style: RenderingStyle) -> Seq<char>
    decreases children,
{
    if children.len() == 0 {
        Seq::empty()
    } else {
        subdocuments(children.drop_last(), style) + SEPARATOR@ + document(children.last(), style)
    }
}

/// Appends the document of the tree under `node` to `buffer`.
pub fn write_help(buffer: &mut String, node: &CommandNode, style: RenderingStyle)
    ensures
        final(buffer)@ == old(buffer)@ + document(node@, style),
    decreases node,
{
    let ghost start = buffer@;
    proof {
        node.children_view();
    }
    match style {
        RenderingStyle::Verbose => buffer.append(node.long_help.as_str()),
        RenderingStyle::Terse => buffer.append(node.short_help.as_str()),
    }
    let mut i: usize = 0;
    while i < node.children.len()
        invariant
            i <= node.children.len(),
            node@.children.len() == node.children.len(),
            forall|j: int|
                0 <= j < node.children.len() ==> node@.children[j]
                    == (#[trigger] node.children[j])@,
            buffer@ == start + help_text(node@, style) + subdocuments(
                node@.children.take(i as int),
                style,
            ),
        decreases node.children.len() - i,
    {
        buffer.append(SEPARATOR);
        write_help(buffer, &node.children[i], style);
        proof {
            let done = node@.children.take(i + 1);
            assert(done.drop_last() == node@.children.take(i as int));
        }
        i += 1;
    }
    proof {
        assert(node@.children.take(i as int) == node@.children);
    }
}

/// Renders the whole tree under `root` as one document under `style`: every
/// node's help text once, depth first, siblings in declared order. The
/// document is a function of the tree and the style alone, so rendering the
/// same tree again gives the same document, character for character.
pub fn render(root: &CommandNode, style: RenderingStyle) -> (rendered: String)
    ensures
        rendered@ == document(root@, style),
{
    let mut rendered = String::new();
    write_help(&mut rendered, root, style);
    rendered
}

/// The nodes of the tree under `node` in pre-order: the node itself, then
/// the nodes under each child, the children in declared order.
pub open spec fn preorder(node: NodeView) -> Seq<NodeView>
    decreases node,
{
    seq![node] + preorder_of_all(node.children)
}

/// The nodes under `children` in pre-order, the children in order.
pub open spec fn preorder_of_all(children: Seq<NodeView>) -> Seq<NodeView>
    decreases children,
{
    if children.len() == 0 {
        Seq::empty()
    } else {
        preorder_of_all(children.drop_last()) + preorder(children.last())
    }
}

/// The help texts of `nodes` under `style`, in order.
pub open spec fn help_texts(nodes: Seq<NodeView>, style: RenderingStyle) -> Seq<Seq<char>> {
    nodes.map_values(|node: NodeView| help_text(node, style))
}

/// `pages` one after the other, with `separator` between each two.
pub open spec fn joined(pages: Seq<Seq<char>>, separator: Seq<char>) -> Seq<char>
    decreases pages.len(),
{
    if pages.len() == 0 {
        Seq::empty()
    } else if pages.len() == 1 {
        pages[0]
    } else {
        joined(pages.drop_last(), separator) + separator + pages.last()
    }
}

/// `pages` one after the other, with `separator` before each.
spec fn led(pages: Seq<Seq<char>>, separator: Seq<char>) -> Seq<char>
    decreases pages.len(),
{
    if pages.len() == 0 {
        Seq::empty()
    } else {
        led(pages.drop_last(), separator) + separator + pages.last()
    }
}

/// Leading distributes over the concatenation of two lists of pages.
proof fn led_over_two_lists(first: Seq<Seq<char>>, second: Seq<Seq<char>>, separator: Seq<char>)
    ensures
        led(first + second, separator) == led(first, separator) + led(second, separator),
    decreases second.len(),
{
    if second.len() > 0 {
        led_over_two_lists(first, second.drop_last(), separator);
        assert((first + second).drop_last() == first + second.drop_last());
    }
}

/// Joining is the first page, then every other page behind a separator.
proof fn joined_leads_all_but_the_first(pages: Seq<Seq<char>>, separator: Seq<char>)
    requires
        pages.len() >= 1,
    ensures
        joined(pages, separator) == pages[0] + led(
            pages.subrange(1, pages.len() as int),
            separator,
        ),
    decreases pages.len(),
{
    let rest = pages.subrange(1, pages.len() as int);
    if pages.len() > 1 {
        joined_leads_all_but_the_first(pages.drop_last(), separator);
        assert(pages.drop_last().subrange(1, pages.len() - 1) == rest.drop_last());
    }
}

/// The help texts of two lists of nodes are those of the first list, then
/// those of the second.
proof fn help_texts_over_two_lists(
    first: Seq<NodeView>,
    second: Seq<NodeView>,
    style: RenderingStyle,
)
    ensures
        help_texts(first + second, style) == help_texts(first, style) + help_texts(second, style),
{
}

/// A document is the node's own help text, then the help text of each node
/// below it in pre-order, each behind a separator.
proof fn document_leads_the_descendants(node: NodeView, style: RenderingStyle)
    ensures
        document(node, style) == help_text(node, style) + led(
            help_texts(preorder_of_all(node.children), style),
            SEPARATOR@,
        ),
    decreases node,
{
    subdocuments_lead_every_node(node.children, style);
}

/// The documents of a list of children are the help texts of all nodes
/// under them in pre-order, each behind a separator.
proof fn subdocuments_lead_every_node(children: Seq<NodeView>, style: RenderingStyle)
    ensures
        subdocuments(children, style) == led(
            help_texts(preorder_of_all(children), style),
            SEPARATOR@,
        ),
    decreases children,
{
    if children.len() > 0 {
        let last = children.last();
        let before = preorder_of_all(children.drop_last());
        let below = preorder_of_all(last.children);
        subdocuments_lead_every_node(children.drop_last(), style);
        document_leads_the_descendants(last, style);
        help_texts_over_two_lists(before, preorder(last), style);
        help_texts_over_two_lists(seq![last], below, style);
        led_over_two_lists(
            help_texts(before, style),
            help_texts(preorder(last), style),
            SEPARATOR@,
        );
        led_over_two_lists(
            help_texts(seq![last], style),
            help_texts(below, style),
            SEPARATOR@,
        );
        assert(help_texts(seq![last], style) == seq![help_text(last, style)]);
        let page = seq![help_text(last, style)];
        assert(led(page, SEPARATOR@) == SEPARATOR@ + help_text(last, style)) by {
            assert(led(page.drop_last(), SEPARATOR@) == Seq::<char>::empty());
        }
    }
}

/// Traversal order: the document is the help texts of all nodes of the tree,
/// each node once, in pre-order (depth first, siblings in declared order),
/// with the separator between each two.
pub proof fn document_follows_preorder(node: NodeView, style: RenderingStyle)
    ensures
        document(node, style) == joined(help_texts(preorder(node), style), SEPARATOR@),
{
    let below = preorder_of_all(node.children);
    let pages = help_texts(preorder(node), style);
    document_leads_the_descendants(node, style);
    help_texts_over_two_lists(seq![node], below, style);
    joined_leads_all_but_the_first(pages, SEPARATOR@);
    assert(pages.subrange(1, pages.len() as int) == help_texts(below, style));
}

} // verus!
