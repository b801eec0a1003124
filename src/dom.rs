use vstd::prelude::*;
use crate::errors::{message_of, Error};
use crate::text::{append_decimal, decimal};
use crate::names::{tag_of, VoxelTagName};
use crate::project::{project, project_spec, Attribute};
use crate::value::{default_transform, Transform};

verus! {

/// A node of a parsed markup document: an element, or anything else (text,
/// comments), which the build skips.
#[derive(Debug)]
pub enum MarkupNode {
    Element(MarkupElement),
    Other,
}

/// An element of a parsed markup document: its tag name, its attributes in
/// declaration order, and its child nodes in document order.
#[derive(Debug)]
pub struct MarkupElement {
    pub name: String,
    pub attrs: Vec<Attribute>,
    pub children: Vec<MarkupNode>,
}

/// An element of a voxel document: its tag, its transform and its child elements.
#[derive(Debug)]
pub struct VoxelElement {
    pub tag: VoxelTagName,
    pub children: Vec<VoxelElement>,
    pub transform: Transform,
}

/// What a voxel element stands for: its tag, its transform, and its children's models.
pub struct Node {
    pub tag: VoxelTagName,
    pub transform: Transform,
    pub children: Seq<Node>,
}

/// The model of a voxel element.
pub open spec fn node_of(e: VoxelElement) -> Node
    decreases e,
{
    Node { tag: e.tag, transform: e.transform, children: nodes_of(e.children@) }
}

/// The models of a sequence of voxel elements.
pub open spec fn nodes_of(s: Seq<VoxelElement>) -> Seq<Node>
    decreases s,
{
    if s.len() == 0 {
        Seq::empty()
    } else {
        nodes_of(s.drop_last()).push(node_of(s.last()))
    }
}

/// Every element in the subtree of `m` has a recognized tag.
pub open spec fn tags_known(m: MarkupElement) -> bool
    decreases m,
{
    tag_of(m.name@) is Some && children_known(m.children@)
}

/// Every element in the subtrees of the nodes `s` has a recognized tag.
pub open spec fn children_known(s: Seq<MarkupNode>) -> bool
    decreases s,
{
    if s.len() == 0 {
        true
    } else {
        children_known(s.drop_last()) && match s.last() {
            MarkupNode::Element(e) => tags_known(e),
            MarkupNode::Other => true,
        }
    }
}

/// The node that the element `m` builds into, where all its tags are known:
/// its tag, the transform that its attributes give, and its element children
/// built in order.
pub open spec fn build_spec(m: MarkupElement) -> Node
    decreases m,
{
    Node {
        tag: tag_of(m.name@)->0,
        transform: project_spec(m.attrs@),
        children: build_children_spec(m.children@),
    }
}

/// The nodes that the element nodes among `s` build into, in order.
pub open spec fn build_children_spec(s: Seq<MarkupNode>) -> Seq<Node>
    decreases s,
{
    if s.len() == 0 {
        Seq::empty()
    } else {
        let p = build_children_spec(s.drop_last());
        match s.last() {
            MarkupNode::Element(e) => p.push(build_spec(e)),
            MarkupNode::Other => p,
        }
    }
}

/// The nodes `s` and all their descendants, each node before its children.
pub open spec fn preorder(s: Seq<Node>) -> Seq<Node>
    decreases s,
{
    if s.len() == 0 {
        Seq::empty()
    } else {
        preorder(s.drop_last()) + seq![s.last()] + preorder(s.last().children)
    }
}

proof fn lemma_nodes_of_push(s: Seq<VoxelElement>, e: VoxelElement)
    ensures
        nodes_of(s.push(e)) == nodes_of(s).push(node_of(e)),
{
    assert(s.push(e).drop_last() =~= s);
}

proof fn lemma_children_known_prefix(s: Seq<MarkupNode>, i: int)
    requires
        0 <= i <= s.len(),
        children_known(s),
    ensures
        children_known(s.take(i)),
        i < s.len() ==> (s[i] matches MarkupNode::Element(e) ==> tags_known(e)),
    decreases s.len(),
{
    if i < s.len() {
        assert(s.drop_last().take(i) =~= s.take(i));
        if i < s.len() - 1 {
            lemma_children_known_prefix(s.drop_last(), i);
            assert(s.drop_last()[i] == s[i]);
        }
    } else {
        assert(s.take(i) =~= s);
    }
}

/// Builds the voxel element for the markup element `m`, with its whole subtree.
/// Fails, with nothing built, when any element of the subtree has a tag that
/// is not recognized.
pub fn build(m: &MarkupElement) -> (r: Result<VoxelElement, Error>)
    ensures
        r is Ok <==> tags_known(*m),
        r is Ok ==> node_of(r->Ok_0) == build_spec(*m),
        r is Err ==> r->Err_0 is VoxelTagNameParseError,
    decreases m,
{
    let tag = match VoxelTagName::from_str(m.name.as_str()) {
        Ok(t) => t,
        Err(e) => {
            return Err(e);
        },
    };
    let transform = project(&m.attrs);
    let mut children: Vec<VoxelElement> = Vec::new();
    let n = m.children.len();
    let mut i: usize = 0;
    while i < n
        invariant
            n == m.children@.len(),
            i <= n,
            tag_of(m.name@) == Some(tag),
            children_known(m.children@.take(i as int)),
            nodes_of(children@) == build_children_spec(m.children@.take(i as int)),
        decreases n - i,
    {
        let ghost taken = m.children@.take(i + 1);
        proof {
            assert(taken.drop_last() =~= m.children@.take(i as int));
            assert(taken.last() == m.children@[i as int]);
        }
        match &m.children[i] {
            MarkupNode::Element(e) => {
                match build(e) {
                    Ok(c) => {
                        proof {
                            lemma_nodes_of_push(children@, c);
                        }
                        children.push(c);
                    },
                    Err(err) => {
                        proof {
                            if children_known(m.children@) {
                                lemma_children_known_prefix(m.children@, i as int);
                            }
                        }
                        return Err(err);
                    },
                }
            },
            MarkupNode::Other => {},
        }
        i += 1;
    }
    assert(m.children@.take(n as int) =~= m.children@);
    Ok(VoxelElement { tag, children, transform })
}

/// An element whose tag is not recognized, anywhere below `m`, makes the
/// whole subtree of `m` unbuildable.
pub proof fn lemma_unknown_tag_propagates(m: MarkupElement, i: int, e: MarkupElement)
    requires
        0 <= i < m.children@.len(),
        m.children@[i] == MarkupNode::Element(e),
        !tags_known(e),
    ensures
        !tags_known(m),
{
    if tags_known(m) {
        lemma_children_known_prefix(m.children@, i);
    }
}

impl VoxelElement {
    /// An element with the tag `tag`, the default transform and no children.
    pub fn new(tag: VoxelTagName) -> (r: VoxelElement)
        ensures
            node_of(r) == (Node { tag, transform: default_transform(), children: Seq::empty() }),
    {
        let r = VoxelElement { tag, children: Vec::new(), transform: Transform::default() };
        assert(nodes_of(r.children@) =~= Seq::<Node>::empty());
        r
    }

    /// A copy of this element and of its whole subtree.
    pub fn deep_clone(&self) -> (r: VoxelElement)
        ensures
            node_of(r) == node_of(*self),
        decreases self,
    {
        let mut children: Vec<VoxelElement> = Vec::new();
        let n = self.children.len();
        let mut i: usize = 0;
        while i < n
            invariant
                n == self.children@.len(),
                i <= n,
                nodes_of(children@) == nodes_of(self.children@.take(i as int)),
            decreases n - i,
        {
            let c = self.children[i].deep_clone();
            proof {
                lemma_nodes_of_push(children@, c);
                assert(self.children@.take(i + 1).drop_last() =~= self.children@.take(i as int));
            }
            children.push(c);
            i += 1;
        }
        assert(self.children@.take(n as int) =~= self.children@);
        VoxelElement { tag: self.tag, children, transform: self.transform }
    }

    /// The element's tag.
    pub fn tag(&self) -> (r: VoxelTagName)
        ensures
            r == self.tag,
    {
        self.tag
    }

    /// The element's child elements, in document order.
    pub fn children(&self) -> (r: &Vec<VoxelElement>)
        ensures
            r == &self.children,
    {
        &self.children
    }
}

/// Appends copies of the elements `nodes` and of all their descendants to
/// `out`, each element before its children.
fn collect(nodes: &Vec<VoxelElement>, out: &mut Vec<VoxelElement>)
    ensures
        nodes_of(final(out)@) == nodes_of(old(out)@) + preorder(nodes_of(nodes@)),
    decreases nodes,
{
    let n = nodes.len();
    let mut i: usize = 0;
    proof {
        assert(nodes@.take(0) =~= Seq::<VoxelElement>::empty());
        assert(nodes_of(old(out)@) + preorder(nodes_of(nodes@.take(0))) =~= nodes_of(old(out)@));
    }
    while i < n
        invariant
            n == nodes@.len(),
            i <= n,
            nodes_of(out@) == nodes_of(old(out)@) + preorder(nodes_of(nodes@.take(i as int))),
        decreases n - i,
    {
        let ghost before = out@;
        let ghost done = nodes_of(nodes@.take(i as int));
        let c = nodes[i].deep_clone();
        proof {
            lemma_nodes_of_push(out@, c);
        }
        out.push(c);
        collect(&nodes[i].children, out);
        proof {
            let x = nodes@[i as int];
            assert(nodes@.take(i + 1) =~= nodes@.take(i as int).push(x));
            lemma_nodes_of_push(nodes@.take(i as int), x);
            let grown = done.push(node_of(x));
            assert(grown.drop_last() =~= done);
            assert(preorder(grown) == preorder(done) + seq![node_of(x)] + preorder(node_of(x).children));
            assert(nodes_of(out@) =~= nodes_of(old(out)@) + preorder(grown));
        }
        i += 1;
    }
    assert(nodes@.take(n as int) =~= nodes@);
}

/// A voxel document: the root element, and every element below it in document
/// order (each element before its children; the root itself is not in the list).
#[derive(Debug)]
pub struct VoxelData {
    root: VoxelElement,
    elements: Vec<VoxelElement>,
}

impl VoxelData {
    /// The model of the root element.
    pub closed spec fn root_node(&self) -> Node {
        node_of(self.root)
    }

    /// The models of the elements of the flattened list.
    pub closed spec fn element_nodes(&self) -> Seq<Node> {
        nodes_of(self.elements@)
    }

    /// The flattened list holds exactly the elements below the root, each before its children.
    pub open spec fn wf(&self) -> bool {
        self.element_nodes() == preorder(self.root_node().children)
    }

    /// The root element.
    pub fn root(&self) -> (r: &VoxelElement)
        ensures
            node_of(*r) == self.root_node(),
    {
        &self.root
    }

    /// Every element below the root, each before its children.
    pub fn elements(&self) -> (r: &Vec<VoxelElement>)
        ensures
            nodes_of(r@) == self.element_nodes(),
    {
        &self.elements
    }

    /// A document with a bare root element of tag `tag` and nothing below it.
    pub fn new(tag: VoxelTagName) -> (r: VoxelData)
        ensures
            r.root_node() == (Node { tag, transform: default_transform(), children: Seq::empty() }),
            r.element_nodes() == Seq::<Node>::empty(),
            r.wf(),
    {
        let r = VoxelData { root: VoxelElement::new(tag), elements: Vec::new() };
        assert(nodes_of(r.elements@) =~= Seq::<Node>::empty());
        assert(preorder(Seq::<Node>::empty()) =~= Seq::<Node>::empty());
        r
    }

    /// Builds the document whose root is the markup element `m`. Fails, with no
    /// document, when any element of the subtree has a tag that is not recognized.
    pub fn from_element(m: &MarkupElement) -> (r: Result<VoxelData, Error>)
        ensures
            r is Ok <==> tags_known(*m),
            r is Ok ==> r->Ok_0.root_node() == build_spec(*m),
            r is Ok ==> r->Ok_0.element_nodes() == preorder(build_spec(*m).children),
            r is Ok ==> r->Ok_0.wf(),
            r is Err ==> r->Err_0 is VoxelTagNameParseError,
    {
        let root = match build(m) {
            Ok(root) => root,
            Err(e) => {
                return Err(e);
            },
        };
        let mut elements: Vec<VoxelElement> = Vec::new();
        collect(&root.children, &mut elements);
        assert(nodes_of(Seq::<VoxelElement>::empty()) + preorder(nodes_of(root.children@))
            =~= preorder(nodes_of(root.children@)));
        Ok(VoxelData { root, elements })
    }

    /// Builds the document out of the result of parsing markup: the number of
    /// errors that the parser reported, the element selected as the root, and
    /// the message to give when no root element was selected.
    /// Fails when the parser reported an error, when no root element was
    /// selected, and when an element of the selected subtree has a tag that is
    /// not recognized.
    pub fn from_parsed(
        parse_errors: usize,
        root: Option<&MarkupElement>,
        missing_root: &str,
    ) -> (r: Result<VoxelData, Error>)
        ensures
            parse_errors > 0 ==> r matches Err(Error::VoxelDataParseError(_)),
            parse_errors > 0 ==> message_of(r->Err_0)@ == "received ("@ + decimal(parse_errors as nat)
                + ") html parsing error(s)"@,
            parse_errors == 0 && root is None ==> r matches Err(Error::VoxelDataParseError(_)),
            parse_errors == 0 && root is None ==> message_of(r->Err_0)@ == missing_root@,
            parse_errors == 0 && root is Some ==> {
                let m = *root->0;
                &&& r is Ok <==> tags_known(m)
                &&& r is Ok ==> r->Ok_0.root_node() == build_spec(m)
                &&& r is Ok ==> r->Ok_0.element_nodes() == preorder(build_spec(m).children)
                &&& r is Ok ==> r->Ok_0.wf()
                &&& r is Err ==> r->Err_0 is VoxelTagNameParseError
            },
    {
        if parse_errors > 0 {
            let counted = append_decimal(String::from_str("received ("), parse_errors);
            return Err(Error::VoxelDataParseError(counted.concat(") html parsing error(s)")));
        }
        match root {
            Some(m) => Self::from_element(m),
            None => Err(Error::VoxelDataParseError(String::from_str(missing_root))),
        }
    }
}

} // verus!
