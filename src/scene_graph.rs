use vstd::prelude::*;
use crate::errors::{DrawStatus, first_failure, combine_statuses};
use crate::shapes::Draw;

verus! {

/// A drawable item under a tag.
pub struct NodeWrapper<T> {
    pub tag: String,
    item: T,
}

impl<T> NodeWrapper<T> {
    pub closed spec fn spec_tag(&self) -> Seq<char> {
        self.tag@
    }

    pub closed spec fn spec_item(&self) -> T {
        self.item
    }

    /// The item `data` under the tag `name`.
    pub fn new(name: String, data: T) -> (r: NodeWrapper<T>)
        ensures
            r.spec_tag() == name@,
            r.spec_item() == data,
    {
        NodeWrapper { tag: name, item: data }
    }

    pub fn item(&self) -> (r: &T)
        ensures
            *r == self.spec_item(),
    {
        &self.item
    }

    pub fn item_mut(&mut self) -> (r: &mut T)
        ensures
            *r == old(self).spec_item(),
            final(self).spec_tag() == old(self).spec_tag(),
            final(self).spec_item() == *final(r),
    {
        &mut self.item
    }
}

/// A child of a scene node: a tagged leaf, or a node of its own.
pub enum NodeType<T> {
    Leaf(NodeWrapper<T>),
    Node(SceneNode<T>),
}

/// The tag of a child, leaf or node.
pub open spec fn tag_of<T>(n: NodeType<T>) -> Seq<char> {
    match n {
        NodeType::Leaf(w) => w.spec_tag(),
        NodeType::Node(s) => s.spec_tag(),
    }
}

impl<T> NodeType<T> {
    pub fn tag(&self) -> (r: &String)
        ensures
            r@ == tag_of(*self),
    {
        match self {
            NodeType::Leaf(w) => &w.tag,
            NodeType::Node(s) => &s.tag,
        }
    }
}

/// A tagged node of the scene graph, which owns its children in order.
pub struct SceneNode<T> {
    pub tag: String,
    children: Vec<NodeType<T>>,
}

/// Index of the first of `c` tagged `name`, or `c.len()` when there is none.
pub open spec fn first_tagged<T>(c: Seq<NodeType<T>>, name: Seq<char>) -> int
    decreases c.len(),
{
    if c.len() == 0 {
        0
    } else if tag_of(c[0]) == name {
        0
    } else {
        1 + first_tagged(c.drop_first(), name)
    }
}

proof fn lemma_first_tagged<T>(c: Seq<NodeType<T>>, name: Seq<char>)
    ensures
        0 <= first_tagged(c, name) <= c.len(),
        forall|j: int| 0 <= j < first_tagged(c, name) ==> tag_of(#[trigger] c[j]) != name,
        first_tagged(c, name) < c.len() ==> tag_of(c[first_tagged(c, name)]) == name,
    decreases c.len(),
{
    if c.len() > 0 && tag_of(c[0]) != name {
        lemma_first_tagged(c.drop_first(), name);
        assert forall|j: int| 0 <= j < first_tagged(c, name) implies tag_of(#[trigger] c[j])
            != name by {
            if j > 0 {
                assert(c[j] == c.drop_first()[j - 1]);
            }
        }
    }
}

impl<T> SceneNode<T> {
    pub closed spec fn spec_tag(&self) -> Seq<char> {
        self.tag@
    }

    pub closed spec fn spec_children(&self) -> Seq<NodeType<T>> {
        self.children@
    }

    /// An empty node tagged `name`.
    pub fn new(name: String) -> (r: SceneNode<T>)
        ensures
            r.spec_tag() == name@,
            r.spec_children() == Seq::<NodeType<T>>::empty(),
    {
        SceneNode { tag: name, children: Vec::new() }
    }

    pub fn children(&self) -> (r: &Vec<NodeType<T>>)
        ensures
            r@ == self.spec_children(),
    {
        &self.children
    }

    pub fn children_mut(&mut self) -> (r: &mut Vec<NodeType<T>>)
        ensures
            r@ == old(self).spec_children(),
            final(self).spec_tag() == old(self).spec_tag(),
            final(self).spec_children() == final(r)@,
    {
        &mut self.children
    }

    /// Adds `node` as a leaf tagged `name`, after the other children.
    pub fn add_child(&mut self, name: String, node: Box<T>)
        ensures
            final(self).spec_tag() == old(self).spec_tag(),
            final(self).spec_children().len() == old(self).spec_children().len() + 1,
            final(self).spec_children().drop_last() == old(self).spec_children(),
            final(self).spec_children().last() matches NodeType::Leaf(w) && w.spec_tag() == name@
                && w.spec_item() == *node,
    {
        self.children.push(NodeType::Leaf(NodeWrapper::new(name, *node)));
        assert(self.children@.drop_last() =~= old(self).children@);
    }

    /// Adds `node` as a child node, after the other children.
    pub fn add_node(&mut self, node: SceneNode<T>)
        ensures
            final(self).spec_tag() == old(self).spec_tag(),
            final(self).spec_children() == old(self).spec_children().push(NodeType::Node(node)),
    {
        self.children.push(NodeType::Node(node));
    }

    /// The first direct child tagged `name`, leaf or node; `None` when no
    /// direct child has that tag. Children of children are not searched.
    pub fn get_child(&self, name: String) -> (r: Option<&NodeType<T>>)
        ensures
            r is None <==> forall|i: int|
                0 <= i < self.spec_children().len() ==> tag_of(#[trigger] self.spec_children()[i])
                    != name@,
            r is Some ==> {
                let k = first_tagged(self.spec_children(), name@);
                &&& 0 <= k < self.spec_children().len()
                &&& *r->Some_0 == self.spec_children()[k]
                &&& tag_of(*r->Some_0) == name@
            },
    {
        let ghost c = self.children@;
        proof {
            lemma_first_tagged(c, name@);
        }
        let mut i: usize = 0;
        while i < self.children.len()
            invariant
                c == self.children@,
                i <= c.len(),
                forall|j: int| 0 <= j < i ==> tag_of(#[trigger] c[j]) != name@,
                0 <= first_tagged(c, name@) <= c.len(),
                forall|j: int| 0 <= j < first_tagged(c, name@) ==> tag_of(#[trigger] c[j]) != name@,
                first_tagged(c, name@) < c.len() ==> tag_of(c[first_tagged(c, name@)]) == name@,
            decreases c.len() - i,
        {
            let child = &self.children[i];
            if *child.tag() == name {
                assert(tag_of(self.spec_children()[i as int]) == name@);
                assert(first_tagged(c, name@) == i);
                return Some(child);
            }
            i = i + 1;
        }
        None
    }
}

/// Whether some child in `c`, or a child of a child, is a leaf.
pub open spec fn has_leaf<T>(c: Seq<NodeType<T>>) -> bool
    decreases c,
{
    if c.len() == 0 {
        false
    } else {
        node_has_leaf(c[0]) || has_leaf(c.drop_first())
    }
}

/// Whether `n` is a leaf or a node with a leaf somewhere beneath it.
pub open spec fn node_has_leaf<T>(n: NodeType<T>) -> bool
    decreases n,
{
    match n {
        NodeType::Leaf(_) => true,
        NodeType::Node(m) => has_leaf(m.spec_children()),
    }
}

proof fn lemma_has_leaf<T>(c: Seq<NodeType<T>>)
    ensures
        has_leaf(c) <==> exists|i: int| 0 <= i < c.len() && node_has_leaf(#[trigger] c[i]),
    decreases c.len(),
{
    if c.len() > 0 {
        lemma_has_leaf(c.drop_first());
        if has_leaf(c.drop_first()) {
            let i = choose|i: int| 0 <= i < c.drop_first().len() && node_has_leaf(
                #[trigger] c.drop_first()[i],
            );
            assert(c[i + 1] == c.drop_first()[i]);
        }
        if exists|i: int| 0 <= i < c.len() && node_has_leaf(#[trigger] c[i]) {
            let i = choose|i: int| 0 <= i < c.len() && node_has_leaf(#[trigger] c[i]);
            if i > 0 {
                assert(c.drop_first()[i - 1] == c[i]);
            }
        }
    }
}

impl<T: Draw> SceneNode<T> {
    /// Draws every child in order, nodes recursively, without stopping at a
    /// failure, and reports the first failure, or `Success` when none failed.
    /// Only leaves make draw calls: a node with no leaf beneath it succeeds.
    pub fn draw(&self) -> (r: DrawStatus)
        ensures
            !has_leaf(self.spec_children()) ==> r is Success,
            exists|s: Seq<DrawStatus>|
                {
                    &&& s.len() == self.spec_children().len()
                    &&& r == first_failure(s)
                    &&& forall|i: int|
                        0 <= i < s.len() && !node_has_leaf(#[trigger] self.spec_children()[i])
                            ==> s[i] is Success
                },
        decreases self,
    {
        let ghost c = self.children@;
        proof {
            lemma_has_leaf(c);
        }
        let mut statuses: Vec<DrawStatus> = Vec::new();
        let mut i: usize = 0;
        while i < self.children.len()
            invariant
                c == self.children@,
                i <= c.len(),
                statuses@.len() == i,
                forall|j: int|
                    0 <= j < i && !node_has_leaf(#[trigger] c[j]) ==> statuses@[j] is Success,
            decreases c.len() - i,
        {
            let status = match &self.children[i] {
                NodeType::Leaf(w) => w.item.draw(),
                NodeType::Node(n) => {
                    assert(decreases_to!(self => self.children@[i as int]));
                    n.draw()
                },
            };
            statuses.push(status);
            i = i + 1;
        }
        let ghost s = statuses@;
        proof {
            if !has_leaf(c) {
                assert forall|j: int| 0 <= j < s.len() implies s[j] is Success by {
                    assert(!node_has_leaf(c[j]));
                }
                lemma_all_success(s);
            }
        }
        combine_statuses(statuses)
    }
}

proof fn lemma_all_success(s: Seq<DrawStatus>)
    requires
        forall|j: int| 0 <= j < s.len() ==> s[j] is Success,
    ensures
        first_failure(s) is Success,
    decreases s.len(),
{
    if s.len() > 0 {
        assert forall|j: int| 0 <= j < s.len() - 1 implies s.drop_first()[j] is Success by {
            assert(s.drop_first()[j] == s[j + 1]);
        }
        lemma_all_success(s.drop_first());
    }
}

impl<T: Draw> Draw for SceneNode<T> {
    fn draw(&self) -> DrawStatus {
        SceneNode::<T>::draw(self)
    }
}

} // verus!
