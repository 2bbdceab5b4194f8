use glwrap::errors::DrawStatus;
use glwrap::scene_graph::{NodeType, SceneNode};
use glwrap::shapes::Draw;
use std::cell::Cell;

struct Probe {
    fail_with: Option<&'static str>,
    draws: Cell<u32>,
}

impl Probe {
    fn ok() -> Box<Probe> {
        Box::new(Probe { fail_with: None, draws: Cell::new(0) })
    }

    fn failing(m: &'static str) -> Box<Probe> {
        Box::new(Probe { fail_with: Some(m), draws: Cell::new(0) })
    }
}

impl Draw for Probe {
    fn draw(&self) -> DrawStatus {
        self.draws.set(self.draws.get() + 1);
        match self.fail_with {
            Some(m) => DrawStatus::Failed(m.to_string()),
            None => DrawStatus::Success,
        }
    }
}

fn message(s: DrawStatus) -> Option<String> {
    match s {
        DrawStatus::Failed(m) => Some(m),
        DrawStatus::Success => None,
    }
}

fn draws_of(n: &SceneNode<Probe>) -> Vec<u32> {
    let mut out = Vec::new();
    for c in n.children().iter() {
        match c {
            NodeType::Leaf(w) => out.push(w.item().draws.get()),
            NodeType::Node(s) => out.extend(draws_of(s)),
        }
    }
    out
}

#[test]
fn graph_with_one_failing_leaf_reports_it_and_draws_all() {
    let mut root: SceneNode<Probe> = SceneNode::new("root".to_string());
    root.add_child("a".to_string(), Probe::ok());
    root.add_child("b".to_string(), Probe::failing("invalid draw call for current state"));
    root.add_child("c".to_string(), Probe::ok());
    assert_eq!(message(root.draw()), Some("invalid draw call for current state".to_string()));
    assert_eq!(draws_of(&root), vec![1, 1, 1]);
}

#[test]
fn graph_with_three_good_leaves_succeeds() {
    let mut root: SceneNode<Probe> = SceneNode::new("root".to_string());
    root.add_child("a".to_string(), Probe::ok());
    root.add_child("b".to_string(), Probe::ok());
    root.add_child("c".to_string(), Probe::ok());
    assert_eq!(message(root.draw()), None);
}

#[test]
fn nested_node_failure_is_reported_first_in_order() {
    let mut inner: SceneNode<Probe> = SceneNode::new("inner".to_string());
    inner.add_child("x".to_string(), Probe::ok());
    inner.add_child("y".to_string(), Probe::failing("out of memory"));
    let mut root: SceneNode<Probe> = SceneNode::new("root".to_string());
    root.add_child("a".to_string(), Probe::ok());
    root.add_node(inner);
    root.add_child("c".to_string(), Probe::failing("stack overflow"));
    assert_eq!(message(root.draw()), Some("out of memory".to_string()));
    assert_eq!(draws_of(&root), vec![1, 1, 1, 1]);
}

#[test]
fn get_child_finds_leaf_by_tag() {
    let mut root: SceneNode<Probe> = SceneNode::new("root".to_string());
    root.add_child("bar".to_string(), Probe::ok());
    root.add_child("foo".to_string(), Probe::failing("foo failed"));
    match root.get_child("foo".to_string()) {
        Some(NodeType::Leaf(w)) => {
            assert_eq!(w.tag, "foo");
            assert_eq!(message(w.item().draw()), Some("foo failed".to_string()));
        }
        _ => panic!("expected the leaf tagged foo"),
    }
}

#[test]
fn get_child_is_absent_without_that_tag() {
    let mut root: SceneNode<Probe> = SceneNode::new("root".to_string());
    assert!(root.get_child("foo".to_string()).is_none());
    root.add_child("bar".to_string(), Probe::ok());
    assert!(root.get_child("foo".to_string()).is_none());
}

#[test]
fn get_child_searches_direct_children_only_and_takes_the_first() {
    let mut inner: SceneNode<Probe> = SceneNode::new("inner".to_string());
    inner.add_child("deep".to_string(), Probe::ok());
    let mut root: SceneNode<Probe> = SceneNode::new("root".to_string());
    root.add_node(inner);
    root.add_child("dup".to_string(), Probe::ok());
    root.add_child("dup".to_string(), Probe::failing("second"));
    assert!(root.get_child("deep".to_string()).is_none());
    assert!(matches!(root.get_child("inner".to_string()), Some(NodeType::Node(_))));
    match root.get_child("dup".to_string()) {
        Some(NodeType::Leaf(w)) => assert_eq!(message(w.item().draw()), None),
        _ => panic!("expected the first leaf tagged dup"),
    }
    assert_eq!(root.get_child("dup".to_string()).unwrap().tag(), "dup");
}

#[test]
fn children_can_be_changed_in_place() {
    let mut root: SceneNode<Probe> = SceneNode::new("root".to_string());
    root.add_child("a".to_string(), Probe::ok());
    for c in root.children_mut().iter_mut() {
        if let NodeType::Leaf(w) = c {
            w.item_mut().fail_with = Some("changed");
        }
    }
    assert_eq!(message(root.draw()), Some("changed".to_string()));
    assert_eq!(root.tag, "root");
}

fn draw_as_item<D: Draw>(d: &D) -> DrawStatus {
    d.draw()
}

#[test]
fn scene_node_is_itself_drawable() {
    let mut inner: SceneNode<Probe> = SceneNode::new("inner".to_string());
    inner.add_child("x".to_string(), Probe::failing("stack underflow"));
    assert_eq!(message(draw_as_item(&inner)), Some("stack underflow".to_string()));
}

#[test]
fn nodes_without_leaves_succeed() {
    let mut root: SceneNode<Probe> = SceneNode::new("root".to_string());
    root.add_node(SceneNode::new("empty".to_string()));
    let mut mid: SceneNode<Probe> = SceneNode::new("mid".to_string());
    mid.add_node(SceneNode::new("deeper".to_string()));
    root.add_node(mid);
    assert_eq!(message(root.draw()), None);
}
