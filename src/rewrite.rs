use vstd::prelude::*;

use crate::tree::{
    at_path, child, find_key, is_leaf, is_text_leaf, with_child, PropNode,
    PropValue,
};

verus! {

/// The event id that tells the client that cloud data is available.
pub open spec fn marker_id() -> Seq<char> {
    "CLOUD_LINK_ENABLE"@
}

/// `info` is an event entry whose `event_id` child names the cloud marker.
pub open spec fn is_marker_event(info: PropNode) -> bool {
    match child(info, "event_id"@) {
        Some(c) => match c.value {
            Some(PropValue::Str(s)) => s@ == marker_id(),
            _ => false,
        },
        None => false,
    }
}

/// The event entries of `s` that are not the cloud marker, in order.
pub open spec fn without_markers(s: Seq<PropNode>) -> Seq<PropNode>
    decreases s.len(),
{
    if s.len() == 0 {
        s
    } else {
        let rest = without_markers(s.drop_last());
        if is_marker_event(s.last()) {
            rest
        } else {
            rest.push(s.last())
        }
    }
}

/// The children of `s` whose key is not `cloud`, in order.
pub open spec fn without_cloud(s: Seq<PropNode>) -> Seq<PropNode>
    decreases s.len(),
{
    if s.len() == 0 {
        s
    } else {
        let rest = without_cloud(s.drop_last());
        if s.last().key@ == "cloud"@ {
            rest
        } else {
            rest.push(s.last())
        }
    }
}

/// `n` is a fresh marker entry: `info` holding only `event_id` = the marker.
pub open spec fn is_fresh_marker(n: PropNode) -> bool {
    &&& n.key@ == "info"@
    &&& n.attributes@.len() == 0
    &&& n.value is None
    &&& n.children@.len() == 1
    &&& is_text_leaf(n.children@[0], "event_id"@, marker_id())
}

/// `n` is a fresh cloud node: `cloud` holding only `relation` = 1.
pub open spec fn is_fresh_cloud(n: PropNode) -> bool {
    &&& n.key@ == "cloud"@
    &&& n.attributes@.len() == 0
    &&& n.value is None
    &&& n.children@.len() == 1
    &&& is_leaf(n.children@[0], "relation"@, PropValue::S8(1))
}

/// `new` is `old` with the child list `kept` followed by one more node.
pub open spec fn children_then_one(old: PropNode, new: PropNode, kept: Seq<PropNode>) -> bool {
    &&& new.key == old.key
    &&& new.attributes == old.attributes
    &&& new.value == old.value
    &&& new.children@.len() == kept.len() + 1
    &&& new.children@.drop_last() == kept
}

/// `r` is `root` with, under `game/event`, every cloud marker removed and one
/// fresh marker appended; nothing else changes.
pub open spec fn common_rewritten(root: PropNode, r: PropNode) -> bool {
    let gi = find_key(root.children@, "game"@)->Some_0;
    let game = root.children@[gi];
    let ei = find_key(game.children@, "event"@)->Some_0;
    let events = game.children@[ei];
    let game2 = r.children@[gi];
    let events2 = game2.children@[ei];
    &&& with_child(root, r, gi, game2)
    &&& with_child(game, game2, ei, events2)
    &&& children_then_one(events, events2, without_markers(events.children@))
    &&& is_fresh_marker(events2.children@.last())
}

/// `r` is `root` with, under `game`, every `cloud` child removed and one fresh
/// cloud node appended; nothing else changes.
pub open spec fn load_rewritten(root: PropNode, r: PropNode) -> bool {
    let gi = find_key(root.children@, "game"@)->Some_0;
    let game = root.children@[gi];
    let game2 = r.children@[gi];
    &&& with_child(root, r, gi, game2)
    &&& children_then_one(game, game2, without_cloud(game.children@))
    &&& is_fresh_cloud(game2.children@.last())
}

/// Whether the event entry `info` names the cloud marker.
fn marker_event(info: &PropNode) -> (r: bool)
    ensures
        r == is_marker_event(*info),
{
    match info.find_child("event_id") {
        Some(i) => match &info.children[i].value {
            Some(PropValue::Str(s)) => {
                let m = "CLOUD_LINK_ENABLE".to_owned();
                *s == m
            },
            _ => false,
        },
        None => false,
    }
}

/// Drops the cloud markers from a list of event entries.
fn drop_markers(events: Vec<PropNode>) -> (r: Vec<PropNode>)
    ensures
        r@ == without_markers(events@),
{
    let ghost all = events@;
    let mut kept: Vec<PropNode> = Vec::new();
    let mut rest = events;
    let mut i: usize = 0;
    let n = rest.len();
    while i < n
        invariant
            n == all.len(),
            i <= n,
            rest@ == all.subrange(i as int, n as int),
            kept@ == without_markers(all.subrange(0, i as int)),
        decreases n - i,
    {
        let c = rest.remove(0);
        assert(rest@ =~= all.subrange(i + 1, n as int));
        assert(c == all[i as int]);
        assert(all.subrange(0, i + 1).drop_last() =~= all.subrange(0, i as int));
        if !marker_event(&c) {
            kept.push(c);
        }
        i = i + 1;
    }
    assert(all.subrange(0, n as int) =~= all);
    kept
}

/// Drops the children with key `cloud`.
fn drop_cloud(nodes: Vec<PropNode>) -> (r: Vec<PropNode>)
    ensures
        r@ == without_cloud(nodes@),
{
    let ghost all = nodes@;
    let mut kept: Vec<PropNode> = Vec::new();
    let mut rest = nodes;
    let mut i: usize = 0;
    let n = rest.len();
    while i < n
        invariant
            n == all.len(),
            i <= n,
            rest@ == all.subrange(i as int, n as int),
            kept@ == without_cloud(all.subrange(0, i as int)),
        decreases n - i,
    {
        let c = rest.remove(0);
        assert(rest@ =~= all.subrange(i + 1, n as int));
        assert(c == all[i as int]);
        assert(all.subrange(0, i + 1).drop_last() =~= all.subrange(0, i as int));
        if !c.has_key("cloud") {
            kept.push(c);
        }
        i = i + 1;
    }
    assert(all.subrange(0, n as int) =~= all);
    kept
}

/// A fresh marker entry: `info` holding `event_id` = the cloud marker.
fn fresh_marker() -> (r: PropNode)
    ensures
        is_fresh_marker(r),
{
    let id = PropNode::with_value("event_id", PropValue::Str("CLOUD_LINK_ENABLE".to_owned()));
    let r = PropNode::with_nodes("info", vec![id]);
    assert(r.children@[0] == id);
    r
}

/// A fresh cloud node: `cloud` holding `relation` = 1.
fn fresh_cloud() -> (r: PropNode)
    ensures
        is_fresh_cloud(r),
{
    let relation = PropNode::with_value("relation", PropValue::S8(1));
    let r = PropNode::with_nodes("cloud", vec![relation]);
    assert(r.children@[0] == relation);
    r
}

/// Under `game/event`, removes every cloud marker entry and appends one fresh
/// marker.
pub fn rewrite_common(root: PropNode) -> (r: PropNode)
    requires
        at_path(root, "game"@, "event"@) is Some,
    ensures
        common_rewritten(root, r),
{
    let ghost old_root = root;
    let mut root = root;
    let gi = root.find_child("game").unwrap();
    let mut game = root.children.remove(gi);
    let ghost old_game = game;
    let ei = game.find_child("event").unwrap();
    let events = game.children.remove(ei);
    let ghost old_events = events;
    let PropNode { key, attributes, value, children } = events;
    let mut kept = drop_markers(children);
    let ghost kept_before = kept@;
    kept.push(fresh_marker());
    assert(kept@.drop_last() =~= kept_before);
    let events2 = PropNode { key, attributes, value, children: kept };
    game.children.insert(ei, events2);
    assert(game.children@ =~= old_game.children@.update(ei as int, events2));
    root.children.insert(gi, game);
    assert(root.children@ =~= old_root.children@.update(gi as int, game));
    root
}

/// Under `game`, removes every `cloud` child and appends one fresh cloud node.
pub fn rewrite_load(root: PropNode) -> (r: PropNode)
    requires
        at_path(root, "game"@, "code"@) is Some,
    ensures
        load_rewritten(root, r),
{
    let ghost old_root = root;
    let mut root = root;
    let gi = root.find_child("game").unwrap();
    let game = root.children.remove(gi);
    let PropNode { key, attributes, value, children } = game;
    let mut kept = drop_cloud(children);
    let ghost kept_before = kept@;
    kept.push(fresh_cloud());
    assert(kept@.drop_last() =~= kept_before);
    let game2 = PropNode { key, attributes, value, children: kept };
    root.children.insert(gi, game2);
    assert(root.children@ =~= old_root.children@.update(gi as int, game2));
    root
}

} // verus!
