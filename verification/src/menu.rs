//! Menu trees read from `com.canonical.dbusmenu` `GetLayout` replies.

use vstd::prelude::*;

use crate::model::{MenuNode, MenuNodeView, menu_node_view};

verus! {

/// One child entry of a `GetLayout` reply, decoded: its id, the properties the
/// host reads (each `None` when absent or of another type) and its own children
/// (each `None` where the entry could not be decoded).
#[derive(Debug)]
pub struct LayoutEntry {
    pub id: i32,
    /// `label` property.
    pub label: Option<String>,
    /// `enabled` property.
    pub enabled: Option<bool>,
    /// `visible` property.
    pub visible: Option<bool>,
    /// `icon-name` property.
    pub icon_name: Option<String>,
    /// Whether the `children-display` property is present.
    pub children_display: bool,
    /// Nested children.
    pub children: Vec<Option<LayoutEntry>>,
}

/// The text of an optional string property, empty when absent.
pub open spec fn text_or_empty(s: Option<String>) -> Seq<char> {
    match s {
        Some(s) => s@,
        None => Seq::empty(),
    }
}

/// The menu node an entry describes: absent text properties read as empty,
/// absent flags as `true`, and a node is a submenu when it announces
/// `children-display` or carries children.
pub open spec fn node_of(e: LayoutEntry) -> MenuNodeView
    decreases e, 1int,
{
    MenuNodeView {
        id: e.id,
        label: text_or_empty(e.label),
        enabled: match e.enabled {
            Some(b) => b,
            None => true,
        },
        visible: match e.visible {
            Some(b) => b,
            None => true,
        },
        icon_name: text_or_empty(e.icon_name),
        is_submenu: e.children_display || e.children@.len() > 0,
        children: nodes_of(e.children@),
    }
}

/// The nodes of the decodable entries of `cs`, in order.
pub open spec fn nodes_of(cs: Seq<Option<LayoutEntry>>) -> Seq<MenuNodeView>
    decreases cs, 0int,
{
    if cs.len() == 0 {
        Seq::empty()
    } else {
        let rest = nodes_of(cs.subrange(0, cs.len() - 1));
        match cs[cs.len() - 1] {
            Some(e) => rest.push(node_of(e)),
            None => rest,
        }
    }
}


/// The models of a list of menu nodes.
pub open spec fn node_views(ns: Seq<MenuNode>) -> Seq<MenuNodeView> {
    ns.map_values(|n: MenuNode| menu_node_view(n))
}

/// A copy of an optional string property, empty when absent.
fn text_of(s: &Option<String>) -> (r: String)
    ensures
        r@ == text_or_empty(*s),
{
    match s {
        Some(t) => t.clone(),
        None => String::new(),
    }
}

/// Convert the children of a `GetLayout` reply into menu nodes, skipping the
/// entries that could not be decoded.
pub fn menu_nodes_from_av(children: &Vec<Option<LayoutEntry>>) -> (r: Vec<MenuNode>)
    ensures
        node_views(r@) == nodes_of(children@),
    decreases children, 0int,
{
    let mut r: Vec<MenuNode> = Vec::new();
    let mut i: usize = 0;
    assert(children@.take(0) =~= Seq::<Option<LayoutEntry>>::empty());
    assert(node_views(r@) =~= Seq::<MenuNodeView>::empty());
    while i < children.len()
        invariant
            i <= children@.len(),
            node_views(r@) == nodes_of(children@.take(i as int)),
        decreases children.len() - i,
    {
        let ghost before = r@;
        assert(children@.take(i + 1).subrange(0, i as int) =~= children@.take(i as int));
        assert(children@.take(i + 1)[i as int] == children@[i as int]);
        match &children[i] {
            Some(e) => {
                proof {
                    broadcast use vstd::std_specs::vec::group_vec_axioms;
                    assert(decreases_to!(children => children@[i as int]));
                }
                let node = parse_child(e);
                r.push(node);
                assert(node_views(r@) =~= node_views(before).push(menu_node_view(node)));
            },
            None => {},
        }
        i += 1;
    }
    assert(children@.take(children@.len() as int) =~= children@);
    r
}

/// The menu node one decoded layout entry describes.
fn parse_child(e: &LayoutEntry) -> (r: MenuNode)
    ensures
        menu_node_view(r) == node_of(*e),
    decreases e, 1int,
{
    let children = menu_nodes_from_av(&e.children);
    let node = MenuNode {
        id: e.id,
        label: text_of(&e.label),
        enabled: match e.enabled {
            Some(b) => b,
            None => true,
        },
        visible: match e.visible {
            Some(b) => b,
            None => true,
        },
        icon_name: text_of(&e.icon_name),
        is_submenu: e.children_display || e.children.len() > 0,
        children,
    };
    assert(menu_node_view(node).children =~= node_views(node.children@));
    node
}

} // verus!
