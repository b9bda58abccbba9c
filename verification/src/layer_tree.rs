//! The layer tree: groups, rasters and the questions asked of them.
use vstd::prelude::*;
use vstd::string::*;

use crate::decimal::to_decimal;
use crate::document::{GroupId, LayerId, LayerTreeNodeId};
use crate::layer_command::LayerBlendMode;
use crate::stroke_pipeline::LayerFocus;

verus! {

/// The raster that a new document starts with.
pub const LIVE_LAYER: u128 = 1;

pub const BACKGROUND_LAYER: u128 = 2;

pub const ROOT_GROUP: u128 = 100;

pub const INK_GROUP: u128 = 10;

#[derive(Clone, Debug, PartialEq, Eq)]
pub struct LayerNode {
    pub id: LayerId,
    pub name: String,
    pub visible: bool,
    pub locked: bool,
    pub reference: bool,
    pub alpha_locked: bool,
    pub clip_to_below: bool,
    pub blend_mode: LayerBlendMode,
    pub opacity_u16: u16,
    pub content_root: u64,
}

#[derive(Debug)]
pub struct GroupNode {
    pub id: GroupId,
    pub name: String,
    pub visible: bool,
    pub clip_to_below: bool,
    pub blend_mode: LayerBlendMode,
    pub opacity_u16: u16,
    /// Bottom first.
    pub children: Vec<LayerTreeNode>,
}

#[derive(Debug)]
pub enum LayerTreeNode {
    Raster(LayerNode),
    Group(GroupNode),
}

#[derive(Debug)]
pub struct LayerTree {
    pub root: GroupNode,
}

/// The rasters below a list of nodes, bottom first.
pub open spec fn rasters_below(children: Seq<LayerTreeNode>) -> Seq<LayerNode>
    decreases children,
{
    if children.len() == 0 {
        Seq::empty()
    } else {
        rasters_below(children.drop_last()) + match children.last() {
            LayerTreeNode::Raster(layer) => seq![layer],
            LayerTreeNode::Group(group) => rasters_below(group.children@),
        }
    }
}

/// The groups below a list of nodes.
pub open spec fn groups_below(children: Seq<LayerTreeNode>) -> Seq<GroupNode>
    decreases children,
{
    if children.len() == 0 {
        Seq::empty()
    } else {
        groups_below(children.drop_last()) + match children.last() {
            LayerTreeNode::Raster(layer) => Seq::empty(),
            LayerTreeNode::Group(group) => seq![group] + groups_below(group.children@),
        }
    }
}

pub open spec fn raster_ids(rasters: Seq<LayerNode>) -> Seq<LayerId> {
    rasters.map_values(|layer: LayerNode| layer.id)
}

fn collect_rasters(children: &Vec<LayerTreeNode>, layers: &mut Vec<LayerId>)
    ensures
        final(layers)@ == old(layers)@ + raster_ids(rasters_below(children@)),
    decreases children@,
{
    let ghost start = layers@;
    let mut index: usize = 0;
    assert(children@.take(0) =~= Seq::empty());
    assert(layers@ =~= start + raster_ids(rasters_below(children@.take(0))));
    while index < children.len()
        invariant
            index <= children@.len(),
            layers@ == start + raster_ids(rasters_below(children@.take(index as int))),
        decreases children@.len() - index,
    {
        let ghost before = children@.take(index as int);
        let ghost after = children@.take(index + 1);
        assert(after.drop_last() =~= before);
        match &children[index] {
            LayerTreeNode::Raster(layer) => {
                layers.push(layer.id);
                assert(rasters_below(after) == rasters_below(before) + seq![*layer]);
                assert(layers@ =~= start + raster_ids(rasters_below(after)));
            },
            LayerTreeNode::Group(group) => {
                let ghost middle = layers@;
                assert(decreases_to!(children@ => children@[index as int]));
                collect_rasters(&group.children, layers);
                assert(rasters_below(after) == rasters_below(before) + rasters_below(
                    group.children@,
                ));
                assert(layers@ =~= start + raster_ids(rasters_below(after)));
            },
        }
        index = index + 1;
    }
    assert(children@.take(index as int) =~= children@);
}


pub open spec fn larger(a: int, b: int) -> int {
    if a >= b { a } else { b }
}

/// The highest identifier below a list of nodes; zero where there is none.
pub open spec fn highest_below(children: Seq<LayerTreeNode>) -> int
    decreases children,
{
    if children.len() == 0 {
        0
    } else {
        larger(
            highest_below(children.drop_last()),
            match children.last() {
                LayerTreeNode::Raster(layer) => layer.id.0 as int,
                LayerTreeNode::Group(group) => larger(
                    group.id.0 as int,
                    highest_below(group.children@),
                ),
            },
        )
    }
}

/// Where a node stands: its parent group and its place among the siblings.
pub open spec fn position_below(
    children: Seq<LayerTreeNode>,
    parent: GroupId,
    node: LayerTreeNodeId,
) -> Option<(GroupId, int)>
    decreases children,
{
    if children.len() == 0 {
        None
    } else {
        match position_below(children.drop_last(), parent, node) {
            Some(found) => Some(found),
            None => if children.last().node_id() == node {
                Some((parent, children.len() - 1))
            } else {
                match children.last() {
                    LayerTreeNode::Raster(_) => None,
                    LayerTreeNode::Group(group) => position_below(
                        group.children@,
                        group.id,
                        node,
                    ),
                }
            },
        }
    }
}

/// A count as the interface shows it.
pub open spec fn shown_count(count: nat) -> usize {
    if count <= usize::MAX { count as usize } else { usize::MAX }
}

impl LayerTreeNode {
    pub open spec fn node_id(self) -> LayerTreeNodeId {
        match self {
            LayerTreeNode::Raster(layer) => LayerTreeNodeId::Raster(layer.id),
            LayerTreeNode::Group(group) => LayerTreeNodeId::Group(group.id),
        }
    }

    pub fn id(&self) -> (r: LayerTreeNodeId)
        ensures
            r == self.node_id(),
    {
        match self {
            LayerTreeNode::Raster(layer) => LayerTreeNodeId::Raster(layer.id),
            LayerTreeNode::Group(group) => LayerTreeNodeId::Group(group.id),
        }
    }
}

fn highest_id_below(children: &Vec<LayerTreeNode>) -> (r: u128)
    ensures
        r == highest_below(children@),
    decreases children@,
{
    let mut highest: u128 = 0;
    let mut index: usize = 0;
    assert(children@.take(0) =~= Seq::empty());
    while index < children.len()
        invariant
            index <= children@.len(),
            highest == highest_below(children@.take(index as int)),
        decreases children@.len() - index,
    {
        let ghost after = children@.take(index + 1);
        assert(after.drop_last() =~= children@.take(index as int));
        let candidate: u128 = match &children[index] {
            LayerTreeNode::Raster(layer) => layer.id.0,
            LayerTreeNode::Group(group) => {
                assert(decreases_to!(children@ => children@[index as int]));
                let below: u128 = highest_id_below(&group.children);
                if group.id.0 >= below {
                    group.id.0
                } else {
                    below
                }
            },
        };
        if candidate > highest {
            highest = candidate;
        }
        index = index + 1;
    }
    assert(children@.take(index as int) =~= children@);
    highest
}

fn count_rasters(children: &Vec<LayerTreeNode>) -> (r: usize)
    ensures
        r == shown_count(rasters_below(children@).len()),
    decreases children@,
{
    let mut count: usize = 0;
    let mut index: usize = 0;
    assert(children@.take(0) =~= Seq::empty());
    while index < children.len()
        invariant
            index <= children@.len(),
            count == shown_count(rasters_below(children@.take(index as int)).len()),
        decreases children@.len() - index,
    {
        let ghost after = children@.take(index + 1);
        assert(after.drop_last() =~= children@.take(index as int));
        match &children[index] {
            LayerTreeNode::Raster(_) => {
                count = count.saturating_add(1);
            },
            LayerTreeNode::Group(group) => {
                assert(decreases_to!(children@ => children@[index as int]));
                count = count.saturating_add(count_rasters(&group.children));
            },
        }
        index = index + 1;
    }
    assert(children@.take(index as int) =~= children@);
    count
}

fn count_groups(children: &Vec<LayerTreeNode>) -> (r: usize)
    ensures
        r == shown_count(groups_below(children@).len()),
    decreases children@,
{
    let mut count: usize = 0;
    let mut index: usize = 0;
    assert(children@.take(0) =~= Seq::empty());
    while index < children.len()
        invariant
            index <= children@.len(),
            count == shown_count(groups_below(children@.take(index as int)).len()),
        decreases children@.len() - index,
    {
        let ghost after = children@.take(index + 1);
        assert(after.drop_last() =~= children@.take(index as int));
        match &children[index] {
            LayerTreeNode::Raster(_) => {},
            LayerTreeNode::Group(group) => {
                assert(decreases_to!(children@ => children@[index as int]));
                count = count.saturating_add(1).saturating_add(count_groups(&group.children));
            },
        }
        index = index + 1;
    }
    assert(children@.take(index as int) =~= children@);
    count
}

fn find_position(children: &Vec<LayerTreeNode>, parent: GroupId, node: LayerTreeNodeId) -> (r:
    Option<(GroupId, usize)>)
    ensures
        match position_below(children@, parent, node) {
            Some(found) => r matches Some(position) && position.0 == found.0 && position.1
                == found.1,
            None => r is None,
        },
        r matches Some(position) ==> position.1 < usize::MAX,
    decreases children@,
{
    let mut index: usize = 0;
    let mut found: Option<(GroupId, usize)> = None;
    assert(children@.take(0) =~= Seq::empty());
    while index < children.len()
        invariant
            index <= children@.len(),
            match position_below(children@.take(index as int), parent, node) {
                Some(expected) => found matches Some(position) && position.0 == expected.0
                    && position.1 == expected.1,
                None => found is None,
            },
            found matches Some(position) ==> position.1 < usize::MAX,
        decreases children@.len() - index,
    {
        let ghost after = children@.take(index + 1);
        assert(after.drop_last() =~= children@.take(index as int));
        if found.is_none() {
            if children[index].id() == node {
                found = Some((parent, index));
            } else if let LayerTreeNode::Group(group) = &children[index] {
                assert(decreases_to!(children@ => children@[index as int]));
                found = find_position(&group.children, group.id, node);
            }
        }
        index = index + 1;
    }
    assert(children@.take(index as int) =~= children@);
    found
}

impl LayerTree {
    /// The rasters of the tree, bottom first.
    pub open spec fn rasters(self) -> Seq<LayerNode> {
        rasters_below(self.root.children@)
    }

    /// The groups of the tree below its root.
    pub open spec fn groups(self) -> Seq<GroupNode> {
        groups_below(self.root.children@)
    }

    pub open spec fn has_raster(self, layer: LayerId) -> bool {
        raster_ids(self.rasters()).contains(layer)
    }

    pub open spec fn highest_id(self) -> int {
        larger(self.root.id.0 as int, highest_below(self.root.children@))
    }

    pub open spec fn position(self, node: LayerTreeNodeId) -> Option<(GroupId, int)> {
        position_below(self.root.children@, self.root.id, node)
    }

    pub fn root_id(&self) -> (r: GroupId)
        ensures
            r == self.root.id,
    {
        self.root.id
    }

    pub fn parent_and_index(&self, node: LayerTreeNodeId) -> (r: Option<(GroupId, usize)>)
        ensures
            match self.position(node) {
                Some(found) => r matches Some(position) && position.0 == found.0 && position.1
                    == found.1,
                None => r is None,
            },
            r matches Some(position) ==> position.1 < usize::MAX,
    {
        find_position(&self.root.children, self.root.id, node)
    }
}

/// The first raster with this identifier.
pub open spec fn raster_named(rasters: Seq<LayerNode>, layer: LayerId) -> Option<LayerNode>
    decreases rasters.len(),
{
    if rasters.len() == 0 {
        None
    } else {
        match raster_named(rasters.drop_last(), layer) {
            Some(found) => Some(found),
            None => if rasters.last().id == layer {
                Some(rasters.last())
            } else {
                None
            },
        }
    }
}

proof fn lemma_raster_named_in_parts(
    first: Seq<LayerNode>,
    second: Seq<LayerNode>,
    layer: LayerId,
)
    ensures
        raster_named(first + second, layer) == (match raster_named(first, layer) {
            Some(found) => Some(found),
            None => raster_named(second, layer),
        }),
    decreases second.len(),
{
    if second.len() == 0 {
        assert(first + second =~= first);
    } else {
        lemma_raster_named_in_parts(first, second.drop_last(), layer);
        assert((first + second).drop_last() =~= first + second.drop_last());
    }
}

fn find_raster<'a>(children: &'a Vec<LayerTreeNode>, layer: LayerId) -> (r: Option<&'a LayerNode>)
    ensures
        match raster_named(rasters_below(children@), layer) {
            Some(found) => r matches Some(node) && *node == found,
            None => r is None,
        },
    decreases children@,
{
    let mut index: usize = 0;
    let mut found: Option<&'a LayerNode> = None;
    assert(children@.take(0) =~= Seq::empty());
    while index < children.len()
        invariant
            index <= children@.len(),
            match raster_named(rasters_below(children@.take(index as int)), layer) {
                Some(expected) => found matches Some(node) && *node == expected,
                None => found is None,
            },
        decreases children@.len() - index,
    {
        let ghost before = children@.take(index as int);
        let ghost after = children@.take(index + 1);
        assert(after.drop_last() =~= before);
        match &children[index] {
            LayerTreeNode::Raster(raster) => {
                proof {
                    lemma_raster_named_in_parts(rasters_below(before), seq![*raster], layer);
                    assert(seq![*raster].drop_last() =~= Seq::empty());
                    assert(raster_named(seq![*raster].drop_last(), layer) is None);
                    assert(rasters_below(after) == rasters_below(before) + seq![*raster]);
                }
                if found.is_none() && raster.id == layer {
                    found = Some(raster);
                }
            },
            LayerTreeNode::Group(group) => {
                proof {
                    assert(decreases_to!(children@ => children@[index as int]));
                    lemma_raster_named_in_parts(
                        rasters_below(before),
                        rasters_below(group.children@),
                        layer,
                    );
                    assert(rasters_below(after) == rasters_below(before) + rasters_below(
                        group.children@,
                    ));
                }
                if found.is_none() {
                    found = find_raster(&group.children, layer);
                }
            },
        }
        index = index + 1;
    }
    assert(children@.take(index as int) =~= children@);
    found
}

impl LayerTree {
    /// The raster with this identifier.
    pub fn raster(&self, layer: LayerId) -> (r: Option<&LayerNode>)
        ensures
            match raster_named(self.rasters(), layer) {
                Some(found) => r matches Some(node) && *node == found,
                None => r is None,
            },
    {
        find_raster(&self.root.children, layer)
    }

    pub open spec fn focus_on(self, layer: LayerId) -> LayerFocus {
        match raster_named(self.rasters(), layer) {
            Some(found) => LayerFocus {
                layer,
                locked: found.locked,
                alpha_locked: found.alpha_locked,
            },
            None => LayerFocus { layer, locked: true, alpha_locked: false },
        }
    }

    /// The locks of the layer that receives ink. A layer that is not there
    /// counts as locked.
    pub fn layer_focus(&self, layer: LayerId) -> (r: LayerFocus)
        ensures
            r == self.focus_on(layer),
    {
        match self.raster(layer) {
            Some(node) => LayerFocus {
                layer,
                locked: node.locked,
                alpha_locked: node.alpha_locked,
            },
            None => LayerFocus { layer, locked: true, alpha_locked: false },
        }
    }
}

/// The rasters of a tree, topmost first, as the layer rows show them.
pub fn raster_layer_ids(tree: &LayerTree) -> (r: Vec<LayerId>)
    ensures
        r@ == raster_ids(tree.rasters()).reverse(),
{
    let mut bottom_first: Vec<LayerId> = Vec::new();
    collect_rasters(&tree.root.children, &mut bottom_first);
    assert(bottom_first@ =~= raster_ids(tree.rasters()));
    let mut layers: Vec<LayerId> = Vec::new();
    let mut left: usize = bottom_first.len();
    while left > 0
        invariant
            left <= bottom_first@.len(),
            layers@.len() == bottom_first@.len() - left,
            forall|i: int|
                0 <= i < layers@.len() ==> layers@[i] == bottom_first@[bottom_first@.len() - 1 - i],
        decreases left,
    {
        left = left - 1;
        layers.push(bottom_first[left]);
    }
    assert(layers@ =~= bottom_first@.reverse());
    layers
}

/// The preferred layer where the tree has it, else the topmost raster.
pub open spec fn surviving_layer(tree: LayerTree, preferred: LayerId) -> LayerId {
    if tree.has_raster(preferred) {
        preferred
    } else if tree.rasters().len() > 0 {
        tree.rasters().last().id
    } else {
        LayerId(LIVE_LAYER)
    }
}

/// The preferred layer where the tree has it, else the topmost raster, else
/// the first layer of a new document.
pub fn valid_active_layer(tree: &LayerTree, preferred: LayerId) -> (r: LayerId)
    ensures
        r == surviving_layer(*tree, preferred),
        tree.rasters().len() > 0 ==> tree.has_raster(r),
{
    let layers = raster_layer_ids(tree);
    let ghost ids = raster_ids(tree.rasters());
    let mut index: usize = 0;
    while index < layers.len()
        invariant
            index <= layers@.len(),
            layers@ == ids.reverse(),
            ids == raster_ids(tree.rasters()),
            forall|i: int| 0 <= i < index ==> layers@[i] != preferred,
        decreases layers@.len() - index,
    {
        if layers[index] == preferred {
            assert(ids[ids.len() - 1 - index] == preferred);
            return preferred;
        }
        index = index + 1;
    }
    proof {
        if ids.contains(preferred) {
            let place = choose|i: int| 0 <= i < ids.len() && ids[i] == preferred;
            assert(layers@[ids.len() - 1 - place] == preferred);
        }
    }
    if layers.len() > 0 {
        assert(ids[ids.len() - 1] == layers@[0]);
        layers[0]
    } else {
        LayerId(LIVE_LAYER)
    }
}

/// An identifier that no node of the tree has yet. `Err` where the last one is
/// taken.
pub fn next_layer_node_id(tree: &LayerTree) -> (r: Result<u128, ()>)
    ensures
        match r {
            Ok(id) => id == tree.highest_id() + 1,
            Err(_) => tree.highest_id() == u128::MAX,
        },
{
    let below: u128 = highest_id_below(&tree.root.children);
    let highest: u128 = if tree.root.id.0 >= below {
        tree.root.id.0
    } else {
        below
    };
    match highest.checked_add(1) {
        Some(id) => Ok(id),
        None => Err(()),
    }
}

/// The name that a new node is given.
pub open spec fn default_node_name(tree: LayerTree, group_name: bool) -> Seq<char> {
    let count = if group_name { tree.groups().len() } else { tree.rasters().len() };
    let number = if shown_count(count) < usize::MAX {
        shown_count(count) + 1
    } else {
        usize::MAX as int
    };
    (if group_name { "Group "@ } else { "Layer "@ }) + crate::decimal::decimal(number as nat)
}

pub fn next_default_node_name(tree: &LayerTree, group_name: bool) -> (r: String)
    ensures
        r@ == default_node_name(*tree, group_name),
{
    if group_name {
        let count: usize = count_groups(&tree.root.children).saturating_add(1);
        "Group ".to_owned().concat(to_decimal(count as u128).as_str())
    } else {
        let count: usize = count_rasters(&tree.root.children).saturating_add(1);
        "Layer ".to_owned().concat(to_decimal(count as u128).as_str())
    }
}

/// A raster without artwork, with its name.
pub open spec fn is_empty_raster(node: LayerNode, id: LayerId, name: Seq<char>) -> bool {
    &&& node.id == id
    &&& node.name@ == name
    &&& node.visible && !node.locked && !node.reference && !node.alpha_locked
    &&& !node.clip_to_below
    &&& node.blend_mode is Normal
    &&& node.opacity_u16 == u16::MAX
    &&& node.content_root == 0
}

/// A visible group of the given nodes.
pub open spec fn is_plain_group(node: GroupNode, id: GroupId, name: Seq<char>) -> bool {
    &&& node.id == id
    &&& node.name@ == name
    &&& node.visible
    &&& !node.clip_to_below
    &&& node.blend_mode is Normal
    &&& node.opacity_u16 == u16::MAX
}

pub fn empty_raster(id: LayerId, name: String) -> (r: LayerNode)
    ensures
        is_empty_raster(r, id, name@),
{
    LayerNode {
        id,
        name,
        visible: true,
        locked: false,
        reference: false,
        alpha_locked: false,
        clip_to_below: false,
        blend_mode: LayerBlendMode::Normal,
        opacity_u16: u16::MAX,
        content_root: 0,
    }
}

pub fn plain_group(id: GroupId, name: String, children: Vec<LayerTreeNode>) -> (r: GroupNode)
    ensures
        is_plain_group(r, id, name@),
        r.children == children,
{
    GroupNode {
        id,
        name,
        visible: true,
        clip_to_below: false,
        blend_mode: LayerBlendMode::Normal,
        opacity_u16: u16::MAX,
        children,
    }
}

/// The tree of a new document: one transparent raster.
pub fn default_layer_tree() -> (r: LayerTree)
    ensures
        is_plain_group(r.root, GroupId(ROOT_GROUP), "Root"@),
        r.root.children@.len() == 1,
        r.root.children@[0] matches LayerTreeNode::Raster(layer) && is_empty_raster(
            layer,
            LayerId(LIVE_LAYER),
            "Layer 1"@,
        ),
{
    let mut children: Vec<LayerTreeNode> = Vec::new();
    children.push(LayerTreeNode::Raster(empty_raster(LayerId(LIVE_LAYER), "Layer 1".to_owned())));
    LayerTree { root: plain_group(GroupId(ROOT_GROUP), "Root".to_owned(), children) }
}

pub open spec fn is_legacy_tree(tree: LayerTree) -> bool {
    &&& is_plain_group(tree.root, GroupId(ROOT_GROUP), "Root"@)
    &&& tree.root.children@.len() == 2
    &&& tree.root.children@[0] matches LayerTreeNode::Raster(background) && is_empty_raster(
        background,
        LayerId(BACKGROUND_LAYER),
        "Background"@,
    )
    &&& tree.root.children@[1] matches LayerTreeNode::Group(ink) && is_plain_group(
        ink,
        GroupId(INK_GROUP),
        "Ink"@,
    ) && ink.children@.len() == 1 && (
    ink.children@[0] matches LayerTreeNode::Raster(live) && is_empty_raster(
        live,
        LayerId(LIVE_LAYER),
        "Ink 1"@,
    ))
}

/// The topology of projects that carry no layer metadata: a background below
/// an ink group. Their pixels are never read by the tree of a new document,
/// which would hide the background.
pub fn legacy_layer_tree() -> (r: LayerTree)
    ensures
        is_legacy_tree(r),
{
    let mut ink: Vec<LayerTreeNode> = Vec::new();
    ink.push(LayerTreeNode::Raster(empty_raster(LayerId(LIVE_LAYER), "Ink 1".to_owned())));
    let mut children: Vec<LayerTreeNode> = Vec::new();
    children.push(
        LayerTreeNode::Raster(empty_raster(LayerId(BACKGROUND_LAYER), "Background".to_owned())),
    );
    children.push(
        LayerTreeNode::Group(plain_group(GroupId(INK_GROUP), "Ink".to_owned(), ink)),
    );
    LayerTree { root: plain_group(GroupId(ROOT_GROUP), "Root".to_owned(), children) }
}

proof fn lemma_highest_bounds_rasters(children: Seq<LayerTreeNode>)
    ensures
        forall|i: int|
            0 <= i < rasters_below(children).len() ==> (#[trigger] rasters_below(
                children,
            )[i]).id.0 <= highest_below(children),
        forall|i: int|
            0 <= i < groups_below(children).len() ==> (#[trigger] groups_below(
                children,
            )[i]).id.0 <= highest_below(children),
    decreases children,
{
    if children.len() > 0 {
        lemma_highest_bounds_rasters(children.drop_last());
        if let LayerTreeNode::Group(group) = children.last() {
            assert(decreases_to!(children => children[children.len() - 1]));
            lemma_highest_bounds_rasters(group.children@);
        }
    }
}

/// A new identifier is taken by no raster, no group and not by the root.
pub proof fn next_id_is_fresh(tree: LayerTree, id: u128)
    requires
        id == tree.highest_id() + 1,
    ensures
        !tree.has_raster(LayerId(id)),
        forall|i: int| 0 <= i < tree.groups().len() ==> (#[trigger] tree.groups()[i]).id.0 != id,
        tree.root.id.0 != id,
{
    lemma_highest_bounds_rasters(tree.root.children@);
    let ids = raster_ids(tree.rasters());
    if ids.contains(LayerId(id)) {
        let place = choose|i: int| 0 <= i < ids.len() && ids[i] == LayerId(id);
        assert(tree.rasters()[place].id == LayerId(id));
    }
}

} // verus!
