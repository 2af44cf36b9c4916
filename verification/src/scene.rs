//! The scene serializer: turns the shape tree of a finished run into the
//! flat, ordered list of drawable records of a layered vector document.
//!
//! The order is fixed: first a background rectangle over the whole
//! container filled with palette index 0, then the root shape itself,
//! then every placed circle, walked with a last-in-first-out work list
//! seeded with the root's children in stored order.  At each level the
//! last-listed child's whole subtree is drawn before any earlier-listed
//! sibling's subtree, so later siblings stack on top.

use vstd::prelude::*;
use crate::geometry::{Circle, Rect};

verus! {

/// One placed circle and the circles placed under it, in stored order.
pub struct ShapeNode {
    /// The accepted circle.
    pub circle: Circle,
    /// Palette index of its fill color.
    pub color: usize,
    /// Circles inserted under this one, in insertion order.
    pub children: Vec<ShapeNode>,
}

/// The shape tree of a finished run: the container as root, with the
/// placed circles under it.
pub struct ShapeTree {
    /// The container rectangle; also the root shape's own geometry.
    pub container: Rect,
    /// Palette index of the root shape's fill color.
    pub color: usize,
    /// Top-level circles, in insertion order.
    pub children: Vec<ShapeNode>,
}

/// The geometry of one drawable record.
#[derive(Clone, Copy, PartialEq, Eq, Structural, Debug)]
pub enum DrawShape {
    /// An axis-aligned filled rectangle.
    Rectangle(Rect),
    /// A filled circle.
    Disk(Circle),
}

/// A drawable layer before color resolution: geometry plus palette index.
#[derive(Clone, Copy, PartialEq, Eq, Structural, Debug)]
pub struct Layer {
    /// What to draw.
    pub shape: DrawShape,
    /// Palette index of the fill.
    pub color: usize,
}

/// One drawable record: geometry plus resolved fill color, no stroke.
pub struct DrawRecord {
    /// What to draw.
    pub shape: DrawShape,
    /// The fill color, resolved from the palette.
    pub fill: String,
}

/// The layers a node contributes: its own circle first, then the layers
/// of its children, last-listed child's subtree first.
pub open spec fn node_layers(n: ShapeNode) -> Seq<Layer>
    decreases n,
{
    seq![Layer { shape: DrawShape::Disk(n.circle), color: n.color }]
        + children_layers(n.children@)
}

/// The layers of a child list, walked from the last child to the first,
/// each child contributing its whole subtree before the one before it.
pub open spec fn children_layers(s: Seq<ShapeNode>) -> Seq<Layer>
    decreases s,
{
    if s.len() == 0 {
        Seq::empty()
    } else {
        node_layers(s[s.len() - 1]) + children_layers(s.subrange(0, s.len() - 1))
    }
}

/// The full draw order of a tree: background, root shape, then the
/// circles in work-list order.
pub open spec fn tree_layers(t: ShapeTree) -> Seq<Layer> {
    seq![
        Layer { shape: DrawShape::Rectangle(t.container), color: 0 },
        Layer { shape: DrawShape::Rectangle(t.container), color: t.color },
    ] + children_layers(t.children@)
}

/// Every color index under the node fits a palette of `palette_len` entries.
pub open spec fn node_wf(n: ShapeNode, palette_len: int) -> bool
    decreases n,
{
    &&& n.color < palette_len
    &&& forall|i: int|
        0 <= i < n.children@.len() ==> node_wf(#[trigger] n.children@[i], palette_len)
}

impl ShapeTree {
    /// Every color index in the tree fits a palette of `palette_len` entries.
    pub open spec fn wf(self, palette_len: int) -> bool {
        &&& self.color < palette_len
        &&& forall|i: int|
            0 <= i < self.children@.len() ==> node_wf(#[trigger] self.children@[i], palette_len)
    }

    /// Starts the tree of a run: the container as root and no circles
    /// yet.  The root is filled with the palette color at the simple
    /// modular index `1 % palette_len` — distinct from the background
    /// color at index 0 for every palette of two or more colors; a
    /// one-color palette is degenerate but valid, and root and
    /// background then share their color.
    pub fn new(container: Rect, palette_len: usize) -> (tree: ShapeTree)
        requires
            palette_len > 0,
        ensures
            tree.container == container,
            tree.color == 1int % (palette_len as int),
            tree.children@.len() == 0,
            tree.wf(palette_len as int),
    {
        ShapeTree { container, color: 1 % palette_len, children: Vec::new() }
    }
}

/// In a well-formed node every contributed layer's color index is in range.
proof fn lemma_node_layers_wf(n: ShapeNode, palette_len: int)
    requires
        node_wf(n, palette_len),
    ensures
        forall|i: int|
            0 <= i < node_layers(n).len() ==> (#[trigger] node_layers(n)[i]).color < palette_len,
    decreases n,
{
    lemma_children_layers_wf(n.children@, palette_len);
    assert forall|i: int|
        0 <= i < node_layers(n).len() implies (#[trigger] node_layers(n)[i]).color < palette_len by {
        if i > 0 {
            assert(node_layers(n)[i] == children_layers(n.children@)[i - 1]);
        }
    }
}

/// In a well-formed child list every contributed layer's color index is
/// in range.
proof fn lemma_children_layers_wf(s: Seq<ShapeNode>, palette_len: int)
    requires
        forall|i: int| 0 <= i < s.len() ==> node_wf(#[trigger] s[i], palette_len),
    ensures
        forall|i: int|
            0 <= i < children_layers(s).len()
                ==> (#[trigger] children_layers(s)[i]).color < palette_len,
    decreases s,
{
    if s.len() > 0 {
        let last = s[s.len() - 1];
        let rest = s.subrange(0, s.len() - 1);
        lemma_node_layers_wf(last, palette_len);
        lemma_children_layers_wf(rest, palette_len);
        assert forall|i: int|
            0 <= i < children_layers(s).len()
                implies (#[trigger] children_layers(s)[i]).color < palette_len by {
            if i < node_layers(last).len() {
                assert(children_layers(s)[i] == node_layers(last)[i]);
            } else {
                assert(children_layers(s)[i]
                    == children_layers(rest)[i - node_layers(last).len()]);
            }
        }
    }
}

/// Appends the layers of `n`'s subtree to `out`, in work-list order.
fn push_node_layers(n: &ShapeNode, out: &mut Vec<Layer>)
    ensures
        final(out)@ == old(out)@ + node_layers(*n),
    decreases *n,
{
    out.push(Layer { shape: DrawShape::Disk(n.circle), color: n.color });
    let ghost base = out@;
    let mut i = n.children.len();
    proof {
        assert(n.children@.subrange(0, n.children@.len() as int) =~= n.children@);
    }
    while i > 0
        invariant
            i <= n.children@.len(),
            out@ + children_layers(n.children@.subrange(0, i as int))
                == base + children_layers(n.children@),
        decreases i,
    {
        proof {
            let s = n.children@.subrange(0, i as int);
            assert(s[s.len() - 1] == n.children@[i - 1]);
            assert(s.subrange(0, s.len() - 1) =~= n.children@.subrange(0, i - 1));
        }
        push_node_layers(&n.children[i - 1], out);
        i = i - 1;
    }
    proof {
        assert(n.children@.subrange(0, 0) =~= Seq::<ShapeNode>::empty());
        assert(out@ + Seq::<Layer>::empty() =~= out@);
        assert(old(out)@ + node_layers(*n) =~= old(out)@
            + (seq![Layer { shape: DrawShape::Disk(n.circle), color: n.color }]
                + children_layers(n.children@)));
        assert(base =~= old(out)@
            + seq![Layer { shape: DrawShape::Disk(n.circle), color: n.color }]);
        assert(old(out)@ + node_layers(*n) =~= base + children_layers(n.children@));
    }
}

/// Computes the draw order of the tree: the exact sequence of layers,
/// background and root first.
fn collect_layers(tree: &ShapeTree) -> (layers: Vec<Layer>)
    ensures
        layers@ == tree_layers(*tree),
{
    let mut layers: Vec<Layer> = Vec::new();
    layers.push(Layer { shape: DrawShape::Rectangle(tree.container), color: 0 });
    layers.push(Layer { shape: DrawShape::Rectangle(tree.container), color: tree.color });
    let ghost base = layers@;
    let mut i = tree.children.len();
    proof {
        assert(tree.children@.subrange(0, tree.children@.len() as int) =~= tree.children@);
    }
    while i > 0
        invariant
            i <= tree.children@.len(),
            layers@ + children_layers(tree.children@.subrange(0, i as int))
                == base + children_layers(tree.children@),
        decreases i,
    {
        proof {
            let s = tree.children@.subrange(0, i as int);
            assert(s[s.len() - 1] == tree.children@[i - 1]);
            assert(s.subrange(0, s.len() - 1) =~= tree.children@.subrange(0, i - 1));
        }
        push_node_layers(&tree.children[i - 1], &mut layers);
        i = i - 1;
    }
    proof {
        assert(tree.children@.subrange(0, 0) =~= Seq::<ShapeNode>::empty());
        assert(layers@ + Seq::<Layer>::empty() =~= layers@);
        assert(base + children_layers(tree.children@) =~= tree_layers(*tree));
    }
    layers
}

/// Serializes the tree: one drawable record per layer, in draw order,
/// each filled with the palette color its layer names.
///
/// The first record is always the background — the full container
/// extent filled with `palette[0]` — and the second is always the root
/// shape itself.
pub fn serialize(tree: &ShapeTree, palette: &Vec<String>) -> (records: Vec<DrawRecord>)
    requires
        tree.wf(palette@.len() as int),
        palette@.len() > 0,
    ensures
        records@.len() == tree_layers(*tree).len(),
        forall|i: int|
            0 <= i < records@.len() ==> {
                &&& (#[trigger] records@[i]).shape == tree_layers(*tree)[i].shape
                &&& records@[i].fill == palette@[tree_layers(*tree)[i].color as int]
            },
        records@.len() >= 2,
        records@[0].shape == DrawShape::Rectangle(tree.container),
        records@[0].fill == palette@[0],
        records@[1].shape == DrawShape::Rectangle(tree.container),
        records@[1].fill == palette@[tree.color as int],
{
    proof {
        lemma_children_layers_wf(tree.children@, palette@.len() as int);
    }
    let layers = collect_layers(tree);
    let mut records: Vec<DrawRecord> = Vec::new();
    let mut j: usize = 0;
    while j < layers.len()
        invariant
            j <= layers@.len(),
            layers@ == tree_layers(*tree),
            palette@.len() > 0,
            forall|i: int|
                0 <= i < layers@.len() ==> (#[trigger] layers@[i]).color < palette@.len(),
            records@.len() == j,
            forall|i: int|
                0 <= i < j ==> {
                    &&& (#[trigger] records@[i]).shape == layers@[i].shape
                    &&& records@[i].fill == palette@[layers@[i].color as int]
                },
        decreases layers@.len() - j,
    {
        let layer = layers[j];
        records.push(DrawRecord { shape: layer.shape, fill: palette[layer.color].clone() });
        j = j + 1;
    }
    records
}

} // verus!
