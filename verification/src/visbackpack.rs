//! The backpack panel: one slot for each kind of content in the inventory.

use vstd::prelude::*;
use crate::camera::{BP_SCALE, PIXEL};
use crate::draw::{lemma_ops_of_push, ops_of, DrawCommand, DrawOp, TextureKey};
use crate::inventory::Inventory;
use crate::text::{decimal, decimal_string};
use crate::textures::Drawable;
use crate::tile::Content;

verus! {

/// By how much the picture of a content is smaller than its slot, in hundredths
/// of the scale, and by how much it is set off, in hundredths of a pixel.
pub const DIFF: i64 = 12;

/// What the backpack panel is, to contracts.
pub struct BackpackView {
    /// The number of slots.
    pub size: nat,
    /// The entries of the inventory in their order.
    pub contents: Seq<(Content, usize)>,
}

/// The width of a slot, in hundredths of a pixel.
pub open spec fn slot_step() -> int {
    PIXEL * BP_SCALE
}

/// The frame of the slot that is counted at `x`: it is drawn `pos.0` to the right
/// of `x`, at the height `pos.1`.
pub open spec fn frame_op(x: int, pos: (int, int)) -> DrawOp {
    DrawOp::Sprite {
        texture: TextureKey::BackpackSlot,
        region: None,
        x: x + pos.0,
        y: pos.1,
        scale: BP_SCALE as int,
    }
}

/// What is drawn for the slot counted at `x` that holds `quantity` of `content`:
/// the frame; in it the picture of the content, set off by `pos.0 + DIFF` to the
/// right and downwards; over both the quantity in decimal digits.
pub open spec fn slot_ops(
    content: Content,
    quantity: usize,
    x: int,
    pos: (int, int),
    style: usize,
) -> Seq<DrawOp> {
    seq![
        frame_op(x, pos),
        DrawOp::Sprite {
            texture: TextureKey::Contentset(style),
            region: Some(content.region()),
            x: x + (pos.0 + DIFF) + pos.0,
            y: pos.1 + (pos.0 + DIFF),
            scale: BP_SCALE - DIFF,
        },
        DrawOp::Text {
            content: decimal(quantity as nat),
            x: x + pos.0,
            y: pos.1,
            scale: BP_SCALE * 2,
        },
    ]
}

/// The number of entries among the first `k` whose quantity is not zero.
pub open spec fn filled(contents: Seq<(Content, usize)>, k: nat) -> nat
    decreases k,
{
    if k == 0 {
        0
    } else if contents[k - 1].1 > 0 {
        filled(contents, (k - 1) as nat) + 1
    } else {
        filled(contents, (k - 1) as nat)
    }
}

/// What is drawn for the first `k` entries: a slot for each whose quantity is not
/// zero, counted one beside the other from `pos.0` to the right.
pub open spec fn filled_ops(
    contents: Seq<(Content, usize)>,
    pos: (int, int),
    style: usize,
    k: nat,
) -> Seq<DrawOp>
    decreases k,
{
    if k == 0 {
        Seq::empty()
    } else {
        let before = filled_ops(contents, pos, style, (k - 1) as nat);
        let entry = contents[k - 1];
        if entry.1 > 0 {
            before + slot_ops(
                entry.0,
                entry.1,
                pos.0 + slot_step() * filled(contents, (k - 1) as nat),
                pos,
                style,
            )
        } else {
            before
        }
    }
}

/// `count` empty frames, counted one beside the other from `x` to the right.
pub open spec fn void_ops(x: int, pos: (int, int), count: nat) -> Seq<DrawOp> {
    Seq::new(count, |i: int| frame_op(x + slot_step() * i, pos))
}

/// What is drawn for the panel at `pos`: the slots of the entries whose quantity
/// is not zero, then an empty frame for each of the other entries.
pub open spec fn backpack_ops(
    contents: Seq<(Content, usize)>,
    pos: (int, int),
    style: usize,
) -> Seq<DrawOp> {
    let full = filled(contents, contents.len());
    filled_ops(contents, pos, style, contents.len()) + void_ops(
        pos.0 + slot_step() * full,
        pos,
        (contents.len() - full) as nat,
    )
}

/// The backpack as it is shown.
pub struct VisBackPack {
    size: usize,
    contents: Inventory,
}

impl View for VisBackPack {
    type V = BackpackView;

    closed spec fn view(&self) -> BackpackView {
        BackpackView { size: self.size as nat, contents: self.contents@ }
    }
}

impl VisBackPack {
    /// An empty backpack of `size` slots.
    pub fn new(size: usize) -> (backpack: VisBackPack)
        ensures
            backpack@.size == size,
            backpack@.contents == Seq::<(Content, usize)>::empty(),
    {
        VisBackPack { size, contents: Inventory::new() }
    }

    /// The number of slots.
    pub fn size(&self) -> (size: usize)
        ensures
            size == self@.size,
    {
        self.size
    }

    /// The inventory that is shown.
    pub fn contents(&self) -> (contents: &Inventory)
        ensures
            contents@ == self@.contents,
    {
        &self.contents
    }

    /// The commands that draw the panel for `pos`, in the pictures of `style`.
    /// The slots are counted from `pos.0` to the right and each is drawn `pos.0`
    /// to the right of its count, at the height `pos.1`; with `pos` at zero the
    /// panel lies in the window's top left corner.
    pub fn draw(&self, pos: (i32, i32), style: usize) -> (commands: Vec<DrawCommand>)
        ensures
            ops_of(commands@) == backpack_ops(self@.contents, (pos.0 as int, pos.1 as int), style),
    {
        let ghost contents = self@.contents;
        let ghost at = (pos.0 as int, pos.1 as int);
        let count = self.contents.len();
        let pos: (i64, i64) = (pos.0 as i64, pos.1 as i64);
        let content_scale = BP_SCALE - DIFF;
        let to_center_pos = pos.0 + DIFF;
        let mut commands: Vec<DrawCommand> = Vec::new();
        let mut x = pos.0;
        let mut voids: usize = 0;
        let mut k: usize = 0;
        assert(slot_step() == 3200);
        assert(ops_of(commands@) =~= filled_ops(contents, at, style, 0));
        while k < count
            invariant
                k <= count,
                count == contents.len(),
                count <= 16,
                contents == self@.contents,
                at == (pos.0 as int, pos.1 as int),
                i32::MIN <= pos.0 <= i32::MAX,
                i32::MIN <= pos.1 <= i32::MAX,
                content_scale == BP_SCALE - DIFF,
                to_center_pos == pos.0 + DIFF,
                slot_step() == 3200,
                filled(contents, k as nat) + voids == k,
                x == pos.0 + 3200 * filled(contents, k as nat),
                ops_of(commands@) == filled_ops(contents, at, style, k as nat),
            decreases count - k,
        {
            let entry = self.contents.entry(k);
            let ghost earlier = ops_of(commands@);
            match entry {
                Some((cont, quantity)) => {
                    if quantity > 0 {
                        let frame = DrawCommand::Sprite {
                            texture: TextureKey::BackpackSlot,
                            region: None,
                            x: x + pos.0,
                            y: pos.1,
                            scale: BP_SCALE,
                        };
                        proof {
                            lemma_ops_of_push(commands@, frame);
                        }
                        commands.push(frame);
                        let picture = DrawCommand::Sprite {
                            texture: TextureKey::Contentset(style),
                            region: Some(cont.draw()),
                            x: x + to_center_pos + pos.0,
                            y: pos.1 + to_center_pos,
                            scale: content_scale,
                        };
                        proof {
                            lemma_ops_of_push(commands@, picture);
                        }
                        commands.push(picture);
                        let number = DrawCommand::Text {
                            content: decimal_string(quantity),
                            x: x + pos.0,
                            y: pos.1,
                            scale: BP_SCALE * 2,
                        };
                        proof {
                            lemma_ops_of_push(commands@, number);
                        }
                        commands.push(number);
                        assert(ops_of(commands@) =~= earlier + slot_ops(
                            cont,
                            quantity,
                            x as int,
                            at,
                            style,
                        ));
                        x = x + PIXEL * BP_SCALE;
                    } else {
                        voids = voids + 1;
                    }
                },
                None => {},
            }
            k = k + 1;
        }
        let ghost from = x as int;
        let ghost slots = ops_of(commands@);
        let mut v: usize = 0;
        assert(ops_of(commands@) =~= slots + void_ops(from, at, 0));
        while v < voids
            invariant
                v <= voids,
                voids <= 16,
                at == (pos.0 as int, pos.1 as int),
                i32::MIN <= pos.0 <= i32::MAX,
                i32::MIN <= pos.1 <= i32::MAX,
                slot_step() == 3200,
                i32::MIN <= from <= i32::MAX + 16 * 3200,
                x == from + 3200 * v,
                ops_of(commands@) == slots + void_ops(from, at, v as nat),
            decreases voids - v,
        {
            let frame = DrawCommand::Sprite {
                texture: TextureKey::BackpackSlot,
                region: None,
                x: x + pos.0,
                y: pos.1,
                scale: BP_SCALE,
            };
            proof {
                lemma_ops_of_push(commands@, frame);
                assert(slots + void_ops(from, at, v as nat + 1) =~= (slots + void_ops(
                    from,
                    at,
                    v as nat,
                )).push(frame@));
            }
            commands.push(frame);
            x = x + PIXEL * BP_SCALE;
            v = v + 1;
        }
        commands
    }

    /// Replaces the inventory that is shown, and the number of slots by the number
    /// of its entries.
    pub fn update(&mut self, new_backpack: Inventory)
        ensures
            final(self)@.contents == new_backpack@,
            final(self)@.size == new_backpack@.len(),
    {
        self.size = new_backpack.len();
        self.contents = new_backpack;
    }
}

} // verus!
