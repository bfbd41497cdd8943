use vstd::prelude::*;
use vstd::string::StringExecFns;
use crate::util::copy_vec;

verus! {

/// Which shader stages may read a binding slot.
#[derive(Clone, Copy, Debug, PartialEq, Eq, Structural)]
pub enum ShaderVisibility {
    Vertex,
    Fragment,
    VertexAndFragment,
}

/// View dimensionality a texture binding expects.
#[derive(Clone, Copy, Debug, PartialEq, Eq, Structural)]
pub enum TextureViewDimension {
    D1,
    D2,
    D3,
    Cube,
}

/// The declared resource type of one binding slot.
#[derive(Clone, Copy, Debug, PartialEq, Eq, Structural)]
pub enum BindingKind {
    Texture { filterable: bool, view_dimension: TextureViewDimension, multisampled: bool },
    Sampler { filtering: bool },
}

/// One declared binding slot: index, visibility and resource type.
#[derive(Clone, Copy, Debug, PartialEq, Eq, Structural)]
pub struct LayoutEntry {
    pub binding: u32,
    pub visibility: ShaderVisibility,
    pub ty: BindingKind,
}

/// A finished bind-group layout: its label and its ordered slots.
#[derive(Debug)]
pub struct BindGroupLayoutDesc {
    pub label: String,
    pub entries: Vec<LayoutEntry>,
}

/// Two layout descriptions declare the same slots.
pub open spec fn bgl_eq(a: BindGroupLayoutDesc, b: BindGroupLayoutDesc) -> bool {
    &&& a.label@ == b.label@
    &&& a.entries@ == b.entries@
}

/// The fragment-visible, filterable 2-D texture slot at a binding index.
pub open spec fn texture_slot(binding: u32) -> LayoutEntry {
    LayoutEntry {
        binding,
        visibility: ShaderVisibility::Fragment,
        ty: BindingKind::Texture {
            filterable: true,
            view_dimension: TextureViewDimension::D2,
            multisampled: false,
        },
    }
}

/// The fragment-visible filtering sampler slot at a binding index.
pub open spec fn sampler_slot(binding: u32) -> LayoutEntry {
    LayoutEntry {
        binding,
        visibility: ShaderVisibility::Fragment,
        ty: BindingKind::Sampler { filtering: true },
    }
}

/// The slots a layout holds after `n` material additions: `n` pairs of a
/// texture slot then a sampler slot, binding indices assigned sequentially
/// from zero in declaration order.
pub open spec fn material_slots(n: nat) -> Seq<LayoutEntry>
    decreases n,
{
    if n == 0 {
        Seq::empty()
    } else {
        material_slots((n - 1) as nat) + seq![
            texture_slot((2 * (n - 1)) as u32),
            sampler_slot((2 * n - 1) as u32),
        ]
    }
}

/// A layout of `n` material slot-pairs has exactly `2 n` entries, with
/// binding indices `0 .. 2 n - 1` in declaration order, alternating a
/// fragment-visible texture slot and a fragment-visible sampler slot.
pub proof fn lemma_material_slot_pairs(n: nat)
    requires
        2 * n <= u32::MAX,
    ensures
        material_slots(n).len() == 2 * n,
        forall|i: int| 0 <= i < 2 * n ==> #[trigger] material_slots(n)[i].binding == i,
        forall|i: int|
            0 <= i < 2 * n && i % 2 == 0 ==> material_slots(n)[i] == texture_slot(i as u32),
        forall|i: int|
            0 <= i < 2 * n && i % 2 == 1 ==> material_slots(n)[i] == sampler_slot(i as u32),
    decreases n,
{
    if n > 0 {
        lemma_material_slot_pairs((n - 1) as nat);
    }
}

/// Accumulates the binding slots a pipeline expects, in declaration order;
/// single-use, emptied by `build`.
#[derive(Debug)]
pub struct Builder {
    pub entries: Vec<LayoutEntry>,
}

impl Builder {
    /// A builder with no slots declared yet.
    pub fn new() -> (b: Builder)
        ensures
            b.entries@ == material_slots(0),
    {
        proof {
            assert(Seq::<LayoutEntry>::empty() =~= material_slots(0));
        }
        Builder { entries: Vec::new() }
    }

    /// Appends one material slot-pair: a fragment-visible texture slot, then
    /// a fragment-visible filterable-sampler slot, each assigned the next
    /// sequential binding index.
    pub fn add_material(&mut self)
        requires
            old(self).entries@.len() + 2 <= u32::MAX,
        ensures
            final(self).entries@ == old(self).entries@ + seq![
                texture_slot(old(self).entries@.len() as u32),
                sampler_slot((old(self).entries@.len() + 1) as u32),
            ],
            forall|n: nat|
                old(self).entries@ == #[trigger] material_slots(n) ==> final(self).entries@
                    == material_slots(n + 1),
    {
        let b0 = self.entries.len() as u32;
        self.entries.push(
            LayoutEntry {
                binding: b0,
                visibility: ShaderVisibility::Fragment,
                ty: BindingKind::Texture {
                    filterable: true,
                    view_dimension: TextureViewDimension::D2,
                    multisampled: false,
                },
            },
        );
        let b1 = self.entries.len() as u32;
        self.entries.push(
            LayoutEntry {
                binding: b1,
                visibility: ShaderVisibility::Fragment,
                ty: BindingKind::Sampler { filtering: true },
            },
        );
        proof {
            assert(self.entries@ =~= old(self).entries@ + seq![
                texture_slot(old(self).entries@.len() as u32),
                sampler_slot((old(self).entries@.len() + 1) as u32),
            ]);
            assert forall|n: nat| old(self).entries@ == #[trigger] material_slots(n) implies self
                .entries@ == material_slots(n + 1) by {
                if old(self).entries@ == material_slots(n) {
                    lemma_material_slots_len(n);
                    assert(self.entries@ =~= material_slots(n + 1));
                }
            }
        }
    }

    /// Materializes the accumulated slots under a label and empties the
    /// accumulator: the builder is single-use per layout.
    pub fn build(&mut self, label: &str) -> (r: BindGroupLayoutDesc)
        ensures
            r.label@ == label@,
            r.entries@ == old(self).entries@,
            final(self).entries@.len() == 0,
    {
        let entries = copy_vec(&self.entries);
        self.entries.clear();
        BindGroupLayoutDesc { label: String::from_str(label), entries }
    }
}

/// A layout of `n` material slot-pairs holds `2 n` entries.
pub proof fn lemma_material_slots_len(n: nat)
    ensures
        material_slots(n).len() == 2 * n,
    decreases n,
{
    if n > 0 {
        lemma_material_slots_len((n - 1) as nat);
    }
}

/// Copies a bind-group layout description.
pub fn copy_bgl(l: &BindGroupLayoutDesc) -> (r: BindGroupLayoutDesc)
    ensures
        bgl_eq(r, *l),
{
    BindGroupLayoutDesc { label: l.label.clone(), entries: copy_vec(&l.entries) }
}

} // verus!
