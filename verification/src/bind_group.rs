use vstd::prelude::*;
use vstd::string::StringExecFns;
use crate::bind_group_layout::{bgl_eq, copy_bgl, BindGroupLayoutDesc};
use crate::texture::{SamplerDesc, TextureViewDesc};
use crate::util::copy_vec;

verus! {

/// A concrete resource bound into one slot of a bind group.
#[derive(Clone, Copy, Debug, PartialEq, Eq, Structural)]
pub enum BindingResource {
    TextureView(TextureViewDesc),
    Sampler(SamplerDesc),
}

/// One concrete binding: its index and the resource it binds.
#[derive(Clone, Copy, Debug, PartialEq, Eq, Structural)]
pub struct BindGroupEntry {
    pub binding: u32,
    pub resource: BindingResource,
}

/// A finished bind group: a label, the layout it conforms to, and its
/// ordered concrete bindings.
#[derive(Debug)]
pub struct BindGroupDesc {
    pub label: String,
    pub layout: BindGroupLayoutDesc,
    pub entries: Vec<BindGroupEntry>,
}

/// Binds concrete resources into a layout-conformant bind group, assigning
/// binding indices sequentially in the order they are added; single-use,
/// emptied by `build`.
#[derive(Debug)]
pub struct Builder {
    pub entries: Vec<BindGroupEntry>,
    pub layout: Option<BindGroupLayoutDesc>,
}

impl Builder {
    /// A builder with no resources bound and no layout set.
    pub fn new() -> (b: Builder)
        ensures
            b.entries@.len() == 0,
            b.layout is None,
    {
        Builder { entries: Vec::new(), layout: None }
    }

    /// Sets the layout the bind group will conform to. Must be called
    /// before `build`.
    pub fn set_layout(&mut self, layout: BindGroupLayoutDesc)
        ensures
            final(self).layout == Some(layout),
            final(self).entries@ == old(self).entries@,
    {
        self.layout = Some(layout);
    }

    /// Binds one material: its texture view, then its sampler, each at the
    /// next sequential binding index.
    pub fn add_material(&mut self, view: TextureViewDesc, sampler: SamplerDesc)
        requires
            old(self).entries@.len() + 2 <= u32::MAX,
        ensures
            final(self).entries@ == old(self).entries@ + seq![
                BindGroupEntry {
                    binding: old(self).entries@.len() as u32,
                    resource: BindingResource::TextureView(view),
                },
                BindGroupEntry {
                    binding: (old(self).entries@.len() + 1) as u32,
                    resource: BindingResource::Sampler(sampler),
                },
            ],
            final(self).layout == old(self).layout,
    {
        let b0 = self.entries.len() as u32;
        self.entries.push(
            BindGroupEntry { binding: b0, resource: BindingResource::TextureView(view) },
        );
        let b1 = self.entries.len() as u32;
        self.entries.push(
            BindGroupEntry { binding: b1, resource: BindingResource::Sampler(sampler) },
        );
        proof {
            assert(self.entries@ =~= old(self).entries@ + seq![
                BindGroupEntry {
                    binding: old(self).entries@.len() as u32,
                    resource: BindingResource::TextureView(view),
                },
                BindGroupEntry {
                    binding: (old(self).entries@.len() + 1) as u32,
                    resource: BindingResource::Sampler(sampler),
                },
            ]);
        }
    }

    /// Materializes the bound resources into a bind group under a label and
    /// empties the accumulator. A layout must have been set beforehand; the
    /// builder keeps it, as only its bound resources are single-use.
    pub fn build(&mut self, label: &str) -> (r: BindGroupDesc)
        requires
            old(self).layout is Some,
        ensures
            r.label@ == label@,
            bgl_eq(r.layout, old(self).layout->Some_0),
            r.entries@ == old(self).entries@,
            final(self).entries@.len() == 0,
            final(self).layout == old(self).layout,
    {
        let entries = copy_vec(&self.entries);
        self.entries.clear();
        let layout = copy_bgl(self.layout.as_ref().unwrap());
        BindGroupDesc { label: String::from_str(label), layout, entries }
    }
}

} // verus!
