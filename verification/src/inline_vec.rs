//! The short lists of a descriptor, kept inline by `smallvec`.
use smallvec::SmallVec;
use vstd::prelude::*;

use crate::gpu_types::ColorTargetState;
use crate::handles::{BindGroupEntry, ColorAttachment};

verus! {

/// Whether a list of `len` items can be allocated on this machine.
///
/// What is allocated at once takes up at most half of what `usize` counts. A
/// list takes room for less than twice as many items as it holds, and no item
/// here takes up more than 64 bytes.
pub open spec fn can_be_allocated(len: nat) -> bool {
    256 * len <= usize::MAX
}

/// The entries of a bind group.
///
/// They are kept inline up to 4 of them.
#[verifier::external_body]
pub struct BindGroupEntries {
    items: SmallVec<[BindGroupEntry; 4]>,
}

/// What a [`BindGroupEntries`] holds, in order.
pub uninterp spec fn bind_group_entries(list: BindGroupEntries) -> Seq<BindGroupEntry>;

impl View for BindGroupEntries {
    type V = Seq<BindGroupEntry>;

    open spec fn view(&self) -> Seq<BindGroupEntry> {
        bind_group_entries(*self)
    }
}

/// `SmallVec::new`: a list that holds nothing.
#[verifier::external_body]
fn entries_new() -> (r: BindGroupEntries)
    ensures
        bind_group_entries(r) == Seq::<BindGroupEntry>::empty(),
{
    BindGroupEntries { items: SmallVec::new() }
}

/// `SmallVec::push`: puts one more at the end. It panics where the list cannot
/// be grown.
#[verifier::external_body]
fn entries_push(list: &mut BindGroupEntries, item: BindGroupEntry)
    requires
        can_be_allocated(bind_group_entries(*old(list)).len() + 1),
    ensures
        bind_group_entries(*final(list)) == bind_group_entries(*old(list)).push(item),
{
    list.items.push(item)
}

/// `SmallVec::as_slice`: all that the list holds, in order.
#[verifier::external_body]
fn entries_as_slice(list: &BindGroupEntries) -> (r: &[BindGroupEntry])
    ensures
        r@ == bind_group_entries(*list),
{
    list.items.as_slice()
}

impl BindGroupEntries {
    /// A list that holds nothing.
    pub fn new() -> (r: Self)
        ensures
            r@ == Seq::<BindGroupEntry>::empty(),
    {
        entries_new()
    }

    /// Puts one more at the end.
    pub fn push(&mut self, item: BindGroupEntry)
        requires
            can_be_allocated(old(self)@.len() + 1),
        ensures
            final(self)@ == old(self)@.push(item),
    {
        entries_push(self, item)
    }

    /// All that the list holds, in order.
    pub fn as_slice(&self) -> (r: &[BindGroupEntry])
        ensures
            r@ == self@,
    {
        entries_as_slice(self)
    }
}

/// The color targets of a render pipeline.
///
/// They are kept inline up to 4 of them.
#[verifier::external_body]
pub struct ColorTargets {
    items: SmallVec<[Option<ColorTargetState>; 4]>,
}

/// What a [`ColorTargets`] holds, in order.
pub uninterp spec fn color_targets(list: ColorTargets) -> Seq<Option<ColorTargetState>>;

impl View for ColorTargets {
    type V = Seq<Option<ColorTargetState>>;

    open spec fn view(&self) -> Seq<Option<ColorTargetState>> {
        color_targets(*self)
    }
}

/// `SmallVec::new`: a list that holds nothing.
#[verifier::external_body]
fn targets_new() -> (r: ColorTargets)
    ensures
        color_targets(r) == Seq::<Option<ColorTargetState>>::empty(),
{
    ColorTargets { items: SmallVec::new() }
}

/// `SmallVec::push`: puts one more at the end. It panics where the list cannot
/// be grown.
#[verifier::external_body]
fn targets_push(list: &mut ColorTargets, item: Option<ColorTargetState>)
    requires
        can_be_allocated(color_targets(*old(list)).len() + 1),
    ensures
        color_targets(*final(list)) == color_targets(*old(list)).push(item),
{
    list.items.push(item)
}

/// `SmallVec::as_slice`: all that the list holds, in order.
#[verifier::external_body]
fn targets_as_slice(list: &ColorTargets) -> (r: &[Option<ColorTargetState>])
    ensures
        r@ == color_targets(*list),
{
    list.items.as_slice()
}

/// `SmallVec::clone`: a list that holds the same.
///
/// The clone of a value that can be copied is the value. It panics where a list
/// of that length cannot be allocated.
#[verifier::external_body]
fn targets_clone(list: &ColorTargets) -> (r: ColorTargets)
    requires
        can_be_allocated(color_targets(*list).len()),
    ensures
        color_targets(r) == color_targets(*list),
{
    ColorTargets { items: list.items.clone() }
}

impl ColorTargets {
    /// A list that holds nothing.
    pub fn new() -> (r: Self)
        ensures
            r@ == Seq::<Option<ColorTargetState>>::empty(),
    {
        targets_new()
    }

    /// Puts one more at the end.
    pub fn push(&mut self, item: Option<ColorTargetState>)
        requires
            can_be_allocated(old(self)@.len() + 1),
        ensures
            final(self)@ == old(self)@.push(item),
    {
        targets_push(self, item)
    }

    /// All that the list holds, in order.
    pub fn as_slice(&self) -> (r: &[Option<ColorTargetState>])
        ensures
            r@ == self@,
    {
        targets_as_slice(self)
    }

    /// A list that holds the same.
    pub fn duplicate(&self) -> (r: Self)
        requires
            can_be_allocated(self@.len()),
        ensures
            r@ == self@,
    {
        targets_clone(self)
    }
}

/// The color attachments of a render pass.
///
/// They are kept inline up to 2 of them.
#[verifier::external_body]
pub struct ColorAttachments {
    items: SmallVec<[Option<ColorAttachment>; 2]>,
}

/// What a [`ColorAttachments`] holds, in order.
pub uninterp spec fn color_attachments(list: ColorAttachments) -> Seq<Option<ColorAttachment>>;

impl View for ColorAttachments {
    type V = Seq<Option<ColorAttachment>>;

    open spec fn view(&self) -> Seq<Option<ColorAttachment>> {
        color_attachments(*self)
    }
}

/// `SmallVec::new`: a list that holds nothing.
#[verifier::external_body]
fn attachments_new() -> (r: ColorAttachments)
    ensures
        color_attachments(r) == Seq::<Option<ColorAttachment>>::empty(),
{
    ColorAttachments { items: SmallVec::new() }
}

/// `SmallVec::push`: puts one more at the end. It panics where the list cannot
/// be grown.
#[verifier::external_body]
fn attachments_push(list: &mut ColorAttachments, item: Option<ColorAttachment>)
    requires
        can_be_allocated(color_attachments(*old(list)).len() + 1),
    ensures
        color_attachments(*final(list)) == color_attachments(*old(list)).push(item),
{
    list.items.push(item)
}

/// `SmallVec::as_slice`: all that the list holds, in order.
#[verifier::external_body]
fn attachments_as_slice(list: &ColorAttachments) -> (r: &[Option<ColorAttachment>])
    ensures
        r@ == color_attachments(*list),
{
    list.items.as_slice()
}

impl ColorAttachments {
    /// A list that holds nothing.
    pub fn new() -> (r: Self)
        ensures
            r@ == Seq::<Option<ColorAttachment>>::empty(),
    {
        attachments_new()
    }

    /// Puts one more at the end.
    pub fn push(&mut self, item: Option<ColorAttachment>)
        requires
            can_be_allocated(old(self)@.len() + 1),
        ensures
            final(self)@ == old(self)@.push(item),
    {
        attachments_push(self, item)
    }

    /// All that the list holds, in order.
    pub fn as_slice(&self) -> (r: &[Option<ColorAttachment>])
        ensures
            r@ == self@,
    {
        attachments_as_slice(self)
    }
}

} // verus!
