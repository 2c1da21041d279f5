//! The decisions the modal components make, separated from the reactive
//! runtime that triggers them.
//!
//! A host user-interface runtime re-invokes render closures when signals
//! change; these functions are the state transitions those closures perform
//! on the shared modal stack, and the projection the modal root renders.

use vstd::prelude::*;

use crate::data::{ModalChildren, ModalData};
use crate::ids::fresh_modal_id;
use crate::model::{has_key, lemma_insert_has_key, stack_insert, stack_remove, top_of};
use crate::stack::ModalStack;

verus! {

/// What the modal root displays: the backdrop, and at most one entry.
#[derive(Clone, Copy, PartialEq, Debug)]
pub struct RenderPlan {
    /// Whether the backdrop is shown.
    pub backdrop: bool,
    /// The single entry that is presented, if any.
    pub top: Option<ModalData>,
}

/// The modal root's projection of the stack: the backdrop is shown exactly
/// when the stack is non-empty, and the presented entry is the most recently
/// inserted surviving one. At most one entry is ever presented.
pub fn render_plan(stack: &ModalStack) -> (p: RenderPlan)
    ensures
        p.backdrop == (stack.entries().len() != 0),
        p.top == top_of(stack.entries()),
        p.top is Some ==> p.backdrop,
{
    let backdrop = stack.backdrop_visible();
    let top = stack.topmost();
    RenderPlan { backdrop, top }
}

/// A modal instance as created at mount time: its content is captured once,
/// and it is given a freshly drawn identifier.
pub fn modal_instance(children: u64) -> (m: ModalData)
    ensures
        m.children == ModalChildren::Once(children),
{
    ModalData { id: fresh_modal_id(), children: ModalChildren::Once(children) }
}

/// The step a modal takes when its visibility signal flips: it registers its
/// entry when the signal is true and unregisters it when the signal is
/// false, so afterwards its identifier is registered exactly when it is
/// shown.
pub fn modal_effect(stack: &mut ModalStack, m: ModalData, show: bool)
    requires
        old(stack).wf(),
    ensures
        final(stack).wf(),
        show ==> final(stack).entries() == stack_insert(old(stack).entries(), m.id, m),
        !show ==> final(stack).entries() == stack_remove(old(stack).entries(), m.id),
        has_key(final(stack).entries(), m.id) == show,
{
    if show {
        stack.register(m);
    } else {
        stack.unregister(m.id);
    }
}

/// The step a dynamically re-rendered modal takes when its visibility signal
/// changes: the previous nested scope, if any, is torn down, which removes
/// its entry; when the signal is true a fresh identifier is drawn and
/// registered with content rebuilt in the new scope. The identifier of the
/// registered entry is returned, so the next step can tear it down.
pub fn modal_fn_remount(
    stack: &mut ModalStack,
    prev: Option<u128>,
    scope: u64,
    show: bool,
) -> (id: Option<u128>)
    requires
        old(stack).wf(),
    ensures
        final(stack).wf(),
        (id is Some) == show,
        ({
            let cleared = match prev {
                Some(p) => stack_remove(old(stack).entries(), p),
                None => old(stack).entries(),
            };
            match id {
                Some(i) => final(stack).entries() == stack_insert(
                    cleared,
                    i,
                    ModalData { id: i, children: ModalChildren::Dynamic(scope) },
                ) && has_key(final(stack).entries(), i),
                None => final(stack).entries() == cleared,
            }
        }),
        match prev {
            Some(p) => id != Some(p) ==> !has_key(final(stack).entries(), p),
            None => true,
        },
        show ==> top_of(final(stack).entries()) is Some,
{
    match prev {
        Some(p) => stack.unregister(p),
        None => (),
    }
    let ghost cleared = stack.entries();
    if show {
        let i = fresh_modal_id();
        stack.register(ModalData { id: i, children: ModalChildren::Dynamic(scope) });
        proof {
            match prev {
                Some(p) => {
                    if i != p {
                        lemma_insert_has_key(
                            cleared,
                            i,
                            ModalData { id: i, children: ModalChildren::Dynamic(scope) },
                            p,
                        );
                    }
                },
                None => (),
            }
        }
        Some(i)
    } else {
        None
    }
}

/// The step a dynamically re-rendered modal takes when its owning scope is
/// disposed: its registered entry, if any, is removed.
pub fn modal_fn_unmount(stack: &mut ModalStack, current: Option<u128>)
    requires
        old(stack).wf(),
    ensures
        final(stack).wf(),
        match current {
            Some(i) => final(stack).entries() == stack_remove(old(stack).entries(), i)
                && !has_key(final(stack).entries(), i),
            None => final(stack).entries() == old(stack).entries(),
        },
{
    match current {
        Some(i) => stack.unregister(i),
        None => (),
    }
}

} // verus!
