//! A verified modal overlay manager: an ordered stack of modal entries keyed
//! by generated identifiers, where the most recently inserted surviving entry
//! is the one presented, and a backdrop is shown exactly when the stack is
//! non-empty.

mod component;
mod data;
mod ids;
mod index_map;
mod laws;
mod model;
mod stack;

pub use component::modal_effect;
pub use component::modal_fn_remount;
pub use component::modal_fn_unmount;
pub use component::modal_instance;
pub use component::render_plan;
pub use component::RenderPlan;
pub use data::ModalChildren;
pub use data::ModalData;
pub use laws::lemma_presented_iff_nonempty;
pub use laws::lemma_topmost_after_overwrite;
pub use laws::lemma_topmost_after_register;
pub use laws::lemma_topmost_after_unregister_other;
pub use laws::lemma_topmost_after_unregister_top;
pub use model::has_key;
pub use model::ids_consistent;
pub use model::key_index;
pub use model::keys_unique;
pub use model::stack_insert;
pub use model::stack_remove;
pub use model::top_of;
pub use stack::ModalStack;
