pub mod applier;
pub mod conditions;
pub mod document;
pub mod error;
pub mod gvk;
pub mod pod;
pub mod reacher;
pub mod text;
pub mod timestamp;
pub mod timing;

pub use applier::apply;
pub use pod::CollectInput;
pub use timing::collect;
