pub mod engine;
pub mod entities;
pub mod inventory;
pub mod lifecycle;
pub mod production;
pub mod roster;
pub mod text;
pub mod timer;

pub use engine::{Engine, EngineConfig, EngineInner};
pub use entities::{ProducerEntity, ProductType};
pub use inventory::Inventory;
pub use lifecycle::{ConsumerAction, Lifecycle, StopPlan};
pub use roster::{ProducerError, Roster};
pub use timer::{Timer, TimerAction, TimerState};
