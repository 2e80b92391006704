//! Buffering and flow-control core of a reactive workflow engine: per-session
//! buffer storage under a retention policy, capability keys, access guards
//! with deferred change notifications, and the Open/Closed flow flag of each
//! buffer.

mod buffer;
mod gate;
mod guard;
mod key;
mod notify;
mod retention;
mod settings;
mod storage;
mod world;

pub use buffer::{Buffer, BufferLocation, CloneFromBuffer, Entity};
pub use gate::{BufferGateMut, BufferGateView, Gate, GateState};
pub use guard::{event_spares_only_the_accessor, BufferMut, BufferView};
pub use key::{
    in_use_given, AnyBufferKey, BufferAccessLifecycle, BufferKey, BufferKeyBuilder, BufferKeyTag,
};
pub use notify::{listeners_to_wake, BufferUpdate};
pub use retention::{
    after_step, after_steps, keep_all_count_balances, keep_all_keeps_everything,
    keep_first_holds_the_oldest, keep_first_rejects_unchanged, keep_last_holds_the_newest,
    push_count, pushed_all, taken_out, taken_out_all, SessionStep,
};
pub use settings::{BufferSettings, RetentionPolicy};
pub use storage::{pushed, pushed_as_oldest, BufferStorage};
pub use world::{
    newest_of, BufferAccess, BufferAccessMut, BufferError, BufferGateAccess, BufferGateAccessMut,
    BufferWorld,
};
