//! Plugin-side endpoint of a virtual channel: the negotiation state machine,
//! the channel-object lifecycle, the invocation bridge and the command
//! dispatcher, each stated over a mathematical model.

mod text;
mod session;
mod dispatcher;
mod bridge;
mod laws;
mod tray;

pub use bridge::{
    c_len, c_text, copy_c_text, enqueue, forwarded, is_c_text, lemma_c_len,
    lemma_c_text_terminated, on_invoke, outcome_of, text_of, InvokeOutcome, ParamSlot, Variant,
    PARAM_OK,
};
pub use dispatcher::{terminated, trigger_order, CommandQueue, Dispatch, Dispatcher};
pub use laws::{
    actions, bridge_all, connects, lemma_connect_rate, lemma_destroy_before_recreate,
    lemma_invocations_trigger_in_order, lemma_never_connected_keeps_retrying, lemma_retry_cycle,
    lemma_single_object, pending_connect, retrying, run, sleeps,
};
pub use session::{
    holds_object, negotiating, next, state_name, status_text, Action, ChannelState, Event, Phase,
    Session, Status, Step, CONNECT_FLAGS,
};
pub use text::{decimal_of, digits_of, push_bytes, push_decimal};
pub use tray::{command_of, menu_command, tray_menu, MenuCommand, MenuEntry};
