//! Orchestration core for streaming media pipelines: graph assembly with
//! deferred links, the lifecycle state machine, an ordered message bus with
//! its dispatcher, flow-controlled feeding, and timing and seek control.
//!
//! The media framework itself stays outside: callers perform the framework
//! operations this library asks for and hand back what the framework reported.

mod bus;
mod control;
mod discovery;
mod dispatch;
mod feeder;
mod graph;
mod session;
mod state;
mod text;
mod timing;

pub use bus::{lemma_delivery_order, Bus, BusError, Message, MessageBody, Origin};
pub use control::{command_for_key, Command, ControlAction, SpeedControl};
pub use discovery::{
    align_right, check_discovery, indent_width, join_values, spaces_string, topology_order,
    DiscoveryFailure, DiscoveryOutcome, StreamEntry,
};
pub use dispatch::{run_until_stopped, Dispatcher, Reaction, RunEnd, TickPlan};
pub use feeder::{
    frames_in_chunk, lemma_activations, lemma_chunk_spacing, lemma_nanos_monotone,
    lemma_quiet_after_enough, lemma_single_task, mul_div_floor, samples_to_nanos, Chunk, Drain,
    DrainStatus, FeedEvent, Feeder, FeederView, Generated, NANOS_PER_SECOND,
};
pub use graph::{
    lemma_deferred_link_idempotent, lemma_deferred_link_once, lemma_linked_sink_stays,
    DeferredLink, Direction, Graph, GraphError, LinkPlan, Node, Port, Property, PropertyKey,
    Resolution,
};
pub use session::{teardown, TeardownStep};
pub use state::{
    lemma_ascent_in_order, lemma_start_and_teardown, lemma_step_adjacent, next_step,
    transition_path, Lifecycle, LifecycleState, StepOutcome,
};
pub use text::{same_text, starts_with};
pub use timing::{
    lemma_flags_round_trip, nanos_to_seconds, plan_step, rate_seek, seconds_to_nanos, seek_to,
    BufferingPolicy, Rate, SeekBound, SeekFlags, SeekRequest, StepRequest, TimingError,
    SEEK_ACCURATE, SEEK_FLUSH, SEEK_KEY_UNIT,
};
