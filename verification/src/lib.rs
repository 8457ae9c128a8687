//! The diagnostic runtime of a production: what it reports, when, and what it refuses.
pub mod agent;
pub mod context;
pub mod event;
pub mod identifier;
pub mod ordered_names;
pub mod python_error;
pub mod references;
pub mod run;
pub mod runtime_producer;
pub mod usage_finalization;
pub mod act_producer;
pub mod scene_producer;
pub mod scene_drain_producer;
pub mod actor_producer;
pub mod cue_producer;
pub mod effect_producer;
pub mod act_registry;
pub mod load_producer;
pub mod shutdown;
pub mod json;
pub mod hooks;
pub mod sink_projection;
pub mod custom_payload;
pub mod custom_act_binding;
pub mod custom_binding;
pub mod session_bridge;
pub mod turn_bridge;
pub mod observation_bridge;
pub mod sink_registry;
pub mod sink_binding;
pub mod sink_admission;
pub mod run_identity;
pub mod bootstrap;
pub mod startup;
pub mod writer;
pub mod writer_supervisor;
pub mod activation;
pub mod activation_sequence;
pub mod durable_admission;
pub mod archive_views;
pub mod run_binding;
