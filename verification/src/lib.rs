pub mod approval;
pub mod consumer_laws;
pub mod consumers;
pub mod control;
pub mod control_laws;
pub mod decimal;
pub mod delivery;
pub mod delivery_laws;
pub mod dialect_laws;
pub mod digest;
pub mod digest_laws;
pub mod ending_laws;
pub mod engine;
pub mod engine_laws;
pub mod hidden;
pub mod json;
pub mod json_laws;
pub mod keyed;
pub mod meta;
pub mod meta_laws;
pub mod proto;
pub mod push;
pub mod push_laws;
pub mod queue_laws;
pub mod registry;
pub mod revive;
pub mod revive_laws;
pub mod rewind;
pub mod rewind_laws;
pub mod row_laws;
pub mod rows;
pub mod send_laws;
pub mod sending;
pub mod spawning;
pub mod stream_laws;
pub mod streaming;
pub mod text;
pub mod text_laws;
pub mod turn;
pub mod turn_end;
pub mod turn_laws;
