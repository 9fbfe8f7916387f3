//! Turn-based racing mechanics: racers advance around a closed circuit of
//! turn obstacles by rolling a die against a difficulty score derived from
//! speed and upcoming turn sharpness, taking damage on failure until
//! eliminated or victorious.

mod circuit;
mod dice;
mod labels;
mod laws;
mod racer;

pub use circuit::circuit_ok;
pub use circuit::lemma_seq_max_is_max;
pub use circuit::lemma_window_max_in_range;
pub use circuit::lemma_window_max_snoc;
pub use circuit::lemma_window_max_wraps;
pub use circuit::ranking_at;
pub use circuit::ranking_max;
pub use circuit::seq_max;
pub use circuit::window_max;
pub use circuit::window_seq;
pub use dice::roll;
pub use labels::speed_adj;
pub use labels::speed_label;
pub use labels::turn_adj;
pub use labels::turn_label;
pub use laws::apply_speed_ops;
pub use laws::lemma_quiet_poll;
pub use laws::lemma_quiet_polls;
pub use laws::lemma_speed_stays_clamped;
pub use laws::log_quiet;
pub use racer::advanced;
pub use racer::bucket_grown;
pub use racer::failed_turn_msg;
pub use racer::made_turn_msg;
pub use racer::move_range_spec;
pub use racer::polled;
pub use racer::slow_down_msg;
pub use racer::speed_step_down;
pub use racer::speed_step_up;
pub use racer::speed_up_msg;
pub use racer::turn_outcome;
pub use racer::Brain;
pub use racer::Position;
pub use racer::Racer;
pub use racer::AI;
