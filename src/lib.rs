//! Migration of legacy user records to a normalized schema: the normalizer,
//! the batch backfill and live-capture pipelines that apply it, the error
//! router they share, and the run controls.
use vstd::prelude::*;

pub mod backfill;
pub mod capture;
pub mod coerce;
pub mod control;
pub mod document;
pub mod encode;
pub mod hex;
pub mod millis;
pub mod normalize;
pub mod record;
pub mod router;
pub mod seed;
pub mod store;

pub use backfill::{Backfill, Progress, Step};
pub use capture::{on_change, Capture, CaptureStep};
pub use control::{parse_command, Args, Command, Reply, RunFlags};
pub use document::{Field, ObjectId, Record, Value};
pub use millis::{num_to_datetime, DateTime, DoubleText, Timestamp, ToMillis};
pub use normalize::{normalize_at, normalize_user, NormalizeError};
pub use record::{
    CompletedChallenge, CompletedExam, ExamResults, File, NOption, PartiallyCompletedChallenge,
    Portfolio, ProfileUI, SavedChallenge, User,
};
pub use router::{route_error, Route};
pub use seed::{seed_copy, seed_duplicate, SeedBatch, SEED_BATCH};
pub use store::{WriteMode, WriteOp};

verus! {

} // verus!
