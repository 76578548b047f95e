//! A staged pipeline that turns seed documents into scored, tiered tiles:
//! EXTRACT → VALIDATE → SCORE → TIER → COMMIT. Scores are fixed point, in
//! millionths (see `fixed`).
use vstd::prelude::*;

pub mod commit;
pub mod extract;
pub mod fixed;
pub mod ids;
pub mod laws;
pub mod pipeline;
pub mod score;
pub mod stage;
pub mod text;
pub mod tier;
pub mod tile;
pub mod validate;

pub use commit::{CommitOutput, CommitStage, TierDistribution};
pub use extract::ExtractStage;
pub use fixed::SCORE_SCALE;
pub use ids::{nano_id, nano_id_seeded};
pub use pipeline::{PipelineResult, forge_pipeline, forge_pipeline_with_stages};
pub use score::ScoreStage;
pub use stage::Stage;
pub use tier::TierStage;
pub use tile::{DeployTier, SeedInput, Tile, ValidationError};
pub use validate::ValidateStage;
