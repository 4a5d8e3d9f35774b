//! Score-sync core for an arcade client: classifies intercepted calls, rewrites
//! the responses that carry cloud data, and merges local score rows with the
//! personal bests kept by a remote score tracker.

mod capability;
mod chart;
mod configuration;
mod format;
mod import;
mod reconcile;
mod remote;
mod rewrite;
mod session;
mod table;
mod tachi;
mod tree;

pub use capability::{decimal_string, parse_u64, GameProperties, NotSupportedReason};
pub use chart::{Chart, Score, ScoreError, SCORE_FIELDS};
pub use configuration::{
    default_timeout, default_true, get_profile, CardConfiguration, Configuration,
    GeneralConfiguration, Profile, TachiConfiguration,
};
pub use format::pbs_url;
pub use import::{
    import_score, process_course, process_save, process_scores, GameSave, GameScores, HitMeta,
    Import, ImportClasses, ImportMeta, ImportScore, Judgements, SkipReason, Track,
};
pub use reconcile::{build_response_base, parse_local, process_pbs, Reconciled, RowError};
pub use remote::{
    map_difficulty, map_grade, map_lamp, ChartTable, RemoteChart, RemotePb, RemoteSnapshot,
};
pub use rewrite::{rewrite_common, rewrite_load};
pub use session::{
    get_current_user, reconcile_fetched, CallOutcome, PendingFlags, ResponsePlan, RewriteKind,
    Session,
};
pub use table::ScoreTable;
pub use tachi::{same_text, Difficulty, SkillLevel, TachiLamp};
pub use tree::{PropNode, PropValue};
