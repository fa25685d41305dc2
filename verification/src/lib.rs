//! The percent-of orchestrator: the decisions that compose two remote float
//! primitives into `percent% of whole`, the replies it gives, and the
//! description of its HTTP interface.
pub mod config;
pub mod dependency;
pub mod evaluate;
pub mod identity;
pub mod json;
pub mod laws;
pub mod number;
pub mod openapi;
pub mod reply;

pub use dependency::{Dependency, FLOATDIVIDE, FLOATMULTIPLY};
pub use evaluate::{ask, DependencyCall, DependencyReply, Deps, EvalRequest, Evaluation, Step};
pub use identity::{depends_on, index, Info, CONCERN, SERVICE};
pub use number::{FloatBits, JsonNumber};
pub use reply::{degraded, forward, forwarded_status, malformed, ok, PercentageOfResponse, Reply, ReplyBody};
pub use openapi::ApiDoc;
