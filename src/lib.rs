//! Policy engine that judges the actions of a coding agent before and after
//! they happen: guard rules over a decoded event, each yielding a decision
//! (allow, warn or block), and pipelines that combine those decisions per
//! lifecycle phase, stopping early where an action can still be prevented.

pub mod bash_rules;
pub mod calendar;
pub mod decision;
pub mod edit_rules;
pub mod event;
pub mod glob;
pub mod lines;
pub mod pipeline;
pub mod prompt_rules;
pub mod recognizer;
pub mod registry;
pub mod repo_rules;
pub mod roots;
pub mod session;
pub mod shape_check;
pub mod text;
pub mod tooling;
