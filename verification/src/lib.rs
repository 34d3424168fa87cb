//! Logic of the `x` command line.

pub mod act;
pub mod answers;
pub mod authorize;
pub mod columns;
pub mod command;
pub mod descriptions;
pub mod dialog;
pub mod effects;
pub mod encode;
pub mod errors;
pub mod extract;
pub mod fetch;
pub mod findings;
pub mod idset;
pub mod invocation;
pub mod json;
pub mod layout;
pub mod list;
pub mod listings;
pub mod lists;
pub mod manifest;
pub mod messages;
pub mod options;
pub mod pages;
pub mod params;
pub mod order;
pub mod paths;
pub mod patterns;
pub mod people;
pub mod places;
pub mod plan;
pub mod present;
pub mod ruler;
pub mod session;
pub mod shapes;
pub mod show;
pub mod sources;
pub mod steady;
pub mod stream;
pub mod streaming;
pub mod talks;
pub mod text;
pub mod thor;
pub mod time;
pub mod timelines;
pub mod words;
