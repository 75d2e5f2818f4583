//! MiniApps: where a MiniApp's files are kept, and where a JavaScript runtime for
//! it is looked for.

pub mod runtime;
pub mod storage;
