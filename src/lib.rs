//! Rewrites the links of a Markdown document so that external ones open in a
//! new browsing context, leaving relative and unresolved links as they were.
pub mod policy;
pub mod rewrite;
pub mod laws;
