//! A position-indexed store of semantic annotations for a language front-end.
//!
//! While a parser walks source text it attaches typed semantic facts to the
//! source ranges that produced them.  The store keeps those `(range, fact)`
//! pairs in an interval-indexed multimap over totally ordered source
//! locations, supports merging the stores of independently parsed fragments,
//! answers point and range queries, and rewrites raw return markers into
//! structured facts by re-querying the store over their sub-range.

pub mod facts;
pub mod laws;
pub mod location;
pub mod tree;

pub use facts::Annotation;
pub use facts::AnnotationView;
pub use facts::DocCollection;
pub use facts::Ident;
pub use facts::PathOp;
pub use facts::TypePath;
pub use facts::VarType;
pub use facts::VarTypeView;
pub use location::InclusiveRange;
pub use location::Location;
pub use location::SourceRange;
pub use tree::AnnotationTree;
pub use tree::EntryView;
