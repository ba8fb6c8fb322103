//! Source locations: the path of a file, a line and a column, as a small
//! copyable record with the text form `file:line:column`.
//!
//! A [`SourceLoc`] is meant to be captured where a piece of code stands and
//! carried into an error or a log record: it costs three words and no stack
//! walk. `{}` and `{:?}` write the same text.
//!
//! ```
//! use source_loc::SourceLoc;
//!
//! let loc = SourceLoc { file: "src/lib.rs", line: 6, column: 11 };
//! assert_eq!("src/lib.rs:6:11", loc.to_string());
//! assert_eq!("src/lib.rs:6:11", format!("{:?}", loc));
//! ```

pub mod decimal;
pub mod source_loc;
pub mod text;

pub use crate::source_loc::SourceLoc;
