//! Lowering core of a source-to-source transpiler.
//!
//! The library takes an already-parsed source syntax tree (modelled by the
//! types in [`source`]) and produces a target syntax tree (the types in
//! [`target`]), preserving source byte positions on every node that has a
//! clear originating token range.  Parsing the input text and printing the
//! produced tree are external collaborators and live outside this crate.

pub mod error;
pub mod source;
pub mod span;
pub mod target;
pub mod transformer;

pub use error::ConstructKind;
pub use error::TranslateError;
pub use source::MacroArgs;
pub use source::SourceExpr;
pub use source::SourceFile;
pub use source::SourceItem;
pub use source::SourceItemFn;
pub use source::SourceLit;
pub use source::SourceMacro;
pub use source::SourceStmt;
pub use target::Block;
pub use target::CallExpression;
pub use target::ExpressionStatement;
pub use target::FunctionDeclaration;
pub use target::Identifier;
pub use target::StringLiteral;
pub use target::TargetExpr;
pub use target::TargetModule;
pub use target::TargetStmt;
pub use transformer::Recognition;
pub use transformer::Transformer;

pub use span::ByteRange;
pub use span::Span;
pub use span::empty_span;
pub use span::join_byte_ranges;
pub use span::join_ranges;
pub use span::lemma_span_mapper_pure;
pub use span::span_map;
pub use span::span_mapper;

use vstd::prelude::*;

verus! {

} // verus!
