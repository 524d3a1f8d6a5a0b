//! The syntax nodes.

pub mod attribute;
pub mod block;
pub mod delimiter;
pub mod expr;
pub mod expr_block;
pub mod ident;
pub mod keyword;
pub mod label;
pub mod lit_number;
pub mod punctuation;
pub mod stmt;

pub use attribute::Attribute;
pub use block::Block;
pub use delimiter::{CloseBrace, CloseBracket, OpenBrace, OpenBracket};
pub use expr::Expr;
pub use expr_block::ExprBlock;
pub use ident::Ident;
pub use keyword::{Async, Const, Move};
pub use label::Label;
pub use lit_number::LitNumber;
pub use punctuation::{Colon, Pound, SemiColon};
pub use stmt::Stmt;
