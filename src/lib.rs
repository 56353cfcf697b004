//! The core of an interactive command interpreter: one line of text becomes
//! a resolved command, ready to run.
//!
//! The pipeline runs strictly forward: [`lexer`] turns a line into tokens,
//! [`redirect`] separates redirection directives from the argument vector,
//! [`resolve`] tells builtins from external programs and picks an executable
//! from the search path, and [`dispatch`] decides what the line asks for.
mod text;

pub mod dispatch;
pub mod lexer;
pub mod redirect;
pub mod resolve;

pub use dispatch::{
    cd_failure, cd_target, command_not_found, echo_output, execute_command, type_report, Action,
};
pub use lexer::{handle_redirection_operator, lex, tokenize, Quote, Token};
pub use redirect::{extract_redirection, parse, ParsedCommand, RedirOp, Redirection, Target};
pub use resolve::{
    builtin_named, find_in_path, is_builtin, is_executable, search_candidates, Builtin,
};
