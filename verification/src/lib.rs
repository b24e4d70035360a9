//! A small pattern-based static rule engine for flagging suspicious source
//! code. A `RuleSet` holds an ordered, de-duplicated list of `Rule`s, each
//! backed by a pure substring `Matcher`; `scan` evaluates every rule against
//! one source text and returns the triggered rules as `Finding`s in rule
//! order. The built-in rule set flags potential cross-site scripting, SQL
//! injection and command injection patterns.

pub mod builtin;
pub mod matcher;
pub mod rules;
pub mod scanner;
pub mod text;

pub use builtin::{check_command_injection, check_sql_injection, check_xss, scan_code};
