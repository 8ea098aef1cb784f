//! Execution engine of the Voila scripting language: argument resolution,
//! the builtin table and the plans of filesystem and shell effects that each
//! builtin asks the host to perform.

mod builtins;
mod checksum;
mod exception;
mod interpreter;
mod paths;
pub mod pattern;
mod resolve;
mod text;

pub use exception::{ErrorKind, Exception};
pub use text::{joined_lines, print, string_views, trim_spaces, trimmed, is_white};
pub use resolve::{first_undefined_at, fragment_value, lookup, resolve_argument, resolved, Literal, Variables};
pub use builtins::{copy, create, delete, mkdir, move_path, shell, Deletion, FsOp, FsOpView, Platform, Probe, ShellCommand, Transfer};
pub use interpreter::{
    builtin_named, builtin_of, dispatch, planned, refusal, removes, resolves_to,
    wrong_arity_is_refused, Builtin, Call, Dispatch, Interpreter,
};
pub use checksum::{
    checksum, checksum_is_deterministic, checksums_differ_by_kind, digest_len, get_sum_of,
    is_lower_hex, lower_hex_of_len, md5_hex, sha256_hex, SumKind,
};
pub use paths::{absolute_path, absolutize, is_rooted_dir};
pub use pattern::{pattern_compiles, pattern_matches};
