//! Watch-and-forward agent for CSV files: decides which file changes matter,
//! routes a file to a table by its header line, and settles the outcome of a
//! transfer into local clean-up and an audit record.
//!
//! Everything here is computation on plain values; the file system, the clock
//! and the remote copy are driven by the caller.

pub mod paths;
pub mod pipeline;
pub mod audit;
pub mod laws;
pub mod templates;

pub use paths::{base_name, extension, parent_dir, join_path};
pub use templates::{normalize_header, table_name_of_template, TemplateMap};
pub use audit::{audit_line, failure_message, log_path, no_match_text, success_message, Timestamp};
pub use pipeline::{
    candidate_of, is_candidate, read_failure_record, remote_dir, route, settle_transfer, shell_escape,
    transfer_args, AuditRecord, ChangeKind, HeaderRead, Routed, RoutingResult, Settlement,
    TransferOutcome,
};
