//! Orchestration of per-notebook kernel processes: language routing, the
//! registry of runtime sets, and the line protocol spoken with each kernel.
//!
//! The library decides; the host performs. Spawning, killing, writing and
//! reading are done by the host, which feeds outcomes back into the
//! [`manager::KernelManager`] state machine.
mod cell;
mod error;
mod ipc;
mod launch;
mod manager;
mod runtime;


pub use cell::{envelope_output, lines_of, split_lines, CellExecution, CellOutputKind, CellStatus, CellType};
pub use error::KernelError;
pub use ipc::{
    encode_request, is_single_line, json_string_of, params_text, read_reply_payload, request_line,
    trimmed, ExecuteParams, IpcEnvelope, IpcError, IpcRequest, RequestParams,
};
pub use launch::KernelLaunch;
pub use manager::{
    dispatched, lemma_rebuilt_set_is_fresh, lemma_registered_keys_below_floor,
    lemma_registered_notebook_spawns_nothing, lemma_unsupported_language_changes_nothing,
    params_match, plan_sends, CallPlan, EnsurePlan, KernelManager,
};
pub use runtime::{
    language_of, parse_language, slot_language, Construction, Language, NotebookRuntimes,
    SLOT_COUNT,
};
