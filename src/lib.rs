//! Supervision of child processes on behalf of authenticated users.
//!
//! The library holds the decisions of the service: the shared state of one
//! supervised process (its captured output, its exit status and its single
//! stop request), the protocol that each log reader follows, the supervisor's
//! state machine, the escalation from SIGTERM to SIGKILL, the framing of output
//! into lines, the store that ties processes to their owners, and the mapping of
//! failures to the codes of the remote interface. Running the child, awaiting
//! its pipes and waking readers is left to the caller.

mod ids;
mod lines;
mod state;
mod status;
mod service;
mod shared;
mod store;
mod supervisor;
mod terminator;
mod user;

pub use ids::ProcessId;
pub use lines::LineSplitter;
pub use state::{LogStep, ProcessState, ProcessView, StopStep};
pub use status::ExitStatus;
pub use service::{authenticate, check_exec_args, get_process, request_id, stop_reply, RpcCode};
pub use store::{GetError, Owned, Store};
pub use supervisor::{Supervisor, SupervisorAction, SupervisorEvent, SupervisorView};
pub use terminator::{escalate, signal_target, Escalation, PID_MAX, SIGTERM_TIMEOUT_SECS};
pub use user::{AuthError, UserId};
