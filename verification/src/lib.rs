//! Request routing, reply shaping and the decision rules of the Reedhold
//! JSON host. The HTTP loop, JSON parsing into bodies and the protocol
//! kernel calls stand outside this library.

pub mod body;
pub mod host;
pub mod plan;
pub mod reply;
pub mod routes;
pub mod seats;
pub mod state;
pub mod sync;
pub mod text;

pub use body::{
    error_json, error_json_from, ContactBody, EmitBody, ErrorBody, PasswordBody, PutBody,
    ReactBody, SecretBody, VerifyBody,
};
pub use host::{bind_address, response_headers};
pub use plan::{talk_candidates, talk_setup, NetPlan, PlanBody};
pub use reply::{bad, fail, flag_reply, json_reply, not_found, ok, ok_flag, preflight, Reply};
pub use routes::{fixed_reply, route, Route};
pub use seats::SeatBook;
pub use state::{missing, require, require_mut, Service};
pub use sync::{company_hex, prior_commit};
pub use text::{byte_hex_text, hex_digit_text, repeat_text, same_text};
