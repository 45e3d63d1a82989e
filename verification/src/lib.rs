//! Wizard core for a terminal webhook client: template store, form
//! session, wizard state machine, payload construction, endpoint
//! parsing, and dispatch-outcome classification.

pub mod dispatch;
pub mod template;
pub mod session;
pub mod payload;
pub mod endpoint;
pub mod wizard;
