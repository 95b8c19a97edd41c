//! Client-side OCPP connection core: RPC envelope framing, an ordered outbound
//! queue, request/response correlation, the inbound dispatcher, the transport's
//! connection status and the EVSE boot state machine.
pub mod errors;
pub mod queue;
pub mod envelope;
pub mod correlation;
pub mod dispatcher;
pub mod transport;
pub mod evse;
