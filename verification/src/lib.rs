//! Typed, verified wrappers for sending a single classic CAN frame over a
//! Linux raw CAN socket: identifier encoding, frame construction, address
//! construction, and the open/bind/send/close protocol of the endpoint.

mod addr;
mod endpoint;
mod error;
mod frame;
mod ident;

pub use addr::{AF_CAN, CanAddr};
pub use endpoint::{Endpoint, EndpointState, Failure, lemma_no_descriptor_leak};
pub use error::CanError;
pub use frame::{CanFrame, CAN_FRAME_WIRE_SIZE};
pub use ident::{
    IdFlags, init_id_word, spec_id_word, lemma_id_word, lemma_bits_disjoint, CAN_EFF_FLAG,
    CAN_RTR_FLAG, CAN_ERR_FLAG, CAN_ID_MASK,
};
