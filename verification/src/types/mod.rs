//! The wire format of the endpoint: requests, responses and stream events.
pub mod answer_laws;
pub mod block_reader;
pub mod complaint_laws;
pub mod delta_laws;
pub mod form_laws;
pub mod into_params;
pub mod messages;
pub mod metadata_reader;
pub mod params_laws;
pub mod piece_laws;
pub mod reading_laws;
pub mod request_reader;
pub mod response;
pub mod shape_laws;
pub mod sse;
pub mod stream_adapter;
pub mod stream_laws;
pub mod stream_state;
pub mod streaming;
pub mod text_laws;
pub mod translate;
pub mod translate_laws;
pub mod wire_laws;
