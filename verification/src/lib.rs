// Sensor fusion over a datagram protocol: the codec of the wire format, the
// session's state machine, the framing of datagrams and the history that a
// display reads. The numbers of a frame are kept as the literals that came;
// turning them into floating-point values, the filter's arithmetic and the
// socket are the caller's part.

pub mod client;
pub mod error;
pub mod kalman_view;
pub mod literal;
pub mod message;
pub mod orchestrator;
pub mod plot_data;
pub mod text;
pub mod theorems;
