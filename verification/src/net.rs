pub mod factory;
pub mod gate;
pub mod gate_client;
pub mod live;
pub mod prior;
pub mod round_trip;
pub mod gate_socket;
pub mod session_open;
