pub mod contract;
pub mod error;
pub mod msg;
pub mod response;
pub mod state;
pub mod strmap;
pub mod util;
pub mod laws;
