pub mod errors;

pub use errors::SessionManagerError;
