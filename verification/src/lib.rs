pub mod bridge;
pub mod errors;
pub mod paths;
pub mod quoting;
pub mod response;
pub mod text;
