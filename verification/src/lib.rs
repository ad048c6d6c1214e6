pub mod catalog;
pub mod code;
pub mod errors;
pub mod flows;
pub mod gate;
pub mod model;
pub mod password;
pub mod store;
pub mod text;
pub mod token;
