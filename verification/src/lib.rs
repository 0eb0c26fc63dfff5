pub mod agent;
pub mod json;
pub mod normalize;
pub mod reply;
pub mod reporter;
pub mod session;
pub mod text;
pub mod tools;
pub mod transcript;
pub mod turn;
