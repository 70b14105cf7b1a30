pub mod board;
pub mod clock;
pub mod home;
pub mod login;
pub mod middleware;
pub mod numbers;
pub mod post;
pub mod reply;
pub mod response;
pub mod user;
pub mod utils;
