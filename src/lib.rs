pub mod args;
pub mod controller;
pub mod csgo_data;
pub mod gamestate;
pub mod http;
pub mod interpreter;
