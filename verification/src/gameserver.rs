pub mod board;
pub mod gamestate;
pub mod server;
pub mod server_player;
