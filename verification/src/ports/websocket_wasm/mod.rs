pub mod client;
