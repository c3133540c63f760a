use vstd::prelude::*;

pub mod app;
pub mod cli;
pub mod client_manager;
pub mod converter;
pub mod error;
pub mod input;
pub mod render;
pub mod session;
pub mod temp_file;
pub mod text;

verus! {

} // verus!
