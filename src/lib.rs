//! A bridge between a desktop front end and two SQL engines: session state,
//! query classification and the rendering of column values and results.
use vstd::prelude::*;

pub mod classify;
pub mod error;
pub mod mysqlcmd;
pub mod objects;
pub mod pgcmd;
pub mod pythonmanager;
pub mod render;
pub mod report;
pub mod text;

verus! {

} // verus!
