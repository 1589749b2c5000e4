//! A virtual pet whose needs decay with time and change with each action.

pub mod laws;
pub mod pet;
