//! The request shapes of the host surface: queries read, commands produce.

use vstd::prelude::*;

use crate::types::FacetpackError;

verus! {

pub trait Query {
    type Result;

    fn execute(&self) -> Result<Self::Result, FacetpackError>;
}

pub trait Command {
    type Result;

    fn execute(&self) -> Result<Self::Result, FacetpackError>;
}

pub trait QueryHandler<Q: Query> {
    fn handle(&self, query: Q) -> Result<Q::Result, FacetpackError>;
}

pub trait CommandHandler<C: Command> {
    fn handle(&self, command: C) -> Result<C::Result, FacetpackError>;
}

} // verus!
