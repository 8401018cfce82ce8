use vstd::prelude::*;

use crate::errors::IntraverseErrorCode;
use crate::state::{Key, Pool};

verus! {

/// The pool whose owner opens or closes it.
#[derive(Clone, Copy, Debug, PartialEq, Eq, Structural)]
pub struct TogglePoolContext {
    pub pool: Pool,
    pub authority: Key,
}

/// Opens a closed pool or closes an open one; nothing else changes.
pub fn handler(ctx: &mut TogglePoolContext) -> (r: Result<(), IntraverseErrorCode>)
    requires
        old(ctx).authority == old(ctx).pool.owner,
    ensures
        r == Ok::<(), IntraverseErrorCode>(()),
        *final(ctx) == (TogglePoolContext {
            pool: Pool { is_open: !old(ctx).pool.is_open, ..old(ctx).pool },
            ..*old(ctx)
        }),
{
    ctx.pool.is_open = !ctx.pool.is_open;
    Ok(())
}

} // verus!
