use vstd::prelude::*;

use crate::errors::IntraverseErrorCode;
use crate::state::{Key, Pool};

verus! {

/// The pool whose owner overrides its settings.
#[derive(Clone, Copy, Debug, PartialEq, Eq, Structural)]
pub struct UpdatePoolContext {
    pub pool: Pool,
    pub owner: Key,
}

/// The settings that an update writes.
#[derive(Clone, Copy, Debug, PartialEq, Eq, Structural)]
pub struct UpdatePoolArgs {
    pub activation_th: u64,
    pub is_open: bool,
}

/// Overwrites the pool's threshold and open flag, whatever its supply.
pub fn handler(ctx: &mut UpdatePoolContext, input_data: UpdatePoolArgs) -> (r: Result<(), IntraverseErrorCode>)
    requires
        old(ctx).owner == old(ctx).pool.owner,
    ensures
        r == Ok::<(), IntraverseErrorCode>(()),
        *final(ctx) == (UpdatePoolContext {
            pool: Pool {
                activation_th: input_data.activation_th,
                is_open: input_data.is_open,
                ..old(ctx).pool
            },
            ..*old(ctx)
        }),
{
    ctx.pool.is_open = input_data.is_open;
    ctx.pool.activation_th = input_data.activation_th;
    Ok(())
}

} // verus!
