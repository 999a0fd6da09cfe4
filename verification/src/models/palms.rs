//! A row of the `palms` table, as the handlers read it.
use crate::models::sea_orm_active_enums::Growth;
use vstd::prelude::*;

verus! {

/// A palm tree of a user: its dates per minute (`dpm`) and its growth stage,
/// which the table allows to be missing.
#[derive(Clone, Copy, Debug, PartialEq, Eq, Structural)]
pub struct Model {
    pub id: i32,
    pub dpm: i32,
    pub growth: Option<Growth>,
    pub user_id: i32,
}

} // verus!
