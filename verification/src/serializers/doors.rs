//! Body of a door creation response.
use vstd::prelude::*;
use crate::models::Door;

verus! {

/// Response to a door creation: the door as stored.
#[derive(Debug)]
pub struct ResponseDoorCreated {
    pub door: Door,
}

} // verus!
