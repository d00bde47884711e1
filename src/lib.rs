//! Schema and semantic validation of a network bond device declaration:
//! an active-backup bond over member interfaces, watched either by MII link
//! polling or by ARP probes.
use vstd::prelude::*;

pub mod bond;
pub mod error;
pub mod monitoring;
pub mod wire;

verus! {

} // verus!
