//! The configuration record, as the external config source hands it over.
//!
//! The config source keeps a sequence of named profiles and marks exactly
//! one of them as last used. Loading and parsing the file is the binary's
//! job; the library receives the records as plain values and picks and
//! validates the active one.

use vstd::prelude::*;

verus! {

/// One stored profile, field for field as the config source keeps it.
/// Optional entries (food, potion, second and third macro) are absent when
/// their key name is the empty string.
#[derive(Clone, Debug)]
pub struct Config {
    pub id: i32,
    pub last_used: bool,
    pub name: String,
    pub amount: i32,
    pub food: String,
    pub food_duration: i64,
    pub potion: String,
    pub macro1: String,
    pub macro1_duration: u64,
    pub macro2: String,
    pub macro2_duration: u64,
    pub macro3: String,
    pub macro3_duration: u64,
    pub start_pause: String,
    pub stop: String,
    pub confirm: String,
    pub cancel: String,
}

/// Finds the first record marked last used; `None` when no record is.
pub fn find_last_used(configs: &Vec<Config>) -> (r: Option<usize>)
    ensures
        match r {
            Some(i) => i < configs@.len() && configs@[i as int].last_used && (forall|k: int|
                0 <= k < i ==> !configs@[k].last_used),
            None => forall|k: int| 0 <= k < configs@.len() ==> !configs@[k].last_used,
        },
{
    let n = configs.len();
    let mut i: usize = 0;
    while i < n
        invariant
            i <= n,
            n == configs@.len(),
            forall|k: int| 0 <= k < i ==> !configs@[k].last_used,
        decreases n - i,
    {
        if configs[i].last_used {
            return Some(i);
        }
        i += 1;
    }
    None
}

} // verus!
