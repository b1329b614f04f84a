//! Live user configuration read by the protocol engine: the key-to-application
//! mapping table and the telemetry flag.
//!
//! Persistence (the JSON document on disk) belongs to the embedding
//! application; the core only reads and updates the in-memory value.

use std::collections::HashMap;
use vstd::prelude::*;

verus! {

broadcast use vstd::std_specs::hash::group_hash_axioms;

/// First key identifier of the fixed 32-slot range the keypad reports.
pub const FIRST_KEY: u16 = 0x00C0;

/// Last key identifier of the fixed range.
pub const LAST_KEY: u16 = 0x00DF;

/// User configuration: which application each macro key controls, whether
/// telemetry is pushed, and the preferred step for volume changes.
#[derive(Clone)]
pub struct Settings {
    /// Mapping from key identifier to application name; an empty name means
    /// the slot is unassigned.
    pub proc_list: HashMap<u16, String>,
    /// Gate for the periodic telemetry push.
    pub show_stats: bool,
    /// Preferred volume step, kept for the configuration surface.
    pub increment: i32,
}

impl Settings {
    /// Update the application name of a key, leaving everything else as it
    /// was; a key outside the mapped slots is ignored.
    pub fn set_mapping(&mut self, key: u16, value: String)
        ensures
            old(self).proc_list@.contains_key(key) ==> final(self).proc_list@ == old(
                self,
            ).proc_list@.insert(key, value),
            !old(self).proc_list@.contains_key(key) ==> final(self).proc_list@ == old(
                self,
            ).proc_list@,
            final(self).show_stats == old(self).show_stats,
            final(self).increment == old(self).increment,
    {
        if self.proc_list.contains_key(&key) {
            self.proc_list.insert(key, value);
        }
    }
}

impl Default for Settings {
    /// The factory configuration: every key of the fixed range mapped, the
    /// first one to "spotify" and the rest unassigned; telemetry on; a step
    /// of 5 points.
    fn default() -> (s: Settings)
        ensures
            forall|k: u16| s.proc_list@.contains_key(k) <==> FIRST_KEY <= k <= LAST_KEY,
            s.proc_list@[FIRST_KEY]@ == "spotify"@,
            forall|k: u16|
                FIRST_KEY < k <= LAST_KEY ==> (#[trigger] s.proc_list@[k])@ == Seq::<
                    char,
                >::empty(),
            s.show_stats == true,
            s.increment == 5,
    {
        let mut items: HashMap<u16, String> = HashMap::new();
        items.insert(FIRST_KEY, "spotify".to_owned());
        let mut k: u16 = FIRST_KEY + 1;
        while k <= LAST_KEY
            invariant
                FIRST_KEY + 1 <= k <= LAST_KEY + 1,
                forall|j: u16| items@.contains_key(j) <==> FIRST_KEY <= j < k,
                items@[FIRST_KEY]@ == "spotify"@,
                forall|j: u16|
                    FIRST_KEY < j < k ==> (#[trigger] items@[j])@ == Seq::<char>::empty(),
            decreases LAST_KEY + 1 - k,
        {
            items.insert(k, String::new());
            k = k + 1;
        }
        Settings { proc_list: items, show_stats: true, increment: 5 }
    }
}

} // verus!
