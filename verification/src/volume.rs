//! Per-application volume logic: the stepped and forced adjustment rule,
//! and the matching of an application name against the list of sessions the
//! audio mixer reports.
//!
//! Volumes are integer percentages, 0 through 100. The embedding
//! application converts between the mixer's native scale and percent at the
//! boundary.

use vstd::prelude::*;
use vstd::string::StringExecFns;

verus! {

/// Direction of a volume change, byte 2 of a volume command payload.
#[derive(Clone, Copy, Debug, PartialEq, Eq, Structural)]
pub enum Volume {
    Up,
    Down,
}

/// Wire code for `Volume::Up`; any other byte means `Down`.
pub const VOLUME_UP_CODE: u8 = 0x01;

/// Step of one non-forced adjustment, in percentage points.
pub const VOLUME_STEP: u8 = 5;

/// The direction a payload byte decodes to.
pub open spec fn spec_volume_of(byte: u8) -> Volume {
    if byte == VOLUME_UP_CODE {
        Volume::Up
    } else {
        Volume::Down
    }
}

impl Volume {
    /// Decode the direction byte of a volume command payload.
    pub fn from_u8(byte: u8) -> (v: Volume)
        ensures
            v == spec_volume_of(byte),
    {
        if byte == VOLUME_UP_CODE {
            Volume::Up
        } else {
            Volume::Down
        }
    }
}

/// The volume that an adjustment yields, in percent.
///
/// A forced change jumps straight to 100 (up) or 0 (down). A non-forced
/// change steps by [`VOLUME_STEP`] points and is then clamped: anything over
/// 100 becomes 100, and anything under [`VOLUME_STEP`] snaps to exactly 0,
/// so that a volume can always be stepped back down to silence.
pub open spec fn spec_adjusted_volume(current: int, direction: Volume, force: bool) -> int {
    if force {
        if direction == Volume::Up {
            100
        } else {
            0
        }
    } else {
        let stepped = if direction == Volume::Up {
            current + VOLUME_STEP
        } else {
            current - VOLUME_STEP
        };
        if stepped > 100 {
            100
        } else if stepped < VOLUME_STEP {
            0
        } else {
            stepped
        }
    }
}

/// Apply one adjustment to a current volume, in percent.
pub fn adjusted_volume(current: u8, direction: Volume, force: bool) -> (r: u8)
    requires
        current <= 100,
    ensures
        r == spec_adjusted_volume(current as int, direction, force),
        r <= 100,
{
    if force {
        if direction == Volume::Up {
            100
        } else {
            0
        }
    } else {
        let stepped: i32 = if direction == Volume::Up {
            current as i32 + VOLUME_STEP as i32
        } else {
            current as i32 - VOLUME_STEP as i32
        };
        if stepped > 100 {
            100
        } else if stepped < VOLUME_STEP as i32 {
            0
        } else {
            stepped as u8
        }
    }
}

/// What `str::to_lowercase` returns for a given character sequence.
pub uninterp spec fn lower_of(s: Seq<char>) -> Seq<char>;

/// Relies on `str::to_lowercase`: the lowercase form of a string, a function
/// of its characters alone.
#[verifier::external_body]
fn lowercase(s: &str) -> (r: String)
    ensures
        r@ == lower_of(s@),
{
    s.to_lowercase()
}

/// One audio session the mixer reports: the owning process name and its
/// current volume in percent.
pub struct AppEntry {
    pub name: String,
    pub volume: u8,
}

/// Whether a reported session belongs to the target process: its name,
/// case-folded, equals the target.
pub open spec fn entry_matches(e: AppEntry, target: Seq<char>) -> bool {
    lower_of(e.name@) == target
}

/// The mapped application name with the fixed platform executable suffix
/// appended: the process name a volume command targets.
pub fn with_exe_suffix(app: &String) -> (r: String)
    ensures
        r@ == app@ + ".exe"@,
{
    let mut r = app.clone();
    r.append(".exe");
    r
}

/// Current volume of the target process: the volume of the first reported
/// session whose case-folded name equals the target, or `None` when no
/// session matches (the application is not currently producing audio).
pub fn find_app_volume(apps: &Vec<AppEntry>, target: &String) -> (r: Option<u8>)
    ensures
        match r {
            Some(v) => exists|i: int|
                0 <= i < apps@.len() && #[trigger] entry_matches(apps@[i], target@) && v
                    == apps@[i].volume && forall|j: int|
                    0 <= j < i ==> !entry_matches(apps@[j], target@),
            None => forall|i: int| 0 <= i < apps@.len() ==> !entry_matches(apps@[i], target@),
        },
{
    let mut i: usize = 0;
    while i < apps.len()
        invariant
            i <= apps@.len(),
            forall|j: int| 0 <= j < i ==> !entry_matches(apps@[j], target@),
        decreases apps@.len() - i,
    {
        let folded = lowercase(apps[i].name.as_str());
        if folded == *target {
            assert(entry_matches(apps@[i as int], target@));
            return Some(apps[i].volume);
        }
        i += 1;
    }
    None
}

/// Plan one volume change across the reported sessions: for each session
/// whose case-folded name equals the target, the volume the adjustment
/// yields; `None` for every other session. The embedding application
/// applies each planned value to the corresponding session.
pub fn plan_volume_changes(apps: &Vec<AppEntry>, target: &String, direction: Volume, force: bool) -> (r:
    Vec<Option<u8>>)
    requires
        forall|i: int| 0 <= i < apps@.len() ==> #[trigger] apps@[i].volume <= 100,
    ensures
        r@.len() == apps@.len(),
        forall|i: int|
            0 <= i < apps@.len() ==> #[trigger] r@[i] == (if entry_matches(apps@[i], target@) {
                Some(spec_adjusted_volume(apps@[i].volume as int, direction, force) as u8)
            } else {
                None::<u8>
            }),
{
    let mut r: Vec<Option<u8>> = Vec::new();
    let mut i: usize = 0;
    while i < apps.len()
        invariant
            i <= apps@.len(),
            r@.len() == i,
            forall|k: int| 0 <= k < apps@.len() ==> #[trigger] apps@[k].volume <= 100,
            forall|k: int|
                0 <= k < i ==> #[trigger] r@[k] == (if entry_matches(apps@[k], target@) {
                    Some(spec_adjusted_volume(apps@[k].volume as int, direction, force) as u8)
                } else {
                    None::<u8>
                }),
        decreases apps@.len() - i,
    {
        let folded = lowercase(apps[i].name.as_str());
        if folded == *target {
            r.push(Some(adjusted_volume(apps[i].volume, direction, force)));
        } else {
            r.push(None);
        }
        i += 1;
    }
    r
}

} // verus!
