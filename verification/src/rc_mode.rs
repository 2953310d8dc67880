//! Radio-control modes (flight modes and switches) and the table of known modes.
use vstd::prelude::*;

verus! {

/// A radio-control mode: its id (as used in mode activation conditions), a permanent id
/// that uniquely identifies it across versions, and its display name.
#[derive(Clone, Copy, Debug, PartialEq)]
pub struct RcMode {
    pub id: u8,
    pub permanent_id: u8,
    pub name: &'static str,
}

/// The id of each entry of the mode table.
pub const RC_MODE_IDS: [u8; 49] = [RcMode::ARM, RcMode::ANGLE, RcMode::HORIZON, RcMode::ALTITUDE_HOLD, RcMode::ANTIGRAVITY, RcMode::MAG, RcMode::HEADFREE, RcMode::HEADADJ, RcMode::CAMSTAB, RcMode::POSITION_HOLD, RcMode::PASSTHRU, RcMode::BEEPER_ON, RcMode::LED_LOW, RcMode::CALIBRATE, RcMode::OSD, RcMode::TELEMETRY, RcMode::SERVO1, RcMode::SERVO2, RcMode::SERVO3, RcMode::BLACKBOX, RcMode::FAILSAFE, RcMode::AIRMODE, RcMode::MODE_3D, RcMode::FPV_ANGLE_MIX, RcMode::BLACKBOX_ERASE, RcMode::CAMERA1, RcMode::CAMERA2, RcMode::CAMERA3, RcMode::CRASH_FLIP, RcMode::PREARM, RcMode::BEEP_GPS_COUNT, RcMode::VTX_PIT_MODE, RcMode::USER1, RcMode::USER2, RcMode::USER3, RcMode::USER4, RcMode::PID_AUDIO, RcMode::PARALYZE, RcMode::GPS_RESCUE, RcMode::ACRO_TRAINER, RcMode::VTX_CONTROL_DISABLE, RcMode::LAUNCH_CONTROL, RcMode::MSP_OVERRIDE, RcMode::STICK_COMMAND_DISABLE, RcMode::BEEPER_MUTE, RcMode::READY, RcMode::LAP_TIMER_RESET, RcMode::CHIRP, RcMode::AUTOPILOT];

/// The permanent id of each entry of the mode table.
/// Permanent ids must uniquely identify an `RcMode`: do not reuse them.
pub const RC_MODE_PERMANENT_IDS: [u8; 49] = [0, 1, 2, 3, 4, 5, 6, 7, 8, 11, 12, 13, 15, 17, 19, 20, 23, 24, 25, 26, 27, 28, 29, 30, 31, 32, 33, 34, 35, 36, 37, 39, 40, 41, 42, 43, 44, 45, 46, 47, 48, 49, 50, 51, 52, 53, 54, 55, 56];

/// The name of each entry of the mode table.
pub const RC_MODE_NAMES: [&'static str; 49] = ["ARM", "ANGLE", "HORIZON", "ALTHOLD", "ANTI GRAVITY", "MAG", "HEADFREE", "HEADADJ", "CAMSTAB", "POS HOLD", "PASSTHRU", "BEEPER", "LEDLOW", "CALIBRATE", "OSD DISABLE", "TELEMETRY", "SERVO1", "SERVO2", "SERVO3", "BLACK", "FAILSAFE", "AIR MODE", "3D DISABLE / SWITCH", "FPV ANGLE MIX", "BLACK ERASE", "CAMERA CONTROL 1", "CAMERA CONTROL 2", "CAMERA CONTROL 3", "FLIP OVER AFTER CRASH", "PREARM", "GPS BEEP SATELLITE COUNT", "VTX PIT MODE", "USER1", "USER2", "USER3", "USER4", "PID AUDIO", "PARALYZE", "GPS RESCUE", "ACRO TRAINER", "VTX CONTROL DISABLE", "LAUNCH CONTROL", "MSP OVERRIDE", "STICK COMMANDS DISABLE", "BEEPER MUTE", "READY", "LAP TIMER RESET", "CHIRP", "AUTOPILOT"];

/// Entry `i` of the mode table.
pub open spec fn rc_mode_table_entry(i: int) -> RcMode {
    RcMode { id: RC_MODE_IDS@[i], permanent_id: RC_MODE_PERMANENT_IDS@[i], name: RC_MODE_NAMES@[i] }
}

/// The table of known modes.
pub open spec fn rc_mode_table() -> Seq<RcMode> {
    Seq::new(49, |i: int| rc_mode_table_entry(i))
}

/// The mode of the table with id `id`, if any (ids are unique, see `lemma_rc_mode_ids_unique`).
#[verifier::opaque]
pub open spec fn rc_mode_with_id(id: u8) -> Option<RcMode> {
    if exists|i: int| 0 <= i < 49 && #[trigger] rc_mode_table_entry(i).id == id {
        Some(rc_mode_table_entry(choose|i: int| 0 <= i < 49 && #[trigger] rc_mode_table_entry(i).id == id))
    } else {
        None
    }
}

/// The mode of the table with permanent id `id`, if any (permanent ids are unique, see
/// `lemma_rc_mode_permanent_ids_unique`).
#[verifier::opaque]
pub open spec fn rc_mode_with_permanent_id(id: u8) -> Option<RcMode> {
    if exists|i: int| 0 <= i < 49 && #[trigger] rc_mode_table_entry(i).permanent_id == id {
        Some(
            rc_mode_table_entry(
                choose|i: int| 0 <= i < 49 && #[trigger] rc_mode_table_entry(i).permanent_id == id,
            ),
        )
    } else {
        None
    }
}

/// The table position of the mode with id `id` (for ids below 49).
pub open spec fn rc_mode_position_of_id(id: u8) -> int {
    match id {
        0 => 0,
        1 => 1,
        2 => 2,
        3 => 5,
        4 => 3,
        5 => 9,
        6 => 6,
        7 => 47,
        8 => 10,
        9 => 20,
        10 => 38,
        11 => 48,
        12 => 4,
        13 => 7,
        14 => 8,
        15 => 11,
        16 => 12,
        17 => 13,
        18 => 14,
        19 => 15,
        20 => 16,
        21 => 17,
        22 => 18,
        23 => 19,
        24 => 21,
        25 => 22,
        26 => 23,
        27 => 24,
        28 => 25,
        29 => 26,
        30 => 27,
        31 => 28,
        32 => 29,
        33 => 30,
        34 => 31,
        35 => 37,
        36 => 32,
        37 => 33,
        38 => 34,
        39 => 35,
        40 => 36,
        41 => 39,
        42 => 40,
        43 => 41,
        44 => 42,
        45 => 43,
        46 => 44,
        47 => 45,
        48 => 46,
        _ => -1,
    }
}

impl Default for RcMode {
    fn default() -> (r: Self)
        ensures
            r.id == 0,
            r.permanent_id == 0,
            r.name@ == Seq::<char>::empty(),
    {
        let r = RcMode { id: 0, permanent_id: 0, name: "" };
        proof {
            reveal_strlit("");
        }
        r
    }
}

impl RcMode {
    pub const ARM: u8 = 0;
    pub const ANGLE: u8 = 1;
    pub const HORIZON: u8 = 2;
    pub const MAG: u8 = 3;
    pub const ALTITUDE_HOLD: u8 = 4;
    pub const POSITION_HOLD: u8 = 5;
    pub const HEADFREE: u8 = 6;
    pub const CHIRP: u8 = 7;
    pub const PASSTHRU: u8 = 8;
    pub const FAILSAFE: u8 = 9;
    pub const GPS_RESCUE: u8 = 10;
    pub const AUTOPILOT: u8 = 11;
    pub const FLIGHTMODE_COUNT: u8 = 12;
    pub const ANTIGRAVITY: u8 = 12;
    pub const HEADADJ: u8 = 13;
    pub const CAMSTAB: u8 = 14;
    pub const BEEPER_ON: u8 = 15;
    pub const LED_LOW: u8 = 16;
    pub const CALIBRATE: u8 = 17;
    pub const OSD: u8 = 18;
    pub const TELEMETRY: u8 = 19;
    pub const SERVO1: u8 = 20;
    pub const SERVO2: u8 = 21;
    pub const SERVO3: u8 = 22;
    pub const BLACKBOX: u8 = 23;
    pub const AIRMODE: u8 = 24;
    pub const MODE_3D: u8 = 25;
    pub const FPV_ANGLE_MIX: u8 = 26;
    pub const BLACKBOX_ERASE: u8 = 27;
    pub const CAMERA1: u8 = 28;
    pub const CAMERA2: u8 = 29;
    pub const CAMERA3: u8 = 30;
    pub const CRASH_FLIP: u8 = 31;
    pub const PREARM: u8 = 32;
    pub const BEEP_GPS_COUNT: u8 = 33;
    pub const VTX_PIT_MODE: u8 = 34;
    pub const PARALYZE: u8 = 35;
    pub const USER1: u8 = 36;
    pub const USER2: u8 = 37;
    pub const USER3: u8 = 38;
    pub const USER4: u8 = 39;
    pub const PID_AUDIO: u8 = 40;
    pub const ACRO_TRAINER: u8 = 41;
    pub const VTX_CONTROL_DISABLE: u8 = 42;
    pub const LAUNCH_CONTROL: u8 = 43;
    pub const MSP_OVERRIDE: u8 = 44;
    pub const STICK_COMMAND_DISABLE: u8 = 45;
    pub const BEEPER_MUTE: u8 = 46;
    pub const READY: u8 = 47;
    pub const LAP_TIMER_RESET: u8 = 48;
    pub const COUNT: u8 = 49;
    pub const MAX_MODES_PER_PAGE: u8 = 32;
    pub const PERMANENT_ID_NONE: u8 = 255;

    /// Entry `index` of the mode table.
    pub fn rc_mode_at(index: usize) -> (r: RcMode)
        requires
            index < 49,
        ensures
            r == rc_mode_table_entry(index as int),
    {
        RcMode {
            id: RC_MODE_IDS[index],
            permanent_id: RC_MODE_PERMANENT_IDS[index],
            name: RC_MODE_NAMES[index],
        }
    }

    /// The table of known modes.
    pub fn rc_modes() -> (r: [RcMode; 49])
        ensures
            r@ == rc_mode_table(),
    {
        let mut table = [RcMode { id: 0, permanent_id: 0, name: "" }; 49];
        let mut i: usize = 0;
        while i < 49
            invariant
                i <= 49,
                table@.len() == 49,
                forall|j: int| 0 <= j < i ==> table@[j] == rc_mode_table_entry(j),
            decreases 49 - i,
        {
            table[i] = Self::rc_mode_at(i);
            i += 1;
        }
        assert(table@ =~= rc_mode_table());
        table
    }

    /// The first mode in the table with id `id`, if any.
    #[must_use]
    pub fn find_rc_mode_by_id(id: u8) -> (r: Option<RcMode>)
        ensures
            match r {
                Some(m) => exists|i: int|
                    0 <= i < 49 && #[trigger] rc_mode_table_entry(i) == m && m.id == id
                        && forall|j: int| 0 <= j < i ==> rc_mode_table_entry(j).id != id,
                None => forall|i: int| 0 <= i < 49 ==> #[trigger] rc_mode_table_entry(i).id != id,
            },
            r == rc_mode_with_id(id),
    {
        let mut i: usize = 0;
        while i < 49
            invariant
                i <= 49,
                forall|j: int| 0 <= j < i ==> #[trigger] rc_mode_table_entry(j).id != id,
            decreases 49 - i,
        {
            if RC_MODE_IDS[i] == id {
                let m = Self::rc_mode_at(i);
                assert(rc_mode_table_entry(i as int) == m);
                proof {
                    lemma_rc_mode_with_id_at(i as int);
                }
                return Some(m);
            }
            i += 1;
        }
        proof {
            reveal(rc_mode_with_id);
            reveal(rc_mode_with_permanent_id);
        }
        None
    }

    /// The first mode in the table with permanent id `id`, if any.
    #[must_use]
    pub fn find_rc_mode_by_permanent_id(id: u8) -> (r: Option<RcMode>)
        ensures
            match r {
                Some(m) => exists|i: int|
                    0 <= i < 49 && #[trigger] rc_mode_table_entry(i) == m && m.permanent_id == id
                        && forall|j: int| 0 <= j < i ==> rc_mode_table_entry(j).permanent_id != id,
                None => forall|i: int|
                    0 <= i < 49 ==> #[trigger] rc_mode_table_entry(i).permanent_id != id,
            },
            r == rc_mode_with_permanent_id(id),
    {
        let mut i: usize = 0;
        while i < 49
            invariant
                i <= 49,
                forall|j: int| 0 <= j < i ==> #[trigger] rc_mode_table_entry(j).permanent_id != id,
            decreases 49 - i,
        {
            if RC_MODE_PERMANENT_IDS[i] == id {
                let m = Self::rc_mode_at(i);
                assert(rc_mode_table_entry(i as int) == m);
                proof {
                    lemma_rc_mode_with_permanent_id_at(i as int);
                }
                return Some(m);
            }
            i += 1;
        }
        proof {
            reveal(rc_mode_with_id);
            reveal(rc_mode_with_permanent_id);
        }
        None
    }
}

/// Every mode id below `RcMode::COUNT` appears in the table at the position
/// `rc_mode_position_of_id` gives, so the ids of the table are distinct.
pub proof fn lemma_rc_mode_ids_positions()
    ensures
        forall|i: int| 0 <= i < 49 ==> rc_mode_position_of_id(#[trigger] RC_MODE_IDS@[i]) == i,
{
    assert(rc_mode_position_of_id(RC_MODE_IDS@[0]) == 0);
    assert(rc_mode_position_of_id(RC_MODE_IDS@[1]) == 1);
    assert(rc_mode_position_of_id(RC_MODE_IDS@[2]) == 2);
    assert(rc_mode_position_of_id(RC_MODE_IDS@[3]) == 3);
    assert(rc_mode_position_of_id(RC_MODE_IDS@[4]) == 4);
    assert(rc_mode_position_of_id(RC_MODE_IDS@[5]) == 5);
    assert(rc_mode_position_of_id(RC_MODE_IDS@[6]) == 6);
    assert(rc_mode_position_of_id(RC_MODE_IDS@[7]) == 7);
    assert(rc_mode_position_of_id(RC_MODE_IDS@[8]) == 8);
    assert(rc_mode_position_of_id(RC_MODE_IDS@[9]) == 9);
    assert(rc_mode_position_of_id(RC_MODE_IDS@[10]) == 10);
    assert(rc_mode_position_of_id(RC_MODE_IDS@[11]) == 11);
    assert(rc_mode_position_of_id(RC_MODE_IDS@[12]) == 12);
    assert(rc_mode_position_of_id(RC_MODE_IDS@[13]) == 13);
    assert(rc_mode_position_of_id(RC_MODE_IDS@[14]) == 14);
    assert(rc_mode_position_of_id(RC_MODE_IDS@[15]) == 15);
    assert(rc_mode_position_of_id(RC_MODE_IDS@[16]) == 16);
    assert(rc_mode_position_of_id(RC_MODE_IDS@[17]) == 17);
    assert(rc_mode_position_of_id(RC_MODE_IDS@[18]) == 18);
    assert(rc_mode_position_of_id(RC_MODE_IDS@[19]) == 19);
    assert(rc_mode_position_of_id(RC_MODE_IDS@[20]) == 20);
    assert(rc_mode_position_of_id(RC_MODE_IDS@[21]) == 21);
    assert(rc_mode_position_of_id(RC_MODE_IDS@[22]) == 22);
    assert(rc_mode_position_of_id(RC_MODE_IDS@[23]) == 23);
    assert(rc_mode_position_of_id(RC_MODE_IDS@[24]) == 24);
    assert(rc_mode_position_of_id(RC_MODE_IDS@[25]) == 25);
    assert(rc_mode_position_of_id(RC_MODE_IDS@[26]) == 26);
    assert(rc_mode_position_of_id(RC_MODE_IDS@[27]) == 27);
    assert(rc_mode_position_of_id(RC_MODE_IDS@[28]) == 28);
    assert(rc_mode_position_of_id(RC_MODE_IDS@[29]) == 29);
    assert(rc_mode_position_of_id(RC_MODE_IDS@[30]) == 30);
    assert(rc_mode_position_of_id(RC_MODE_IDS@[31]) == 31);
    assert(rc_mode_position_of_id(RC_MODE_IDS@[32]) == 32);
    assert(rc_mode_position_of_id(RC_MODE_IDS@[33]) == 33);
    assert(rc_mode_position_of_id(RC_MODE_IDS@[34]) == 34);
    assert(rc_mode_position_of_id(RC_MODE_IDS@[35]) == 35);
    assert(rc_mode_position_of_id(RC_MODE_IDS@[36]) == 36);
    assert(rc_mode_position_of_id(RC_MODE_IDS@[37]) == 37);
    assert(rc_mode_position_of_id(RC_MODE_IDS@[38]) == 38);
    assert(rc_mode_position_of_id(RC_MODE_IDS@[39]) == 39);
    assert(rc_mode_position_of_id(RC_MODE_IDS@[40]) == 40);
    assert(rc_mode_position_of_id(RC_MODE_IDS@[41]) == 41);
    assert(rc_mode_position_of_id(RC_MODE_IDS@[42]) == 42);
    assert(rc_mode_position_of_id(RC_MODE_IDS@[43]) == 43);
    assert(rc_mode_position_of_id(RC_MODE_IDS@[44]) == 44);
    assert(rc_mode_position_of_id(RC_MODE_IDS@[45]) == 45);
    assert(rc_mode_position_of_id(RC_MODE_IDS@[46]) == 46);
    assert(rc_mode_position_of_id(RC_MODE_IDS@[47]) == 47);
    assert(rc_mode_position_of_id(RC_MODE_IDS@[48]) == 48);
}

/// No two entries of the mode table share an id.
pub proof fn lemma_rc_mode_ids_unique(i: int, j: int)
    requires
        0 <= i < 49,
        0 <= j < 49,
        i != j,
    ensures
        rc_mode_table_entry(i).id != rc_mode_table_entry(j).id,
{
    lemma_rc_mode_ids_positions();
    assert(rc_mode_position_of_id(RC_MODE_IDS@[i]) == i);
    assert(rc_mode_position_of_id(RC_MODE_IDS@[j]) == j);
}

/// The permanent ids of the mode table are strictly increasing.
pub proof fn lemma_rc_mode_permanent_ids_increasing()
    ensures
        forall|i: int|
            0 <= i < 48 ==> #[trigger] rc_mode_table_entry(i).permanent_id < rc_mode_table_entry(
                i + 1,
            ).permanent_id,
{
    assert(RC_MODE_PERMANENT_IDS@[0] < RC_MODE_PERMANENT_IDS@[1]);
    assert(RC_MODE_PERMANENT_IDS@[1] < RC_MODE_PERMANENT_IDS@[2]);
    assert(RC_MODE_PERMANENT_IDS@[2] < RC_MODE_PERMANENT_IDS@[3]);
    assert(RC_MODE_PERMANENT_IDS@[3] < RC_MODE_PERMANENT_IDS@[4]);
    assert(RC_MODE_PERMANENT_IDS@[4] < RC_MODE_PERMANENT_IDS@[5]);
    assert(RC_MODE_PERMANENT_IDS@[5] < RC_MODE_PERMANENT_IDS@[6]);
    assert(RC_MODE_PERMANENT_IDS@[6] < RC_MODE_PERMANENT_IDS@[7]);
    assert(RC_MODE_PERMANENT_IDS@[7] < RC_MODE_PERMANENT_IDS@[8]);
    assert(RC_MODE_PERMANENT_IDS@[8] < RC_MODE_PERMANENT_IDS@[9]);
    assert(RC_MODE_PERMANENT_IDS@[9] < RC_MODE_PERMANENT_IDS@[10]);
    assert(RC_MODE_PERMANENT_IDS@[10] < RC_MODE_PERMANENT_IDS@[11]);
    assert(RC_MODE_PERMANENT_IDS@[11] < RC_MODE_PERMANENT_IDS@[12]);
    assert(RC_MODE_PERMANENT_IDS@[12] < RC_MODE_PERMANENT_IDS@[13]);
    assert(RC_MODE_PERMANENT_IDS@[13] < RC_MODE_PERMANENT_IDS@[14]);
    assert(RC_MODE_PERMANENT_IDS@[14] < RC_MODE_PERMANENT_IDS@[15]);
    assert(RC_MODE_PERMANENT_IDS@[15] < RC_MODE_PERMANENT_IDS@[16]);
    assert(RC_MODE_PERMANENT_IDS@[16] < RC_MODE_PERMANENT_IDS@[17]);
    assert(RC_MODE_PERMANENT_IDS@[17] < RC_MODE_PERMANENT_IDS@[18]);
    assert(RC_MODE_PERMANENT_IDS@[18] < RC_MODE_PERMANENT_IDS@[19]);
    assert(RC_MODE_PERMANENT_IDS@[19] < RC_MODE_PERMANENT_IDS@[20]);
    assert(RC_MODE_PERMANENT_IDS@[20] < RC_MODE_PERMANENT_IDS@[21]);
    assert(RC_MODE_PERMANENT_IDS@[21] < RC_MODE_PERMANENT_IDS@[22]);
    assert(RC_MODE_PERMANENT_IDS@[22] < RC_MODE_PERMANENT_IDS@[23]);
    assert(RC_MODE_PERMANENT_IDS@[23] < RC_MODE_PERMANENT_IDS@[24]);
    assert(RC_MODE_PERMANENT_IDS@[24] < RC_MODE_PERMANENT_IDS@[25]);
    assert(RC_MODE_PERMANENT_IDS@[25] < RC_MODE_PERMANENT_IDS@[26]);
    assert(RC_MODE_PERMANENT_IDS@[26] < RC_MODE_PERMANENT_IDS@[27]);
    assert(RC_MODE_PERMANENT_IDS@[27] < RC_MODE_PERMANENT_IDS@[28]);
    assert(RC_MODE_PERMANENT_IDS@[28] < RC_MODE_PERMANENT_IDS@[29]);
    assert(RC_MODE_PERMANENT_IDS@[29] < RC_MODE_PERMANENT_IDS@[30]);
    assert(RC_MODE_PERMANENT_IDS@[30] < RC_MODE_PERMANENT_IDS@[31]);
    assert(RC_MODE_PERMANENT_IDS@[31] < RC_MODE_PERMANENT_IDS@[32]);
    assert(RC_MODE_PERMANENT_IDS@[32] < RC_MODE_PERMANENT_IDS@[33]);
    assert(RC_MODE_PERMANENT_IDS@[33] < RC_MODE_PERMANENT_IDS@[34]);
    assert(RC_MODE_PERMANENT_IDS@[34] < RC_MODE_PERMANENT_IDS@[35]);
    assert(RC_MODE_PERMANENT_IDS@[35] < RC_MODE_PERMANENT_IDS@[36]);
    assert(RC_MODE_PERMANENT_IDS@[36] < RC_MODE_PERMANENT_IDS@[37]);
    assert(RC_MODE_PERMANENT_IDS@[37] < RC_MODE_PERMANENT_IDS@[38]);
    assert(RC_MODE_PERMANENT_IDS@[38] < RC_MODE_PERMANENT_IDS@[39]);
    assert(RC_MODE_PERMANENT_IDS@[39] < RC_MODE_PERMANENT_IDS@[40]);
    assert(RC_MODE_PERMANENT_IDS@[40] < RC_MODE_PERMANENT_IDS@[41]);
    assert(RC_MODE_PERMANENT_IDS@[41] < RC_MODE_PERMANENT_IDS@[42]);
    assert(RC_MODE_PERMANENT_IDS@[42] < RC_MODE_PERMANENT_IDS@[43]);
    assert(RC_MODE_PERMANENT_IDS@[43] < RC_MODE_PERMANENT_IDS@[44]);
    assert(RC_MODE_PERMANENT_IDS@[44] < RC_MODE_PERMANENT_IDS@[45]);
    assert(RC_MODE_PERMANENT_IDS@[45] < RC_MODE_PERMANENT_IDS@[46]);
    assert(RC_MODE_PERMANENT_IDS@[46] < RC_MODE_PERMANENT_IDS@[47]);
    assert(RC_MODE_PERMANENT_IDS@[47] < RC_MODE_PERMANENT_IDS@[48]);
    assert forall|i: int| 0 <= i < 48 implies #[trigger] rc_mode_table_entry(i).permanent_id
        < rc_mode_table_entry(i + 1).permanent_id by {
        assert(0 <= i < 48);
    }
}

/// A sequence that increases at every step is strictly increasing.
proof fn lemma_increasing_steps(s: Seq<u8>, i: int, j: int)
    requires
        0 <= i < j < s.len(),
        forall|k: int| 0 <= k < s.len() - 1 ==> #[trigger] s[k] < s[k + 1],
    ensures
        s[i] < s[j],
    decreases j - i,
{
    assert(s[j - 1] < s[j]);
    if j > i + 1 {
        lemma_increasing_steps(s, i, j - 1);
    }
}

/// No two entries of the mode table share a permanent id.
pub proof fn lemma_rc_mode_permanent_ids_unique(i: int, j: int)
    requires
        0 <= i < j < 49,
    ensures
        rc_mode_table_entry(i).permanent_id < rc_mode_table_entry(j).permanent_id,
{
    lemma_rc_mode_permanent_ids_increasing();
    let ps = Seq::new(49, |k: int| rc_mode_table_entry(k).permanent_id);
    assert forall|k: int| 0 <= k < ps.len() - 1 implies #[trigger] ps[k] < ps[k + 1] by {
        assert(rc_mode_table_entry(k).permanent_id < rc_mode_table_entry(k + 1).permanent_id);
    }
    lemma_increasing_steps(ps, i, j);
}

/// Looking entry `i` of the table up by its id gives entry `i`.
pub proof fn lemma_rc_mode_with_id_at(i: int)
    requires
        0 <= i < 49,
    ensures
        rc_mode_with_id(rc_mode_table_entry(i).id) == Some(rc_mode_table_entry(i)),
{
    reveal(rc_mode_with_id);
    let id = rc_mode_table_entry(i).id;
    assert(rc_mode_table_entry(i).id == id);
    let j = choose|j: int| 0 <= j < 49 && #[trigger] rc_mode_table_entry(j).id == id;
    if j != i {
        lemma_rc_mode_ids_unique(i, j);
    }
}

/// Looking entry `i` of the table up by its permanent id gives entry `i`.
pub proof fn lemma_rc_mode_with_permanent_id_at(i: int)
    requires
        0 <= i < 49,
    ensures
        rc_mode_with_permanent_id(rc_mode_table_entry(i).permanent_id) == Some(rc_mode_table_entry(i)),
{
    reveal(rc_mode_with_permanent_id);
    let id = rc_mode_table_entry(i).permanent_id;
    assert(rc_mode_table_entry(i).permanent_id == id);
    let j = choose|j: int| 0 <= j < 49 && #[trigger] rc_mode_table_entry(j).permanent_id == id;
    if j < i {
        lemma_rc_mode_permanent_ids_unique(j, i);
    } else if j > i {
        lemma_rc_mode_permanent_ids_unique(i, j);
    }
}

/// The two lookups agree: a mode found by its id is found again by its permanent id, and
/// every entry of the table is found by either.
pub proof fn lemma_rc_mode_lookups_round_trip(id: u8)
    ensures
        forall|i: int|
            0 <= i < 49 ==> rc_mode_with_id(#[trigger] rc_mode_table_entry(i).id) == Some(
                rc_mode_table_entry(i),
            ) && rc_mode_with_permanent_id(rc_mode_table_entry(i).permanent_id) == Some(
                rc_mode_table_entry(i),
            ),
        rc_mode_with_id(id) matches Some(m) ==> rc_mode_with_permanent_id(m.permanent_id) == Some(m),
{
    assert forall|i: int| 0 <= i < 49 implies rc_mode_with_id(#[trigger] rc_mode_table_entry(i).id)
        == Some(rc_mode_table_entry(i)) && rc_mode_with_permanent_id(
        rc_mode_table_entry(i).permanent_id,
    ) == Some(rc_mode_table_entry(i)) by {
        lemma_rc_mode_with_id_at(i);
        lemma_rc_mode_with_permanent_id_at(i);
    }
    reveal(rc_mode_with_id);
    if rc_mode_with_id(id) is Some {
        let i = choose|i: int| 0 <= i < 49 && #[trigger] rc_mode_table_entry(i).id == id;
        lemma_rc_mode_with_permanent_id_at(i);
    }
}

} // verus!
