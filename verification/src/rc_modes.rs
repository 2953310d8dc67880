//! Mode activation conditions (MACs): which flight modes are switched on by which
//! auxiliary channel ranges.
use vstd::prelude::*;
use simple_bitset::BitSet64;
use crate::rc_mode::RcMode;
use crate::rx_channel::{RxChannel, pwm_to_step_spec, range_active_spec, step_to_pwm_spec};
use crate::rx_frame::RxChannelsLinkStatus;

verus! {

// ---- simple_bitset::BitSet64, an outside 64-bit set type ----

#[verifier::external_type_specification]
#[verifier::external_body]
pub struct ExBitSet64(BitSet64);

/// The indices whose bit is set in `b`.
pub uninterp spec fn bitset64_members(b: BitSet64) -> Set<u8>;

/// `s` with `i` added, when `i` is a valid bit index (below 64).
pub open spec fn bit_insert(s: Set<u8>, i: u8) -> Set<u8> {
    if i < 64 {
        s.insert(i)
    } else {
        s
    }
}

/// `s` with `i` removed, when `i` is a valid bit index (below 64).
pub open spec fn bit_remove(s: Set<u8>, i: u8) -> Set<u8> {
    if i < 64 {
        s.remove(i)
    } else {
        s
    }
}

/// Elements in exactly one of `a` and `b`.
pub open spec fn symmetric_difference(a: Set<u8>, b: Set<u8>) -> Set<u8> {
    a.difference(b).union(b.difference(a))
}

/// Calls `BitSet64::new`; the bitset it returns has no bit set.
#[verifier::external_body]
fn bitset_new() -> (r: BitSet64)
    ensures
        bitset64_members(r) == Set::<u8>::empty(),
{
    BitSet64::new()
}

/// Calls `BitSet64::test`: whether bit `index` is set; always false for an index of 64
/// or more.
#[verifier::external_body]
fn bitset_test(b: &BitSet64, index: u8) -> (r: bool)
    ensures
        r == bitset64_members(*b).contains(index),
        r ==> index < 64,
{
    b.test(index)
}

/// Calls `BitSet64::set`: sets bit `index`; does nothing for an index of 64 or more.
#[verifier::external_body]
fn bitset_set(b: &mut BitSet64, index: u8)
    ensures
        bitset64_members(*final(b)) == bit_insert(bitset64_members(*old(b)), index),
{
    b.set(index)
}

/// Calls `BitSet64::reset`: clears bit `index`; does nothing for an index of 64 or more.
#[verifier::external_body]
fn bitset_reset(b: &mut BitSet64, index: u8)
    ensures
        bitset64_members(*final(b)) == bit_remove(bitset64_members(*old(b)), index),
{
    b.reset(index)
}

/// Calls `BitXor::bitxor` of `BitSet64`: the bits set in exactly one of `a` and `b`.
#[verifier::external_body]
fn bitset_xor(a: BitSet64, b: BitSet64) -> (r: BitSet64)
    ensures
        bitset64_members(r) == symmetric_difference(bitset64_members(a), bitset64_members(b)),
{
    a ^ b
}

// ---- channel ranges ----

/// A range of PWM steps (see `crate::rx_channel::RxChannelRange`) on which a mode
/// activation condition is active.
#[derive(Clone, Copy, Debug, PartialEq, Eq, Structural)]
pub struct RxChannelRange {
    pub start: u8,
    pub end: u8,
}

impl Default for RxChannelRange {
    fn default() -> (r: Self)
        ensures
            r == (RxChannelRange { start: 0, end: 0 }),
    {
        Self::new()
    }
}

impl RxChannelRange {
    pub const MIN: u16 = 900;
    pub const MID: u16 = 1500;
    pub const MAX: u16 = 2100;

    pub const STEP: u16 = 25;
    pub const STEP_MIN: u16 = 0;
    pub const STEP_MID: u16 = 24;
    pub const STEP_MAX: u16 = 48;

    /// Constructor.
    #[must_use]
    pub fn new() -> (r: Self)
        ensures
            r == (RxChannelRange { start: 0, end: 0 }),
    {
        Self { start: 0, end: 0 }
    }

    /// Construct from PWM values; an end below the start is raised to the start.
    #[must_use]
    pub fn from_pwm(pwm_start: u16, pwm_end: u16) -> (r: Self)
        ensures
            r.start == pwm_to_step_spec(pwm_start),
            r.end == pwm_to_step_spec(if pwm_end >= pwm_start { pwm_end } else { pwm_start }),
    {
        Self {
            start: Self::pwm_to_step(pwm_start),
            end: Self::pwm_to_step(if pwm_end >= pwm_start { pwm_end } else { pwm_start }),
        }
    }

    #[must_use]
    pub fn step_to_pwm(step: u8) -> (r: u16)
        ensures
            r == step_to_pwm_spec(step),
    {
        Self::MIN + Self::STEP * (step as u16)
    }

    #[must_use]
    pub fn pwm_to_step(pwm: u16) -> (r: u8)
        ensures
            r == pwm_to_step_spec(pwm),
            r <= 48,
    {
        let clamped = if pwm < Self::MIN {
            Self::MIN
        } else if pwm > Self::MAX {
            Self::MAX
        } else {
            pwm
        };
        ((clamped - Self::MIN) / Self::STEP) as u8
    }

    /// Sets the range from PWM values; ignored unless `pwm_end > pwm_start`.
    pub fn set(&mut self, pwm_start: u16, pwm_end: u16)
        ensures
            pwm_end > pwm_start ==> final(self).start == pwm_to_step_spec(pwm_start)
                && final(self).end == pwm_to_step_spec(pwm_end),
            pwm_end <= pwm_start ==> *final(self) == *old(self),
    {
        if pwm_end > pwm_start {
            self.start = Self::pwm_to_step(pwm_start);
            self.end = Self::pwm_to_step(pwm_end);
        }
    }

    /// The PWM values at the edges of the range.
    #[must_use]
    pub fn pwm_range(&self) -> (r: (u16, u16))
        ensures
            r == (step_to_pwm_spec(self.start), step_to_pwm_spec(self.end)),
    {
        (Self::step_to_pwm(self.start), Self::step_to_pwm(self.end))
    }

    #[must_use]
    pub fn is_range_active(channel_value: u16, start: u8, end: u8) -> (r: bool)
        ensures
            r == range_active_spec(channel_value, start, end),
    {
        channel_value >= Self::MIN + (start as u16) * Self::STEP && channel_value < Self::MIN
            + (end as u16) * Self::STEP
    }

    /// Whether the value of channel `aux_channel_index` of `rx_frame` lies in this range.
    #[must_use]
    pub fn is_active(&self, rx_frame: &RxChannelsLinkStatus, aux_channel_index: u8) -> (r: bool)
        ensures
            r == range_active_spec(rx_frame.channel_spec(aux_channel_index), self.start, self.end),
            aux_channel_index < 16 ==> r == (900 + 25 * self.start <= rx_frame.channels@[aux_channel_index as int]
                < 900 + 25 * self.end),
    {
        let channel_value: u16 = rx_frame.channel(aux_channel_index);
        Self::is_range_active(channel_value, self.start, self.end)
    }
}

// ---- mode activation conditions ----

/// Mode Activation Condition (MAC): mode `mode_id` is (de)activated when auxiliary channel
/// `aux_channel_index` is in `range`. `mode_logic` 1 means AND, anything else OR;
/// a non-zero `linked_to` links the condition to the state of another mode.
#[derive(Clone, Copy, Debug, PartialEq, Eq, Structural)]
pub struct ModeActivationCondition {
    pub range: RxChannelRange,
    pub mode_id: u8,
    pub aux_channel_index: u8,
    pub mode_logic: u8,
    pub linked_to: u8,
}

/// The all-zero, unconfigured condition.
pub open spec fn empty_mac() -> ModeActivationCondition {
    ModeActivationCondition {
        range: RxChannelRange { start: 0, end: 0 },
        mode_id: 0,
        aux_channel_index: 0,
        mode_logic: 0,
        linked_to: 0,
    }
}

/// Whether `mac`'s channel range is active in `frame`.
pub open spec fn mac_range_active(mac: ModeActivationCondition, frame: RxChannelsLinkStatus) -> bool {
    range_active_spec(frame.channel_spec(mac.aux_channel_index), mac.range.start, mac.range.end)
}


/// A condition on any of the sixteen channels reads that channel's own value: it is active
/// exactly when the value lies in `[900 + 25 * start, 900 + 25 * end)`. A condition on an
/// index past the last channel reads `RxChannel::LOW`.
pub proof fn lemma_mac_reads_its_channel(mac: ModeActivationCondition, frame: RxChannelsLinkStatus)
    ensures
        mac.aux_channel_index < 16 ==> (mac_range_active(mac, frame) <==> 900 + 25 * mac.range.start
            <= frame.channels@[mac.aux_channel_index as int] < 900 + 25 * mac.range.end),
        mac.aux_channel_index >= 16 ==> (mac_range_active(mac, frame) <==> 900 + 25 * mac.range.start
            <= 1000 < 900 + 25 * mac.range.end),
{
}

impl Default for ModeActivationCondition {
    fn default() -> (r: Self)
        ensures
            r == empty_mac(),
    {
        Self::new()
    }
}

impl ModeActivationCondition {
    /// Constructor: the all-zero condition.
    #[must_use]
    pub fn new() -> (r: Self)
        ensures
            r == empty_mac(),
    {
        Self {
            range: RxChannelRange::new(),
            mode_id: 0,
            aux_channel_index: 0,
            mode_logic: 0,
            linked_to: 0,
        }
    }

    /// Constructor: an OR condition, not linked.
    #[must_use]
    pub fn from_range_mode_channel(range: RxChannelRange, mode_id: u8, aux_channel_index: u8) -> (r: Self)
        ensures
            r == (ModeActivationCondition {
                range,
                mode_id,
                aux_channel_index,
                mode_logic: 0,
                linked_to: 0,
            }),
    {
        Self { range, mode_id, aux_channel_index, mode_logic: 0, linked_to: 0 }
    }

    /// Sets `range`, `mode_id`, and `aux_channel_index`.
    pub fn set(&mut self, range: RxChannelRange, mode_id: u8, aux_channel_index: u8)
        ensures
            *final(self) == (ModeActivationCondition { range, mode_id, aux_channel_index, ..*old(self) }),
    {
        self.range = range;
        self.mode_id = mode_id;
        self.aux_channel_index = aux_channel_index;
    }

    /// Whether the condition's channel range is active in `rx_frame`.
    #[must_use]
    pub fn is_active(&self, rx_frame: &RxChannelsLinkStatus) -> (r: bool)
        ensures
            r == mac_range_active(*self, *rx_frame),
    {
        self.range.is_active(rx_frame, self.aux_channel_index)
    }
}

// ---- mode activation ----

/// The masks built while evaluating conditions, per mode (see `RcModes::update_activated_modes`):
/// `and` and `new` sets of mode ids.
pub struct ModeMasks {
    pub and: Set<u8>,
    pub new: Set<u8>,
}

/// Update of the masks by one condition whose range is (or is not) active.
///
/// The possible logic states of a mode at each update are:
///     AND     NEW
///     ---     ---
///      F       F      - no previous AND conditions evaluated, no previous active OR condition.
///      F       T      - at least 1 previous active OR condition (this state is latched).
///      T       F      - all previous AND conditions active, no previous active OR condition.
///      T       T      - at least 1 previous inactive AND condition, no previous active OR condition.
pub open spec fn mac_update_spec(mac: ModeActivationCondition, masks: ModeMasks, range_is_active: bool) -> ModeMasks {
    let m = mac.mode_id;
    if masks.and.contains(m) || !masks.new.contains(m) {
        if mac.mode_logic == 1 {
            ModeMasks {
                and: bit_insert(masks.and, m),
                new: if !range_is_active {
                    bit_insert(masks.new, m)
                } else {
                    masks.new
                },
            }
        } else if range_is_active {
            ModeMasks { and: bit_remove(masks.and, m), new: bit_insert(masks.new, m) }
        } else {
            masks
        }
    } else {
        masks
    }
}

/// Update of the masks by a condition on a sticky mode: a mode that was active stays active;
/// otherwise the condition counts only once the mode has been seen disabled.
pub open spec fn sticky_update_spec(
    mac: ModeActivationCondition,
    masks: ModeMasks,
    active_modes: Set<u8>,
    ever_disabled: Set<u8>,
    range_is_active: bool,
) -> ModeMasks {
    let m = mac.mode_id;
    if active_modes.contains(m) {
        ModeMasks { and: bit_remove(masks.and, m), new: bit_insert(masks.new, m) }
    } else if ever_disabled.contains(m) {
        mac_update_spec(mac, masks, range_is_active)
    } else {
        masks
    }
}

/// Update of the masks by one (non-linked) condition: conditions on the sticky mode
/// `PARALYZE` use the sticky update, conditions on other known modes (below
/// `RcMode::COUNT`) the plain update; conditions on unknown modes are ignored.
pub open spec fn activation_step(
    mac: ModeActivationCondition,
    masks: ModeMasks,
    frame: RxChannelsLinkStatus,
    active_modes: Set<u8>,
    ever_disabled: Set<u8>,
) -> ModeMasks {
    if mac.mode_id == 35 {
        sticky_update_spec(mac, masks, active_modes, ever_disabled, mac_range_active(mac, frame))
    } else if mac.mode_id < 49 {
        mac_update_spec(mac, masks, mac_range_active(mac, frame))
    } else {
        masks
    }
}

/// The masks after evaluating the first `n` conditions of `macs`, starting from empty masks.
pub open spec fn activation_masks(
    macs: Seq<ModeActivationCondition>,
    n: nat,
    frame: RxChannelsLinkStatus,
    active_modes: Set<u8>,
    ever_disabled: Set<u8>,
) -> ModeMasks
    decreases n,
{
    if n == 0 {
        ModeMasks { and: Set::empty(), new: Set::empty() }
    } else {
        activation_step(
            macs[n - 1],
            activation_masks(macs, (n - 1) as nat, frame, active_modes, ever_disabled),
            frame,
            active_modes,
            ever_disabled,
        )
    }
}

/// Update of the masks by a linked condition: its "range" is active when the mode it is
/// linked to is currently active.
pub open spec fn linked_step(mac: ModeActivationCondition, masks: ModeMasks) -> ModeMasks {
    mac_update_spec(
        mac,
        masks,
        masks.and.contains(mac.linked_to) != masks.new.contains(mac.linked_to),
    )
}

/// The masks after applying the first `n` conditions of `macs` as linked conditions to `start`.
pub open spec fn linked_masks(macs: Seq<ModeActivationCondition>, n: nat, start: ModeMasks) -> ModeMasks
    decreases n,
{
    if n == 0 {
        start
    } else {
        linked_step(macs[n - 1], linked_masks(macs, (n - 1) as nat, start))
    }
}

/// The modes a set of masks makes active: those in exactly one of `and` and `new`.
pub open spec fn masks_active_modes(masks: ModeMasks) -> Set<u8> {
    symmetric_difference(masks.new, masks.and)
}

/// The conditions of `macs` at the indices listed in `indices`, in the order listed.
pub open spec fn macs_at(macs: Seq<ModeActivationCondition>, indices: Seq<u8>) -> Seq<ModeActivationCondition> {
    indices.map_values(|i: u8| macs[i as int])
}

/// The set of active modes after an update: the first `active_count` conditions of `active`
/// are evaluated against `frame`, then the first `linked_count` conditions of `linked` are
/// applied as linked conditions.
pub open spec fn activated_modes_spec(
    active: Seq<ModeActivationCondition>,
    active_count: nat,
    linked: Seq<ModeActivationCondition>,
    linked_count: nat,
    frame: RxChannelsLinkStatus,
    active_modes: Set<u8>,
    ever_disabled: Set<u8>,
) -> Set<u8> {
    masks_active_modes(
        linked_masks(
            linked,
            linked_count,
            activation_masks(active, active_count, frame, active_modes, ever_disabled),
        ),
    )
}

/// Whether a condition is configured, that is, differs from the all-zero condition.
pub open spec fn is_mac_configured_spec(mac: ModeActivationCondition) -> bool {
    mac != empty_mac()
}

/// The indices `i < n` of the linked conditions (`linked_to != 0`), in order.
pub open spec fn linked_mac_indices(macs: Seq<ModeActivationCondition>, n: nat) -> Seq<u8>
    decreases n,
{
    if n == 0 {
        seq![]
    } else if macs[n - 1].linked_to != 0 {
        linked_mac_indices(macs, (n - 1) as nat).push((n - 1) as u8)
    } else {
        linked_mac_indices(macs, (n - 1) as nat)
    }
}

/// The indices `i < n` of the configured, non-linked conditions, in order.
pub open spec fn active_mac_indices(macs: Seq<ModeActivationCondition>, n: nat) -> Seq<u8>
    decreases n,
{
    if n == 0 {
        seq![]
    } else if macs[n - 1].linked_to == 0 && is_mac_configured_spec(macs[n - 1]) {
        active_mac_indices(macs, (n - 1) as nat).push((n - 1) as u8)
    } else {
        active_mac_indices(macs, (n - 1) as nat)
    }
}

proof fn lemma_mac_indices_len(macs: Seq<ModeActivationCondition>, n: nat)
    ensures
        linked_mac_indices(macs, n).len() + active_mac_indices(macs, n).len() <= n,
    decreases n,
{
    if n > 0 {
        lemma_mac_indices_len(macs, (n - 1) as nat);
    }
}

/// The active index list names exactly the configured non-linked conditions below `n`.
proof fn lemma_active_mac_indices_exact(macs: Seq<ModeActivationCondition>, n: nat)
    requires
        n <= 20,
    ensures
        forall|k: int|
            0 <= k < active_mac_indices(macs, n).len() ==> {
                let s = #[trigger] active_mac_indices(macs, n)[k];
                &&& s < n
                &&& macs[s as int].linked_to == 0
                &&& is_mac_configured_spec(macs[s as int])
            },
        forall|s: int|
            0 <= s < n && (#[trigger] macs[s]).linked_to == 0 && is_mac_configured_spec(macs[s])
                ==> active_mac_indices(macs, n).contains(s as u8),
    decreases n,
{
    if n > 0 {
        lemma_active_mac_indices_exact(macs, (n - 1) as nat);
        let prev = active_mac_indices(macs, (n - 1) as nat);
        if macs[n - 1].linked_to == 0 && is_mac_configured_spec(macs[n - 1]) {
            let cur = prev.push((n - 1) as u8);
            assert forall|s: int|
                0 <= s < n && (#[trigger] macs[s]).linked_to == 0 && is_mac_configured_spec(macs[s])
                    implies cur.contains(s as u8) by {
                if s < n - 1 {
                    let k = choose|k: int| 0 <= k < prev.len() && prev[k] == s as u8;
                    assert(cur[k] == s as u8);
                } else {
                    assert(cur[prev.len() as int] == s as u8);
                }
            }
        }
    }
}

/// The linked index list names exactly the linked conditions below `n`.
proof fn lemma_linked_mac_indices_exact(macs: Seq<ModeActivationCondition>, n: nat)
    requires
        n <= 20,
    ensures
        forall|k: int|
            0 <= k < linked_mac_indices(macs, n).len() ==> {
                let s = #[trigger] linked_mac_indices(macs, n)[k];
                &&& s < n
                &&& macs[s as int].linked_to != 0
            },
        forall|s: int|
            0 <= s < n && (#[trigger] macs[s]).linked_to != 0 ==> linked_mac_indices(macs, n).contains(
                s as u8,
            ),
    decreases n,
{
    if n > 0 {
        lemma_linked_mac_indices_exact(macs, (n - 1) as nat);
        let prev = linked_mac_indices(macs, (n - 1) as nat);
        if macs[n - 1].linked_to != 0 {
            let cur = prev.push((n - 1) as u8);
            assert forall|s: int| 0 <= s < n && (#[trigger] macs[s]).linked_to != 0 implies cur.contains(
                s as u8,
            ) by {
                if s < n - 1 {
                    let k = choose|k: int| 0 <= k < prev.len() && prev[k] == s as u8;
                    assert(cur[k] == s as u8);
                } else {
                    assert(cur[prev.len() as int] == s as u8);
                }
            }
        }
    }
}

/// After `analyze_macs`, an update evaluates exactly the configured non-linked conditions
/// (each once, in slot order), then applies exactly the linked conditions: every listed
/// index names such a condition, every such condition is listed, and every listed index is
/// a valid slot, so `update_activated_modes` may be called.
pub proof fn lemma_analyzed_lists_name_used_macs(r: RcModes)
    requires
        macs_analyzed(r),
    ensures
        r.active_mac_count <= 20,
        r.linked_mac_count <= 20,
        forall|k: int|
            0 <= k < r.active_mac_count ==> {
                let s = #[trigger] r.active_macs@[k];
                &&& s < 20
                &&& r.macs@[s as int].linked_to == 0
                &&& is_mac_configured_spec(r.macs@[s as int])
            },
        forall|k: int|
            0 <= k < r.linked_mac_count ==> {
                let s = #[trigger] r.linked_macs@[k];
                &&& s < 20
                &&& r.macs@[s as int].linked_to != 0
            },
        forall|s: int|
            0 <= s < 20 && (#[trigger] r.macs@[s]).linked_to == 0 && is_mac_configured_spec(r.macs@[s])
                ==> exists|k: int| 0 <= k < r.active_mac_count && r.active_macs@[k] == s as u8,
        forall|s: int|
            0 <= s < 20 && (#[trigger] r.macs@[s]).linked_to != 0 ==> exists|k: int|
                0 <= k < r.linked_mac_count && r.linked_macs@[k] == s as u8,
{
    let macs = r.macs@;
    lemma_mac_indices_len(macs, 20);
    lemma_active_mac_indices_exact(macs, 20);
    lemma_linked_mac_indices_exact(macs, 20);
    let act = active_mac_indices(macs, 20);
    let lnk = linked_mac_indices(macs, 20);
    assert forall|k: int| 0 <= k < r.active_mac_count implies #[trigger] r.active_macs@[k] == act[k] by {
        assert(r.active_macs@.take(r.active_mac_count as int)[k] == r.active_macs@[k]);
    }
    assert forall|k: int| 0 <= k < r.linked_mac_count implies #[trigger] r.linked_macs@[k] == lnk[k] by {
        assert(r.linked_macs@.take(r.linked_mac_count as int)[k] == r.linked_macs@[k]);
    }
    assert forall|s: int|
        0 <= s < 20 && (#[trigger] macs[s]).linked_to == 0 && is_mac_configured_spec(macs[s])
            implies exists|k: int| 0 <= k < r.active_mac_count && r.active_macs@[k] == s as u8 by {
        let k = choose|k: int| 0 <= k < act.len() && act[k] == s as u8;
        assert(r.active_macs@[k] == act[k]);
    }
    assert forall|s: int| 0 <= s < 20 && (#[trigger] macs[s]).linked_to != 0 implies exists|k: int|
        0 <= k < r.linked_mac_count && r.linked_macs@[k] == s as u8 by {
        let k = choose|k: int| 0 <= k < lnk.len() && lnk[k] == s as u8;
        assert(r.linked_macs@[k] == lnk[k]);
    }
}

/// Some OR condition (logic other than AND) for mode `m` among the first `n` conditions has
/// its range active in `frame`.
pub open spec fn some_or_condition_active(
    macs: Seq<ModeActivationCondition>,
    n: nat,
    frame: RxChannelsLinkStatus,
    m: u8,
) -> bool {
    exists|i: int|
        0 <= i < n && (#[trigger] macs[i]).mode_id == m && macs[i].mode_logic != 1 && mac_range_active(
            macs[i],
            frame,
        )
}

/// There is an AND condition for mode `m` among the first `n` conditions.
pub open spec fn has_and_condition(macs: Seq<ModeActivationCondition>, n: nat, m: u8) -> bool {
    exists|i: int| 0 <= i < n && (#[trigger] macs[i]).mode_id == m && macs[i].mode_logic == 1
}

/// Every AND condition for mode `m` among the first `n` conditions has its range active in
/// `frame`.
pub open spec fn all_and_conditions_active(
    macs: Seq<ModeActivationCondition>,
    n: nat,
    frame: RxChannelsLinkStatus,
    m: u8,
) -> bool {
    forall|i: int|
        0 <= i < n && (#[trigger] macs[i]).mode_id == m && macs[i].mode_logic == 1 ==> mac_range_active(
            macs[i],
            frame,
        )
}

proof fn lemma_activation_masks_per_mode(
    macs: Seq<ModeActivationCondition>,
    n: nat,
    frame: RxChannelsLinkStatus,
    active_modes: Set<u8>,
    ever_disabled: Set<u8>,
    m: u8,
)
    requires
        n <= macs.len(),
        m < 49,
        m != 35,
    ensures
        ({
            let masks = activation_masks(macs, n, frame, active_modes, ever_disabled);
            &&& some_or_condition_active(macs, n, frame, m) ==> !masks.and.contains(m)
                && masks.new.contains(m)
            &&& !some_or_condition_active(macs, n, frame, m) ==> masks.and.contains(m)
                == has_and_condition(macs, n, m) && masks.new.contains(m) == (has_and_condition(
                macs,
                n,
                m,
            ) && !all_and_conditions_active(macs, n, frame, m))
        }),
    decreases n,
{
    if n > 0 {
        let k = (n - 1) as nat;
        lemma_activation_masks_per_mode(macs, k, frame, active_modes, ever_disabled, m);
        let mac = macs[k as int];
        let prev = activation_masks(macs, k, frame, active_modes, ever_disabled);
        let cur = activation_masks(macs, n, frame, active_modes, ever_disabled);
        assert(cur == activation_step(mac, prev, frame, active_modes, ever_disabled));
        if mac.mode_id != m {
            assert(cur.and.contains(m) == prev.and.contains(m));
            assert(cur.new.contains(m) == prev.new.contains(m));
            if some_or_condition_active(macs, n, frame, m) {
                let i = choose|i: int|
                    0 <= i < n && (#[trigger] macs[i]).mode_id == m && macs[i].mode_logic != 1
                        && mac_range_active(macs[i], frame);
                assert(i < k);
                assert(some_or_condition_active(macs, k, frame, m));
            }
            if has_and_condition(macs, n, m) {
                let i = choose|i: int|
                    0 <= i < n && (#[trigger] macs[i]).mode_id == m && macs[i].mode_logic == 1;
                assert(i < k);
                assert(has_and_condition(macs, k, m));
            }
            if has_and_condition(macs, k, m) {
                let i = choose|i: int|
                    0 <= i < k && (#[trigger] macs[i]).mode_id == m && macs[i].mode_logic == 1;
                assert(has_and_condition(macs, n, m));
            }
            if some_or_condition_active(macs, k, frame, m) {
                let i = choose|i: int|
                    0 <= i < k && (#[trigger] macs[i]).mode_id == m && macs[i].mode_logic != 1
                        && mac_range_active(macs[i], frame);
                assert(some_or_condition_active(macs, n, frame, m));
            }
            assert(all_and_conditions_active(macs, n, frame, m) == all_and_conditions_active(
                macs,
                k,
                frame,
                m,
            )) by {
                if all_and_conditions_active(macs, k, frame, m) {
                    assert forall|i: int|
                        0 <= i < n && (#[trigger] macs[i]).mode_id == m && macs[i].mode_logic
                            == 1 implies mac_range_active(macs[i], frame) by {
                        assert(i < k);
                    }
                }
            }
        } else {
            let active = mac_range_active(mac, frame);
            if some_or_condition_active(macs, k, frame, m) {
                let i = choose|i: int|
                    0 <= i < k && (#[trigger] macs[i]).mode_id == m && macs[i].mode_logic != 1
                        && mac_range_active(macs[i], frame);
                assert(some_or_condition_active(macs, n, frame, m));
            } else if mac.mode_logic == 1 {
                assert(has_and_condition(macs, n, m)) by {
                    assert(macs[k as int].mode_id == m);
                }
                assert(!some_or_condition_active(macs, n, frame, m)) by {
                    if some_or_condition_active(macs, n, frame, m) {
                        let i = choose|i: int|
                            0 <= i < n && (#[trigger] macs[i]).mode_id == m && macs[i].mode_logic
                                != 1 && mac_range_active(macs[i], frame);
                        assert(i < k);
                    }
                }
                if !has_and_condition(macs, k, m) {
                    assert(all_and_conditions_active(macs, k, frame, m)) by {
                        assert forall|i: int|
                            0 <= i < k && (#[trigger] macs[i]).mode_id == m && macs[i].mode_logic
                                == 1 implies mac_range_active(macs[i], frame) by {
                            assert(has_and_condition(macs, k, m));
                        }
                    }
                }
                if all_and_conditions_active(macs, k, frame, m) && active {
                    assert forall|i: int|
                        0 <= i < n && (#[trigger] macs[i]).mode_id == m && macs[i].mode_logic
                            == 1 implies mac_range_active(macs[i], frame) by {
                        if i < k {
                        }
                    }
                }
                if !all_and_conditions_active(macs, k, frame, m) {
                    let i = choose|i: int|
                        !(0 <= i < k && (#[trigger] macs[i]).mode_id == m && macs[i].mode_logic
                            == 1 ==> mac_range_active(macs[i], frame));
                    assert(!all_and_conditions_active(macs, n, frame, m));
                }
                if !active {
                    assert(!all_and_conditions_active(macs, n, frame, m)) by {
                        assert(macs[k as int].mode_id == m);
                    }
                }
            } else {
                if active {
                    assert(some_or_condition_active(macs, n, frame, m)) by {
                        assert(macs[k as int].mode_id == m);
                    }
                } else {
                    assert(!some_or_condition_active(macs, n, frame, m)) by {
                        if some_or_condition_active(macs, n, frame, m) {
                            let i = choose|i: int|
                                0 <= i < n && (#[trigger] macs[i]).mode_id == m
                                    && macs[i].mode_logic != 1 && mac_range_active(macs[i], frame);
                            assert(i < k);
                        }
                    }
                    assert(has_and_condition(macs, n, m) == has_and_condition(macs, k, m)) by {
                        if has_and_condition(macs, n, m) {
                            let i = choose|i: int|
                                0 <= i < n && (#[trigger] macs[i]).mode_id == m
                                    && macs[i].mode_logic == 1;
                            assert(i < k);
                        }
                    }
                    assert(all_and_conditions_active(macs, n, frame, m) == all_and_conditions_active(
                        macs,
                        k,
                        frame,
                        m,
                    )) by {
                        if all_and_conditions_active(macs, k, frame, m) {
                            assert forall|i: int|
                                0 <= i < n && (#[trigger] macs[i]).mode_id == m
                                    && macs[i].mode_logic == 1 implies mac_range_active(
                                macs[i],
                                frame,
                            ) by {
                                assert(i < k);
                            }
                        }
                    }
                }
            }
        }
    }
}

/// How a mode is decided by its (non-linked) activation conditions, whatever their order:
/// with no linked conditions, and `macs` the conditions evaluated (those that the list of
/// used indices names), a known mode (below `RcMode::COUNT`, other than the sticky mode
/// `PARALYZE`) is active after an update exactly when one of its OR conditions has its range
/// active, or it has AND conditions and all of them have their ranges active.
pub proof fn lemma_mode_active_iff_conditions(
    macs: Seq<ModeActivationCondition>,
    active_count: nat,
    frame: RxChannelsLinkStatus,
    active_modes: Set<u8>,
    ever_disabled: Set<u8>,
    m: u8,
)
    requires
        active_count <= macs.len(),
        m < 49,
        m != 35,
    ensures
        activated_modes_spec(macs, active_count, Seq::empty(), 0, frame, active_modes, ever_disabled).contains(m)
            <==> (some_or_condition_active(macs, active_count, frame, m) || (has_and_condition(
            macs,
            active_count,
            m,
        ) && all_and_conditions_active(macs, active_count, frame, m))),
{
    lemma_activation_masks_per_mode(macs, active_count, frame, active_modes, ever_disabled, m);
}

/// The sticky mode `PARALYZE` stays active: with no linked conditions, if it was active
/// and a condition on it is evaluated, it is still active after the update.
pub proof fn lemma_sticky_mode_stays_active(
    macs: Seq<ModeActivationCondition>,
    active_count: nat,
    frame: RxChannelsLinkStatus,
    active_modes: Set<u8>,
    ever_disabled: Set<u8>,
    i: int,
)
    requires
        active_count <= macs.len(),
        0 <= i < active_count,
        macs[i].mode_id == 35,
        active_modes.contains(35u8),
    ensures
        activated_modes_spec(macs, active_count, Seq::empty(), 0, frame, active_modes, ever_disabled).contains(
            35u8,
        ),
    decreases active_count,
{
    lemma_sticky_latched(macs, active_count, frame, active_modes, ever_disabled, i);
}

proof fn lemma_sticky_latched(
    macs: Seq<ModeActivationCondition>,
    n: nat,
    frame: RxChannelsLinkStatus,
    active_modes: Set<u8>,
    ever_disabled: Set<u8>,
    i: int,
)
    requires
        n <= macs.len(),
        0 <= i < n,
        macs[i].mode_id == 35,
        active_modes.contains(35u8),
    ensures
        ({
            let masks = activation_masks(macs, n, frame, active_modes, ever_disabled);
            !masks.and.contains(35u8) && masks.new.contains(35u8)
        }),
    decreases n,
{
    let k = (n - 1) as nat;
    if i < k {
        lemma_sticky_latched(macs, k, frame, active_modes, ever_disabled, i);
    }
}

/// An OR condition for `mode_id` on channel `aux_channel_index`, active on steps `[start, end)`.
pub open spec fn or_mac(start: u8, end: u8, mode_id: u8, aux_channel_index: u8) -> ModeActivationCondition {
    ModeActivationCondition {
        range: RxChannelRange { start, end },
        mode_id,
        aux_channel_index,
        mode_logic: 0,
        linked_to: 0,
    }
}

/// The conditions of `RcModes::with_mac_arm`: `ARM` on `AUX1` from mid to high.
pub open spec fn arm_macs() -> Seq<ModeActivationCondition> {
    Seq::new(20, |i: int| if i == 0 { or_mac(24, 44, 0, 4) } else { empty_mac() })
}

/// The conditions of `RcModes::with_macs_conventional`.
pub open spec fn conventional_macs() -> Seq<ModeActivationCondition> {
    Seq::new(
        20,
        |i: int|
            if i == 0 {
                or_mac(24, 44, 0, 4)
            } else if i == 1 {
                or_mac(14, 34, 2, 5)
            } else if i == 2 {
                or_mac(34, 44, 1, 5)
            } else if i == 3 {
                or_mac(24, 44, 15, 6)
            } else if i == 4 {
                or_mac(24, 44, 31, 7)
            } else if i == 5 {
                or_mac(24, 44, 10, 8)
            } else {
                empty_mac()
            },
    )
}

/// The index lists of `r` are those `analyze_macs` builds from its conditions.
pub open spec fn macs_analyzed(r: RcModes) -> bool {
    &&& r.linked_mac_count == linked_mac_indices(r.macs@, 20).len()
    &&& r.active_mac_count == active_mac_indices(r.macs@, 20).len()
    &&& r.linked_macs@.take(r.linked_mac_count as int) == linked_mac_indices(r.macs@, 20)
    &&& r.active_macs@.take(r.active_mac_count as int) == active_mac_indices(r.macs@, 20)
}

/// Radio control modes.
#[derive(Clone, Copy, Debug, PartialEq)]
pub struct RcModes {
    pub active_mac_count: usize,
    pub linked_mac_count: usize,
    pub active_modes: BitSet64,
    pub sticky_modes_was_ever_disabled: BitSet64,
    pub active_macs: [u8; 20],
    pub linked_macs: [u8; 20],
    pub macs: [ModeActivationCondition; 20],
}

impl Default for RcModes {
    fn default() -> (r: Self)
        ensures
            r.active_mac_count == 0,
            r.linked_mac_count == 0,
            bitset64_members(r.active_modes) == Set::<u8>::empty(),
            bitset64_members(r.sticky_modes_was_ever_disabled) == Set::<u8>::empty(),
            forall|i: int| 0 <= i < 20 ==> r.active_macs@[i] == 0 && r.linked_macs@[i] == 0,
            forall|i: int| 0 <= i < 20 ==> r.macs@[i] == empty_mac(),
    {
        Self::new()
    }
}

impl RcModes {
    pub const MAX_MODE_ACTIVATION_CONDITION_COUNT: usize = 20;
    pub const LOGIC_OR: u8 = 0;
    pub const LOGIC_AND: u8 = 1;

    /// Constructor: no conditions, no active modes.
    #[must_use]
    pub fn new() -> (r: Self)
        ensures
            r.active_mac_count == 0,
            r.linked_mac_count == 0,
            bitset64_members(r.active_modes) == Set::<u8>::empty(),
            bitset64_members(r.sticky_modes_was_ever_disabled) == Set::<u8>::empty(),
            forall|i: int| 0 <= i < 20 ==> r.active_macs@[i] == 0 && r.linked_macs@[i] == 0,
            forall|i: int| 0 <= i < 20 ==> r.macs@[i] == empty_mac(),
    {
        Self {
            active_mac_count: 0,
            linked_mac_count: 0,
            active_modes: bitset_new(),
            sticky_modes_was_ever_disabled: bitset_new(),
            active_macs: [0u8; 20],
            linked_macs: [0u8; 20],
            macs: [ModeActivationCondition::new(); 20],
        }
    }

    /// Constructor with a single condition: `ARM` on `AUX1` from mid to high.
    #[must_use]
    pub fn with_mac_arm() -> (r: Self)
        ensures
            r.macs@ == arm_macs(),
            macs_analyzed(r),
            bitset64_members(r.active_modes) == Set::<u8>::empty(),
            bitset64_members(r.sticky_modes_was_ever_disabled) == Set::<u8>::empty(),
    {
        let mut macs = [ModeActivationCondition::new(); 20];
        macs[0] = ModeActivationCondition::from_range_mode_channel(
            RxChannelRange::from_pwm(RxChannel::MID, RxChannel::HIGH),
            RcMode::ARM,
            RxChannel::AUX1_U8,
        );
        assert(macs@ =~= arm_macs());
        let mut this = RcModes {
            active_mac_count: 0,
            linked_mac_count: 0,
            active_modes: bitset_new(),
            sticky_modes_was_ever_disabled: bitset_new(),
            active_macs: [0u8; 20],
            linked_macs: [0u8; 20],
            macs,
        };
        this.analyze_macs();
        this
    }

    /// Constructor with a set of conventional conditions for common modes:
    /// - `ARM` on `AUX1`
    /// - `HORIZON` on `AUX2` mid-low to mid-high
    /// - `ANGLE` on `AUX2` mid-high to high
    /// - `BEEPER_ON` on `AUX3`
    /// - `CRASH_FLIP` on `AUX4`
    /// - `GPS_RESCUE` on `AUX5`
    #[must_use]
    pub fn with_macs_conventional() -> (r: Self)
        ensures
            r.macs@ == conventional_macs(),
            macs_analyzed(r),
            bitset64_members(r.active_modes) == Set::<u8>::empty(),
            bitset64_members(r.sticky_modes_was_ever_disabled) == Set::<u8>::empty(),
    {
        let mut macs = [ModeActivationCondition::new(); 20];
        macs[0] = ModeActivationCondition::from_range_mode_channel(
            RxChannelRange::from_pwm(RxChannel::MID, RxChannel::HIGH),
            RcMode::ARM,
            RxChannel::AUX1_U8,
        );
        macs[1] = ModeActivationCondition::from_range_mode_channel(
            RxChannelRange::from_pwm(RxChannel::MID_LOW, RxChannel::MID_HIGH),
            RcMode::HORIZON,
            RxChannel::AUX2_U8,
        );
        macs[2] = ModeActivationCondition::from_range_mode_channel(
            RxChannelRange::from_pwm(RxChannel::MID_HIGH, RxChannel::HIGH),
            RcMode::ANGLE,
            RxChannel::AUX2_U8,
        );
        macs[3] = ModeActivationCondition::from_range_mode_channel(
            RxChannelRange::from_pwm(RxChannel::MID, RxChannel::HIGH),
            RcMode::BEEPER_ON,
            RxChannel::AUX3_U8,
        );
        macs[4] = ModeActivationCondition::from_range_mode_channel(
            RxChannelRange::from_pwm(RxChannel::MID, RxChannel::HIGH),
            RcMode::CRASH_FLIP,
            RxChannel::AUX4_U8,
        );
        macs[5] = ModeActivationCondition::from_range_mode_channel(
            RxChannelRange::from_pwm(RxChannel::MID, RxChannel::HIGH),
            RcMode::GPS_RESCUE,
            RxChannel::AUX5_U8,
        );
        assert(macs@ =~= conventional_macs());
        let mut this = RcModes {
            active_mac_count: 0,
            linked_mac_count: 0,
            active_modes: bitset_new(),
            sticky_modes_was_ever_disabled: bitset_new(),
            active_macs: [0u8; 20],
            linked_macs: [0u8; 20],
            macs,
        };
        this.analyze_macs();
        this
    }

    /// Replaces all conditions.
    pub fn set_macs(&mut self, macs: &[ModeActivationCondition; 20])
        ensures
            *final(self) == (RcModes { macs: *macs, ..*old(self) }),
    {
        self.macs = *macs;
    }

    /// Condition `index`.
    #[must_use]
    pub fn mac(&self, index: usize) -> (r: ModeActivationCondition)
        requires
            index < 20,
        ensures
            r == self.macs@[index as int],
    {
        self.macs[index]
    }

    /// Replaces condition `index`; ignored for an index of 20 or more.
    pub fn set_mac(&mut self, index: usize, mac: ModeActivationCondition)
        ensures
            index < 20 ==> final(self).macs@ == old(self).macs@.update(index as int, mac),
            index >= 20 ==> *final(self) == *old(self),
            final(self).active_mac_count == old(self).active_mac_count,
            final(self).linked_mac_count == old(self).linked_mac_count,
            final(self).active_modes == old(self).active_modes,
            final(self).sticky_modes_was_ever_disabled == old(self).sticky_modes_was_ever_disabled,
            final(self).active_macs == old(self).active_macs,
            final(self).linked_macs == old(self).linked_macs,
    {
        if index < Self::MAX_MODE_ACTIVATION_CONDITION_COUNT {
            self.macs[index] = mac;
        }
    }

    /// Whether mode `rc_mode` is active.
    #[must_use]
    pub fn is_mode_active(&self, rc_mode: u8) -> (r: bool)
        ensures
            r == bitset64_members(self.active_modes).contains(rc_mode),
    {
        bitset_test(&self.active_modes, rc_mode)
    }

    /// Builds the lists of used condition indices: `linked_macs` lists the linked
    /// conditions, `active_macs` the configured non-linked ones.
    /// Must be called before `update_activated_modes` is called.
    pub fn analyze_macs(&mut self)
        ensures
            final(self).linked_mac_count == linked_mac_indices(old(self).macs@, 20).len(),
            final(self).active_mac_count == active_mac_indices(old(self).macs@, 20).len(),
            final(self).linked_macs@.take(final(self).linked_mac_count as int) == linked_mac_indices(
                old(self).macs@,
                20,
            ),
            final(self).active_macs@.take(final(self).active_mac_count as int) == active_mac_indices(
                old(self).macs@,
                20,
            ),
            final(self).linked_macs@.skip(final(self).linked_mac_count as int) == old(
                self,
            ).linked_macs@.skip(final(self).linked_mac_count as int),
            final(self).active_macs@.skip(final(self).active_mac_count as int) == old(
                self,
            ).active_macs@.skip(final(self).active_mac_count as int),
            final(self).macs == old(self).macs,
            final(self).active_modes == old(self).active_modes,
            final(self).sticky_modes_was_ever_disabled == old(self).sticky_modes_was_ever_disabled,
    {
        self.active_mac_count = 0;
        self.linked_mac_count = 0;
        let ghost macs = self.macs@;
        let mut ii: usize = 0;
        while ii < 20
            invariant
                ii <= 20,
                self.macs@ == macs,
                self.macs == old(self).macs,
                self.active_modes == old(self).active_modes,
                self.sticky_modes_was_ever_disabled == old(self).sticky_modes_was_ever_disabled,
                self.linked_mac_count == linked_mac_indices(macs, ii as nat).len(),
                self.active_mac_count == active_mac_indices(macs, ii as nat).len(),
                self.linked_mac_count + self.active_mac_count <= ii,
                self.linked_macs@.take(self.linked_mac_count as int) == linked_mac_indices(
                    macs,
                    ii as nat,
                ),
                self.active_macs@.take(self.active_mac_count as int) == active_mac_indices(
                    macs,
                    ii as nat,
                ),
                self.linked_macs@.skip(self.linked_mac_count as int) == old(self).linked_macs@.skip(
                    self.linked_mac_count as int,
                ),
                self.active_macs@.skip(self.active_mac_count as int) == old(self).active_macs@.skip(
                    self.active_mac_count as int,
                ),
            decreases 20 - ii,
        {
            proof {
                lemma_mac_indices_len(macs, (ii + 1) as nat);
            }
            let mac = self.macs[ii];
            let ghost old_linked = self.linked_macs@;
            let ghost old_active = self.active_macs@;
            if mac.linked_to != 0 {
                let k = self.linked_mac_count;
                self.linked_macs[k] = ii as u8;
                self.linked_mac_count = k + 1;
                assert(self.linked_macs@.take(k + 1) =~= old_linked.take(k as int).push(ii as u8));
                assert(self.linked_macs@.skip(k + 1) =~= old_linked.skip(k as int).skip(1));
            } else if Self::is_mac_configured(mac) {
                let k = self.active_mac_count;
                self.active_macs[k] = ii as u8;
                self.active_mac_count = k + 1;
                assert(self.active_macs@.take(k + 1) =~= old_active.take(k as int).push(ii as u8));
                assert(self.active_macs@.skip(k + 1) =~= old_active.skip(k as int).skip(1));
            }
            ii += 1;
        }
    }

    /// Updates the masks for one condition whose range is (or is not) active.
    fn update_masks_for_mac(
        mac: ModeActivationCondition,
        and_bitset: &mut BitSet64,
        new_bitset: &mut BitSet64,
        range_is_active: bool,
    )
        ensures
            mac_update_spec(
                mac,
                ModeMasks {
                    and: bitset64_members(*old(and_bitset)),
                    new: bitset64_members(*old(new_bitset)),
                },
                range_is_active,
            ) == (ModeMasks {
                and: bitset64_members(*final(and_bitset)),
                new: bitset64_members(*final(new_bitset)),
            }),
    {
        if bitset_test(and_bitset, mac.mode_id) || !bitset_test(new_bitset, mac.mode_id) {
            if mac.mode_logic == Self::LOGIC_AND {
                // AND mode activation condition
                bitset_set(and_bitset, mac.mode_id);
                if !range_is_active {
                    bitset_set(new_bitset, mac.mode_id);
                }
            } else {
                // OR mode activation condition
                if range_is_active {
                    bitset_reset(and_bitset, mac.mode_id);
                    bitset_set(new_bitset, mac.mode_id);
                }
            }
        }
    }

    /// Updates the masks for one condition on a sticky mode.
    fn update_masks_for_sticky_modes(
        active_modes: BitSet64,
        sticky_modes_was_ever_disabled: &mut BitSet64,
        mac: ModeActivationCondition,
        and_bitset: &mut BitSet64,
        new_bitset: &mut BitSet64,
        range_active: bool,
    )
        ensures
            sticky_update_spec(
                mac,
                ModeMasks {
                    and: bitset64_members(*old(and_bitset)),
                    new: bitset64_members(*old(new_bitset)),
                },
                bitset64_members(active_modes),
                bitset64_members(*old(sticky_modes_was_ever_disabled)),
                range_active,
            ) == (ModeMasks {
                and: bitset64_members(*final(and_bitset)),
                new: bitset64_members(*final(new_bitset)),
            }),
            *final(sticky_modes_was_ever_disabled) == *old(sticky_modes_was_ever_disabled),
    {
        let sticky_mode_boot_delay_us: u32 = 5_000_000;  // 5 seconds
        if bitset_test(&active_modes, mac.mode_id) {
            bitset_reset(and_bitset, mac.mode_id);
            bitset_set(new_bitset, mac.mode_id);
        } else if bitset_test(sticky_modes_was_ever_disabled, mac.mode_id) {
            Self::update_masks_for_mac(mac, and_bitset, new_bitset, range_active);
        } else {
            let time_us: u32 = 4;
            if time_us >= sticky_mode_boot_delay_us && !range_active {
                bitset_set(sticky_modes_was_ever_disabled, mac.mode_id);
            }
        }
    }

    /// Updates the activated modes using the channel values and the mode activation
    /// conditions: the conditions listed in the first `active_mac_count` entries of
    /// `active_macs` are evaluated, then those listed in the first `linked_mac_count` entries
    /// of `linked_macs` are applied as linked conditions.
    /// `analyze_macs` must have been called before this function is called.
    pub fn update_activated_modes(&mut self, rx_frame: &RxChannelsLinkStatus)
        requires
            old(self).active_mac_count <= 20,
            old(self).linked_mac_count <= 20,
            forall|i: int| 0 <= i < old(self).active_mac_count ==> old(self).active_macs@[i] < 20,
            forall|i: int| 0 <= i < old(self).linked_mac_count ==> old(self).linked_macs@[i] < 20,
        ensures
            bitset64_members(final(self).active_modes) == activated_modes_spec(
                macs_at(old(self).macs@, old(self).active_macs@),
                old(self).active_mac_count as nat,
                macs_at(old(self).macs@, old(self).linked_macs@),
                old(self).linked_mac_count as nat,
                *rx_frame,
                bitset64_members(old(self).active_modes),
                bitset64_members(old(self).sticky_modes_was_ever_disabled),
            ),
            *final(self) == (RcModes { active_modes: final(self).active_modes, ..*old(self) }),
    {
        let mut new_bitset = bitset_new();
        let mut and_bitset = bitset_new();
        let mut sticky_modes = bitset_new();
        bitset_set(&mut sticky_modes, RcMode::PARALYZE);
        let ghost active = macs_at(self.macs@, self.active_macs@);
        let ghost linked = macs_at(self.macs@, self.linked_macs@);
        let ghost active0 = bitset64_members(self.active_modes);
        let ghost disabled0 = bitset64_members(self.sticky_modes_was_ever_disabled);
        // Determine which conditions set/clear the mode.
        let mut i: usize = 0;
        while i < self.active_mac_count
            invariant
                i <= self.active_mac_count <= 20,
                *self == *old(self),
                forall|k: int| 0 <= k < self.active_mac_count ==> self.active_macs@[k] < 20,
                active == macs_at(self.macs@, self.active_macs@),
                active0 == bitset64_members(self.active_modes),
                disabled0 == bitset64_members(self.sticky_modes_was_ever_disabled),
                bitset64_members(sticky_modes) == Set::<u8>::empty().insert(35u8),
                activation_masks(active, i as nat, *rx_frame, active0, disabled0) == (ModeMasks {
                    and: bitset64_members(and_bitset),
                    new: bitset64_members(new_bitset),
                }),
            decreases self.active_mac_count - i,
        {
            let mac = self.macs[self.active_macs[i] as usize];
            assert(mac == active[i as int]);
            if bitset_test(&sticky_modes, mac.mode_id) {
                let range_is_active = mac.range.is_active(rx_frame, mac.aux_channel_index);
                Self::update_masks_for_sticky_modes(
                    self.active_modes,
                    &mut self.sticky_modes_was_ever_disabled,
                    mac,
                    &mut and_bitset,
                    &mut new_bitset,
                    range_is_active,
                );
            } else if mac.mode_id < RcMode::COUNT {
                let range_is_active = mac.range.is_active(rx_frame, mac.aux_channel_index);
                Self::update_masks_for_mac(mac, &mut and_bitset, &mut new_bitset, range_is_active);
            }
            i += 1;
        }
        // Update linked modes.
        let ghost after_active = ModeMasks {
            and: bitset64_members(and_bitset),
            new: bitset64_members(new_bitset),
        };
        let mut j: usize = 0;
        while j < self.linked_mac_count
            invariant
                j <= self.linked_mac_count <= 20,
                *self == *old(self),
                forall|k: int| 0 <= k < self.linked_mac_count ==> self.linked_macs@[k] < 20,
                linked == macs_at(self.macs@, self.linked_macs@),
                linked_masks(linked, j as nat, after_active) == (ModeMasks {
                    and: bitset64_members(and_bitset),
                    new: bitset64_members(new_bitset),
                }),
            decreases self.linked_mac_count - j,
        {
            let mac = self.macs[self.linked_macs[j] as usize];
            assert(mac == linked[j as int]);
            let range_is_active = bitset_test(&and_bitset, mac.linked_to) != bitset_test(
                &new_bitset,
                mac.linked_to,
            );
            Self::update_masks_for_mac(mac, &mut and_bitset, &mut new_bitset, range_is_active);
            j += 1;
        }
        self.active_modes = bitset_xor(new_bitset, and_bitset);
    }

    /// Whether `mac` differs from the all-zero condition.
    fn is_mac_configured(mac: ModeActivationCondition) -> (r: bool)
        ensures
            r == is_mac_configured_spec(mac),
    {
        let empty = ModeActivationCondition::new();
        mac != empty
    }
}

} // verus!
