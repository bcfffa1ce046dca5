//! The input hook layer: the modifier bitmask, the masks and toggles derived
//! from the settings, and the decision, for each intercepted event, whether it
//! is consumed and what the worker is told.

use vstd::prelude::*;
use crate::config::{AppConfig, ConfigModel, FilterMode, ModifierKey};
use crate::geometry::Point;
use crate::text::{
    all_whitespace,
    ascii_lowercase,
    is_trimmed,
    lemma_trim_removes_padding,
    to_ascii_lowercase,
    trim,
    trimmed,
};

verus! {

/// The bit of the Alt modifier in a modifier bitmask.
pub const MOD_ALT: u32 = 1;

/// The bit of the Ctrl modifier.
pub const MOD_CTRL: u32 = 2;

/// The bit of the Shift modifier.
pub const MOD_SHIFT: u32 = 4;

/// The bit of the Win modifier.
pub const MOD_WIN: u32 = 8;

/// Capacity of the queue between the hook layer and the worker.
pub const WORKER_QUEUE_SIZE: usize = 1024;

/// Message: a key went down.
pub const WM_KEYDOWN: u32 = 0x0100;

/// Message: a key went down while Alt was held.
pub const WM_SYSKEYDOWN: u32 = 0x0104;

/// Message: the mouse moved.
pub const WM_MOUSEMOVE: u32 = 0x0200;

/// Message: the middle button went down.
pub const WM_MBUTTONDOWN: u32 = 0x0207;

/// Message: the wheel turned.
pub const WM_MOUSEWHEEL: u32 = 0x020A;

/// Virtual key: Shift, either side. The keys that follow are the other
/// tracked modifier keys: generic, left and right Ctrl and Alt (`MENU`), left
/// and right Shift, and the two Win keys.
pub const VK_SHIFT: u32 = 0x10;

pub const VK_CONTROL: u32 = 0x11;

pub const VK_MENU: u32 = 0x12;

pub const VK_LWIN: u32 = 0x5B;

pub const VK_RWIN: u32 = 0x5C;

pub const VK_LSHIFT: u32 = 0xA0;

pub const VK_RSHIFT: u32 = 0xA1;

pub const VK_LCONTROL: u32 = 0xA2;

pub const VK_RCONTROL: u32 = 0xA3;

pub const VK_LMENU: u32 = 0xA4;

pub const VK_RMENU: u32 = 0xA5;

/// The bit that stands for a logical modifier in a modifier bitmask.
pub open spec fn mask_of(modifier: ModifierKey) -> u32 {
    match modifier {
        ModifierKey::Alt => MOD_ALT,
        ModifierKey::Ctrl => MOD_CTRL,
        ModifierKey::Shift => MOD_SHIFT,
        ModifierKey::Win => MOD_WIN,
    }
}

/// Whether the bit of `modifier` is set in `mods`.
pub open spec fn key_held(mods: u32, modifier: ModifierKey) -> bool {
    mods & mask_of(modifier) != 0
}

/// Whether every bit of `mask` is set in `mods`. Further bits in `mods` do
/// not matter.
pub open spec fn holds_all(mods: u32, mask: u32) -> bool {
    mods & mask == mask
}

/// Whether `mods` satisfies a binding: the mask is not empty and all of its
/// bits are held.
pub open spec fn satisfied(mods: u32, mask: u32) -> bool {
    mask != 0 && holds_all(mods, mask)
}

/// The mask of the move binding.
pub open spec fn move_mask_of(config: ConfigModel) -> u32 {
    mask_of(config.move_modifier)
}

/// The mask of the resize binding: both of its modifiers.
pub open spec fn resize_mask_of(config: ConfigModel) -> u32 {
    mask_of(config.resize_modifier_1) | mask_of(config.resize_modifier_2)
}

/// The bit of a logical modifier.
pub fn modifier_to_mask(modifier: ModifierKey) -> (mask: u32)
    ensures
        mask == mask_of(modifier),
{
    match modifier {
        ModifierKey::Alt => MOD_ALT,
        ModifierKey::Ctrl => MOD_CTRL,
        ModifierKey::Shift => MOD_SHIFT,
        ModifierKey::Win => MOD_WIN,
    }
}

/// The logical modifier that a virtual key stands for, if it is one of the
/// tracked keys: the left, the right and, but for Win, the generic key of
/// each kind.
pub open spec fn modifier_of_key(vk_code: u32) -> Option<ModifierKey> {
    if vk_code == VK_LMENU || vk_code == VK_RMENU || vk_code == VK_MENU {
        Some(ModifierKey::Alt)
    } else if vk_code == VK_LCONTROL || vk_code == VK_RCONTROL || vk_code == VK_CONTROL {
        Some(ModifierKey::Ctrl)
    } else if vk_code == VK_LSHIFT || vk_code == VK_RSHIFT || vk_code == VK_SHIFT {
        Some(ModifierKey::Shift)
    } else if vk_code == VK_LWIN || vk_code == VK_RWIN {
        Some(ModifierKey::Win)
    } else {
        None
    }
}

/// The mask bit of a virtual key, if it is a tracked modifier key.
pub open spec fn mask_of_key(vk_code: u32) -> Option<u32> {
    match modifier_of_key(vk_code) {
        Some(modifier) => Some(mask_of(modifier)),
        None => None,
    }
}

/// The bit of the modifier that a virtual key stands for, if it is a tracked
/// modifier key.
pub fn key_to_mask(vk_code: u32) -> (mask: Option<u32>)
    ensures
        mask == mask_of_key(vk_code),
{
    if vk_code == VK_LMENU || vk_code == VK_RMENU || vk_code == VK_MENU {
        return Some(MOD_ALT);
    }
    if vk_code == VK_LCONTROL || vk_code == VK_RCONTROL || vk_code == VK_CONTROL {
        return Some(MOD_CTRL);
    }
    if vk_code == VK_LSHIFT || vk_code == VK_RSHIFT || vk_code == VK_SHIFT {
        return Some(MOD_SHIFT);
    }
    if vk_code == VK_LWIN || vk_code == VK_RWIN {
        return Some(MOD_WIN);
    }
    None
}

/// What a grab does to its window.
#[derive(Debug, Clone, Copy, PartialEq, Eq, Structural)]
pub enum DragMode {
    Move,
    Resize,
}

/// The mode that a modifier snapshot asks for. Resize is looked at first:
/// where its mask holds the move mask, every snapshot that satisfies it
/// satisfies the move binding too.
pub open spec fn desired_mode(mods: u32, config: ConfigModel) -> Option<DragMode> {
    if satisfied(mods, resize_mask_of(config)) {
        Some(DragMode::Resize)
    } else if satisfied(mods, move_mask_of(config)) {
        Some(DragMode::Move)
    } else {
        None
    }
}

/// Determines the mode from a modifier snapshot by inclusive match: all bits
/// of a binding must be held, further bits are tolerated.
pub fn determine_mode(mods: u32, config: &AppConfig) -> (mode: Option<DragMode>)
    ensures
        mode == desired_mode(mods, config@),
{
    let resize_mask = modifier_to_mask(config.resize_modifier_1) | modifier_to_mask(
        config.resize_modifier_2,
    );
    if resize_mask != 0 && (mods & resize_mask) == resize_mask {
        return Some(DragMode::Resize);
    }
    let move_mask = modifier_to_mask(config.move_modifier);
    if move_mask != 0 && (mods & move_mask) == move_mask {
        return Some(DragMode::Move);
    }
    None
}

proof fn lemma_single_bits(mods: u32, a: u32, b: u32)
    by (bit_vector)
    requires
        a == 1 || a == 2 || a == 4 || a == 8,
        b == 1 || b == 2 || b == 4 || b == 8,
    ensures
        a | b != 0,
        (mods & (a | b) == (a | b)) <==> (mods & a != 0 && mods & b != 0),
        (mods & a == a) <==> (mods & a != 0),
{
}

proof fn lemma_subset_bits(mods: u32, big: u32, small: u32, extra: u32)
    by (bit_vector)
    ensures
        big & small == small && mods & big == big ==> mods & small == small,
        mods & big == big ==> (mods | extra) & big == big,
{
}

/// A binding is satisfied exactly when each of its modifiers is held: both
/// resize modifiers for the resize binding, the move modifier for the move
/// binding. What else is held does not count.
pub proof fn lemma_satisfied_iff_keys_held(mods: u32, config: ConfigModel)
    ensures
        satisfied(mods, resize_mask_of(config)) <==> key_held(mods, config.resize_modifier_1)
            && key_held(mods, config.resize_modifier_2),
        satisfied(mods, move_mask_of(config)) <==> key_held(mods, config.move_modifier),
{
    lemma_single_bits(mods, mask_of(config.resize_modifier_1), mask_of(config.resize_modifier_2));
    lemma_single_bits(mods, mask_of(config.move_modifier), mask_of(config.move_modifier));
}

/// Whether `big` holds every bit of `small` and at least one more.
pub open spec fn strict_superset(big: u32, small: u32) -> bool {
    big & small == small && big != small
}

/// Where the resize mask is a strict superset of the move mask, a snapshot
/// that satisfies the resize mask gives Resize and never Move, although it
/// satisfies the move binding as well.
pub proof fn lemma_resize_takes_precedence(mods: u32, config: ConfigModel)
    requires
        strict_superset(resize_mask_of(config), move_mask_of(config)),
    ensures
        satisfied(mods, resize_mask_of(config)) ==> desired_mode(mods, config) == Some(
            DragMode::Resize,
        ),
        satisfied(mods, resize_mask_of(config)) ==> satisfied(mods, move_mask_of(config)),
{
    lemma_subset_bits(mods, resize_mask_of(config), move_mask_of(config), 0);
}

/// Further modifiers do not break a binding: a snapshot that satisfies a mask
/// still satisfies it when more bits are set.
pub proof fn lemma_extra_bits_tolerated(mods: u32, extra: u32, mask: u32)
    requires
        satisfied(mods, mask),
    ensures
        satisfied(mods | extra, mask),
{
    lemma_subset_bits(mods, mask, mask, extra);
}

/// Whether a stored filter entry names the process: the entry without the
/// white space around it equals the process name, case of ASCII letters
/// aside.
pub open spec fn entry_matches(entry: Seq<char>, process_name: Seq<char>) -> bool {
    ascii_lowercase(trimmed(entry)) == ascii_lowercase(process_name)
}

/// Whether some entry of the list names the process.
pub open spec fn listed(list: Seq<Seq<char>>, process_name: Seq<char>) -> bool {
    exists|i: int| 0 <= i < list.len() && entry_matches(#[trigger] list[i], process_name)
}

/// Whether the filter lets a window of the process be grabbed: under an
/// allow-list only listed processes, under a deny-list all but the listed.
pub open spec fn allowed(config: ConfigModel, process_name: Seq<char>) -> bool {
    match config.filter_mode {
        FilterMode::Whitelist => listed(config.filter_list, process_name),
        FilterMode::Blacklist => !listed(config.filter_list, process_name),
    }
}

/// Tells whether the process filter lets a window of the process be grabbed.
pub fn process_allowed(config: &AppConfig, process_name: &str) -> (ok: bool)
    ensures
        ok == allowed(config@, process_name@),
{
    let name = to_ascii_lowercase(process_name);
    let mut found = false;
    let mut i: usize = 0;
    while i < config.filter_list.len() && !found
        invariant
            i <= config.filter_list.len(),
            name@ == ascii_lowercase(process_name@),
            found ==> listed(config@.filter_list, process_name@),
            !found ==> forall|k: int|
                0 <= k < i ==> !entry_matches(#[trigger] config@.filter_list[k], process_name@),
        decreases config.filter_list.len() - i + (if found { 0int } else { 1int }),
    {
        let entry = to_ascii_lowercase(trim(config.filter_list[i].as_str()));
        if entry == name {
            assert(entry_matches(config@.filter_list[i as int], process_name@));
            found = true;
        } else {
            i += 1;
        }
    }
    match config.filter_mode {
        FilterMode::Whitelist => found,
        FilterMode::Blacklist => !found,
    }
}

/// A process that an entry names is rejected under a deny-list and admitted
/// under an allow-list; a process that no entry names is admitted under a
/// deny-list and rejected under an allow-list.
pub proof fn lemma_filter_by_listing(config: ConfigModel, process_name: Seq<char>)
    ensures
        listed(config.filter_list, process_name) ==> (allowed(config, process_name)
            <==> config.filter_mode == FilterMode::Whitelist),
        !listed(config.filter_list, process_name) ==> (allowed(config, process_name)
            <==> config.filter_mode == FilterMode::Blacklist),
{
}

/// One matching entry decides: with it in the list, a deny-list rejects the
/// process and an allow-list admits it, whatever else the list holds.
pub proof fn lemma_matching_entry_decides(config: ConfigModel, process_name: Seq<char>, i: int)
    requires
        0 <= i < config.filter_list.len(),
        entry_matches(config.filter_list[i], process_name),
    ensures
        config.filter_mode == FilterMode::Blacklist ==> !allowed(config, process_name),
        config.filter_mode == FilterMode::Whitelist ==> allowed(config, process_name),
{
}

/// White space around a stored entry does not count: an entry that is a name
/// with white space before and after it names the same processes as the bare
/// name does.
pub proof fn lemma_entry_padding_is_ignored(
    before: Seq<char>,
    name: Seq<char>,
    after: Seq<char>,
    process_name: Seq<char>,
)
    requires
        all_whitespace(before),
        all_whitespace(after),
        is_trimmed(name),
    ensures
        entry_matches(before + name + after, process_name) == (ascii_lowercase(name)
            == ascii_lowercase(process_name)),
{
    lemma_trim_removes_padding(before, name, after);
}

/// The filter does not see the case of ASCII letters in the process name: two
/// names with the same lower-case form are treated alike.
pub proof fn lemma_filter_ignores_case(config: ConfigModel, a: Seq<char>, b: Seq<char>)
    requires
        ascii_lowercase(a) == ascii_lowercase(b),
    ensures
        allowed(config, a) == allowed(config, b),
{
    assert forall|i: int| 0 <= i < config.filter_list.len() implies entry_matches(
        #[trigger] config.filter_list[i],
        a,
    ) == entry_matches(config.filter_list[i], b) by {}
}

/// What the hook layer tells the worker about an intercepted event, with the
/// modifier snapshot taken when the event arrived.
#[derive(Debug, Clone, Copy, PartialEq, Eq)]
pub enum WorkerEvent {
    MouseMove { point: Point, mods: u32 },
    MouseWheel { point: Point, delta: i16, mods: u32 },
    MiddleClick { point: Point, mods: u32 },
}

/// What becomes of an intercepted event.
#[derive(Debug, Clone, Copy, PartialEq, Eq)]
pub struct Verdict {
    /// Whether the event is consumed, so that no application receives it.
    pub swallow: bool,
    /// What is offered to the worker's queue, if anything.
    pub event: Option<WorkerEvent>,
}

/// The state that the hook layer and the worker share: the modifier bitmask,
/// the global switch, the settings, and the masks and toggles derived from
/// the settings for the hook's own quick decisions.
#[derive(Debug, Clone)]
pub struct HookState {
    pub modifier_state: u32,
    pub enabled: bool,
    pub active_grab: bool,
    pub config: Option<AppConfig>,
    pub move_mask: u32,
    pub resize_mask: u32,
    pub scroll_opacity_active: bool,
    pub middleclick_topmost_active: bool,
}

impl HookState {
    /// Whether the derived masks and toggles are those of the settings `c`.
    pub open spec fn derived_from(self, c: ConfigModel) -> bool {
        &&& self.move_mask == move_mask_of(c)
        &&& self.resize_mask == resize_mask_of(c)
        &&& self.scroll_opacity_active == c.scroll_opacity
        &&& self.middleclick_topmost_active == c.middleclick_topmost
    }

    /// Whether the derived masks and toggles agree with the settings held.
    pub open spec fn in_sync(self) -> bool {
        self.config matches Some(c) ==> self.derived_from(c@)
    }

    /// The state before any settings arrive: no modifier held, the switch on,
    /// no settings, and the masks and toggles of the initial settings.
    pub fn new() -> (state: HookState)
        ensures
            state.modifier_state == 0,
            state.enabled,
            !state.active_grab,
            state.config is None,
            state.derived_from(ConfigModel::initial()),
    {
        HookState {
            modifier_state: 0,
            enabled: true,
            active_grab: false,
            config: None,
            move_mask: MOD_ALT,
            resize_mask: MOD_ALT | MOD_SHIFT,
            scroll_opacity_active: true,
            middleclick_topmost_active: true,
        }
    }
}

/// A copy of the settings held, if any are.
pub fn current_config(state: &HookState) -> (snapshot: Option<AppConfig>)
    ensures
        snapshot is Some <==> state.config is Some,
        snapshot matches Some(c) ==> c@ == state.config.unwrap()@,
{
    match &state.config {
        Some(config) => Some(config.clone()),
        None => None,
    }
}

/// Recomputes the masks and toggles from the settings, for the hook to read
/// without looking at the settings themselves.
pub fn update_hook_state(state: &mut HookState, config: &AppConfig)
    ensures
        final(state).derived_from(config@),
        final(state).modifier_state == old(state).modifier_state,
        final(state).enabled == old(state).enabled,
        final(state).active_grab == old(state).active_grab,
        final(state).config == old(state).config,
{
    state.move_mask = modifier_to_mask(config.move_modifier);
    state.resize_mask = modifier_to_mask(config.resize_modifier_1) | modifier_to_mask(
        config.resize_modifier_2,
    );
    state.scroll_opacity_active = config.scroll_opacity;
    state.middleclick_topmost_active = config.middleclick_topmost;
}

/// Marks whether a grab is active.
pub fn set_active_grab(state: &mut HookState, active: bool)
    ensures
        *final(state) == (HookState { active_grab: active, ..*old(state) }),
{
    state.active_grab = active;
}

/// Whether the modifier of the move binding is held in `mods`, by the mask
/// that was derived from the settings.
pub fn is_move_modifier_held(state: &HookState, mods: u32) -> (held: bool)
    ensures
        held == satisfied(mods, state.move_mask),
{
    state.move_mask != 0 && (mods & state.move_mask) == state.move_mask
}

/// Sets the global switch. Switching off also marks that no grab is active.
pub fn set_enabled(state: &mut HookState, enabled: bool)
    ensures
        *final(state) == (HookState {
            enabled,
            active_grab: old(state).active_grab && enabled,
            ..*old(state)
        }),
{
    state.enabled = enabled;
    if !enabled {
        set_active_grab(state, false);
    }
}

/// Replaces the settings and, in the same step, the masks and toggles derived
/// from them, so that the two never disagree.
pub fn update_config(state: &mut HookState, config: AppConfig)
    ensures
        final(state).config == Some(config),
        final(state).in_sync(),
        final(state).modifier_state == old(state).modifier_state,
        final(state).enabled == old(state).enabled,
        final(state).active_grab == old(state).active_grab,
{
    update_hook_state(state, &config);
    state.config = Some(config);
}

/// The modifier bitmask after a key event. An event with a negative code is
/// not looked at, nor is an untracked key. A tracked key sets its modifier's
/// bit on a key-down message and clears it on any other.
pub open spec fn modifiers_after_key(mods: u32, n_code: i32, message: u32, vk_code: u32) -> u32 {
    if n_code < 0 {
        mods
    } else {
        match mask_of_key(vk_code) {
            Some(mask) => if message == WM_KEYDOWN || message == WM_SYSKEYDOWN {
                mods | mask
            } else {
                mods & !mask
            },
            None => mods,
        }
    }
}

/// The keyboard interceptor: follows the transitions of the tracked modifier
/// keys. It never consumes an event and tells the worker nothing.
pub fn keyboard_hook_proc(
    state: &mut HookState,
    n_code: i32,
    message: u32,
    vk_code: u32,
) -> (verdict: Verdict)
    ensures
        !verdict.swallow,
        verdict.event is None,
        *final(state) == (HookState {
            modifier_state: modifiers_after_key(
                old(state).modifier_state,
                n_code,
                message,
                vk_code,
            ),
            ..*old(state)
        }),
{
    if n_code >= 0 {
        if let Some(mask) = key_to_mask(vk_code) {
            if message == WM_KEYDOWN || message == WM_SYSKEYDOWN {
                state.modifier_state = state.modifier_state | mask;
            } else {
                state.modifier_state = state.modifier_state & !mask;
            }
        }
    }
    Verdict { swallow: false, event: None }
}

proof fn lemma_set_and_clear_bit(mods: u32, a: u32, b: u32)
    by (bit_vector)
    requires
        a == 1 || a == 2 || a == 4 || a == 8,
        b == 1 || b == 2 || b == 4 || b == 8,
    ensures
        (mods | a) & a != 0,
        (mods & !a) & a == 0,
        a != b ==> (mods | a) & b == mods & b,
        a != b ==> (mods & !a) & b == mods & b,
{
}

/// A key-down of a tracked key makes its modifier held, any other message
/// for it makes the modifier not held, and no other modifier is touched.
pub proof fn lemma_key_event_tracks_modifier(
    mods: u32,
    n_code: i32,
    message: u32,
    vk_code: u32,
    other: ModifierKey,
)
    requires
        n_code >= 0,
        modifier_of_key(vk_code) is Some,
    ensures
        key_held(
            modifiers_after_key(mods, n_code, message, vk_code),
            modifier_of_key(vk_code).unwrap(),
        ) == (message == WM_KEYDOWN || message == WM_SYSKEYDOWN),
        other != modifier_of_key(vk_code).unwrap() ==> key_held(
            modifiers_after_key(mods, n_code, message, vk_code),
            other,
        ) == key_held(mods, other),
{
    lemma_set_and_clear_bit(mods, mask_of(modifier_of_key(vk_code).unwrap()), mask_of(other));
}

/// The wheel movement in an event's data word: its upper half, read as a
/// signed 16-bit number.
pub open spec fn wheel_delta(mouse_data: u32) -> int {
    let high = mouse_data as int / 65536;
    if high < 32768 {
        high
    } else {
        high - 65536
    }
}

/// What the mouse interceptor decides. A mouse move is always let through
/// and always offered to the worker. A wheel turn or a middle-button press is
/// consumed and offered to the worker where its feature is on and the move
/// binding is satisfied, and let through otherwise. Nothing else is looked
/// at, nor anything at all while the switch is off or the code is negative.
pub open spec fn mouse_verdict(
    state: HookState,
    n_code: i32,
    message: u32,
    point: Point,
    mouse_data: u32,
) -> Verdict {
    let mods = state.modifier_state;
    if n_code < 0 || !state.enabled {
        Verdict { swallow: false, event: None }
    } else if message == WM_MOUSEMOVE {
        Verdict { swallow: false, event: Some(WorkerEvent::MouseMove { point, mods }) }
    } else if message == WM_MOUSEWHEEL && state.scroll_opacity_active && satisfied(
        mods,
        state.move_mask,
    ) {
        Verdict {
            swallow: true,
            event: Some(
                WorkerEvent::MouseWheel { point, delta: wheel_delta(mouse_data) as i16, mods },
            ),
        }
    } else if message == WM_MBUTTONDOWN && state.middleclick_topmost_active && satisfied(
        mods,
        state.move_mask,
    ) {
        Verdict { swallow: true, event: Some(WorkerEvent::MiddleClick { point, mods }) }
    } else {
        Verdict { swallow: false, event: None }
    }
}

/// Reads the wheel movement out of an event's data word.
pub fn wheel_delta_of(mouse_data: u32) -> (delta: i16)
    ensures
        delta == wheel_delta(mouse_data),
{
    let high: u32 = mouse_data >> 16;
    assert(high == mouse_data / 65536 && high < 65536) by (bit_vector)
        requires
            high == mouse_data >> 16,
    ;
    if high < 32768 {
        high as i16
    } else {
        (high as i32 - 65536) as i16
    }
}

/// The mouse interceptor. While the switch is off it marks that no grab is
/// active; it changes nothing else.
pub fn mouse_hook_proc(
    state: &mut HookState,
    n_code: i32,
    message: u32,
    point: Point,
    mouse_data: u32,
) -> (verdict: Verdict)
    ensures
        verdict == mouse_verdict(*old(state), n_code, message, point, mouse_data),
        *final(state) == (HookState {
            active_grab: old(state).active_grab && (n_code < 0 || old(state).enabled),
            ..*old(state)
        }),
        message == WM_MOUSEMOVE ==> !verdict.swallow,
        verdict.swallow ==> verdict.event is Some && old(state).enabled && satisfied(
            old(state).modifier_state,
            old(state).move_mask,
        ),
        !old(state).enabled ==> verdict.event is None,
{
    if n_code < 0 {
        return Verdict { swallow: false, event: None };
    }
    if !state.enabled {
        set_active_grab(state, false);
        return Verdict { swallow: false, event: None };
    }
    let mods = state.modifier_state;
    if message == WM_MOUSEMOVE {
        Verdict { swallow: false, event: Some(WorkerEvent::MouseMove { point, mods }) }
    } else if message == WM_MOUSEWHEEL {
        if state.scroll_opacity_active && is_move_modifier_held(state, mods) {
            let delta = wheel_delta_of(mouse_data);
            Verdict { swallow: true, event: Some(WorkerEvent::MouseWheel { point, delta, mods }) }
        } else {
            Verdict { swallow: false, event: None }
        }
    } else if message == WM_MBUTTONDOWN {
        if state.middleclick_topmost_active && is_move_modifier_held(state, mods) {
            Verdict { swallow: true, event: Some(WorkerEvent::MiddleClick { point, mods }) }
        } else {
            Verdict { swallow: false, event: None }
        }
    } else {
        Verdict { swallow: false, event: None }
    }
}

/// The bit that a pressed key adds to the bitmask: that of its modifier, or
/// none for an untracked key.
pub open spec fn bit_of_key(vk_code: u32) -> u32 {
    match mask_of_key(vk_code) {
        Some(mask) => mask,
        None => 0,
    }
}

/// The bitmask that a poll of the keyboard gives, from the keys found down.
pub open spec fn polled_mask(pressed: Seq<u32>) -> u32
    decreases pressed.len(),
{
    if pressed.len() == 0 {
        0
    } else {
        polled_mask(pressed.drop_last()) | bit_of_key(pressed.last())
    }
}

/// Whether one of the keys found down stands for `modifier`.
pub open spec fn key_pressed(pressed: Seq<u32>, modifier: ModifierKey) -> bool {
    exists|i: int|
        0 <= i < pressed.len() && modifier_of_key(#[trigger] pressed[i]) == Some(modifier)
}

proof fn lemma_or_bit(mods: u32, bit: u32, a: u32)
    by (bit_vector)
    requires
        a == 1 || a == 2 || a == 4 || a == 8,
        bit == 0 || bit == 1 || bit == 2 || bit == 4 || bit == 8,
    ensures
        (mods | bit) & a != 0 <==> (mods & a != 0 || bit == a),
        0u32 & a == 0,
{
}

/// A poll holds a modifier exactly when one of its keys was found down.
pub proof fn lemma_polled_mask_holds_pressed(pressed: Seq<u32>, modifier: ModifierKey)
    ensures
        key_held(polled_mask(pressed), modifier) <==> key_pressed(pressed, modifier),
    decreases pressed.len(),
{
    if pressed.len() == 0 {
        lemma_or_bit(0, 0, mask_of(modifier));
    } else {
        let before = pressed.drop_last();
        lemma_polled_mask_holds_pressed(before, modifier);
        lemma_or_bit(polled_mask(before), bit_of_key(pressed.last()), mask_of(modifier));
        if key_pressed(before, modifier) {
            let i = choose|i: int|
                0 <= i < before.len() && modifier_of_key(#[trigger] before[i]) == Some(modifier);
            assert(pressed[i] == before[i]);
        }
        if key_pressed(pressed, modifier) {
            let i = choose|i: int|
                0 <= i < pressed.len() && modifier_of_key(#[trigger] pressed[i]) == Some(modifier);
            if i < before.len() {
                assert(before[i] == pressed[i]);
            }
        }
        if bit_of_key(pressed.last()) == mask_of(modifier) {
            assert(modifier_of_key(pressed[pressed.len() - 1]) == Some(modifier));
        }
    }
}

/// The keys to look at in a poll of the keyboard: for each modifier its left,
/// right and generic key, where it has one.
pub fn tracked_keys() -> (keys: Vec<u32>)
    ensures
        keys@ == seq![
            VK_LMENU,
            VK_RMENU,
            VK_MENU,
            VK_LCONTROL,
            VK_RCONTROL,
            VK_CONTROL,
            VK_LSHIFT,
            VK_RSHIFT,
            VK_SHIFT,
            VK_LWIN,
            VK_RWIN,
        ],
        forall|i: int| 0 <= i < keys.len() ==> modifier_of_key(#[trigger] keys[i]) is Some,
{
    let mut keys: Vec<u32> = Vec::new();
    keys.push(VK_LMENU);
    keys.push(VK_RMENU);
    keys.push(VK_MENU);
    keys.push(VK_LCONTROL);
    keys.push(VK_RCONTROL);
    keys.push(VK_CONTROL);
    keys.push(VK_LSHIFT);
    keys.push(VK_RSHIFT);
    keys.push(VK_SHIFT);
    keys.push(VK_LWIN);
    keys.push(VK_RWIN);
    keys
}

/// Sets the modifier bitmask from a poll of the keyboard, given the keys that
/// were found down: a modifier is held exactly when one of its keys is among
/// them. What the bitmask held before is forgotten.
pub fn refresh_modifier_state_from_keyboard(
    state: &mut HookState,
    pressed: &Vec<u32>,
) -> (mods: u32)
    ensures
        mods == polled_mask(pressed@),
        forall|modifier: ModifierKey| key_held(mods, modifier) <==> key_pressed(pressed@, modifier),
        *final(state) == (HookState { modifier_state: mods, ..*old(state) }),
{
    let mut mods: u32 = 0;
    let mut i: usize = 0;
    while i < pressed.len()
        invariant
            i <= pressed.len(),
            mods == polled_mask(pressed@.take(i as int)),
        decreases pressed.len() - i,
    {
        assert(pressed@.take(i + 1).drop_last() =~= pressed@.take(i as int));
        if let Some(mask) = key_to_mask(pressed[i]) {
            mods = mods | mask;
        } else {
            assert(mods | 0 == mods) by (bit_vector);
        }
        i += 1;
    }
    assert(pressed@.take(i as int) =~= pressed@);
    proof {
        assert forall|modifier: ModifierKey|
            key_held(mods, modifier) <==> key_pressed(pressed@, modifier) by {
            lemma_polled_mask_holds_pressed(pressed@, modifier);
        }
    }
    state.modifier_state = mods;
    mods
}

/// What follows from the attempt to install the two interceptors.
#[derive(Debug, Clone, Copy, PartialEq, Eq)]
pub struct InstallOutcome {
    /// Whether both interceptors are in place, so that the message loop
    /// may run.
    pub installed: bool,
    /// Whether the keyboard interceptor was installed and has to go again.
    pub unhook_keyboard: bool,
    /// Whether the mouse interceptor was installed and has to go again.
    pub unhook_mouse: bool,
    /// Whether the snap preview has to be destroyed.
    pub destroy_overlay: bool,
}

/// Decides what to do once the installation of the two interceptors was
/// tried. Both must be in place. Where one failed, the other is taken out
/// again and the snap preview is destroyed: window manipulation then stays
/// off, and nothing is left behind.
pub fn settle_installation(keyboard_ok: bool, mouse_ok: bool) -> (outcome: InstallOutcome)
    ensures
        outcome.installed == (keyboard_ok && mouse_ok),
        outcome.unhook_keyboard == (keyboard_ok && !mouse_ok),
        outcome.unhook_mouse == (mouse_ok && !keyboard_ok),
        outcome.destroy_overlay == !(keyboard_ok && mouse_ok),
{
    if keyboard_ok && mouse_ok {
        InstallOutcome {
            installed: true,
            unhook_keyboard: false,
            unhook_mouse: false,
            destroy_overlay: false,
        }
    } else {
        InstallOutcome {
            installed: false,
            unhook_keyboard: keyboard_ok,
            unhook_mouse: mouse_ok,
            destroy_overlay: true,
        }
    }
}

} // verus!
