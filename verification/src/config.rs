//! User settings: the bindings, the process filter and the feature toggles.

use vstd::prelude::*;
use crate::text::names_of;

verus! {

/// A logical modifier key. The left, right and generic physical keys of one
/// kind all stand for the same logical key.
#[derive(Debug, Clone, Copy, PartialEq, Eq, Structural)]
pub enum ModifierKey {
    Alt,
    Ctrl,
    Shift,
    Win,
}

/// How the process list is read: as the only processes that may be grabbed,
/// or as the processes that may not.
#[derive(Debug, Clone, Copy, PartialEq, Eq, Structural)]
pub enum FilterMode {
    Whitelist,
    Blacklist,
}

/// The settings value that the settings layer owns and the engine reads.
#[derive(Debug)]
pub struct AppConfig {
    pub enabled: bool,
    pub move_modifier: ModifierKey,
    pub resize_modifier_1: ModifierKey,
    pub resize_modifier_2: ModifierKey,
    pub filter_mode: FilterMode,
    pub filter_list: Vec<String>,
    pub autostart: bool,
    pub allow_nonforeground: bool,
    pub raise_on_grab: bool,
    pub snap_enabled: bool,
    pub snap_threshold: i32,
    pub scroll_opacity: bool,
    pub middleclick_topmost: bool,
}

/// The mathematical content of an [`AppConfig`]: the same fields, with the
/// process list as a sequence of character sequences.
pub struct ConfigModel {
    pub enabled: bool,
    pub move_modifier: ModifierKey,
    pub resize_modifier_1: ModifierKey,
    pub resize_modifier_2: ModifierKey,
    pub filter_mode: FilterMode,
    pub filter_list: Seq<Seq<char>>,
    pub autostart: bool,
    pub allow_nonforeground: bool,
    pub raise_on_grab: bool,
    pub snap_enabled: bool,
    pub snap_threshold: int,
    pub scroll_opacity: bool,
    pub middleclick_topmost: bool,
}

impl View for AppConfig {
    type V = ConfigModel;

    open spec fn view(&self) -> ConfigModel {
        ConfigModel {
            enabled: self.enabled,
            move_modifier: self.move_modifier,
            resize_modifier_1: self.resize_modifier_1,
            resize_modifier_2: self.resize_modifier_2,
            filter_mode: self.filter_mode,
            filter_list: names_of(self.filter_list@),
            autostart: self.autostart,
            allow_nonforeground: self.allow_nonforeground,
            raise_on_grab: self.raise_on_grab,
            snap_enabled: self.snap_enabled,
            snap_threshold: self.snap_threshold as int,
            scroll_opacity: self.scroll_opacity,
            middleclick_topmost: self.middleclick_topmost,
        }
    }
}

impl ConfigModel {
    /// The settings of a fresh installation: Alt moves, Alt+Shift resizes,
    /// an empty deny-list, and every assist but raise-on-grab switched on.
    pub open spec fn initial() -> ConfigModel {
        ConfigModel {
            enabled: true,
            move_modifier: ModifierKey::Alt,
            resize_modifier_1: ModifierKey::Alt,
            resize_modifier_2: ModifierKey::Shift,
            filter_mode: FilterMode::Blacklist,
            filter_list: Seq::empty(),
            autostart: false,
            allow_nonforeground: true,
            raise_on_grab: false,
            snap_enabled: true,
            snap_threshold: 20,
            scroll_opacity: true,
            middleclick_topmost: true,
        }
    }
}

impl Default for AppConfig {
    fn default() -> (config: AppConfig)
        ensures
            config@ == ConfigModel::initial(),
    {
        let config = AppConfig {
            enabled: true,
            move_modifier: ModifierKey::Alt,
            resize_modifier_1: ModifierKey::Alt,
            resize_modifier_2: ModifierKey::Shift,
            filter_mode: FilterMode::Blacklist,
            filter_list: Vec::new(),
            autostart: false,
            allow_nonforeground: true,
            raise_on_grab: false,
            snap_enabled: true,
            snap_threshold: 20,
            scroll_opacity: true,
            middleclick_topmost: true,
        };
        assert(config@.filter_list =~= Seq::empty());
        config
    }
}

impl Clone for AppConfig {
    fn clone(&self) -> (copy: AppConfig)
        ensures
            copy@ == self@,
    {
        let mut filter_list: Vec<String> = Vec::new();
        let mut i: usize = 0;
        while i < self.filter_list.len()
            invariant
                i <= self.filter_list.len(),
                filter_list.len() == i,
                forall|k: int| 0 <= k < i ==> filter_list[k]@ == self.filter_list[k]@,
            decreases self.filter_list.len() - i,
        {
            filter_list.push(self.filter_list[i].clone());
            i += 1;
        }
        let copy = AppConfig {
            enabled: self.enabled,
            move_modifier: self.move_modifier,
            resize_modifier_1: self.resize_modifier_1,
            resize_modifier_2: self.resize_modifier_2,
            filter_mode: self.filter_mode,
            filter_list,
            autostart: self.autostart,
            allow_nonforeground: self.allow_nonforeground,
            raise_on_grab: self.raise_on_grab,
            snap_enabled: self.snap_enabled,
            snap_threshold: self.snap_threshold,
            scroll_opacity: self.scroll_opacity,
            middleclick_topmost: self.middleclick_topmost,
        };
        assert(copy@.filter_list =~= self@.filter_list);
        copy
    }
}

} // verus!
