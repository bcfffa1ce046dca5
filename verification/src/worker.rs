//! The manipulation engine: the state machine that turns the worker's events
//! into grabs, window placements and overlay requests.
//!
//! The engine never touches the platform. Where a decision rests on something
//! that only the platform knows, the handler answers with the [`Query`] it
//! needs; the caller puts the answer into the [`Observations`] of the event
//! and calls the handler again with the same event and state. Nothing changes
//! before a handler is done, so calling again is safe.

use vstd::prelude::*;
use crate::config::{AppConfig, ConfigModel};
use crate::geometry::{Point, Rect};
use crate::grab::{place_into, placement_into, GrabState, Placement};
use crate::hook::{
    allowed,
    desired_mode,
    determine_mode,
    is_move_modifier_held,
    mouse_verdict,
    process_allowed,
    satisfied,
    DragMode,
    HookState,
    WorkerEvent,
};
use crate::overlay::{applied, Overlay};
use crate::snap::{detect_snap_zone, detected, lemma_zone_spans_fit, zone_at, zone_rect};
use crate::window_manager::WindowId;

verus! {

/// How much one wheel step changes a window's opacity, out of 255.
pub const OPACITY_STEP: i32 = 15;

/// The least opacity that the wheel can reach: still visible.
pub const OPACITY_MIN: u8 = 20;

/// How long a restored window is given to settle before its rectangle is
/// read, in milliseconds.
pub const RESTORE_SETTLE_MS: u64 = 50;

/// What a hit test found at the cursor.
#[derive(Debug, Clone, Copy, PartialEq, Eq)]
pub struct HitTest {
    /// The top-level window at the point, if there is one and it is no shell
    /// surface.
    pub window: Option<WindowId>,
    /// Whether that window is a valid target.
    pub valid: bool,
}

/// What the platform reports about a window that may be grabbed.
#[derive(Debug, Clone, PartialEq, Eq)]
pub struct Inspection {
    /// The window that has the foreground, if any.
    pub foreground: Option<WindowId>,
    /// The file name of the program that owns the window, if it can be found.
    pub process_name: Option<String>,
    pub maximized: bool,
    pub snapped: bool,
}

/// The answers that the platform has given so far while one event is
/// handled. Each is `None` until its query was asked and answered.
#[derive(Debug, Clone, PartialEq, Eq)]
pub struct Observations {
    pub hit: Option<HitTest>,
    pub inspection: Option<Inspection>,
    /// The rectangle of the window asked about, or `None` inside where it
    /// could not be read.
    pub window_rect: Option<Option<Rect>>,
    /// The work area of the monitor at the cursor, or `None` inside where
    /// there is none.
    pub work_area: Option<Option<Rect>>,
    pub opacity: Option<u8>,
}

/// Something that the engine needs from the platform before it can go on.
#[derive(Debug, Clone, Copy, PartialEq, Eq)]
pub enum Query {
    /// Which window is at `point`, and is it a valid target? Answered in
    /// `hit`.
    HitTest { point: Point },
    /// Foreground window, owner and state of `window`. Answered in
    /// `inspection`.
    Inspect { window: WindowId },
    /// Restore `window` and let it settle for [`RESTORE_SETTLE_MS`] where
    /// `restore` is set, bring it to the foreground where `raise` is set,
    /// then read its rectangle. Answered in `window_rect`.
    PrepareGrab { window: WindowId, restore: bool, raise: bool },
    /// The present rectangle of `window`. Answered in `window_rect`.
    WindowRect { window: WindowId },
    /// The work area of the monitor at `point`. Answered in `work_area`.
    WorkArea { point: Point },
    /// The present opacity of `window`. Answered in `opacity`.
    Opacity { window: WindowId },
}

/// Where a handler stands: it needs an answer, or it is done.
#[derive(Debug, Clone, Copy, PartialEq, Eq)]
pub enum Step<T> {
    Need(Query),
    Done(T),
}

/// What is asked of the snap preview.
#[derive(Debug, Clone, Copy, PartialEq, Eq)]
pub enum OverlayRequest {
    /// Leave it as it is.
    Keep,
    /// Hide it.
    Hide,
    /// Show it over this rectangle.
    Show(Rect),
}

/// The result of a mouse move: the grab that is left, and what to do to the
/// window and to the preview, in that order.
#[derive(Debug, Clone, Copy, PartialEq, Eq)]
pub struct Outcome {
    pub state: Option<GrabState>,
    /// The new value of the mark that a grab is active.
    pub active: bool,
    pub placement: Option<Placement>,
    pub overlay: OverlayRequest,
}

/// A new opacity for a window.
#[derive(Debug, Clone, Copy, PartialEq, Eq)]
pub struct OpacityChange {
    pub window: WindowId,
    pub alpha: u8,
}

impl Outcome {
    /// What holds of every outcome: the grab that is left is well formed, and
    /// a rectangle to show has a width and a height that can be written
    /// down.
    pub open spec fn wf(self) -> bool {
        &&& self.state matches Some(grab) ==> grab.wf()
        &&& self.overlay matches OverlayRequest::Show(rect) ==> rect.spans_fit()
        &&& self.active == (self.state is Some)
    }
}

impl Observations {
    /// What holds of every set of answers: a work area has a width and a
    /// height that can be written down.
    pub open spec fn wf(self) -> bool {
        self.work_area matches Some(Some(work)) ==> work.spans_fit()
    }

    /// No answers yet.
    pub open spec fn empty() -> Observations {
        Observations {
            hit: None,
            inspection: None,
            window_rect: None,
            work_area: None,
            opacity: None,
        }
    }

    /// No answers yet.
    pub fn new() -> (obs: Observations)
        ensures
            obs == Observations::empty(),
            obs.wf(),
    {
        Observations {
            hit: None,
            inspection: None,
            window_rect: None,
            work_area: None,
            opacity: None,
        }
    }
}

/// Whether a window that was hit may be grabbed: it is a valid target, it has
/// the foreground where only foreground windows may be grabbed, and its owner
/// is known and passes the process filter.
pub open spec fn admitted(hit: HitTest, inspection: Inspection, config: ConfigModel) -> bool {
    &&& hit.window is Some
    &&& hit.valid
    &&& (config.allow_nonforeground || inspection.foreground == hit.window)
    &&& inspection.process_name matches Some(name) && allowed(config, name@)
}

/// The start of a grab, as far as the answers reach. No grab starts without
/// a window at the cursor that is admitted and whose rectangle can be read
/// after it was prepared; a window that is maximized or snapped is restored
/// first.
pub open spec fn grab_start(
    cursor: Point,
    mode: DragMode,
    config: ConfigModel,
    obs: Observations,
) -> Step< Option<GrabState>, > {
    match obs.hit {
        None => Step::Need(Query::HitTest { point: cursor }),
        Some(hit) => match hit.window {
            None => Step::Done(None),
            Some(window) => if !hit.valid {
                Step::Done(None)
            } else {
                match obs.inspection {
                    None => Step::Need(Query::Inspect { window }),
                    Some(inspection) => if !admitted(hit, inspection, config) {
                        Step::Done(None)
                    } else {
                        match obs.window_rect {
                            None => Step::Need(
                                Query::PrepareGrab {
                                    window,
                                    restore: inspection.maximized || inspection.snapped,
                                    raise: config.raise_on_grab,
                                },
                            ),
                            Some(None) => Step::Done(None),
                            Some(Some(origin)) => Step::Done(
                                Some(GrabState::begun(mode, window, cursor, origin)),
                            ),
                        }
                    },
                }
            },
        },
    }
}

/// Tells whether `foreground` is the window `window`.
fn is_window(foreground: Option<WindowId>, window: WindowId) -> (same: bool)
    ensures
        same == (foreground == Some(window)),
{
    match foreground {
        Some(other) => other.raw == window.raw,
        None => false,
    }
}

/// Tries to start a grab on the window at the cursor.
pub fn try_create_grab_state(
    cursor_pos: Point,
    mode: DragMode,
    config: &AppConfig,
    obs: &Observations,
) -> (start: Step<Option<GrabState>>)
    ensures
        start == grab_start(cursor_pos, mode, config@, *obs),
        start matches Step::Done(Some(grab)) ==> grab.wf(),
{
    let hit = match obs.hit {
        Some(hit) => hit,
        None => {
            return Step::Need(Query::HitTest { point: cursor_pos });
        },
    };
    let window = match hit.window {
        Some(window) => window,
        None => {
            return Step::Done(None);
        },
    };
    if !hit.valid {
        return Step::Done(None);
    }
    let inspection = match &obs.inspection {
        Some(inspection) => inspection,
        None => {
            return Step::Need(Query::Inspect { window });
        },
    };
    if !config.allow_nonforeground && !is_window(inspection.foreground, window) {
        return Step::Done(None);
    }
    let listed_ok = match &inspection.process_name {
        Some(name) => process_allowed(config, name.as_str()),
        None => false,
    };
    if !listed_ok {
        return Step::Done(None);
    }
    match obs.window_rect {
        None => Step::Need(
            Query::PrepareGrab {
                window,
                restore: inspection.maximized || inspection.snapped,
                raise: config.raise_on_grab,
            },
        ),
        Some(None) => Step::Done(None),
        Some(Some(origin)) => Step::Done(Some(GrabState::begin(mode, window, cursor_pos, origin))),
    }
}

/// Whether manipulation is off: the global switch is off, there are no
/// settings, or the settings switch it off.
pub open spec fn inert(ctx: HookState) -> bool {
    !ctx.enabled || match ctx.config {
        Some(config) => !config.enabled,
        None => true,
    }
}

/// The end of a grab, if there is one: the window goes to its pending snap
/// rectangle, the preview is hidden, and no grab is left.
pub open spec fn released(state: Option<GrabState>) -> Outcome {
    match state {
        Some(grab) => Outcome {
            state: None,
            active: false,
            placement: match grab.snap_target {
                Some(rect) => placement_into(grab.window, rect),
                None => None,
            },
            overlay: OverlayRequest::Hide,
        },
        None => Outcome {
            state: None,
            active: false,
            placement: None,
            overlay: OverlayRequest::Keep,
        },
    }
}

/// A grab that goes on with nothing to do.
pub open spec fn held(grab: GrabState) -> Outcome {
    Outcome { state: Some(grab), active: true, placement: None, overlay: OverlayRequest::Keep }
}

/// The snap rectangle for a cursor, given the work area of its monitor.
pub open spec fn snap_found(point: Point, threshold: int, area: Option<Rect>) -> Option<Rect> {
    match area {
        Some(work) => match detected(point, work, threshold) {
            Some(found) => Some(found.1),
            None => None,
        },
        None => None,
    }
}

/// A grab follows the cursor. The window is placed from the origin rectangle
/// and the displacement. A move with snap assist then looks for a snap zone
/// at the cursor: a zone becomes the pending snap and is shown, no zone
/// clears the pending snap and hides what was shown.
pub open spec fn followed(
    grab: GrabState,
    point: Point,
    config: ConfigModel,
    obs: Observations,
) -> Step< Outcome, > {
    let next = grab.advanced(point);
    if grab.mode == DragMode::Move && config.snap_enabled {
        match obs.work_area {
            None => Step::Need(Query::WorkArea { point }),
            Some(area) => {
                let target = snap_found(point, config.snap_threshold, area);
                Step::Done(
                    Outcome {
                        state: Some(GrabState { snap_target: target, ..next }),
                        active: true,
                        placement: Some(next.placement()),
                        overlay: match target {
                            Some(rect) => OverlayRequest::Show(rect),
                            None => if grab.snap_target is Some {
                                OverlayRequest::Hide
                            } else {
                                OverlayRequest::Keep
                            },
                        },
                    },
                )
            },
        }
    } else {
        Step::Done(
            Outcome {
                state: Some(next),
                active: true,
                placement: Some(next.placement()),
                overlay: OverlayRequest::Keep,
            },
        )
    }
}

/// What a mouse move does.
///
/// - Where manipulation is off or the modifiers ask for no mode, a grab ends.
/// - Where they ask for a mode and there is no grab, one is tried.
/// - Where they ask for the other mode, the grab changes its mode: it takes
///   the window's present rectangle as its new origin and hides the preview.
/// - Else the grab follows the cursor, if the cursor has moved.
pub open spec fn mouse_move_tick(
    point: Point,
    mods: u32,
    state: Option<GrabState>,
    ctx: HookState,
    obs: Observations,
) -> Step<Outcome> {
    if inert(ctx) {
        Step::Done(released(state))
    } else {
        let config = ctx.config.unwrap()@;
        match desired_mode(mods, config) {
            None => Step::Done(released(state)),
            Some(mode) => match state {
                None => match grab_start(point, mode, config, obs) {
                    Step::Need(query) => Step::Need(query),
                    Step::Done(Some(grab)) => Step::Done(held(grab)),
                    Step::Done(None) => Step::Done(released(None)),
                },
                Some(grab) => if grab.mode != mode {
                    match obs.window_rect {
                        None => Step::Need(Query::WindowRect { window: grab.window }),
                        Some(live) => Step::Done(
                            Outcome {
                                state: Some(grab.switched(mode, point, live)),
                                active: true,
                                placement: None,
                                overlay: OverlayRequest::Hide,
                            },
                        ),
                    }
                } else if point == grab.last_cursor {
                    Step::Done(held(grab))
                } else {
                    followed(grab, point, config, obs)
                },
            },
        }
    }
}

/// Whether a mouse move makes the grab follow the cursor, so that the grab
/// must have room to do so.
pub open spec fn follows(
    point: Point,
    mods: u32,
    state: Option<GrabState>,
    ctx: HookState,
) -> bool {
    &&& !inert(ctx)
    &&& state matches Some(grab)
    &&& desired_mode(mods, ctx.config.unwrap()@) == Some(grab.mode)
    &&& point != grab.last_cursor
}

/// What a mouse move may be handled with: well-formed answers, a well-formed
/// grab, and room for the grab to follow the cursor where it is to follow.
pub open spec fn mouse_move_ready(
    point: Point,
    mods: u32,
    state: Option<GrabState>,
    ctx: HookState,
    obs: Observations,
) -> bool {
    &&& obs.wf()
    &&& state matches Some(grab) ==> grab.wf()
    &&& follows(point, mods, state, ctx) ==> state.unwrap().can_advance(point)
}

/// Ends a grab, if there is one.
fn release(state: &Option<GrabState>) -> (outcome: Outcome)
    requires
        state matches Some(grab) ==> grab.wf(),
    ensures
        outcome == released(*state),
{
    match state {
        Some(grab) => Outcome {
            state: None,
            active: false,
            placement: match grab.snap_target {
                Some(rect) => place_into(grab.window, rect),
                None => None,
            },
            overlay: OverlayRequest::Hide,
        },
        None => Outcome {
            state: None,
            active: false,
            placement: None,
            overlay: OverlayRequest::Keep,
        },
    }
}

/// Handles a mouse move with the modifier snapshot that came with it.
pub fn worker_handle_mouse_move(
    point: Point,
    mods: u32,
    state: &Option<GrabState>,
    ctx: &HookState,
    obs: &Observations,
) -> (tick: Step<Outcome>)
    requires
        mouse_move_ready(point, mods, *state, *ctx, *obs),
    ensures
        tick == mouse_move_tick(point, mods, *state, *ctx, *obs),
        tick matches Step::Done(outcome) ==> outcome.wf(),
{
    if !ctx.enabled {
        return Step::Done(release(state));
    }
    let config = match &ctx.config {
        Some(config) => config,
        None => {
            return Step::Done(release(state));
        },
    };
    if !config.enabled {
        return Step::Done(release(state));
    }
    let mode = match determine_mode(mods, config) {
        Some(mode) => mode,
        None => {
            return Step::Done(release(state));
        },
    };
    let grab = match state {
        Some(grab) => *grab,
        None => {
            return match try_create_grab_state(point, mode, config, obs) {
                Step::Need(query) => Step::Need(query),
                Step::Done(Some(grab)) => Step::Done(
                    Outcome {
                        state: Some(grab),
                        active: true,
                        placement: None,
                        overlay: OverlayRequest::Keep,
                    },
                ),
                Step::Done(None) => Step::Done(release(&None)),
            };
        },
    };
    let same_mode = match (grab.mode, mode) {
        (DragMode::Move, DragMode::Move) => true,
        (DragMode::Resize, DragMode::Resize) => true,
        _ => false,
    };
    if !same_mode {
        return match obs.window_rect {
            None => Step::Need(Query::WindowRect { window: grab.window }),
            Some(live) => {
                let mut next = grab;
                next.switch_mode(mode, point, live);
                Step::Done(
                    Outcome {
                        state: Some(next),
                        active: true,
                        placement: None,
                        overlay: OverlayRequest::Hide,
                    },
                )
            },
        };
    }
    if point.x == grab.last_cursor.x && point.y == grab.last_cursor.y {
        return Step::Done(
            Outcome {
                state: Some(grab),
                active: true,
                placement: None,
                overlay: OverlayRequest::Keep,
            },
        );
    }
    let mut next = grab;
    let placement = next.advance(point);
    let snapping = match grab.mode {
        DragMode::Move => config.snap_enabled,
        DragMode::Resize => false,
    };
    if !snapping {
        return Step::Done(
            Outcome {
                state: Some(next),
                active: true,
                placement: Some(placement),
                overlay: OverlayRequest::Keep,
            },
        );
    }
    let area = match obs.work_area {
        Some(area) => area,
        None => {
            return Step::Need(Query::WorkArea { point });
        },
    };
    let found = match area {
        Some(work) => detect_snap_zone(point, work, config.snap_threshold),
        None => None,
    };
    match found {
        Some((zone, rect)) => {
            proof {
                lemma_zone_spans_fit(zone, area.unwrap());
            }
            next.snap_target = Some(rect);
            Step::Done(
                Outcome {
                    state: Some(next),
                    active: true,
                    placement: Some(placement),
                    overlay: OverlayRequest::Show(rect),
                },
            )
        },
        None => {
            let overlay = if grab.snap_target.is_some() {
                OverlayRequest::Hide
            } else {
                OverlayRequest::Keep
            };
            next.snap_target = None;
            Step::Done(
                Outcome { state: Some(next), active: true, placement: Some(placement), overlay },
            )
        },
    }
}

/// Tells whether a mouse move may be handled with these values. It may
/// unless some coordinate or size that the move leads to is out of range.
pub fn can_handle_mouse_move(
    point: Point,
    mods: u32,
    state: &Option<GrabState>,
    ctx: &HookState,
    obs: &Observations,
) -> (ready: bool)
    ensures
        ready == mouse_move_ready(point, mods, *state, *ctx, *obs),
{
    let answers_ok = match obs.work_area {
        Some(Some(work)) => work.has_fitting_spans(),
        _ => true,
    };
    if !answers_ok {
        return false;
    }
    let grab = match state {
        Some(grab) => *grab,
        None => {
            return true;
        },
    };
    let grab_ok = match grab.snap_target {
        Some(rect) => rect.has_fitting_spans() && match grab.mode {
            DragMode::Move => true,
            DragMode::Resize => false,
        },
        None => true,
    };
    if !grab_ok {
        return false;
    }
    if !ctx.enabled {
        return true;
    }
    let config = match &ctx.config {
        Some(config) => config,
        None => {
            return true;
        },
    };
    if !config.enabled {
        return true;
    }
    let same_mode = match (determine_mode(mods, config), grab.mode) {
        (Some(DragMode::Move), DragMode::Move) => true,
        (Some(DragMode::Resize), DragMode::Resize) => true,
        _ => false,
    };
    if !same_mode || (point.x == grab.last_cursor.x && point.y == grab.last_cursor.y) {
        return true;
    }
    grab.has_room(point)
}

/// The opacity after one wheel step from `current`: a step up for a turn
/// away from the user, a step down otherwise, held between the least opacity
/// and full opacity.
pub open spec fn faded(current: u8, delta: i16) -> u8 {
    let target = if delta > 0 {
        current + OPACITY_STEP
    } else {
        current - OPACITY_STEP
    };
    if target < OPACITY_MIN {
        OPACITY_MIN
    } else if target > 255 {
        255u8
    } else {
        target as u8
    }
}

/// Computes the opacity after one wheel step. The result is never below the
/// least opacity, so the window stays visible.
pub fn step_opacity(current: u8, delta: i16) -> (alpha: u8)
    ensures
        alpha == faded(current, delta),
        alpha >= OPACITY_MIN,
{
    let step: i32 = if delta > 0 {
        OPACITY_STEP
    } else {
        -OPACITY_STEP
    };
    let target: i32 = current as i32 + step;
    if target < OPACITY_MIN as i32 {
        OPACITY_MIN
    } else if target > 255 {
        255
    } else {
        target as u8
    }
}

/// The window that a wheel turn or a middle-button press acts on, as far as
/// the answers reach: none unless the settings are there and switch
/// manipulation and the feature on, the move binding is satisfied, and a
/// valid target is at the cursor.
pub open spec fn gesture_target(
    point: Point,
    mods: u32,
    feature: bool,
    ctx: HookState,
    obs: Observations,
) -> Step<Option<WindowId>> {
    if !feature || !(ctx.config matches Some(config) && config.enabled) || !satisfied(
        mods,
        ctx.move_mask,
    ) {
        Step::Done(None)
    } else {
        match obs.hit {
            None => Step::Need(Query::HitTest { point }),
            Some(hit) => if hit.valid {
                Step::Done(hit.window)
            } else {
                Step::Done(None)
            },
        }
    }
}

/// Finds the window that a gesture acts on.
fn find_gesture_target(
    point: Point,
    mods: u32,
    feature: bool,
    ctx: &HookState,
    obs: &Observations,
) -> (target: Step<Option<WindowId>>)
    ensures
        target == gesture_target(point, mods, feature, *ctx, *obs),
{
    let on = match &ctx.config {
        Some(config) => config.enabled && feature,
        None => false,
    };
    if !on || !is_move_modifier_held(ctx, mods) {
        return Step::Done(None);
    }
    match obs.hit {
        None => Step::Need(Query::HitTest { point }),
        Some(hit) => if hit.valid {
            Step::Done(hit.window)
        } else {
            Step::Done(None)
        },
    }
}

/// Whether the settings switch the wheel's opacity control on.
pub open spec fn scroll_feature(ctx: HookState) -> bool {
    ctx.config matches Some(config) && config.scroll_opacity
}

/// Whether the settings switch the middle button's always-on-top toggle on.
pub open spec fn middleclick_feature(ctx: HookState) -> bool {
    ctx.config matches Some(config) && config.middleclick_topmost
}

/// What a wheel turn does: it changes the opacity of the target window by
/// one step from its present opacity.
pub open spec fn scroll_tick(
    point: Point,
    delta: i16,
    mods: u32,
    ctx: HookState,
    obs: Observations,
) -> Step< Option<OpacityChange>, > {
    match gesture_target(point, mods, scroll_feature(ctx), ctx, obs) {
        Step::Need(query) => Step::Need(query),
        Step::Done(None) => Step::Done(None),
        Step::Done(Some(window)) => match obs.opacity {
            None => Step::Need(Query::Opacity { window }),
            Some(current) => Step::Done(
                Some(OpacityChange { window, alpha: faded(current, delta) }),
            ),
        },
    }
}

/// Handles a wheel turn.
pub fn worker_handle_scroll(
    point: Point,
    delta: i16,
    mods: u32,
    ctx: &HookState,
    obs: &Observations,
) -> (tick: Step<Option<OpacityChange>>)
    ensures
        tick == scroll_tick(point, delta, mods, *ctx, *obs),
        tick matches Step::Done(Some(change)) ==> change.alpha >= OPACITY_MIN,
{
    let feature = match &ctx.config {
        Some(config) => config.scroll_opacity,
        None => false,
    };
    match find_gesture_target(point, mods, feature, ctx, obs) {
        Step::Need(query) => Step::Need(query),
        Step::Done(None) => Step::Done(None),
        Step::Done(Some(window)) => match obs.opacity {
            None => Step::Need(Query::Opacity { window }),
            Some(current) => Step::Done(
                Some(OpacityChange { window, alpha: step_opacity(current, delta) }),
            ),
        },
    }
}

/// Handles a middle-button press: gives the window whose always-on-top state
/// is to be flipped, if any.
pub fn worker_handle_middleclick(
    point: Point,
    mods: u32,
    ctx: &HookState,
    obs: &Observations,
) -> (tick: Step<Option<WindowId>>)
    ensures
        tick == gesture_target(point, mods, middleclick_feature(*ctx), *ctx, *obs),
{
    let feature = match &ctx.config {
        Some(config) => config.middleclick_topmost,
        None => false,
    };
    find_gesture_target(point, mods, feature, ctx, obs)
}

/// What the worker does in answer to an event.
#[derive(Debug, Clone, Copy, PartialEq, Eq)]
pub enum Reaction {
    /// The outcome of a mouse move.
    Grab(Outcome),
    /// The opacity to set after a wheel turn, if any.
    Opacity(Option<OpacityChange>),
    /// The window whose always-on-top state a middle-button press flips, if
    /// any.
    Topmost(Option<WindowId>),
}

/// What an event leads to, by its kind.
pub open spec fn reaction_to(
    event: WorkerEvent,
    state: Option<GrabState>,
    ctx: HookState,
    obs: Observations,
) -> Step<Reaction> {
    match event {
        WorkerEvent::MouseMove { point, mods } => match mouse_move_tick(
            point,
            mods,
            state,
            ctx,
            obs,
        ) {
            Step::Need(query) => Step::Need(query),
            Step::Done(outcome) => Step::Done(Reaction::Grab(outcome)),
        },
        WorkerEvent::MouseWheel { point, delta, mods } => match scroll_tick(
            point,
            delta,
            mods,
            ctx,
            obs,
        ) {
            Step::Need(query) => Step::Need(query),
            Step::Done(change) => Step::Done(Reaction::Opacity(change)),
        },
        WorkerEvent::MiddleClick { point, mods } => match gesture_target(
            point,
            mods,
            middleclick_feature(ctx),
            ctx,
            obs,
        ) {
            Step::Need(query) => Step::Need(query),
            Step::Done(window) => Step::Done(Reaction::Topmost(window)),
        },
    }
}

/// What an event may be handled with: for a mouse move, what
/// [`mouse_move_ready`] asks; for the others, anything.
pub open spec fn event_ready(
    event: WorkerEvent,
    state: Option<GrabState>,
    ctx: HookState,
    obs: Observations,
) -> bool {
    event matches WorkerEvent::MouseMove { point, mods } ==> mouse_move_ready(
        point,
        mods,
        state,
        ctx,
        obs,
    )
}

/// Tells whether an event may be handled with these values.
pub fn can_handle_event(
    event: WorkerEvent,
    state: &Option<GrabState>,
    ctx: &HookState,
    obs: &Observations,
) -> (ready: bool)
    ensures
        ready == event_ready(event, *state, *ctx, *obs),
{
    match event {
        WorkerEvent::MouseMove { point, mods } => can_handle_mouse_move(
            point,
            mods,
            state,
            ctx,
            obs,
        ),
        _ => true,
    }
}

/// Handles one event from the queue. Only a mouse move touches the grab; a
/// wheel turn and a middle-button press act on the window at the cursor and
/// leave the grab alone.
pub fn worker_handle_event(
    event: WorkerEvent,
    state: &Option<GrabState>,
    ctx: &HookState,
    obs: &Observations,
) -> (step: Step<Reaction>)
    requires
        event_ready(event, *state, *ctx, *obs),
    ensures
        step == reaction_to(event, *state, *ctx, *obs),
        step matches Step::Done(Reaction::Grab(outcome)) ==> outcome.wf(),
{
    match event {
        WorkerEvent::MouseMove { point, mods } => match worker_handle_mouse_move(
            point,
            mods,
            state,
            ctx,
            obs,
        ) {
            Step::Need(query) => Step::Need(query),
            Step::Done(outcome) => Step::Done(Reaction::Grab(outcome)),
        },
        WorkerEvent::MouseWheel { point, delta, mods } => match worker_handle_scroll(
            point,
            delta,
            mods,
            ctx,
            obs,
        ) {
            Step::Need(query) => Step::Need(query),
            Step::Done(change) => Step::Done(Reaction::Opacity(change)),
        },
        WorkerEvent::MiddleClick { point, mods } => match worker_handle_middleclick(
            point,
            mods,
            ctx,
            obs,
        ) {
            Step::Need(query) => Step::Need(query),
            Step::Done(window) => Step::Done(Reaction::Topmost(window)),
        },
    }
}

/// A grab ends at once where the modifiers no longer ask for a mode or
/// manipulation is off: no grab is left, the preview is hidden, and a window
/// with a pending snap rectangle that has an extent is put exactly there.
pub proof fn lemma_exit_snaps_and_hides(
    point: Point,
    mods: u32,
    grab: GrabState,
    ctx: HookState,
    obs: Observations,
)
    requires
        grab.wf(),
        inert(ctx) || desired_mode(mods, ctx.config.unwrap()@) is None,
    ensures
        mouse_move_tick(point, mods, Some(grab), ctx, obs) == Step::Done(released(Some(grab))),
        released(Some(grab)).state is None,
        !released(Some(grab)).active,
        released(Some(grab)).overlay == OverlayRequest::Hide,
        match grab.snap_target {
            None => released(Some(grab)).placement is None,
            Some(rect) => if rect.width() > 0 && rect.height() > 0 {
                &&& released(Some(grab)).placement matches Some(
                    Placement::Resize { window, x, y, width, height },
                )
                &&& window == grab.window
                &&& x == rect.left
                &&& y == rect.top
                &&& x + width == rect.right
                &&& y + height == rect.bottom
            } else {
                released(Some(grab)).placement is None
            },
        },
{
}

/// While a grab follows the cursor, the window's rectangle is never read:
/// the only thing ever asked for is the work area, the placement is the one
/// that origin and displacement give whatever the answers are, and origin,
/// window, mode and corner stay.
pub proof fn lemma_position_authority(
    point: Point,
    mods: u32,
    grab: GrabState,
    ctx: HookState,
    obs: Observations,
)
    requires
        follows(point, mods, Some(grab), ctx),
    ensures
        match mouse_move_tick(point, mods, Some(grab), ctx, obs) {
            Step::Need(query) => query == (Query::WorkArea { point }),
            Step::Done(outcome) => {
                &&& outcome.placement == Some(grab.advanced(point).placement())
                &&& outcome.active
                &&& outcome.state matches Some(next)
                &&& next.origin_rect == grab.origin_rect
                &&& next.window == grab.window
                &&& next.mode == grab.mode
                &&& next.resize_dir == grab.resize_dir
                &&& next.last_cursor == point
                &&& next.cumulative_dx == grab.advanced(point).cumulative_dx
                &&& next.cumulative_dy == grab.advanced(point).cumulative_dy
            },
        },
{
}

/// During a move with snap assist, a cursor in a snap zone of the work area
/// shows the preview over the zone's rectangle and makes that rectangle the
/// pending snap; a cursor in no zone leaves no pending snap.
pub proof fn lemma_snap_follows_cursor(
    point: Point,
    mods: u32,
    grab: GrabState,
    ctx: HookState,
    obs: Observations,
    work: Rect,
)
    requires
        follows(point, mods, Some(grab), ctx),
        grab.mode == DragMode::Move,
        ctx.config.unwrap()@.snap_enabled,
        obs.work_area == Some(Some(work)),
    ensures
        mouse_move_tick(point, mods, Some(grab), ctx, obs) matches Step::Done(outcome) && (
        match zone_at(point, work, ctx.config.unwrap()@.snap_threshold) {
            Some(zone) => {
                &&& outcome.overlay == OverlayRequest::Show(zone_rect(zone, work))
                &&& outcome.state.unwrap().snap_target == Some(zone_rect(zone, work))
            },
            None => {
                &&& outcome.overlay == if grab.snap_target is Some {
                    OverlayRequest::Hide
                } else {
                    OverlayRequest::Keep
                }
                &&& outcome.state.unwrap().snap_target is None
            },
        }),
{
}

/// A grab starts only on a window that was hit, is a valid target, is
/// admitted by the settings, and gave its rectangle; the grab then has that
/// rectangle as its origin, no displacement and no pending snap.
pub proof fn lemma_grab_starts_on_admitted_window(
    cursor: Point,
    mode: DragMode,
    config: ConfigModel,
    obs: Observations,
)
    ensures
        grab_start(cursor, mode, config, obs) matches Step::Done(Some(grab)) ==> {
            &&& obs.hit matches Some(hit)
            &&& obs.inspection matches Some(inspection)
            &&& admitted(hit, inspection, config)
            &&& hit.window == Some(grab.window)
            &&& obs.window_rect == Some(Some(grab.origin_rect))
            &&& grab.mode == mode
            &&& grab.last_cursor == cursor
            &&& grab.cumulative_dx == 0
            &&& grab.cumulative_dy == 0
            &&& grab.snap_target is None
        },
{
}


/// What the hook consumes, the worker acts on. While the derived masks and
/// toggles agree with the settings and the settings switch manipulation on,
/// an event that the hook keeps from the application is a wheel turn or a
/// middle-button press that passes the worker's own tests of binding and
/// feature, so that the worker goes on to look for the window at the cursor.
pub proof fn lemma_consumed_events_are_acted_on(
    ctx: HookState,
    n_code: i32,
    message: u32,
    point: Point,
    mouse_data: u32,
)
    requires
        ctx.in_sync(),
        ctx.config matches Some(config) && config.enabled,
        mouse_verdict(ctx, n_code, message, point, mouse_data).swallow,
    ensures
        mouse_verdict(ctx, n_code, message, point, mouse_data).event matches Some(event)
            && reaction_to(event, None, ctx, Observations::empty()) == Step::<Reaction>::Need(
            Query::HitTest { point },
        ),
{
}


/// Whether the preview agrees with the grab: it is shown only while a grab
/// has a pending snap.
pub open spec fn preview_agrees(state: Option<GrabState>, overlay: Overlay) -> bool {
    overlay.visible ==> (state matches Some(grab) && grab.snap_target is Some)
}

/// The preview never outlives what it shows. If it agrees with the grab
/// before a mouse move, it agrees with the grab that is left after the
/// requests of the move were carried out; and once no grab is left, the
/// preview is hidden.
pub proof fn lemma_preview_follows_grab(
    point: Point,
    mods: u32,
    state: Option<GrabState>,
    ctx: HookState,
    obs: Observations,
    overlay: Overlay,
)
    requires
        preview_agrees(state, overlay),
        mouse_move_tick(point, mods, state, ctx, obs) is Done,
    ensures
        ({
            let outcome = mouse_move_tick(point, mods, state, ctx, obs)->Done_0;
            &&& preview_agrees(outcome.state, applied(overlay, outcome.overlay))
            &&& outcome.state is None ==> !applied(overlay, outcome.overlay).visible
        }),
{
}

} // verus!
