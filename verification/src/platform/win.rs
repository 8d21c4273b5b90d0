//! Stealth mode on Windows hosts.
//!
//! Shortly after the overlay window has been created it is taken out of the
//! task switcher and the taskbar and, in the repositioning variant, moved next
//! to the taskbar.  The host calls themselves are made by the embedding
//! program.  This module decides which call comes next and with which
//! arguments: [`advance`] maps the current [`Stage`] and the outcome of the
//! previous call to the next stage and the next [`Command`].

use vstd::prelude::*;

verus! {

/// Title of the overlay window.  The presentation surface declares the same
/// title, and the window is looked up by it.
pub const WINDOW_TITLE: &'static str = "TaskbarWeatherAppThigyDoohickey";

/// Width of the overlay window, as the presentation surface declares it.
pub const WINDOW_WIDTH: i32 = 160;

/// Height of the overlay window, as the presentation surface declares it.
pub const WINDOW_HEIGHT: i32 = 40;

/// Time given to the host to settle the new window before it is looked up.
pub const SETTLE_MILLIS: u64 = 1000;

/// Gap between the taskbar and the overlay window.
pub const MARGIN: i32 = 10;

/// Horizontal position used when the host reports no taskbar.
pub const FALLBACK_X: i32 = 20;

/// Vertical position used when the host reports no taskbar.
pub const FALLBACK_Y: i32 = 20;

/// Host code of a taskbar docked at the left screen edge.
pub const ABE_LEFT: u32 = 0;

/// Host code of a taskbar docked at the top screen edge.
pub const ABE_TOP: u32 = 1;

/// Host code of a taskbar docked at the right screen edge.
pub const ABE_RIGHT: u32 = 2;

/// Extended style bit of a window that appears as an application.
pub const WS_EX_APPWINDOW: isize = 0x0004_0000;

/// Extended style bit of a tool window.
pub const WS_EX_TOOLWINDOW: isize = 0x0000_0080;

/// Placement flag: keep the current size.
pub const SWP_NOSIZE: u32 = 0x0001;

/// Placement flag: keep the current position.
pub const SWP_NOMOVE: u32 = 0x0002;

/// Placement flag: keep the current stacking order.
pub const SWP_NOZORDER: u32 = 0x0004;

/// Placement flag: re-read the style bits and redraw the frame.
pub const SWP_FRAMECHANGED: u32 = 0x0020;

/// The screen edge a taskbar occupies.  Anything that is not the top, left
/// or right edge counts as the bottom edge.
#[derive(Clone, Copy, Debug, PartialEq, Eq, Structural)]
pub enum TaskbarEdge {
    Top,
    Left,
    Right,
    Bottom,
}

/// A rectangle in host-desktop coordinates.
#[derive(Clone, Copy, Debug, PartialEq, Eq, Structural)]
pub struct Rect {
    pub left: i32,
    pub top: i32,
    pub right: i32,
    pub bottom: i32,
}

/// What the host reports about its taskbar.
#[derive(Clone, Copy, Debug, PartialEq, Eq, Structural)]
pub struct Taskbar {
    pub rect: Rect,
    pub edge: TaskbarEdge,
}

/// Where the overlay window goes, and the taskbar edge this was derived from.
#[derive(Clone, Copy, Debug, PartialEq, Eq, Structural)]
pub struct WindowGeometry {
    pub x: i32,
    pub y: i32,
    pub width: i32,
    pub height: i32,
    pub edge: TaskbarEdge,
}

/// The edge that a host code stands for.
pub open spec fn edge_of_code(code: u32) -> TaskbarEdge {
    if code == ABE_TOP {
        TaskbarEdge::Top
    } else if code == ABE_LEFT {
        TaskbarEdge::Left
    } else if code == ABE_RIGHT {
        TaskbarEdge::Right
    } else {
        TaskbarEdge::Bottom
    }
}

/// Horizontal position of a window of the given width beside `taskbar`.
pub open spec fn placement_x(taskbar: Taskbar, width: int) -> int {
    match taskbar.edge {
        TaskbarEdge::Top => taskbar.rect.right - width - MARGIN,
        TaskbarEdge::Left => taskbar.rect.right + MARGIN,
        TaskbarEdge::Right => taskbar.rect.left - width - MARGIN,
        TaskbarEdge::Bottom => taskbar.rect.right - width - MARGIN,
    }
}

/// Vertical position of a window of the given height beside `taskbar`.
pub open spec fn placement_y(taskbar: Taskbar, height: int) -> int {
    match taskbar.edge {
        TaskbarEdge::Top => taskbar.rect.bottom + MARGIN,
        TaskbarEdge::Left => taskbar.rect.bottom - height - MARGIN,
        TaskbarEdge::Right => taskbar.rect.bottom - height - MARGIN,
        TaskbarEdge::Bottom => taskbar.rect.top - height - MARGIN,
    }
}

/// Whether both coordinates of the placement beside `taskbar` are
/// representable host coordinates.
pub open spec fn placement_fits(taskbar: Taskbar, width: int, height: int) -> bool {
    &&& i32::MIN <= placement_x(taskbar, width) <= i32::MAX
    &&& i32::MIN <= placement_y(taskbar, height) <= i32::MAX
}

/// The geometry of a window of the given size: beside the taskbar where one
/// is reported, at the fallback position where none is.
pub open spec fn geometry_of(taskbar: Option<Taskbar>, width: i32, height: i32) -> WindowGeometry {
    match taskbar {
        Some(t) => WindowGeometry {
            x: placement_x(t, width as int) as i32,
            y: placement_y(t, height as int) as i32,
            width,
            height,
            edge: t.edge,
        },
        None => WindowGeometry {
            x: FALLBACK_X,
            y: FALLBACK_Y,
            width,
            height,
            edge: TaskbarEdge::Bottom,
        },
    }
}

/// The extended style of a stealthy window: `ex_style` with the
/// application-window bit cleared and the tool-window bit set.
pub open spec fn stealth_style_of(ex_style: isize) -> isize {
    (ex_style & !WS_EX_APPWINDOW) | WS_EX_TOOLWINDOW
}

/// The flags of the placement call.  They always ask for a frame refresh and
/// keep size and stacking order; unless the window is repositioned they keep
/// the position too.
pub open spec fn placement_flags_of(reposition: bool) -> u32 {
    if reposition {
        SWP_FRAMECHANGED | SWP_NOSIZE | SWP_NOZORDER
    } else {
        SWP_FRAMECHANGED | SWP_NOSIZE | SWP_NOZORDER | SWP_NOMOVE
    }
}

impl TaskbarEdge {
    /// Reads the edge out of the code the host reports.
    pub fn from_code(code: u32) -> (edge: TaskbarEdge)
        ensures
            edge == edge_of_code(code),
    {
        if code == ABE_TOP {
            TaskbarEdge::Top
        } else if code == ABE_LEFT {
            TaskbarEdge::Left
        } else if code == ABE_RIGHT {
            TaskbarEdge::Right
        } else {
            TaskbarEdge::Bottom
        }
    }
}

impl Taskbar {
    /// Horizontal placement, computed without any bound on the inputs.
    fn wide_x(&self, width: i32) -> (x: i64)
        ensures
            x == placement_x(*self, width as int),
    {
        let margin: i64 = MARGIN as i64;
        match self.edge {
            TaskbarEdge::Top => self.rect.right as i64 - width as i64 - margin,
            TaskbarEdge::Left => self.rect.right as i64 + margin,
            TaskbarEdge::Right => self.rect.left as i64 - width as i64 - margin,
            TaskbarEdge::Bottom => self.rect.right as i64 - width as i64 - margin,
        }
    }

    /// Vertical placement, computed without any bound on the inputs.
    fn wide_y(&self, height: i32) -> (y: i64)
        ensures
            y == placement_y(*self, height as int),
    {
        let margin: i64 = MARGIN as i64;
        match self.edge {
            TaskbarEdge::Top => self.rect.bottom as i64 + margin,
            TaskbarEdge::Left => self.rect.bottom as i64 - height as i64 - margin,
            TaskbarEdge::Right => self.rect.bottom as i64 - height as i64 - margin,
            TaskbarEdge::Bottom => self.rect.top as i64 - height as i64 - margin,
        }
    }

    /// Tells whether a window of the given size can be placed beside this
    /// taskbar at representable coordinates.
    pub fn fits(&self, width: i32, height: i32) -> (ok: bool)
        ensures
            ok == placement_fits(*self, width as int, height as int),
    {
        let x: i64 = self.wide_x(width);
        let y: i64 = self.wide_y(height);
        let lo: i64 = i32::MIN as i64;
        let hi: i64 = i32::MAX as i64;
        lo <= x && x <= hi && lo <= y && y <= hi
    }
}

/// Computes where a window of the given size goes: beside the taskbar, one
/// margin away from it, or at the fallback position if the host reported no
/// taskbar.
pub fn placement(taskbar: &Option<Taskbar>, width: i32, height: i32) -> (g: WindowGeometry)
    requires
        *taskbar matches Some(t) ==> placement_fits(t, width as int, height as int),
    ensures
        g == geometry_of(*taskbar, width, height),
        *taskbar matches Some(t) ==> g.x == placement_x(t, width as int) && g.y == placement_y(
            t,
            height as int,
        ),
        *taskbar is None ==> g.x == FALLBACK_X && g.y == FALLBACK_Y,
{
    match taskbar {
        Some(t) => WindowGeometry {
            x: t.wide_x(width) as i32,
            y: t.wide_y(height) as i32,
            width,
            height,
            edge: t.edge,
        },
        None => WindowGeometry {
            x: FALLBACK_X,
            y: FALLBACK_Y,
            width,
            height,
            edge: TaskbarEdge::Bottom,
        },
    }
}

/// Computes the extended style that hides a window from the task switcher
/// and the taskbar.  The application-window bit is cleared, the tool-window
/// bit is set, and every other bit is kept.
pub fn stealth_style(ex_style: isize) -> (style: isize)
    ensures
        style == stealth_style_of(ex_style),
        style & WS_EX_APPWINDOW == 0,
        style & WS_EX_TOOLWINDOW == WS_EX_TOOLWINDOW,
        style & !(WS_EX_APPWINDOW | WS_EX_TOOLWINDOW) == ex_style & !(WS_EX_APPWINDOW
            | WS_EX_TOOLWINDOW),
{
    proof {
        lemma_stealth_style_bits(ex_style);
    }
    (ex_style & !WS_EX_APPWINDOW) | WS_EX_TOOLWINDOW
}

/// The flags of the placement call, for the repositioning variant or the
/// one that leaves the window where it is.
pub fn placement_flags(reposition: bool) -> (flags: u32)
    ensures
        flags == placement_flags_of(reposition),
        flags == (if reposition {
            0x25u32
        } else {
            0x27u32
        }),
{
    proof {
        lemma_placement_flags_bits(reposition);
    }
    if reposition {
        SWP_FRAMECHANGED | SWP_NOSIZE | SWP_NOZORDER
    } else {
        SWP_FRAMECHANGED | SWP_NOSIZE | SWP_NOZORDER | SWP_NOMOVE
    }
}

/// Settings of the stealth routine.
#[derive(Clone, Copy, Debug, PartialEq, Eq, Structural)]
pub struct StealthConfig {
    /// Whether the window is moved next to the taskbar before it is hidden.
    pub reposition: bool,
    /// Width of the window.
    pub width: i32,
    /// Height of the window.
    pub height: i32,
}

/// Where the stealth routine stands.
#[derive(Clone, Copy, Debug, PartialEq, Eq, Structural)]
pub enum Stage {
    /// Nothing has happened yet.
    Scheduled,
    /// The settle delay is running.
    Waiting,
    /// The window is being looked up by its title.
    Locating,
    /// The host is being asked for its taskbar.
    Positioning,
    /// The window is being reparented; it will be placed at `(x, y)`.
    Hiding { x: i32, y: i32 },
    /// The window has been hidden.
    Done,
    /// The window was not found; it stays as it is.
    Failed,
}

/// What the embedding program reports back to the routine.
#[derive(Clone, Copy, Debug, PartialEq, Eq, Structural)]
pub enum Event {
    /// The presentation surface has been constructed.
    Triggered,
    /// The settle delay has passed.
    DelayElapsed,
    /// A top-level window with the overlay's title exists.
    WindowFound,
    /// No top-level window has the overlay's title.
    WindowMissing,
    /// The answer to the taskbar query, `None` if the query failed.
    TaskbarReported(Option<Taskbar>),
    /// The window's extended style, read after reparenting.
    StyleRead(isize),
}

/// What the embedding program is to do next.
#[derive(Clone, Copy, Debug, PartialEq, Eq, Structural)]
pub enum Command {
    /// Sleep, then report `DelayElapsed`.
    Sleep { millis: u64 },
    /// Look for a top-level window titled `WINDOW_TITLE`, then report
    /// `WindowFound` or `WindowMissing`.
    FindWindow,
    /// Ask the host for its taskbar, then report `TaskbarReported`.
    QueryTaskbar,
    /// Make the window a child of the desktop root window, read its extended
    /// style and report `StyleRead`.
    Reparent,
    /// Store `ex_style` as the window's extended style and place the window
    /// at `(x, y)` with size `(0, 0)` and the given placement flags.  Nothing
    /// is reported back.
    Apply { ex_style: isize, x: i32, y: i32, flags: u32 },
    /// Log that the window could not be found.  Nothing is reported back.
    ReportMissing,
    /// Do nothing.
    Nothing,
}

/// Whether the routine can take `event` in `stage`.  The one thing it cannot
/// take is a taskbar beside which the window has no representable position.
pub open spec fn acceptable(config: StealthConfig, stage: Stage, event: Event) -> bool {
    (stage is Positioning && event is TaskbarReported && event->TaskbarReported_0 is Some)
        ==> placement_fits(
        event->TaskbarReported_0->Some_0,
        config.width as int,
        config.height as int,
    )
}

/// The transition function of the routine.  There is a single path from
/// `Scheduled` to `Done`, with one exit to `Failed`; an event that the
/// current stage does not wait for changes nothing.  Without repositioning
/// the taskbar is not asked for, and the position handed on is `(0, 0)`,
/// which the placement flags tell the host to ignore.
pub open spec fn next(config: StealthConfig, stage: Stage, event: Event) -> (Stage, Command) {
    match (stage, event) {
        (Stage::Scheduled, Event::Triggered) => (
            Stage::Waiting,
            Command::Sleep { millis: SETTLE_MILLIS },
        ),
        (Stage::Waiting, Event::DelayElapsed) => (Stage::Locating, Command::FindWindow),
        (Stage::Locating, Event::WindowFound) => if config.reposition {
            (Stage::Positioning, Command::QueryTaskbar)
        } else {
            (Stage::Hiding { x: 0, y: 0 }, Command::Reparent)
        },
        (Stage::Locating, Event::WindowMissing) => (Stage::Failed, Command::ReportMissing),
        (Stage::Positioning, Event::TaskbarReported(taskbar)) => {
            let g = geometry_of(taskbar, config.width, config.height);
            (Stage::Hiding { x: g.x, y: g.y }, Command::Reparent)
        },
        (Stage::Hiding { x, y }, Event::StyleRead(ex_style)) => (
            Stage::Done,
            Command::Apply {
                ex_style: stealth_style_of(ex_style),
                x,
                y,
                flags: placement_flags_of(config.reposition),
            },
        ),
        _ => (stage, Command::Nothing),
    }
}

/// How far along the path a stage is.
pub open spec fn progress(stage: Stage) -> nat {
    match stage {
        Stage::Scheduled => 0,
        Stage::Waiting => 1,
        Stage::Locating => 2,
        Stage::Positioning => 3,
        Stage::Hiding { .. } => 4,
        Stage::Done => 5,
        Stage::Failed => 5,
    }
}

impl StealthConfig {
    /// The settings of the overlay: it is repositioned, and has the size
    /// that the presentation surface declares.
    pub fn overlay() -> (config: StealthConfig)
        ensures
            config == (StealthConfig {
                reposition: true,
                width: WINDOW_WIDTH,
                height: WINDOW_HEIGHT,
            }),
    {
        StealthConfig { reposition: true, width: WINDOW_WIDTH, height: WINDOW_HEIGHT }
    }
}

impl Stage {
    /// Tells whether the routine has ended, successfully or not.
    pub fn is_terminal(&self) -> (end: bool)
        ensures
            end == (*self is Done || *self is Failed),
    {
        match self {
            Stage::Done => true,
            Stage::Failed => true,
            _ => false,
        }
    }
}

/// Tells whether `advance` can be called with these arguments.
pub fn can_advance(config: &StealthConfig, stage: &Stage, event: &Event) -> (ok: bool)
    ensures
        ok == acceptable(*config, *stage, *event),
{
    match (stage, event) {
        (Stage::Positioning, Event::TaskbarReported(Some(taskbar))) => taskbar.fits(
            config.width,
            config.height,
        ),
        _ => true,
    }
}

/// Takes one step of the stealth routine: given the stage and what the
/// embedding program reports, returns the next stage and what to do next.
pub fn advance(config: &StealthConfig, stage: Stage, event: Event) -> (step: (Stage, Command))
    requires
        acceptable(*config, stage, event),
    ensures
        step == next(*config, stage, event),
{
    match (stage, event) {
        (Stage::Scheduled, Event::Triggered) => (
            Stage::Waiting,
            Command::Sleep { millis: SETTLE_MILLIS },
        ),
        (Stage::Waiting, Event::DelayElapsed) => (Stage::Locating, Command::FindWindow),
        (Stage::Locating, Event::WindowFound) => {
            if config.reposition {
                (Stage::Positioning, Command::QueryTaskbar)
            } else {
                (Stage::Hiding { x: 0, y: 0 }, Command::Reparent)
            }
        },
        (Stage::Locating, Event::WindowMissing) => (Stage::Failed, Command::ReportMissing),
        (Stage::Positioning, Event::TaskbarReported(taskbar)) => {
            let g = placement(&taskbar, config.width, config.height);
            (Stage::Hiding { x: g.x, y: g.y }, Command::Reparent)
        },
        (Stage::Hiding { x, y }, Event::StyleRead(ex_style)) => (
            Stage::Done,
            Command::Apply {
                ex_style: stealth_style(ex_style),
                x,
                y,
                flags: placement_flags(config.reposition),
            },
        ),
        (stage, _) => (stage, Command::Nothing),
    }
}

/// Once the routine has ended it stays where it is and asks for nothing.
pub proof fn lemma_terminal_stage_is_final(config: StealthConfig, stage: Stage, event: Event)
    requires
        stage is Done || stage is Failed,
    ensures
        next(config, stage, event) == (stage, Command::Nothing),
{
}

/// The routine never goes back and never repeats a call: a step either
/// leaves the stage alone and asks for nothing, or moves strictly forward and
/// asks for exactly one thing.
pub proof fn lemma_single_path(config: StealthConfig, stage: Stage, event: Event)
    ensures
        next(config, stage, event).0 == stage <==> next(config, stage, event).1 is Nothing,
        next(config, stage, event).0 != stage ==> progress(stage) < progress(
            next(config, stage, event).0,
        ),
        next(config, stage, event).1 is QueryTaskbar ==> config.reposition,
{
}

/// The number of calls that the routine asks for while it takes a run of
/// events, starting in `stage`.
pub open spec fn calls_asked(config: StealthConfig, stage: Stage, events: Seq<Event>) -> nat
    decreases events.len(),
{
    if events.len() == 0 {
        0
    } else {
        let step = next(config, stage, events.first());
        let asked: nat = if step.1 is Nothing {
            0
        } else {
            1
        };
        asked + calls_asked(config, step.0, events.drop_first())
    }
}

/// Whatever is reported to the routine, and however often, it asks for no
/// more calls than there are stages ahead of it.  From the start that is
/// five calls at most, and once it has ended it asks for none.
pub proof fn lemma_routine_ends(config: StealthConfig, stage: Stage, events: Seq<Event>)
    ensures
        calls_asked(config, stage, events) + progress(stage) <= 5,
    decreases events.len(),
{
    if events.len() > 0 {
        lemma_single_path(config, stage, events.first());
        lemma_routine_ends(config, next(config, stage, events.first()).0, events.drop_first());
    }
}

/// A taskbar query that fails is no failure of the routine: the window goes
/// to the fallback position and is hidden like any other.
pub proof fn lemma_missing_taskbar_falls_back(config: StealthConfig, ex_style: isize)
    ensures
        geometry_of(None, config.width, config.height).x == FALLBACK_X,
        geometry_of(None, config.width, config.height).y == FALLBACK_Y,
        acceptable(config, Stage::Positioning, Event::TaskbarReported(None)),
        next(config, Stage::Positioning, Event::TaskbarReported(None)) == (
            Stage::Hiding { x: FALLBACK_X, y: FALLBACK_Y },
            Command::Reparent,
        ),
        next(config, Stage::Hiding { x: FALLBACK_X, y: FALLBACK_Y }, Event::StyleRead(ex_style)).0
            == Stage::Done,
{
}

/// Whatever style the window had, what is applied to it hides it: the
/// application-window bit is clear, the tool-window bit is set, and the
/// placement never changes the window's size.  Without repositioning it does
/// not change the position either.
pub proof fn lemma_apply_hides(config: StealthConfig, stage: Stage, event: Event)
    ensures
        next(config, stage, event).1 matches Command::Apply { ex_style, x, y, flags } ==> {
            &&& next(config, stage, event).0 is Done
            &&& ex_style & WS_EX_APPWINDOW == 0
            &&& ex_style & WS_EX_TOOLWINDOW == WS_EX_TOOLWINDOW
            &&& flags & SWP_NOSIZE == SWP_NOSIZE
            &&& flags & SWP_FRAMECHANGED == SWP_FRAMECHANGED
            &&& (flags & SWP_NOMOVE == SWP_NOMOVE <==> !config.reposition)
        },
{
    if let Event::StyleRead(ex_style) = event {
        lemma_stealth_style_bits(ex_style);
    }
    lemma_placement_flags_bits(config.reposition);
}

/// A stealthy style never has the application-window bit, always has the
/// tool-window bit, and agrees with the style it was made from on every
/// other bit.
pub proof fn lemma_stealth_style_bits(ex_style: isize)
    ensures
        stealth_style_of(ex_style) & WS_EX_APPWINDOW == 0,
        stealth_style_of(ex_style) & WS_EX_TOOLWINDOW == WS_EX_TOOLWINDOW,
        stealth_style_of(ex_style) & !(WS_EX_APPWINDOW | WS_EX_TOOLWINDOW) == ex_style & !(
        WS_EX_APPWINDOW | WS_EX_TOOLWINDOW),
{
    assert(((ex_style & !0x0004_0000isize) | 0x0000_0080isize) & 0x0004_0000isize == 0)
        by (bit_vector);
    assert(((ex_style & !0x0004_0000isize) | 0x0000_0080isize) & 0x0000_0080isize
        == 0x0000_0080isize) by (bit_vector);
    assert(((ex_style & !0x0004_0000isize) | 0x0000_0080isize) & !(0x0004_0000isize
        | 0x0000_0080isize) == ex_style & !(0x0004_0000isize | 0x0000_0080isize)) by (bit_vector);
}

/// Making a style stealthy twice is the same as making it stealthy once.
pub proof fn lemma_stealth_style_idempotent(ex_style: isize)
    ensures
        stealth_style_of(stealth_style_of(ex_style)) == stealth_style_of(ex_style),
{
    assert((((ex_style & !0x0004_0000isize) | 0x0000_0080isize) & !0x0004_0000isize)
        | 0x0000_0080isize == (ex_style & !0x0004_0000isize) | 0x0000_0080isize) by (bit_vector);
}

/// The placement flags as numbers, and what they say about size and
/// position: the size is never touched, and the position is touched only in
/// the repositioning variant.
pub proof fn lemma_placement_flags_bits(reposition: bool)
    ensures
        placement_flags_of(reposition) == (if reposition {
            0x25u32
        } else {
            0x27u32
        }),
        placement_flags_of(reposition) & SWP_NOSIZE == SWP_NOSIZE,
        placement_flags_of(reposition) & SWP_FRAMECHANGED == SWP_FRAMECHANGED,
        placement_flags_of(reposition) & SWP_NOZORDER == SWP_NOZORDER,
        (placement_flags_of(reposition) & SWP_NOMOVE == SWP_NOMOVE) <==> !reposition,
{
    assert(0x20u32 | 0x1u32 | 0x4u32 == 0x25u32) by (bit_vector);
    assert(0x20u32 | 0x1u32 | 0x4u32 | 0x2u32 == 0x27u32) by (bit_vector);
    assert(0x25u32 & 0x1u32 == 0x1u32) by (bit_vector);
    assert(0x27u32 & 0x1u32 == 0x1u32) by (bit_vector);
    assert(0x25u32 & 0x20u32 == 0x20u32) by (bit_vector);
    assert(0x27u32 & 0x20u32 == 0x20u32) by (bit_vector);
    assert(0x25u32 & 0x4u32 == 0x4u32) by (bit_vector);
    assert(0x27u32 & 0x4u32 == 0x4u32) by (bit_vector);
    assert(0x25u32 & 0x2u32 == 0x0u32) by (bit_vector);
    assert(0x27u32 & 0x2u32 == 0x2u32) by (bit_vector);
}

} // verus!
