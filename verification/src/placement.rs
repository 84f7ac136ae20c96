//! Monitor selection and the placement decision.
//!
//! `resolve_target_monitor` picks the monitor under the cursor (first
//! match in enumeration order, inclusive bounds) with the primary
//! monitor as fallback.  `plan_placement` turns one placement request
//! into a decision: skip because the window is already on that monitor,
//! move to a computed centered position, or fail with a reason.  The
//! application shell executes the move and reports the outcome back
//! through `apply_move_outcome`, which records the monitor name only
//! when the move succeeded.

use crate::geometry::Point;
use crate::geometry::Rect;
use crate::geometry::WindowSize;
use crate::geometry::centered_point;
use crate::geometry::compute_centered_position;
use crate::geometry::lemma_strict_containment_is_containment;
use crate::geometry::rect_contains;
use crate::geometry::rect_contains_point;
use crate::geometry::rect_strictly_contains;
use vstd::prelude::*;

verus! {

/// A display monitor: its bounds and an optional human-readable name.
/// The name serves only as the key that detects "the window is already
/// on this monitor"; monitors without a name are never remembered.
#[derive(Debug, PartialEq)]
pub struct Monitor {
    pub rect: Rect,
    pub name: Option<String>,
}

/// The ways a placement attempt can fail.  None of them is fatal: the
/// caller logs the reason and leaves the window where it is.
#[derive(Clone, Copy, PartialEq, Eq, Structural, Debug)]
pub enum PlacementError {
    /// The windowing system could not list the available monitors.
    MonitorEnumerationFailed,
    /// The cursor position could not be read; selection falls back to
    /// the primary monitor rather than failing, so this reason is only
    /// ever logged, never returned.
    CursorUnavailable,
    /// No monitor contains the cursor and no primary monitor exists.
    NoMonitorFound,
    /// The window's own size could not be read.
    WindowSizeUnavailable,
    /// The windowing system rejected the move request.
    MoveFailed,
    /// The main window handle could not be found at all.
    WindowNotFound,
}

impl PlacementError {
    /// A short description of the failure, for the caller's log.
    pub fn message(&self) -> (r: String)
        ensures
            r@ == (match *self {
                PlacementError::MonitorEnumerationFailed => "failed to enumerate monitors"@,
                PlacementError::CursorUnavailable => "failed to read the cursor position"@,
                PlacementError::NoMonitorFound => "no monitor found"@,
                PlacementError::WindowSizeUnavailable => "failed to read the window size"@,
                PlacementError::MoveFailed => "failed to move the window"@,
                PlacementError::WindowNotFound => "main window not found"@,
            }),
    {
        match self {
            PlacementError::MonitorEnumerationFailed => "failed to enumerate monitors".to_owned(),
            PlacementError::CursorUnavailable => "failed to read the cursor position".to_owned(),
            PlacementError::NoMonitorFound => "no monitor found".to_owned(),
            PlacementError::WindowSizeUnavailable => "failed to read the window size".to_owned(),
            PlacementError::MoveFailed => "failed to move the window".to_owned(),
            PlacementError::WindowNotFound => "main window not found".to_owned(),
        }
    }
}

/// What one placement request decides.
#[derive(Debug, PartialEq)]
pub enum PlacementPlan {
    /// The window is already on the target monitor: no move is issued.
    Skip,
    /// Move the window so its top-left corner sits at `position`;
    /// `monitor_name` is the target monitor's name, recorded afterwards
    /// if the move succeeds.
    Move { position: Point, monitor_name: Option<String> },
}

/// The name of the monitor the window was last centered on, or `None`
/// before the first successful move.  This is the one piece of state
/// the placement keeps between calls; the application shell guards it
/// with a lock.
#[derive(Debug, PartialEq)]
pub struct PlacementMemory {
    pub last_monitor_name: Option<String>,
}

/// How the application shell reports the windowing system's answer to a
/// move request.
#[derive(Clone, Copy, PartialEq, Eq, Structural, Debug)]
pub enum MoveOutcome {
    Moved,
    Failed,
}

impl PlacementMemory {
    /// Fresh memory: no monitor has been recorded yet.
    pub fn new() -> (m: PlacementMemory)
        ensures
            m.last_monitor_name is None,
    {
        PlacementMemory { last_monitor_name: None }
    }
}

pub open spec fn monitor_contains(m: Monitor, p: Point) -> bool {
    rect_contains(m.rect, p)
}

/// The index of the first monitor at or after position `i` whose
/// rectangle contains `p`, scanning in enumeration order.
pub open spec fn first_match_from(monitors: Seq<Monitor>, p: Point, i: int) -> Option<int>
    decreases monitors.len() - i,
{
    if i < 0 || i >= monitors.len() {
        None
    } else if monitor_contains(monitors[i], p) {
        Some(i)
    } else {
        first_match_from(monitors, p, i + 1)
    }
}

/// The index of the first monitor whose rectangle contains `p`.
pub open spec fn first_match_index(monitors: Seq<Monitor>, p: Point) -> Option<int> {
    first_match_from(monitors, p, 0)
}

/// The selection rule: the first monitor containing the cursor when
/// there is one, else the primary monitor, else nothing.
pub open spec fn spec_resolve(
    monitors: Seq<Monitor>,
    cursor: Option<Point>,
    primary: Option<Monitor>,
) -> Option<Monitor> {
    match cursor {
        Some(p) => match first_match_index(monitors, p) {
            Some(i) => Some(monitors[i]),
            None => primary,
        },
        None => primary,
    }
}

/// `i` is the position of the first monitor containing `p`.
pub open spec fn selects_first(monitors: Seq<Monitor>, p: Point, i: int) -> bool {
    &&& 0 <= i < monitors.len()
    &&& monitor_contains(monitors[i], p)
    &&& forall|j: int| 0 <= j < i ==> !monitor_contains(monitors[j], p)
}

/// The target monitor has a name and it equals the remembered one, so
/// the window is already where a move would put it.
pub open spec fn same_monitor(memory: PlacementMemory, m: Monitor) -> bool {
    match (m.name, memory.last_monitor_name) {
        (Some(n), Some(prev)) => n@ == prev@,
        _ => false,
    }
}

/// The full placement decision over one request's inputs:
/// `None` for `monitors` or `window_size` stands for the windowing
/// system failing to report them.
pub open spec fn spec_plan(
    monitors: Option<Seq<Monitor>>,
    cursor: Option<Point>,
    primary: Option<Monitor>,
    window_size: Option<WindowSize>,
    memory: PlacementMemory,
) -> Result<PlacementPlan, PlacementError> {
    match monitors {
        None => Err(PlacementError::MonitorEnumerationFailed),
        Some(ms) => match spec_resolve(ms, cursor, primary) {
            None => Err(PlacementError::NoMonitorFound),
            Some(m) => if same_monitor(memory, m) {
                Ok(PlacementPlan::Skip)
            } else {
                match window_size {
                    None => Err(PlacementError::WindowSizeUnavailable),
                    Some(size) => Ok(
                        PlacementPlan::Move {
                            position: centered_point(m.rect, size),
                            monitor_name: m.name,
                        },
                    ),
                }
            },
        },
    }
}

pub open spec fn monitor_list_view(monitors: Option<Vec<Monitor>>) -> Option<Seq<Monitor>> {
    match monitors {
        Some(ms) => Some(ms@),
        None => None,
    }
}

/// The memory contents after a move attempt: a successful move to a
/// named monitor records that name; a failed move, or a move to an
/// unnamed monitor, leaves the memory as it was.
pub open spec fn spec_record(
    memory: PlacementMemory,
    monitor_name: Option<String>,
    outcome: MoveOutcome,
) -> PlacementMemory {
    match (outcome, monitor_name) {
        (MoveOutcome::Moved, Some(name)) => PlacementMemory { last_monitor_name: Some(name) },
        _ => memory,
    }
}

fn clone_name(name: &Option<String>) -> (r: Option<String>)
    ensures
        r == *name,
{
    match name {
        Some(s) => Some(s.clone()),
        None => None,
    }
}

impl Clone for Monitor {
    fn clone(&self) -> (r: Monitor)
        ensures
            r == *self,
    {
        Monitor { rect: self.rect, name: clone_name(&self.name) }
    }
}

/// The first monitor in enumeration order whose rectangle contains `p`,
/// as a copy of the list entry.
fn find_monitor_under_cursor(monitors: &Vec<Monitor>, p: Point) -> (r: Option<Monitor>)
    ensures
        (match r {
            Some(m) => (first_match_index(monitors@, p) matches Some(i) && monitors@[i] == m),
            None => first_match_index(monitors@, p) is None,
        }),
{
    let mut i: usize = 0;
    while i < monitors.len()
        invariant
            i <= monitors@.len(),
            first_match_from(monitors@, p, 0) == first_match_from(monitors@, p, i as int),
        decreases monitors@.len() - i,
    {
        if rect_contains_point(&monitors[i].rect, &p) {
            return Some(monitors[i].clone());
        }
        i += 1;
    }
    None
}

/// Selects the monitor that should host the window: the first monitor
/// containing the cursor, else the primary monitor.  Returns
/// `NoMonitorFound` exactly when neither exists; the window then stays
/// where it is.
pub fn resolve_target_monitor(
    monitors: &Vec<Monitor>,
    cursor: Option<Point>,
    primary: &Option<Monitor>,
) -> (r: Result<Monitor, PlacementError>)
    ensures
        (match r {
            Ok(m) => spec_resolve(monitors@, cursor, *primary) == Some(m),
            Err(e) => {
                &&& spec_resolve(monitors@, cursor, *primary) is None
                &&& e == PlacementError::NoMonitorFound
            },
        }),
{
    let from_cursor: Option<Monitor> = match cursor {
        Some(p) => find_monitor_under_cursor(monitors, p),
        None => None,
    };
    match from_cursor {
        Some(m) => Ok(m),
        None => match primary {
            Some(m) => Ok(m.clone()),
            None => Err(PlacementError::NoMonitorFound),
        },
    }
}

fn is_same_monitor(memory: &PlacementMemory, m: &Monitor) -> (b: bool)
    ensures
        b == same_monitor(*memory, *m),
{
    match (&m.name, &memory.last_monitor_name) {
        (Some(n), Some(prev)) => n.eq(prev),
        _ => false,
    }
}

/// Decides one placement request.  `None` for `monitors`, `cursor` or
/// `window_size` stands for the windowing system failing to report the
/// monitor list, the cursor position or the window size; a missing
/// cursor is soft (selection falls back to the primary monitor), the
/// other two abort the attempt with their error.  A target monitor
/// whose name matches the remembered one yields `Skip`; otherwise the
/// plan carries the centered position and the name to record on
/// success.
pub fn plan_placement(
    monitors: &Option<Vec<Monitor>>,
    cursor: Option<Point>,
    primary: &Option<Monitor>,
    window_size: Option<WindowSize>,
    memory: &PlacementMemory,
) -> (r: Result<PlacementPlan, PlacementError>)
    ensures
        r == spec_plan(monitor_list_view(*monitors), cursor, *primary, window_size, *memory),
{
    match monitors {
        None => Err(PlacementError::MonitorEnumerationFailed),
        Some(ms) => match resolve_target_monitor(ms, cursor, primary) {
            Err(e) => Err(e),
            Ok(m) => if is_same_monitor(memory, &m) {
                Ok(PlacementPlan::Skip)
            } else {
                match window_size {
                    None => Err(PlacementError::WindowSizeUnavailable),
                    Some(size) => {
                        let position = compute_centered_position(&m.rect, size);
                        Ok(PlacementPlan::Move { position, monitor_name: m.name })
                    },
                }
            },
        },
    }
}

/// Records the outcome of the move the plan requested.  Memory changes
/// only when the move succeeded and the target monitor had a name; in
/// particular a failed move leaves the memory exactly as it was.
pub fn apply_move_outcome(
    memory: &mut PlacementMemory,
    monitor_name: Option<String>,
    outcome: MoveOutcome,
) -> (r: Result<(), PlacementError>)
    ensures
        *final(memory) == spec_record(*old(memory), monitor_name, outcome),
        outcome == MoveOutcome::Failed ==> *final(memory) == *old(memory) && r == Err::<
            (),
            PlacementError,
        >(PlacementError::MoveFailed),
        outcome == MoveOutcome::Moved ==> r == Ok::<(), PlacementError>(()),
{
    match outcome {
        MoveOutcome::Moved => {
            if let Some(name) = monitor_name {
                memory.last_monitor_name = Some(name);
            }
            Ok(())
        },
        MoveOutcome::Failed => Err(PlacementError::MoveFailed),
    }
}

/// No monitor at or after position `i` contains `p`, so the scan from
/// `i` finds nothing.
proof fn lemma_no_match_from(monitors: Seq<Monitor>, p: Point, i: int)
    requires
        forall|j: int| i <= j < monitors.len() ==> !monitor_contains(monitors[j], p),
    ensures
        first_match_from(monitors, p, i) is None,
    decreases monitors.len() - i,
{
    if 0 <= i < monitors.len() {
        lemma_no_match_from(monitors, p, i + 1);
    }
}

/// Monitor `i` contains `p` and none before it (from `k` on) does, so
/// the scan from `k` stops at `i`.
proof fn lemma_first_match_found(monitors: Seq<Monitor>, p: Point, k: int, i: int)
    requires
        0 <= k <= i < monitors.len(),
        monitor_contains(monitors[i], p),
        forall|j: int| k <= j < i ==> !monitor_contains(monitors[j], p),
    ensures
        first_match_from(monitors, p, k) == Some(i),
    decreases i - k,
{
    if k < i {
        lemma_first_match_found(monitors, p, k + 1, i);
    }
}

/// The scan from `i` yields the first containing monitor at or after
/// `i`, or nothing when no monitor from `i` on contains the point.
proof fn lemma_first_match_from_characterized(monitors: Seq<Monitor>, p: Point, i: int)
    requires
        0 <= i <= monitors.len(),
    ensures
        (match first_match_from(monitors, p, i) {
            Some(k) => {
                &&& i <= k < monitors.len()
                &&& monitor_contains(monitors[k], p)
                &&& forall|j: int| i <= j < k ==> !monitor_contains(monitors[j], p)
            },
            None => forall|j: int| i <= j < monitors.len() ==> !monitor_contains(monitors[j], p),
        }),
    decreases monitors.len() - i,
{
    if i < monitors.len() && !monitor_contains(monitors[i], p) {
        lemma_first_match_from_characterized(monitors, p, i + 1);
    }
}

/// What the selection rule's index means: when the scan yields a
/// position, the monitor there contains the cursor and no earlier one
/// does; when it yields nothing, no monitor contains the cursor.
pub proof fn lemma_first_match_is_first(monitors: Seq<Monitor>, p: Point)
    ensures
        (match first_match_index(monitors, p) {
            Some(i) => selects_first(monitors, p, i),
            None => forall|j: int|
                0 <= j < monitors.len() ==> !monitor_contains(monitors[j], p),
        }),
{
    lemma_first_match_from_characterized(monitors, p, 0);
}

/// At most one position is the first match: the selection rule is
/// deterministic.
pub proof fn lemma_selects_first_unique(monitors: Seq<Monitor>, p: Point, i: int, k: int)
    requires
        selects_first(monitors, p, i),
        selects_first(monitors, p, k),
    ensures
        i == k,
{
}

/// A cursor strictly inside one monitor's rectangle (so on no edge
/// shared with another monitor) and contained in no other monitor's
/// rectangle resolves to exactly that monitor, whatever the primary is.
pub proof fn lemma_strictly_inside_selects_that_monitor(
    monitors: Seq<Monitor>,
    p: Point,
    i: int,
    primary: Option<Monitor>,
)
    requires
        0 <= i < monitors.len(),
        rect_strictly_contains(monitors[i].rect, p),
        forall|j: int|
            0 <= j < monitors.len() && j != i ==> !monitor_contains(monitors[j], p),
    ensures
        first_match_index(monitors, p) == Some(i),
        spec_resolve(monitors, Some(p), primary) == Some(monitors[i]),
        selects_first(monitors, p, i),
{
    lemma_strict_containment_is_containment(monitors[i].rect, p);
    lemma_first_match_found(monitors, p, 0, i);
}

/// A cursor contained in no monitor's rectangle resolves to the primary
/// monitor, or to nothing when there is no primary.
pub proof fn lemma_cursor_outside_all_falls_back(
    monitors: Seq<Monitor>,
    p: Point,
    primary: Option<Monitor>,
)
    requires
        forall|j: int| 0 <= j < monitors.len() ==> !monitor_contains(monitors[j], p),
    ensures
        spec_resolve(monitors, Some(p), primary) == primary,
{
    lemma_no_match_from(monitors, p, 0);
}

/// With an empty monitor list and no primary monitor, resolution finds
/// nothing and the placement fails with `NoMonitorFound`.
pub proof fn lemma_empty_monitors_no_primary_fails(
    monitors: Seq<Monitor>,
    cursor: Option<Point>,
    window_size: Option<WindowSize>,
    memory: PlacementMemory,
)
    requires
        monitors.len() == 0,
    ensures
        spec_resolve(monitors, cursor, None) is None,
        spec_plan(Some(monitors), cursor, None, window_size, memory) == Err::<
            PlacementPlan,
            PlacementError,
        >(PlacementError::NoMonitorFound),
{
    match cursor {
        Some(p) => lemma_no_match_from(monitors, p, 0),
        None => {},
    }
}

/// After a move to a named monitor succeeds and is recorded, a repeated
/// placement whose inputs resolve to a monitor of that same name is
/// planned as `Skip`: the second call issues no move request, whatever
/// the window size reads then.
pub proof fn lemma_repeat_placement_short_circuits(
    monitors: Seq<Monitor>,
    cursor: Option<Point>,
    primary: Option<Monitor>,
    window_size: Option<WindowSize>,
    memory: PlacementMemory,
    m: Monitor,
)
    requires
        spec_resolve(monitors, cursor, primary) == Some(m),
        m.name is Some,
    ensures
        spec_plan(
            Some(monitors),
            cursor,
            primary,
            window_size,
            spec_record(memory, m.name, MoveOutcome::Moved),
        ) == Ok::<PlacementPlan, PlacementError>(PlacementPlan::Skip),
{
}

} // verus!
