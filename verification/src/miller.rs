//! Trail column resizing: a press resolves against the immutable layout
//! snapshot, and the Files generation, the model revision and the two
//! columns' identities are revalidated before a width preference may change.
//! The resize interaction itself and the width store are the caller's; what
//! each step decides is here.

use vstd::prelude::*;

use crate::bar_geometry::covers;
use crate::geometry::CellRect;

verus! {

/// Whether a cell lies inside a rectangle.
pub fn rect_contains(rect: CellRect, column: u16, row: u16) -> (r: bool)
    ensures
        r == covers(rect, column, row),
{
    column >= rect.x && column < rect.x.saturating_add(rect.width) && row >= rect.y && row < rect.y.saturating_add(
        rect.height,
    )
}

/// What a rendered Miller column shows.
#[derive(Debug, PartialEq, Eq)]
pub enum MillerColumnKind {
    /// One directory of the trail.
    Trail { trail_index: usize, directory: String, generation: u64 },
    /// The preview of the entry under the cursor.
    Detail { parent_trail_index: usize, source_path: String, generation: u64 },
}

/// One rendered column of the layout snapshot.
#[derive(Debug, PartialEq, Eq)]
pub struct MillerColumnView {
    pub kind: MillerColumnKind,
    /// The column's place in the projection the model laid out.
    pub projection_index: usize,
    pub rect: CellRect,
}

/// A draggable divider between two rendered columns.
#[derive(Debug, Clone, Copy, PartialEq, Eq)]
pub struct MillerDividerView {
    pub rect: CellRect,
    pub left_column: usize,
    pub right_column: usize,
}

/// The layout the last frame drew, with the identities it was drawn for.
#[derive(Debug)]
pub struct MillerLayoutSnapshot {
    pub files_generation: Option<u64>,
    pub model_revision: u64,
    pub dividers: Vec<MillerDividerView>,
    pub columns: Vec<MillerColumnView>,
}

/// Which column a resize is attached to.
#[derive(Debug, PartialEq, Eq)]
pub enum MillerResizeColumnId {
    Directory { chain_index: usize, directory: String, generation: u64 },
    Preview { parent_chain_index: usize, source_path: Option<String>, generation: u64 },
}

/// The resize identity of a rendered column.
pub open spec fn column_id_spec(kind: MillerColumnKind) -> MillerResizeColumnId {
    match kind {
        MillerColumnKind::Trail { trail_index, directory, generation } => MillerResizeColumnId::Directory {
            chain_index: trail_index,
            directory,
            generation,
        },
        MillerColumnKind::Detail { parent_trail_index, source_path, generation } => MillerResizeColumnId::Preview {
            parent_chain_index: parent_trail_index,
            source_path: Some(source_path),
            generation,
        },
    }
}

/// The resize identity of a rendered column: a trail column resizes its
/// directory, the preview column its source.
pub fn miller_resize_column_id(column: &MillerColumnView) -> (r: Option<MillerResizeColumnId>)
    ensures
        r == Some(column_id_spec(column.kind)),
{
    match &column.kind {
        MillerColumnKind::Trail { trail_index, directory, generation } => Some(
            MillerResizeColumnId::Directory { chain_index: *trail_index, directory: directory.clone(), generation: *generation },
        ),
        MillerColumnKind::Detail { parent_trail_index, source_path, generation } => Some(
            MillerResizeColumnId::Preview {
                parent_chain_index: *parent_trail_index,
                source_path: Some(source_path.clone()),
                generation: *generation,
            },
        ),
    }
}

/// The dividers under a cell, in drawing order.
pub open spec fn hits_of(dividers: Seq<MillerDividerView>, column: u16, row: u16) -> Seq<MillerDividerView>
    decreases dividers.len(),
{
    if dividers.len() == 0 {
        Seq::empty()
    } else {
        let prev = hits_of(dividers.drop_last(), column, row);
        if covers(dividers.last().rect, column, row) {
            prev.push(dividers.last())
        } else {
            prev
        }
    }
}

/// `usize` saturating successor.
pub open spec fn succ_sat(n: usize) -> int {
    if n == usize::MAX { n as int } else { n + 1 }
}

/// What a press does to the resize interaction.
#[derive(Debug, PartialEq, Eq)]
pub enum MillerCapture {
    /// The press is not on a divider: it is not consumed here.
    Miss,
    /// The press is on a divider, but nothing may be resized: it is consumed
    /// without effect.
    Inert,
    /// Begin a resize between these two columns, from their drawn widths.
    Begin {
        files_generation: u64,
        model_revision: u64,
        leading: MillerResizeColumnId,
        trailing: MillerResizeColumnId,
        leading_width: u16,
        trailing_width: u16,
    },
}

/// A press on the Miller layout. Without an active Files instance, or off
/// every divider, the press is not consumed. On a divider it is consumed,
/// and it begins a resize only when exactly one divider is hit, the
/// snapshot was drawn for the current Files instance and model revision,
/// both columns exist, and they are adjacent in the projection.
pub open spec fn capture_spec(
    files_generation: Option<u64>,
    model_revision: u64,
    dividers: Seq<MillerDividerView>,
    columns: Seq<MillerColumnView>,
    active_generation: Option<u64>,
    current_revision: Option<u64>,
    column: u16,
    row: u16,
) -> MillerCapture {
    let hits = hits_of(dividers, column, row);
    if active_generation is None || hits.len() == 0 {
        MillerCapture::Miss
    } else if hits.len() > 1 || current_revision is None {
        MillerCapture::Inert
    } else if files_generation != active_generation || model_revision != current_revision->0 {
        MillerCapture::Inert
    } else if hits[0].left_column >= columns.len() || hits[0].right_column >= columns.len() {
        MillerCapture::Inert
    } else {
        let leading = columns[hits[0].left_column as int];
        let trailing = columns[hits[0].right_column as int];
        if succ_sat(leading.projection_index) != trailing.projection_index {
            MillerCapture::Inert
        } else {
            MillerCapture::Begin {
                files_generation: active_generation->0,
                model_revision,
                leading: column_id_spec(leading.kind),
                trailing: column_id_spec(trailing.kind),
                leading_width: leading.rect.width,
                trailing_width: trailing.rect.width,
            }
        }
    }
}

/// Resolve a press at `(column, row)` against the layout snapshot.
/// `current_revision` is the Files model's revision, when a Files state
/// exists.
pub fn begin_miller_resize_capture(
    snapshot: &MillerLayoutSnapshot,
    active_generation: Option<u64>,
    current_revision: Option<u64>,
    column: u16,
    row: u16,
) -> (r: MillerCapture)
    ensures
        r == capture_spec(
            snapshot.files_generation,
            snapshot.model_revision,
            snapshot.dividers@,
            snapshot.columns@,
            active_generation,
            current_revision,
            column,
            row,
        ),
{
    let generation = match active_generation {
        Some(g) => g,
        None => {
            return MillerCapture::Miss;
        },
    };
    let ghost ds = snapshot.dividers@;
    let mut count: usize = 0;
    let mut first: Option<MillerDividerView> = None;
    let mut i: usize = 0;
    while i < snapshot.dividers.len()
        invariant
            ds == snapshot.dividers@,
            i <= ds.len(),
            count == hits_of(ds.take(i as int), column, row).len(),
            count <= i,
            count > 0 ==> first == Some(hits_of(ds.take(i as int), column, row)[0]),
        decreases snapshot.dividers.len() - i,
    {
        let d = snapshot.dividers[i];
        assert(ds.take(i + 1).drop_last() =~= ds.take(i as int));
        if rect_contains(d.rect, column, row) {
            if count == 0 {
                first = Some(d);
            }
            count = count + 1;
        }
        i = i + 1;
    }
    assert(ds.take(i as int) =~= ds);
    if count == 0 {
        return MillerCapture::Miss;
    }
    if count > 1 {
        return MillerCapture::Inert;
    }
    let revision = match current_revision {
        Some(rev) => rev,
        None => {
            return MillerCapture::Inert;
        },
    };
    if snapshot.files_generation != Some(generation) || snapshot.model_revision != revision {
        return MillerCapture::Inert;
    }
    let divider = match first {
        Some(d) => d,
        None => {
            return MillerCapture::Inert;
        },
    };
    if divider.left_column >= snapshot.columns.len() || divider.right_column >= snapshot.columns.len() {
        return MillerCapture::Inert;
    }
    let leading = &snapshot.columns[divider.left_column];
    let trailing = &snapshot.columns[divider.right_column];
    if leading.projection_index.saturating_add(1) != trailing.projection_index {
        return MillerCapture::Inert;
    }
    let leading_id = match miller_resize_column_id(leading) {
        Some(id) => id,
        None => {
            return MillerCapture::Inert;
        },
    };
    let trailing_id = match miller_resize_column_id(trailing) {
        Some(id) => id,
        None => {
            return MillerCapture::Inert;
        },
    };
    MillerCapture::Begin {
        files_generation: generation,
        model_revision: snapshot.model_revision,
        leading: leading_id,
        trailing: trailing_id,
        leading_width: leading.rect.width,
        trailing_width: trailing.rect.width,
    }
}

/// The axis a divider drags along.
#[derive(Debug, Clone, Copy, PartialEq, Eq, Structural)]
pub enum ShellDirection {
    Horizontal,
    Vertical,
}

/// The identity a resize preview carries from its press to its commit.
#[derive(Debug, PartialEq, Eq)]
pub struct MillerDividerId {
    pub files_generation: u64,
    pub model_revision: u64,
    pub leading: MillerResizeColumnId,
    pub trailing: MillerResizeColumnId,
    pub axis: ShellDirection,
}

/// What a commit request does before the interaction is asked.
#[derive(Debug, Clone, Copy, PartialEq, Eq, Structural)]
pub enum MillerCommitGate {
    /// No resize is previewed, or no Files state exists: nothing happens.
    Nothing,
    /// The model moved under the drag: the resize is cancelled.
    Cancel,
    /// Ask the interaction to commit at the current revision.
    Commit,
}

/// Whether a previewed resize may be committed: a preview drawn for an
/// older layout revision is cancelled instead.
pub fn miller_commit_gate(preview: Option<&MillerDividerId>, current_revision: Option<u64>) -> (r: MillerCommitGate)
    ensures
        r == match (preview, current_revision) {
            (Some(d), Some(rev)) => if d.model_revision == rev {
                MillerCommitGate::Commit
            } else {
                MillerCommitGate::Cancel
            },
            _ => MillerCommitGate::Nothing,
        },
{
    match (preview, current_revision) {
        (Some(d), Some(rev)) => {
            if d.model_revision == rev {
                MillerCommitGate::Commit
            } else {
                MillerCommitGate::Cancel
            }
        },
        _ => MillerCommitGate::Nothing,
    }
}

/// Which width the trailing side of a commit updates.
#[derive(Debug, PartialEq, Eq)]
pub enum MillerAdjacentWidthTarget {
    Directory(String),
    Preview,
}

/// The two widths a committed resize writes.
#[derive(Debug, PartialEq, Eq)]
pub struct MillerWidthCommit {
    pub leading_directory: String,
    pub leading_width: u16,
    pub trailing: MillerAdjacentWidthTarget,
    pub trailing_width: u16,
}

/// The projection position of a resize column.
pub open spec fn chain_index(id: MillerResizeColumnId) -> usize {
    match id {
        MillerResizeColumnId::Directory { chain_index, .. } => chain_index,
        MillerResizeColumnId::Preview { parent_chain_index, .. } => parent_chain_index,
    }
}

/// The widths a commit writes, once the interaction committed `widths`: the
/// divider must still name the active Files instance and the current model
/// revision, drag horizontally between adjacent columns that are both still
/// live, and lead with a directory column; the trailing side is a directory
/// or the preview.
pub open spec fn commit_plan_spec(
    divider: MillerDividerId,
    widths: Option<(u16, u16)>,
    active_generation: Option<u64>,
    current_revision: u64,
    leading_live: bool,
    trailing_live: bool,
) -> Option<MillerWidthCommit> {
    match (widths, active_generation) {
        (Some((lw, tw)), Some(g)) => if divider.files_generation != g || divider.model_revision != current_revision
            || divider.axis != ShellDirection::Horizontal || succ_sat(chain_index(divider.leading)) != chain_index(
            divider.trailing,
        ) || !leading_live || !trailing_live {
            None
        } else {
            match divider.leading {
                MillerResizeColumnId::Directory { directory, .. } => Some(
                    MillerWidthCommit {
                        leading_directory: directory,
                        leading_width: lw,
                        trailing: match divider.trailing {
                            MillerResizeColumnId::Directory { directory: d, .. } => MillerAdjacentWidthTarget::Directory(d),
                            MillerResizeColumnId::Preview { .. } => MillerAdjacentWidthTarget::Preview,
                        },
                        trailing_width: tw,
                    },
                ),
                MillerResizeColumnId::Preview { .. } => None,
            }
        },
        _ => None,
    }
}

/// Decide the widths a commit writes. `widths` is what the interaction
/// committed (`None` when it decided against a change); `leading_live` and
/// `trailing_live` say whether each column still exists in the Files state.
pub fn commit_miller_resize(
    divider: &MillerDividerId,
    widths: Option<(u16, u16)>,
    active_generation: Option<u64>,
    current_revision: u64,
    leading_live: bool,
    trailing_live: bool,
) -> (r: Option<MillerWidthCommit>)
    ensures
        r == commit_plan_spec(*divider, widths, active_generation, current_revision, leading_live, trailing_live),
{
    let (leading_width, trailing_width) = match widths {
        Some(w) => w,
        None => {
            return None;
        },
    };
    let generation = match active_generation {
        Some(g) => g,
        None => {
            return None;
        },
    };
    let leading_index = match &divider.leading {
        MillerResizeColumnId::Directory { chain_index, .. } => *chain_index,
        MillerResizeColumnId::Preview { parent_chain_index, .. } => *parent_chain_index,
    };
    let trailing_index = match &divider.trailing {
        MillerResizeColumnId::Directory { chain_index, .. } => *chain_index,
        MillerResizeColumnId::Preview { parent_chain_index, .. } => *parent_chain_index,
    };
    if divider.files_generation != generation || divider.model_revision != current_revision || divider.axis
        != ShellDirection::Horizontal || leading_index.saturating_add(1) != trailing_index || !leading_live
        || !trailing_live {
        return None;
    }
    let leading_directory = match &divider.leading {
        MillerResizeColumnId::Directory { directory, .. } => directory.clone(),
        MillerResizeColumnId::Preview { .. } => {
            return None;
        },
    };
    let trailing = match &divider.trailing {
        MillerResizeColumnId::Directory { directory, .. } => MillerAdjacentWidthTarget::Directory(directory.clone()),
        MillerResizeColumnId::Preview { .. } => MillerAdjacentWidthTarget::Preview,
    };
    Some(MillerWidthCommit { leading_directory, leading_width, trailing, trailing_width })
}

/// A key, as far as a resize reads it.
#[derive(Debug, Clone, Copy, PartialEq, Eq, Structural)]
pub enum MillerKey {
    Right,
    Left,
    Char(char),
    Enter,
    Esc,
    Other,
}

/// The smallest width the trailing column may take.
#[derive(Debug, Clone, Copy, PartialEq, Eq, Structural)]
pub enum TrailingMinimum {
    /// A directory column's minimum.
    Column,
    /// The preview column's minimum.
    Detail,
}

/// What a key does while a resize may be active.
#[derive(Debug, Clone, Copy, PartialEq, Eq, Structural)]
pub enum MillerKeyAction {
    /// No resize is active: the key is someone else's.
    Ignored,
    /// Move the divider one cell, bounding the trailing column by its kind.
    Step { delta: i8, trailing_min: TrailingMinimum },
    /// Commit the previewed widths.
    Commit,
    /// Cancel the resize.
    Cancel,
    /// Swallow the key: a resize owns the keyboard.
    Swallowed,
}

/// The key map of an active resize: right or `l` widen the leading column,
/// left or `h` narrow it, enter commits, escape cancels, and every other key
/// is swallowed. The trailing column's minimum is the preview's when it is
/// the preview, a directory column's otherwise.
pub open spec fn resize_key_spec(active: bool, key: MillerKey, trailing: Option<MillerResizeColumnId>) -> MillerKeyAction {
    let trailing_min = match trailing {
        Some(MillerResizeColumnId::Preview { .. }) => TrailingMinimum::Detail,
        _ => TrailingMinimum::Column,
    };
    if !active {
        MillerKeyAction::Ignored
    } else if key == MillerKey::Right || key == MillerKey::Char('l') {
        MillerKeyAction::Step { delta: 1i8, trailing_min }
    } else if key == MillerKey::Left || key == MillerKey::Char('h') {
        MillerKeyAction::Step { delta: -1i8, trailing_min }
    } else if key == MillerKey::Enter {
        MillerKeyAction::Commit
    } else if key == MillerKey::Esc {
        MillerKeyAction::Cancel
    } else {
        MillerKeyAction::Swallowed
    }
}

/// Route a key while a resize may be active; `trailing` is the previewed
/// divider's trailing column, when a preview exists.
pub fn handle_miller_resize_key(active: bool, key: MillerKey, trailing: Option<&MillerResizeColumnId>) -> (r: MillerKeyAction)
    ensures
        r == resize_key_spec(
            active,
            key,
            match trailing {
                Some(t) => Some(*t),
                None => None,
            },
        ),
{
    if !active {
        return MillerKeyAction::Ignored;
    }
    let trailing_min = match trailing {
        Some(MillerResizeColumnId::Preview { .. }) => TrailingMinimum::Detail,
        _ => TrailingMinimum::Column,
    };
    match key {
        MillerKey::Right => MillerKeyAction::Step { delta: 1, trailing_min },
        MillerKey::Left => MillerKeyAction::Step { delta: -1, trailing_min },
        MillerKey::Char(c) => {
            if c == 'l' {
                MillerKeyAction::Step { delta: 1i8, trailing_min }
            } else if c == 'h' {
                MillerKeyAction::Step { delta: -1, trailing_min }
            } else {
                MillerKeyAction::Swallowed
            }
        },
        MillerKey::Enter => MillerKeyAction::Commit,
        MillerKey::Esc => MillerKeyAction::Cancel,
        MillerKey::Other => MillerKeyAction::Swallowed,
    }
}

/// A wheel event's direction.
#[derive(Debug, Clone, Copy, PartialEq, Eq, Structural)]
pub enum ScrollKind {
    Left,
    Right,
    Up,
    Down,
    Other,
}

/// The modifiers held during a wheel event.
#[derive(Debug, Clone, Copy, PartialEq, Eq, Structural)]
pub enum ScrollModifiers {
    /// No modifier at all.
    Plain,
    /// Exactly shift.
    Shift,
    /// Anything else.
    Other,
}

/// The horizontal step a wheel event asks for: a plain sideways wheel, or a
/// vertical wheel with shift held; any other event is not a horizontal
/// scroll.
pub open spec fn scroll_delta_spec(kind: ScrollKind, modifiers: ScrollModifiers) -> Option<i8> {
    if (kind == ScrollKind::Left && modifiers == ScrollModifiers::Plain) || (kind == ScrollKind::Up && modifiers
        == ScrollModifiers::Shift) {
        Some(-1i8)
    } else if (kind == ScrollKind::Right && modifiers == ScrollModifiers::Plain) || (kind == ScrollKind::Down
        && modifiers == ScrollModifiers::Shift) {
        Some(1)
    } else {
        None
    }
}

/// The horizontal step of a wheel event, if it is a horizontal scroll.
pub fn horizontal_scroll_delta(kind: ScrollKind, modifiers: ScrollModifiers) -> (r: Option<i8>)
    ensures
        r == scroll_delta_spec(kind, modifiers),
{
    match (kind, modifiers) {
        (ScrollKind::Left, ScrollModifiers::Plain) | (ScrollKind::Up, ScrollModifiers::Shift) => Some(-1),
        (ScrollKind::Right, ScrollModifiers::Plain) | (ScrollKind::Down, ScrollModifiers::Shift) => Some(1),
        _ => None,
    }
}

/// A horizontal scroll moves the trail only while the drawn trail belongs
/// to the active Files instance; then it pins the offset the snapshot
/// computes and stops following the active column.
pub fn horizontal_scroll_applies(snapshot_generation: Option<u64>, active_generation: Option<u64>) -> (r: bool)
    ensures
        r == (snapshot_generation == active_generation),
{
    snapshot_generation == active_generation
}

/// A press begins at most one resize: two overlapping dividers under the
/// cell make the press inert rather than guess between them.
pub proof fn law_ambiguous_press_is_inert(
    files_generation: Option<u64>,
    model_revision: u64,
    dividers: Seq<MillerDividerView>,
    columns: Seq<MillerColumnView>,
    active_generation: Option<u64>,
    current_revision: Option<u64>,
    column: u16,
    row: u16,
)
    requires
        active_generation is Some,
        hits_of(dividers, column, row).len() > 1,
    ensures
        capture_spec(files_generation, model_revision, dividers, columns, active_generation, current_revision, column, row)
            == MillerCapture::Inert,
{
}

/// A commit never writes under a stale identity: whatever the interaction
/// committed, a divider from another Files instance or model revision
/// writes nothing.
pub proof fn law_stale_divider_writes_nothing(
    divider: MillerDividerId,
    widths: Option<(u16, u16)>,
    active_generation: Option<u64>,
    current_revision: u64,
    leading_live: bool,
    trailing_live: bool,
)
    requires
        active_generation != Some(divider.files_generation) || divider.model_revision != current_revision,
    ensures
        commit_plan_spec(divider, widths, active_generation, current_revision, leading_live, trailing_live) is None,
{
}

} // verus!
