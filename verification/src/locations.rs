//! Pure client-local authority for the root selected in Native Files.
//!
//! The current directory is deliberately absent from this model: a location
//! stays highlighted because the user selected that exact prepared item, not
//! because a later path happens to share its prefix.

use vstd::prelude::*;

use crate::locations_model::FileManagerLocationsModel;
use crate::rail::{content_lines, flatten, lemma_line_of_bound, line_of, section_lines, usable_key, usable_keys};
use crate::paths::{path_key, same_path};

verus! {

#[derive(Debug, PartialEq, Eq)]
pub enum FileManagerLocationOrigin {
    Location(String),
    Direct(String),
}

#[derive(Debug, Clone, Copy, PartialEq, Eq, Structural)]
pub enum FileManagerLocationLoadError {
    Missing,
    PermissionDenied,
    ChangedType,
    Unavailable,
}

#[derive(Debug, Clone, Copy, PartialEq, Eq, Structural)]
pub enum FileManagerLocationsFocus {
    Trail,
    Rail,
}

#[derive(Debug, PartialEq, Eq)]
pub struct FileManagerLocationPending {
    pub path: String,
    pub files_generation: u32,
    pub model_revision: u64,
    pub io_generation: u64,
}

#[derive(Debug, PartialEq, Eq)]
pub enum FileManagerLocationCursorMove {
    Inert,
    Moved(String),
}

/// Where the origin came from, as plain values.
pub enum OriginView {
    Location(Seq<char>),
    Direct(Seq<char>),
}

/// The pending load, as plain values.
pub struct PendingView {
    pub path: Seq<char>,
    pub files_generation: u32,
    pub model_revision: u64,
    pub io_generation: u64,
}

/// The whole locations state, as plain values.
pub struct LocationsView {
    pub origin: Option<OriginView>,
    pub cursor: Option<Seq<char>>,
    pub pending: Option<PendingView>,
    pub failure: Option<(Seq<char>, FileManagerLocationLoadError)>,
    pub scroll: usize,
    pub focus: FileManagerLocationsFocus,
    pub drawer_open: bool,
    pub drawer_restore_focus: FileManagerLocationsFocus,
}

pub open spec fn opt_text(o: Option<String>) -> Option<Seq<char>> {
    match o {
        Some(s) => Some(s@),
        None => None,
    }
}

pub open spec fn origin_view(o: Option<FileManagerLocationOrigin>) -> Option<OriginView> {
    match o {
        Some(FileManagerLocationOrigin::Location(p)) => Some(OriginView::Location(p@)),
        Some(FileManagerLocationOrigin::Direct(p)) => Some(OriginView::Direct(p@)),
        None => None,
    }
}

pub open spec fn pending_view(p: Option<FileManagerLocationPending>) -> Option<PendingView> {
    match p {
        Some(p) => Some(
            PendingView {
                path: p.path@,
                files_generation: p.files_generation,
                model_revision: p.model_revision,
                io_generation: p.io_generation,
            },
        ),
        None => None,
    }
}

pub open spec fn failure_view(f: Option<(String, FileManagerLocationLoadError)>) -> Option<(Seq<char>, FileManagerLocationLoadError)> {
    match f {
        Some((p, e)) => Some((p@, e)),
        None => None,
    }
}

/// Whether `path` is an openable item of the model.
pub open spec fn usable_in(model: FileManagerLocationsModel, path: Seq<char>) -> bool {
    usable_key(model.view_sections(), path)
}

/// The openable paths of the model, in rail order.
pub open spec fn rail_keys(model: FileManagerLocationsModel) -> Seq<Seq<char>> {
    usable_keys(flatten(model.view_sections()))
}

/// The path an origin names.
pub open spec fn origin_path(o: OriginView) -> Seq<char> {
    match o {
        OriginView::Location(p) => p,
        OriginView::Direct(p) => p,
    }
}

/// The cursor as the rail sees it: kept only while it names an openable item.
pub open spec fn live_cursor(v: LocationsView, model: FileManagerLocationsModel) -> Option<Seq<char>> {
    match v.cursor {
        Some(p) => if usable_in(model, p) { Some(p) } else { None },
        None => None,
    }
}

/// An optional path's identity.
pub open spec fn opt_key(o: Option<Seq<char>>) -> Option<Seq<char>> {
    match o {
        Some(p) => Some(path_key(p)),
        None => None,
    }
}

/// Move the cursor: a move to another path retires the pending load and the
/// failure; a move to the same path (however it is written) changes nothing.
pub open spec fn with_cursor(v: LocationsView, next: Option<Seq<char>>) -> LocationsView {
    if opt_key(v.cursor) == opt_key(next) {
        v
    } else {
        LocationsView { cursor: next, pending: None, failure: None, ..v }
    }
}

/// Where the cursor settles when the rail takes it.
pub open spec fn normalized_cursor(v: LocationsView, model: FileManagerLocationsModel) -> Option<Seq<char>> {
    let preferred = match v.origin {
        Some(OriginView::Location(p)) => if usable_in(model, p) { Some(p) } else { None },
        Some(OriginView::Direct(_)) => live_cursor(v, model),
        None => None,
    };
    if preferred is Some {
        preferred
    } else if rail_keys(model).len() > 0 {
        Some(rail_keys(model)[0])
    } else {
        None
    }
}

/// The first position of the same path as `key` among `keys`, or -1.
pub open spec fn key_position(keys: Seq<Seq<char>>, key: Seq<char>) -> int {
    if exists|i: int| 0 <= i < keys.len() && path_key(keys[i]) == path_key(key) && forall|j: int| 0 <= j < i ==> path_key(keys[j]) != path_key(key) {
        choose|i: int| 0 <= i < keys.len() && path_key(keys[i]) == path_key(key) && forall|j: int| 0 <= j < i ==> path_key(keys[j]) != path_key(key)
    } else {
        -1
    }
}

/// `usize::saturating_add_signed`.
pub open spec fn sat_add_signed(x: usize, delta: isize) -> int {
    if x + delta < 0 {
        0
    } else if x + delta > usize::MAX {
        usize::MAX as int
    } else {
        x + delta
    }
}

/// `usize::saturating_sub` and `usize::saturating_add`, as spec values.
pub open spec fn sat_sub(a: int, b: int) -> int {
    if a - b < 0 { 0 } else { a - b }
}

pub open spec fn sat_add(a: int, b: int) -> int {
    if a + b > usize::MAX { usize::MAX as int } else { a + b }
}

pub open spec fn min_int(a: int, b: int) -> int {
    if a < b { a } else { b }
}

/// The scroll offset after a wheel step over the rail.
pub open spec fn scrolled(scroll: usize, delta: isize, content_line_count: usize, viewport_height: u16) -> int {
    let maximum = sat_sub(content_line_count as int, viewport_height as int);
    let next = if delta < 0 {
        sat_sub(scroll as int, -delta)
    } else {
        min_int(sat_add(scroll as int, delta as int), maximum)
    };
    min_int(next, maximum)
}

/// The scroll offset that reveals `line` in a viewport of `height` lines.
pub open spec fn revealing_scroll(scroll: usize, line: int, height: int, content: int) -> int {
    let maximum = sat_sub(content, height);
    let next = if line < scroll {
        line
    } else if line >= sat_add(scroll as int, height) {
        sat_sub(sat_add(line, 1), height)
    } else {
        scroll as int
    };
    min_int(next, maximum)
}

/// Revealing a line puts it in view: for a line of the content and a
/// viewport of at least one line, the new offset is at or above the line
/// and the line is within the viewport's height below it; the offset never
/// passes the last full page. A line already in view, at an offset that
/// does not pass the last page, leaves the offset where it was.
pub proof fn law_reveal_brings_the_line_into_view(scroll: usize, line: int, height: int, content: int)
    requires
        0 <= line < content <= usize::MAX,
        1 <= height,
    ensures
        ({
            let r = revealing_scroll(scroll, line, height, content);
            &&& 0 <= r <= line < r + height
            &&& r <= sat_sub(content, height)
            &&& (scroll <= line < scroll + height && scroll <= sat_sub(content, height)) ==> r == scroll
        }),
{
}

#[derive(Debug)]
pub struct FileManagerLocationsState {
    pub origin: Option<FileManagerLocationOrigin>,
    pub cursor: Option<String>,
    pub pending: Option<FileManagerLocationPending>,
    pub failure: Option<(String, FileManagerLocationLoadError)>,
    pub scroll: usize,
    pub focus: FileManagerLocationsFocus,
    drawer_open: bool,
    drawer_restore_focus: FileManagerLocationsFocus,
}

/// The state after the rail activates `path`: it is the origin and the
/// cursor, no load is pending or failed, and the rail holds the keyboard.
pub open spec fn activated(v: LocationsView, path: Seq<char>) -> LocationsView {
    LocationsView {
        origin: Some(OriginView::Location(path)),
        pending: None,
        failure: None,
        focus: FileManagerLocationsFocus::Rail,
        ..with_cursor(v, Some(path))
    }
}

impl View for FileManagerLocationsState {
    type V = LocationsView;

    closed spec fn view(&self) -> LocationsView {
        LocationsView {
            origin: origin_view(self.origin),
            cursor: opt_text(self.cursor),
            pending: pending_view(self.pending),
            failure: failure_view(self.failure),
            scroll: self.scroll,
            focus: self.focus,
            drawer_open: self.drawer_open,
            drawer_restore_focus: self.drawer_restore_focus,
        }
    }
}

impl Default for FileManagerLocationsState {
    fn default() -> (r: Self)
        ensures
            r@ == (LocationsView {
                origin: None,
                cursor: None,
                pending: None,
                failure: None,
                scroll: 0,
                focus: FileManagerLocationsFocus::Trail,
                drawer_open: false,
                drawer_restore_focus: FileManagerLocationsFocus::Trail,
            }),
    {
        FileManagerLocationsState {
            origin: None,
            cursor: None,
            pending: None,
            failure: None,
            scroll: 0,
            focus: FileManagerLocationsFocus::Trail,
            drawer_open: false,
            drawer_restore_focus: FileManagerLocationsFocus::Trail,
        }
    }
}

fn opt_text_equal(a: &Option<String>, b: &Option<String>) -> (r: bool)
    ensures
        r == (opt_key(opt_text(*a)) == opt_key(opt_text(*b))),
{
    match (a, b) {
        (Some(x), Some(y)) => same_path(x.as_str(), y.as_str()),
        (None, None) => true,
        _ => false,
    }
}

impl FileManagerLocationsState {
    /// Which surface holds the keyboard.
    pub fn focus(&self) -> (r: FileManagerLocationsFocus)
        ensures
            r == self@.focus,
    {
        self.focus
    }

    /// Select one exact openable item of the rail as the origin.
    pub fn activate_location(&mut self, path: &str, model: &FileManagerLocationsModel) -> (r: bool)
        ensures
            r == usable_in(*model, path@),
            !r ==> final(self)@ == old(self)@,
            r ==> final(self)@ == activated(old(self)@, path@),
    {
        if !model.is_accessible_path(path) {
            return false;
        }
        self.origin = Some(FileManagerLocationOrigin::Location(String::from_str(path)));
        self.set_cursor(Some(String::from_str(path)));
        self.pending = None;
        self.failure = None;
        self.focus = FileManagerLocationsFocus::Rail;
        true
    }

    /// A root reached without the rail: it carries no location authority.
    pub fn activate_direct(&mut self, path: String)
        ensures
            final(self)@ == (LocationsView {
                origin: Some(OriginView::Direct(path@)),
                pending: None,
                failure: None,
                focus: FileManagerLocationsFocus::Trail,
                ..old(self)@
            }),
    {
        self.origin = Some(FileManagerLocationOrigin::Direct(path));
        self.pending = None;
        self.failure = None;
        self.focus = FileManagerLocationsFocus::Trail;
    }

    /// The rail item that wears the highlight: the origin's own path, and
    /// only while it is an openable item of the model.
    pub fn highlighted_path(&self, model: &FileManagerLocationsModel) -> (r: Option<&str>)
        ensures
            match self@.origin {
                Some(o) => if usable_in(*model, origin_path(o)) {
                    r is Some && r->0@ == origin_path(o)
                } else {
                    r is None
                },
                None => r is None,
            },
    {
        let path = match &self.origin {
            Some(FileManagerLocationOrigin::Location(p)) => p,
            Some(FileManagerLocationOrigin::Direct(p)) => p,
            None => {
                return None;
            },
        };
        if model.is_accessible_path(path.as_str()) {
            Some(path.as_str())
        } else {
            None
        }
    }

    /// Follow a replaced model: a location origin whose item vanished or
    /// became inaccessible is retired, and the cursor settles again.
    pub fn reconcile_model(&mut self, model: &FileManagerLocationsModel) -> (r: bool)
        ensures
            ({
                let dropped = match old(self)@.origin {
                    Some(OriginView::Location(p)) => !usable_in(*model, p),
                    _ => false,
                };
                let mid = if dropped { LocationsView { origin: None, ..old(self)@ } } else { old(self)@ };
                &&& final(self)@ == with_cursor(mid, normalized_cursor(mid, *model))
                &&& r == (dropped || opt_key(mid.cursor) != opt_key(normalized_cursor(mid, *model)))
            }),
    {
        let mut changed = false;
        let drop_origin = match &self.origin {
            Some(FileManagerLocationOrigin::Location(p)) => !model.is_accessible_path(p.as_str()),
            _ => false,
        };
        if drop_origin {
            self.origin = None;
            changed = true;
        }
        let moved = self.normalize_cursor_for_rail(model);
        moved || changed
    }

    /// Files closed: every authority this state held is retired.
    pub fn retire_for_closed_files(&mut self)
        ensures
            final(self)@ == (LocationsView {
                origin: None,
                cursor: None,
                pending: None,
                failure: None,
                scroll: 0,
                focus: FileManagerLocationsFocus::Trail,
                drawer_open: false,
                drawer_restore_focus: FileManagerLocationsFocus::Trail,
            }),
    {
        self.origin = None;
        self.retire_navigation_authority();
        self.scroll = 0;
        self.focus = FileManagerLocationsFocus::Trail;
        self.drawer_open = false;
        self.drawer_restore_focus = FileManagerLocationsFocus::Trail;
    }

    /// A root load was submitted for `path`; an older failure no longer speaks.
    pub fn begin_load(&mut self, path: String, files_generation: u32, model_revision: u64, io_generation: u64)
        ensures
            final(self)@ == (LocationsView {
                pending: Some(PendingView { path: path@, files_generation, model_revision, io_generation }),
                failure: None,
                ..old(self)@
            }),
    {
        self.pending = Some(FileManagerLocationPending { path, files_generation, model_revision, io_generation });
        self.failure = None;
    }

    /// The load failed: the pending request ends and the failure is shown.
    pub fn fail_load(&mut self, path: String, error: FileManagerLocationLoadError)
        ensures
            final(self)@ == (LocationsView { pending: None, failure: Some((path@, error)), ..old(self)@ }),
    {
        self.pending = None;
        self.failure = Some((path, error));
    }

    /// Whether a completion matches the pending load on every identity axis.
    pub fn is_pending_root(&self, path: &str, files_generation: u32, model_revision: u64, io_generation: u64) -> (r: bool)
        ensures
            r == (self@.pending matches Some(p) && path_key(p.path) == path_key(path@) && p.files_generation == files_generation
                && p.model_revision == model_revision && p.io_generation == io_generation),
    {
        match &self.pending {
            Some(p) => same_path(p.path.as_str(), path) && p.files_generation == files_generation
                && p.model_revision == model_revision && p.io_generation == io_generation,
            None => false,
        }
    }

    /// Scroll the rail by a wheel step, clamped to the content; the rail
    /// takes focus either way.
    pub fn scroll_rail(&mut self, delta: isize, content_line_count: usize, viewport_height: u16) -> (r: bool)
        ensures
            final(self)@ == (LocationsView {
                scroll: scrolled(old(self)@.scroll, delta, content_line_count, viewport_height) as usize,
                focus: FileManagerLocationsFocus::Rail,
                ..old(self)@
            }),
            r == (scrolled(old(self)@.scroll, delta, content_line_count, viewport_height) != old(self)@.scroll),
    {
        let maximum = content_line_count.saturating_sub(viewport_height as usize);
        let next = if delta < 0 {
            let magnitude: usize = if delta == isize::MIN {
                (isize::MAX as usize) + 1
            } else {
                (-delta) as usize
            };
            self.scroll.saturating_sub(magnitude)
        } else {
            let step = self.scroll.saturating_add(delta as usize);
            if step < maximum { step } else { maximum }
        };
        let next = if next < maximum { next } else { maximum };
        let changed = next != self.scroll;
        self.scroll = next;
        self.focus = FileManagerLocationsFocus::Rail;
        changed
    }

    /// The root load in flight, if any.
    pub fn pending_root(&self) -> (r: Option<&FileManagerLocationPending>)
        ensures
            pending_view(
                match r {
                    Some(p) => Some(*p),
                    None => None,
                },
            ) == self@.pending,
    {
        self.pending.as_ref()
    }

    /// Take a location the rail settled on: it becomes the origin, and a
    /// location meant to enter the trail closes the drawer and hands the
    /// keyboard to the trail.
    pub fn accept_location(&mut self, path: &str, model: &FileManagerLocationsModel, enter_trail: bool) -> (r: bool)
        ensures
            r == usable_in(*model, path@),
            !r ==> final(self)@ == old(self)@,
            r && !enter_trail ==> final(self)@ == activated(old(self)@, path@),
            r && enter_trail ==> final(self)@ == (LocationsView {
                drawer_open: false,
                focus: FileManagerLocationsFocus::Trail,
                ..activated(old(self)@, path@)
            }),
    {
        if !self.activate_location(path, model) {
            return false;
        }
        if enter_trail {
            let _ = self.close_drawer();
            self.focus_trail();
        }
        true
    }

    pub fn focus_trail(&mut self)
        ensures
            final(self)@ == (LocationsView { focus: FileManagerLocationsFocus::Trail, ..old(self)@ }),
    {
        self.focus = FileManagerLocationsFocus::Trail;
    }

    pub fn drawer_is_open(&self) -> (r: bool)
        ensures
            r == self@.drawer_open,
    {
        self.drawer_open
    }

    /// Open the drawer, remembering which side had focus; the rail takes it.
    pub fn open_drawer(&mut self) -> (r: bool)
        ensures
            r == !old(self)@.drawer_open,
            !r ==> final(self)@ == old(self)@,
            r ==> final(self)@ == (LocationsView {
                drawer_restore_focus: old(self)@.focus,
                drawer_open: true,
                focus: FileManagerLocationsFocus::Rail,
                ..old(self)@
            }),
    {
        if self.drawer_open {
            return false;
        }
        self.drawer_restore_focus = self.focus;
        self.drawer_open = true;
        self.focus = FileManagerLocationsFocus::Rail;
        true
    }

    /// Close the drawer and give focus back to whoever had it.
    pub fn close_drawer(&mut self) -> (r: bool)
        ensures
            r == old(self)@.drawer_open,
            !r ==> final(self)@ == old(self)@,
            r ==> final(self)@ == (LocationsView { drawer_open: false, focus: old(self)@.drawer_restore_focus, ..old(self)@ }),
    {
        if !self.drawer_open {
            return false;
        }
        self.drawer_open = false;
        self.focus = self.drawer_restore_focus;
        true
    }

    /// The cursor, while it names an openable item of the model.
    pub fn cursor_path(&self, model: &FileManagerLocationsModel) -> (r: Option<&str>)
        ensures
            opt_str(r) == live_cursor(self@, *model),
    {
        match &self.cursor {
            Some(p) => if model.is_accessible_path(p.as_str()) {
                Some(p.as_str())
            } else {
                None
            },
            None => None,
        }
    }

    /// Settle the cursor for the rail: the exact location origin when it is
    /// openable, a Direct root's live cursor, else the first openable item.
    pub fn normalize_cursor_for_rail(&mut self, model: &FileManagerLocationsModel) -> (r: bool)
        ensures
            final(self)@ == with_cursor(old(self)@, normalized_cursor(old(self)@, *model)),
            r == (opt_key(old(self)@.cursor) != opt_key(normalized_cursor(old(self)@, *model))),
    {
        let preferred: Option<String> = match &self.origin {
            Some(FileManagerLocationOrigin::Location(p)) => if model.is_accessible_path(p.as_str()) {
                Some(p.clone())
            } else {
                None
            },
            Some(FileManagerLocationOrigin::Direct(_)) => match self.cursor_path(model) {
                Some(p) => Some(String::from_str(p)),
                None => None,
            },
            None => None,
        };
        let next = match preferred {
            Some(p) => Some(p),
            None => {
                let keys = model.accessible_paths();
                assert(keys@.map_values(|s: String| s@) == rail_keys(*model));
                if keys.len() > 0 {
                    assert(keys@.map_values(|s: String| s@)[0] == keys@[0]@);
                    Some(keys[0].clone())
                } else {
                    None
                }
            },
        };
        self.set_cursor(next)
    }

    /// Step the cursor through the openable items, clamped at both ends;
    /// a step that lands where the cursor already is changes nothing.
    pub fn move_cursor(&mut self, model: &FileManagerLocationsModel, delta: isize) -> (r: FileManagerLocationCursorMove)
        ensures
            ({
                let keys = rail_keys(*model);
                let current = match live_cursor(old(self)@, *model) {
                    Some(p) => if key_position(keys, p) >= 0 { key_position(keys, p) } else { 0 },
                    None => 0,
                };
                let next = min_int(sat_add_signed(current as usize, delta), keys.len() - 1);
                if keys.len() == 0 {
                    &&& r is Inert
                    &&& final(self)@ == with_cursor(old(self)@, None)
                } else if next == current && live_cursor(old(self)@, *model) is Some {
                    &&& r is Inert
                    &&& final(self)@ == old(self)@
                } else {
                    &&& r matches FileManagerLocationCursorMove::Moved(p) && p@ == keys[next]
                    &&& final(self)@ == with_cursor(old(self)@, Some(keys[next]))
                }
            }),
    {
        let keys = model.accessible_paths();
        let ghost kv = keys@.map_values(|s: String| s@);
        assert(kv == rail_keys(*model));
        let live = self.cursor_path(model);
        let current_found: Option<usize> = match live {
            Some(p) => position_in(&keys, p),
            None => None,
        };
        let count = keys.len();
        if count == 0 {
            self.set_cursor(None);
            return FileManagerLocationCursorMove::Inert;
        }
        let current: usize = match current_found {
            Some(i) => i,
            None => 0,
        };
        let stepped: usize = if delta < 0 {
            let magnitude: usize = if delta == isize::MIN {
                (isize::MAX as usize) + 1
            } else {
                (-delta) as usize
            };
            current.saturating_sub(magnitude)
        } else {
            current.saturating_add(delta as usize)
        };
        let next = if stepped < count - 1 { stepped } else { count - 1 };
        if next == current && self.cursor_path(model).is_some() {
            return FileManagerLocationCursorMove::Inert;
        }
        let path = keys[next].clone();
        assert(kv[next as int] == keys@[next as int]@);
        self.set_cursor(Some(path.clone()));
        FileManagerLocationCursorMove::Moved(path)
    }

    /// Scroll just enough to bring the cursor's rendered line into a
    /// viewport of `viewport_height` lines.
    pub fn ensure_cursor_visible(&mut self, model: &FileManagerLocationsModel, viewport_height: u16) -> (r: bool)
        requires
            section_lines(model.view_sections()) + model.view_sections().len() <= usize::MAX,
        ensures
            ({
                let line = match live_cursor(old(self)@, *model) {
                    Some(p) => line_of(model.view_sections(), p, 0),
                    None => None,
                };
                if line is None || viewport_height == 0 {
                    &&& !r
                    &&& final(self)@ == old(self)@
                } else {
                    let next = revealing_scroll(old(self)@.scroll, line->0, viewport_height as int, content_lines(model.view_sections()));
                    &&& final(self)@ == (LocationsView { scroll: next as usize, ..old(self)@ })
                    &&& r == (next != old(self)@.scroll)
                    &&& final(self)@.scroll <= line->0 < final(self)@.scroll + viewport_height
                }
            }),
    {
        let line = match self.cursor_path(model) {
            Some(p) => model.line_index_for_path(p),
            None => {
                return false;
            },
        };
        let line = match line {
            Some(l) => l,
            None => {
                return false;
            },
        };
        let height = viewport_height as usize;
        if height == 0 {
            return false;
        }
        let maximum = model.content_line_count().saturating_sub(height);
        let next = if line < self.scroll {
            line
        } else if line >= self.scroll.saturating_add(height) {
            line.saturating_add(1).saturating_sub(height)
        } else {
            self.scroll
        };
        let next = if next < maximum { next } else { maximum };
        proof {
            match live_cursor(self@, *model) {
                Some(p) => lemma_line_of_bound(model.view_sections(), p, 0),
                None => {},
            }
        }
        proof {
            lemma_line_of_bound(model.view_sections(), self@.cursor.unwrap(), 0);
        }
        let changed = next != self.scroll;
        self.scroll = next;
        changed
    }

    /// Retire the cursor, the pending load and the failure together.
    pub fn retire_navigation_authority(&mut self)
        ensures
            final(self)@ == (LocationsView { cursor: None, pending: None, failure: None, ..old(self)@ }),
    {
        self.cursor = None;
        self.pending = None;
        self.failure = None;
    }

    fn set_cursor(&mut self, next: Option<String>) -> (r: bool)
        ensures
            final(self)@ == with_cursor(old(self)@, opt_text(next)),
            r == (opt_key(old(self)@.cursor) != opt_key(opt_text(next))),
    {
        if opt_text_equal(&self.cursor, &next) {
            return false;
        }
        self.cursor = next;
        self.pending = None;
        self.failure = None;
        true
    }
}

pub open spec fn opt_str(o: Option<&str>) -> Option<Seq<char>> {
    match o {
        Some(s) => Some(s@),
        None => None,
    }
}

/// The first position of `key` among `keys`.
fn position_in(keys: &Vec<String>, key: &str) -> (r: Option<usize>)
    ensures
        r is None ==> key_position(keys@.map_values(|s: String| s@), key@) == -1,
        r is Some ==> key_position(keys@.map_values(|s: String| s@), key@) == r->0 as int,
{
    let ghost kv = keys@.map_values(|s: String| s@);
    let mut i: usize = 0;
    while i < keys.len()
        invariant
            kv == keys@.map_values(|s: String| s@),
            i <= keys@.len(),
            forall|j: int| 0 <= j < i ==> path_key(kv[j]) != path_key(key@),
        decreases keys.len() - i,
    {
        if same_path(keys[i].as_str(), key) {
            assert(path_key(kv[i as int]) == path_key(key@));
            let ghost w = choose|w: int| 0 <= w < kv.len() && path_key(kv[w]) == path_key(key@) && forall|j: int| 0 <= j < w ==> path_key(kv[j]) != path_key(key@);
            assert(path_key(kv[i as int]) == path_key(key@) && forall|j: int| 0 <= j < i ==> path_key(kv[j]) != path_key(key@));
            proof {
                if w < i as int {
                    assert(path_key(kv[w]) != path_key(key@));
                } else if (i as int) < w {
                    assert(path_key(kv[i as int]) != path_key(key@));
                }
            }
            return Some(i);
        }
        i = i + 1;
    }
    None
}

} // verus!
