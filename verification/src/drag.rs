//! The drag controller: a position table mapping panel identifiers to
//! viewport coordinates, and at most one active drag session at a time.
//!
//! The controller state is modelled by the ghost struct [`Model`], and every
//! operation is specified as a pure transition on that model.

use std::collections::HashMap;
use vstd::prelude::*;

verus! {

/// A 2D coordinate in viewport pixels.
#[derive(Clone, Copy, PartialEq, Eq, Structural, Debug)]
pub struct Position {
    pub x: i64,
    pub y: i64,
}

/// The transient record of the panel currently being dragged: the panel's
/// identifier, the pointer-to-panel offset captured at drag start, and
/// (redundantly) the panel's position at drag start.
#[derive(Clone, Copy, PartialEq, Eq, Structural, Debug)]
pub struct DragSession {
    pub panel: u32,
    pub offset_x: i64,
    pub offset_y: i64,
    pub start_x: i64,
    pub start_y: i64,
}

/// The staggered default layout position for the panel with the given
/// registration index: centred vertically, and horizontally offset from the
/// viewport centre by 100 pixels per panel, starting 300 pixels to the left.
pub open spec fn default_position(view_width: u32, view_height: u32, index: u32) -> Position {
    Position {
        x: (view_width as int / 2 + 100 * index as int - 300) as i64,
        y: (view_height as int / 2) as i64,
    }
}

/// The mathematical model of the controller: the position table, the active
/// session (if any), the viewport dimensions, and the registration index the
/// next freshly seeded panel will receive.
pub ghost struct Model {
    pub positions: Map<u32, Position>,
    pub active: Option<DragSession>,
    pub view_width: u32,
    pub view_height: u32,
    pub next_index: u32,
}

impl Model {
    /// The controller invariant: whenever a session is active, the dragged
    /// panel already has an entry in the position table.
    pub open spec fn wf(self) -> bool {
        self.active matches Some(s) ==> self.positions.contains_key(s.panel)
    }

    /// The pointer-to-panel offsets computed at drag start fit in `i64`.
    pub open spec fn offset_fits(self, id: u32, pointer_x: i64, pointer_y: i64) -> bool {
        &&& i64::MIN <= pointer_x - self.positions[id].x <= i64::MAX
        &&& i64::MIN <= pointer_y - self.positions[id].y <= i64::MAX
    }

    /// The position a move to `(pointer_x, pointer_y)` would write fits in
    /// `i64` (trivially true while no session is active).
    pub open spec fn update_fits(self, pointer_x: i64, pointer_y: i64) -> bool {
        self.active matches Some(s) ==> {
            &&& i64::MIN <= pointer_x - s.offset_x <= i64::MAX
            &&& i64::MIN <= pointer_y - s.offset_y <= i64::MAX
        }
    }

    /// Starting a drag captures the pointer-to-panel offset and the position
    /// at drag start; it replaces any prior session and writes no position.
    pub open spec fn begin_drag(self, id: u32, pointer_x: i64, pointer_y: i64) -> Model
        recommends
            self.positions.contains_key(id),
    {
        let p = self.positions[id];
        Model {
            active: Some(
                DragSession {
                    panel: id,
                    offset_x: (pointer_x - p.x) as i64,
                    offset_y: (pointer_y - p.y) as i64,
                    start_x: p.x,
                    start_y: p.y,
                },
            ),
            ..self
        }
    }

    /// A pointer move overwrites the active panel's position with the pointer
    /// position minus the captured offset; with no active session it changes
    /// nothing.
    pub open spec fn update_drag(self, pointer_x: i64, pointer_y: i64) -> Model {
        match self.active {
            None => self,
            Some(s) => Model {
                positions: self.positions.insert(
                    s.panel,
                    Position {
                        x: (pointer_x - s.offset_x) as i64,
                        y: (pointer_y - s.offset_y) as i64,
                    },
                ),
                ..self
            },
        }
    }

    /// Releasing the pointer clears the session unconditionally and writes no
    /// position.
    pub open spec fn end_drag(self) -> Model {
        Model { active: None, ..self }
    }

    /// The registration index after seeding one more panel. The table holds
    /// at most one entry per `u32` identifier, so the index can never be
    /// bumped past `u32::MAX` in any reachable state; the guard only makes
    /// the bump total.
    pub open spec fn next_index_bumped(self) -> u32 {
        if self.next_index < u32::MAX {
            (self.next_index + 1) as u32
        } else {
            self.next_index
        }
    }

    /// Seeding a panel that has no entry yet: it receives the staggered
    /// default for the current registration index, and the index advances.
    pub open spec fn seed(self, id: u32) -> Model
        recommends
            !self.positions.contains_key(id),
    {
        Model {
            positions: self.positions.insert(
                id,
                default_position(self.view_width, self.view_height, self.next_index),
            ),
            next_index: self.next_index_bumped(),
            ..self
        }
    }

    /// Looking a panel up returns its stored position, or seeds and returns
    /// the staggered default if it has none yet.
    pub open spec fn get_position(self, id: u32) -> (Model, Position) {
        if self.positions.contains_key(id) {
            (self, self.positions[id])
        } else {
            (self.seed(id), default_position(self.view_width, self.view_height, self.next_index))
        }
    }
}

/// Tracks which panel (if any) is currently being dragged, computes live
/// position updates from pointer movement, and commits positions to the
/// position table.
pub struct DragController {
    positions: HashMap<u32, Position>,
    active: Option<DragSession>,
    view_width: u32,
    view_height: u32,
    next_index: u32,
}

impl View for DragController {
    type V = Model;

    closed spec fn view(&self) -> Model {
        Model {
            positions: self.positions@,
            active: self.active,
            view_width: self.view_width,
            view_height: self.view_height,
            next_index: self.next_index,
        }
    }
}

impl DragController {
    /// A fresh controller for a viewport of the given dimensions: an empty
    /// position table and no active session.
    pub fn new(view_width: u32, view_height: u32) -> (c: DragController)
        ensures
            c@ == (Model {
                positions: Map::empty(),
                active: None,
                view_width,
                view_height,
                next_index: 0,
            }),
            c@.wf(),
    {
        DragController {
            positions: HashMap::new(),
            active: None,
            view_width,
            view_height,
            next_index: 0,
        }
    }

    /// Starts dragging the given panel from pointer position
    /// `(pointer_x, pointer_y)`. The panel must already have an entry in the
    /// position table: positions are seeded before any drag handle is shown,
    /// so a missing entry is a sequencing bug, not a runtime condition.
    pub fn begin_drag(&mut self, id: u32, pointer_x: i64, pointer_y: i64)
        requires
            old(self)@.positions.contains_key(id),
            old(self)@.offset_fits(id, pointer_x, pointer_y),
        ensures
            final(self)@ == old(self)@.begin_drag(id, pointer_x, pointer_y),
            final(self)@.wf(),
    {
        let p = *self.positions.get(&id).unwrap();
        self.active = Some(
            DragSession {
                panel: id,
                offset_x: pointer_x - p.x,
                offset_y: pointer_y - p.y,
                start_x: p.x,
                start_y: p.y,
            },
        );
    }

    /// A pointer move: overwrites the active panel's position with the
    /// pointer position minus the captured offset, or does nothing if no
    /// session is active.
    pub fn update_drag(&mut self, pointer_x: i64, pointer_y: i64)
        requires
            old(self)@.update_fits(pointer_x, pointer_y),
        ensures
            final(self)@ == old(self)@.update_drag(pointer_x, pointer_y),
            old(self)@.wf() ==> final(self)@.wf(),
    {
        match self.active {
            None => {},
            Some(s) => {
                self.positions.insert(
                    s.panel,
                    Position { x: pointer_x - s.offset_x, y: pointer_y - s.offset_y },
                );
            },
        }
    }

    /// A pointer release: clears any active session. Idempotent, and a no-op
    /// when no session is active.
    pub fn end_drag(&mut self)
        ensures
            final(self)@ == old(self)@.end_drag(),
            final(self)@.wf(),
    {
        self.active = None;
    }

    /// Returns the panel's current position, seeding the staggered default
    /// layout position first if the panel has none yet.
    pub fn get_position(&mut self, id: u32) -> (p: Position)
        ensures
            final(self)@ == old(self)@.get_position(id).0,
            p == old(self)@.get_position(id).1,
            old(self)@.wf() ==> final(self)@.wf(),
    {
        if !self.positions.contains_key(&id) {
            let x: i64 = (self.view_width / 2) as i64 + 100 * (self.next_index as i64) - 300;
            let y: i64 = (self.view_height / 2) as i64;
            self.positions.insert(id, Position { x, y });
            if self.next_index < u32::MAX {
                self.next_index = self.next_index + 1;
            }
        }
        *self.positions.get(&id).unwrap()
    }

    /// The session currently active, if any.
    pub fn active_session(&self) -> (s: Option<DragSession>)
        ensures
            s == self@.active,
    {
        self.active
    }

    /// Looks a panel up without seeding a default for it.
    pub fn try_position(&self, id: u32) -> (p: Option<Position>)
        ensures
            match p {
                Some(q) => self@.positions.contains_key(id) && q == self@.positions[id],
                None => !self@.positions.contains_key(id),
            },
    {
        match self.positions.get(&id) {
            Some(q) => Some(*q),
            None => None,
        }
    }
}

} // verus!
