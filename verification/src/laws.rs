//! General laws of the drag controller, stated and proved over the
//! mathematical model and its transitions.

use vstd::prelude::*;

use crate::drag::Model;
use crate::drag::default_position;

verus! {

/// A panel with no entry yet is seeded with the deterministic staggered
/// default computed from the viewport dimensions and the panel's
/// registration index, and that default is both returned and stored.
pub proof fn lemma_default_for_new_panel(m: Model, id: u32)
    requires
        !m.positions.contains_key(id),
    ensures
        m.get_position(id).1 == default_position(m.view_width, m.view_height, m.next_index),
        m.get_position(id).0.positions[id] == default_position(
            m.view_width,
            m.view_height,
            m.next_index,
        ),
{
}

/// Looking up a panel that already has an entry returns that entry and
/// changes nothing, so a panel that was never dragged keeps reporting its
/// seeded default.
pub proof fn lemma_lookup_of_seeded_panel(m: Model, id: u32)
    requires
        m.positions.contains_key(id),
    ensures
        m.get_position(id).0 == m,
        m.get_position(id).1 == m.positions[id],
{
}

/// Seeding one panel writes only that panel's entry: every other panel —
/// dragged before or never touched — keeps exactly the position it had.
pub proof fn lemma_seeding_leaves_other_panels(m: Model, id: u32, other: u32)
    requires
        id != other,
    ensures
        m.get_position(id).0.positions.contains_key(other) == m.positions.contains_key(other),
        m.positions.contains_key(other) ==> m.get_position(id).0.positions[other]
            == m.positions[other],
{
}

/// Releasing the pointer clears the session and writes nothing into the
/// position table.
pub proof fn lemma_end_drag_touches_no_position(m: Model)
    ensures
        m.end_drag().positions == m.positions,
        m.end_drag().active is None,
{
}

/// Starting a drag and immediately releasing it (no move in between) leaves
/// the whole position table unchanged; if nothing was being dragged before,
/// the state as a whole is exactly what it was.
pub proof fn lemma_begin_then_end_keeps_positions(m: Model, id: u32, px: i64, py: i64)
    requires
        m.positions.contains_key(id),
    ensures
        m.begin_drag(id, px, py).end_drag().positions == m.positions,
        m.active is None ==> m.begin_drag(id, px, py).end_drag() == m,
{
}

/// Starting a drag and then moving to the very same pointer position writes
/// back exactly the position the panel had at drag start: net-zero movement,
/// and the table as a whole is unchanged.
pub proof fn lemma_drag_without_move_is_net_zero(m: Model, id: u32, px: i64, py: i64)
    requires
        m.positions.contains_key(id),
        m.offset_fits(id, px, py),
    ensures
        m.begin_drag(id, px, py).update_drag(px, py).positions[id] == m.positions[id],
        m.begin_drag(id, px, py).update_drag(px, py).positions == m.positions,
{
    let after = m.begin_drag(id, px, py).update_drag(px, py);
    assert(after.positions =~= m.positions);
}

/// A pointer move with no active session never mutates anything: not the
/// position table, not the session, not the seeding index.
pub proof fn lemma_update_without_session_is_noop(m: Model, px: i64, py: i64)
    requires
        m.active is None,
    ensures
        m.update_drag(px, py) == m,
{
}

/// After the pointer is released, every further pointer move is a no-op
/// until a new drag starts.
pub proof fn lemma_update_after_end_is_noop(m: Model, px: i64, py: i64)
    ensures
        m.end_drag().update_drag(px, py) == m.end_drag(),
{
}

/// Starting a drag writes nothing into the position table: in particular,
/// starting a drag on one panel leaves the stored position of every panel —
/// including one placed by an earlier drag — exactly as it was.
pub proof fn lemma_begin_drag_touches_no_position(m: Model, id: u32, px: i64, py: i64)
    ensures
        m.begin_drag(id, px, py).positions == m.positions,
{
}

/// While one panel's session is active, pointer moves leave every other
/// panel's entry untouched: only the dragged panel is affected.
pub proof fn lemma_update_leaves_other_panels(m: Model, px: i64, py: i64, other: u32)
    requires
        m.active matches Some(s) && s.panel != other,
    ensures
        m.update_drag(px, py).positions.contains_key(other) == m.positions.contains_key(other),
        m.positions.contains_key(other) ==> m.update_drag(px, py).positions[other]
            == m.positions[other],
{
}

} // verus!
