//! The segment chain: an ordered deque of body segments, front = head,
//! back = tail, repositioned once per tick by recycling the tail into the
//! new head position (O(1) per tick regardless of chain length).

use vstd::prelude::*;
use std::collections::VecDeque;

use crate::direction::Heading;

verus! {

/// One body segment: an axis-aligned square at `(x, y)` with edge length
/// `size`. Segments are plain data with no identity beyond chain position.
#[derive(Copy, Clone, Debug, PartialEq, Eq, Structural)]
pub struct Segment {
    pub x: i64,
    pub y: i64,
    pub size: i64,
}

/// Mathematical model of a segment, with unbounded integer coordinates.
pub struct SegModel {
    pub x: int,
    pub y: int,
    pub size: int,
}

impl View for Segment {
    type V = SegModel;

    open spec fn view(&self) -> SegModel {
        SegModel { x: self.x as int, y: self.y as int, size: self.size as int }
    }
}

/// The model of a whole chain: the models of its segments, front first.
pub open spec fn chain_model(s: Seq<Segment>) -> Seq<SegModel> {
    Seq::new(s.len(), |i: int| s[i]@)
}

/// Horizontal displacement of one step of length `size` in direction `d`.
pub open spec fn spec_dx(d: Heading, size: int) -> int {
    match d {
        Heading::Left => -size,
        Heading::Right => size,
        _ => 0,
    }
}

/// Vertical displacement of one step of length `size` in direction `d`
/// (the y axis grows downward, so up subtracts).
pub open spec fn spec_dy(d: Heading, size: int) -> int {
    match d {
        Heading::Up => -size,
        Heading::Down => size,
        _ => 0,
    }
}

/// The head of the chain after one tick's repositioning: the recycled tail,
/// placed one `size` unit (the current head's `size`) away from the current
/// head in direction `d`. It keeps the tail's own edge length; when the
/// chain has a single segment, that segment is both head and tail and is
/// simply translated.
pub open spec fn spec_moved_head(parts: Seq<SegModel>, d: Heading) -> SegModel
    recommends
        parts.len() >= 1,
{
    SegModel {
        x: parts[0].x + spec_dx(d, parts[0].size),
        y: parts[0].y + spec_dy(d, parts[0].size),
        size: parts.last().size,
    }
}

/// The whole chain after one tick's repositioning: the tail is removed from
/// the back and pushed, repositioned, to the front as the new head. The
/// length never changes here.
pub open spec fn spec_moved(parts: Seq<SegModel>, d: Heading) -> Seq<SegModel>
    recommends
        parts.len() >= 1,
{
    seq![spec_moved_head(parts, d)] + parts.drop_last()
}

/// The segment appended on growth: the current head `h`, offset one more
/// `size` unit in direction `d` (one step ahead of the head, in front of the
/// direction of travel), with the head's edge length.
pub open spec fn spec_grown_part(h: SegModel, d: Heading) -> SegModel {
    SegModel { x: h.x + spec_dx(d, h.size), y: h.y + spec_dy(d, h.size), size: h.size }
}

/// `v` is representable as a machine integer coordinate.
pub open spec fn fits_i64(v: int) -> bool {
    i64::MIN <= v <= i64::MAX
}

/// The coordinates produced by one repositioning step stay representable.
pub open spec fn move_fits(parts: Seq<SegModel>, d: Heading) -> bool {
    &&& fits_i64(spec_moved_head(parts, d).x)
    &&& fits_i64(spec_moved_head(parts, d).y)
}

/// The coordinates of the segment appended on growth stay representable.
pub open spec fn grow_fits(parts: Seq<SegModel>, d: Heading) -> bool {
    &&& fits_i64(spec_grown_part(parts[0], d).x)
    &&& fits_i64(spec_grown_part(parts[0], d).y)
}

/// Reposition the chain for one tick: pop the tail, place it one step from
/// the current head in direction `d`, and push it to the front as the new
/// head. A one-segment chain is its own tail and is simply translated.
pub fn move_chain(parts: &mut VecDeque<Segment>, d: Heading)
    requires
        old(parts)@.len() >= 1,
        move_fits(chain_model(old(parts)@), d),
    ensures
        final(parts)@.len() == old(parts)@.len(),
        chain_model(final(parts)@) == spec_moved(chain_model(old(parts)@), d),
{
    let ghost m0 = chain_model(parts@);
    let mut tail = parts.pop_back().unwrap();
    let head: Segment = if parts.len() == 0 {
        tail
    } else {
        parts[0]
    };
    match d {
        Heading::Up => {
            tail.x = head.x;
            tail.y = head.y - head.size;
        },
        Heading::Down => {
            tail.x = head.x;
            tail.y = head.y + head.size;
        },
        Heading::Left => {
            tail.x = head.x - head.size;
            tail.y = head.y;
        },
        Heading::Right => {
            tail.x = head.x + head.size;
            tail.y = head.y;
        },
    }
    parts.push_front(tail);
    proof {
        assert(chain_model(parts@) =~= spec_moved(m0, d));
    }
}

/// Append the growth segment for a consumption event: one step ahead of the
/// current head in direction `d`, with the head's edge length, pushed to the
/// back of the chain as the new tail.
pub fn grow_chain(parts: &mut VecDeque<Segment>, d: Heading)
    requires
        old(parts)@.len() >= 1,
        grow_fits(chain_model(old(parts)@), d),
    ensures
        final(parts)@.len() == old(parts)@.len() + 1,
        chain_model(final(parts)@) == chain_model(old(parts)@).push(
            spec_grown_part(chain_model(old(parts)@)[0], d),
        ),
{
    let ghost m0 = chain_model(parts@);
    let head: Segment = parts[0];
    let mut new_part = head;
    match d {
        Heading::Up => new_part.y = head.y - head.size,
        Heading::Down => new_part.y = head.y + head.size,
        Heading::Left => new_part.x = head.x - head.size,
        Heading::Right => new_part.x = head.x + head.size,
    }
    parts.push_back(new_part);
    proof {
        assert(chain_model(parts@) =~= m0.push(spec_grown_part(m0[0], d)));
    }
}

} // verus!
