//! Layout of the obstacle data that the renderer uploads: a fixed number of
//! slots, filled in order, the rest holding a neutral placeholder.

use vstd::prelude::*;

verus! {

/// Number of obstacle slots in the renderer's buffer.
pub const OBSTACLE_SLOTS: usize = 24;

/// The obstacle count handed to the shader.
#[derive(Debug, Clone, Copy, PartialEq, Eq, Hash, Structural)]
pub struct ObstactleGlobalUniform {
    pub count: i32,
}

impl ObstactleGlobalUniform {
    /// The count for a list of `len` obstacles, as a 32-bit signed integer.
    pub fn for_obstacles(len: usize) -> (r: ObstactleGlobalUniform)
        ensures
            r.count == len as i32,
    {
        ObstactleGlobalUniform { count: len as i32 }
    }
}

/// The slot contents for `items`: the first `OBSTACLE_SLOTS` items in order,
/// then `placeholder` in every slot left over; items beyond the last slot are
/// dropped.
pub fn fill_slots<T: Copy>(items: &Vec<T>, placeholder: T) -> (r: Vec<T>)
    ensures
        r@.len() == OBSTACLE_SLOTS,
        forall|i: int| 0 <= i < OBSTACLE_SLOTS as int ==> #[trigger] r@[i] == if i < items@.len() {
            items@[i]
        } else {
            placeholder
        },
{
    let length = if items.len() < OBSTACLE_SLOTS { items.len() } else { OBSTACLE_SLOTS };
    let mut out: Vec<T> = Vec::new();
    let mut i: usize = 0;
    while i < OBSTACLE_SLOTS
        invariant
            i <= OBSTACLE_SLOTS,
            length as int == if items@.len() < OBSTACLE_SLOTS { items@.len() as int } else { OBSTACLE_SLOTS as int },
            out@.len() == i as int,
            forall|j: int| 0 <= j < i as int ==> #[trigger] out@[j] == if j < items@.len() {
                items@[j]
            } else {
                placeholder
            },
        decreases OBSTACLE_SLOTS - i,
    {
        if i >= length {
            out.push(placeholder);
        } else {
            out.push(items[i]);
        }
        i = i + 1;
    }
    out
}

} // verus!
