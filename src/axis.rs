//! The axis accumulator: latched x and y values, and the snapshot that the
//! last sync event committed.

use vstd::prelude::*;
use vstd::arithmetic::div_mod::lemma_mod_multiples_vanish;
use crate::event::{RawEvent, KIND_SYNC, KIND_DATA, CODE_X, CODE_Y};

verus! {

/// The packed snapshot of the axis values `x` and `y`: `x * 256 + y`,
/// reduced modulo 65536. Lossless only while both values lie in `0..=255`;
/// larger or negative values wrap.
pub open spec fn pack_spec(x: int, y: int) -> int {
    (x * 256 + y) % 65536
}

/// Packs the axis values `x` and `y` into one 16-bit snapshot.
pub fn pack(x: i32, y: i32) -> (r: u16)
    ensures
        r as int == pack_spec(x as int, y as int),
{
    let v: i64 = (x as i64) * 256 + (y as i64);
    // Shift by a multiple of 65536 so that the remainder is taken of a
    // non-negative number.
    let shifted: u64 = (v + 0x100_0000_0000) as u64;
    let r: u64 = shifted % 65536;
    proof {
        lemma_mod_multiples_vanish(0x100_0000, v as int, 65536);
        assert(0x100_0000_0000 == 65536 * 0x100_0000int);
    }
    r as u16
}

/// The state of an [`Accumulator`] as plain values.
pub struct AxisView {
    pub x: i32,
    pub y: i32,
    pub snapshot: u16,
}

/// Whether `e` is a sync marker.
pub open spec fn is_sync(e: RawEvent) -> bool {
    e.kind == KIND_SYNC
}

/// The state before any event: both axes and the snapshot at zero.
pub open spec fn initial_axes() -> AxisView {
    AxisView { x: 0, y: 0, snapshot: 0 }
}

/// The state after event `e` in state `s`. A sync commits the packed latched
/// values; a data event with code x or y latches its value on that axis; any
/// other event changes nothing.
pub open spec fn step(s: AxisView, e: RawEvent) -> AxisView {
    if e.kind == KIND_SYNC {
        AxisView { snapshot: pack_spec(s.x as int, s.y as int) as u16, ..s }
    } else if e.kind == KIND_DATA && e.code == CODE_X {
        AxisView { x: e.value, ..s }
    } else if e.kind == KIND_DATA && e.code == CODE_Y {
        AxisView { y: e.value, ..s }
    } else {
        s
    }
}

/// The state after the events `evs`, in order, from the initial state.
pub open spec fn replay(evs: Seq<RawEvent>) -> AxisView
    decreases evs.len(),
{
    if evs.len() == 0 {
        initial_axes()
    } else {
        step(replay(evs.drop_last()), evs.last())
    }
}

/// Latched axis values and the last committed snapshot, owned by the task
/// that reads the device.
pub struct Accumulator {
    x: i32,
    y: i32,
    snapshot: u16,
}

impl View for Accumulator {
    type V = AxisView;

    closed spec fn view(&self) -> AxisView {
        AxisView { x: self.x, y: self.y, snapshot: self.snapshot }
    }
}

impl Accumulator {
    /// An accumulator with both axes and the snapshot at zero.
    pub fn new() -> (r: Accumulator)
        ensures
            r@ == initial_axes(),
    {
        Accumulator { x: 0, y: 0, snapshot: 0 }
    }

    /// Latched value of the x axis.
    pub fn x(&self) -> (r: i32)
        ensures
            r == self@.x,
    {
        self.x
    }

    /// Latched value of the y axis.
    pub fn y(&self) -> (r: i32)
        ensures
            r == self@.y,
    {
        self.y
    }

    /// The snapshot that the last sync committed (zero before any sync).
    pub fn snapshot(&self) -> (r: u16)
        ensures
            r == self@.snapshot,
    {
        self.snapshot
    }

    /// Applies one event. On a sync, returns the newly committed snapshot,
    /// which is to be published; on any other event, returns `None`.
    pub fn apply(&mut self, e: &RawEvent) -> (r: Option<u16>)
        ensures
            final(self)@ == step(old(self)@, *e),
            r == (if is_sync(*e) {
                Some(pack_spec(old(self)@.x as int, old(self)@.y as int) as u16)
            } else {
                None::<u16>
            }),
            r matches Some(s) ==> s == final(self)@.snapshot,
    {
        if e.kind == KIND_SYNC {
            self.snapshot = pack(self.x, self.y);
            Some(self.snapshot)
        } else {
            if e.kind == KIND_DATA && e.code == CODE_X {
                self.x = e.value;
            } else if e.kind == KIND_DATA && e.code == CODE_Y {
                self.y = e.value;
            }
            None
        }
    }
}

/// The snapshot visible after a sync is the packing of the values latched
/// at that sync: where `evs[i]` is the last sync among `evs`, the snapshot
/// after all of `evs` packs the x and y that the events before `evs[i]` left.
pub proof fn lemma_sync_commits_latched(evs: Seq<RawEvent>, i: int)
    requires
        0 <= i < evs.len(),
        is_sync(evs[i]),
        forall|j: int| i < j < evs.len() ==> !is_sync(#[trigger] evs[j]),
    ensures
        replay(evs).snapshot as int == pack_spec(
            replay(evs.take(i)).x as int,
            replay(evs.take(i)).y as int,
        ),
    decreases evs.len(),
{
    let n = evs.len() - 1;
    if n == i {
        assert(evs.drop_last() =~= evs.take(i));
        let s = replay(evs.take(i));
        let p = pack_spec(s.x as int, s.y as int);
        assert(0 <= p < 65536);
        assert(p as u16 as int == p);
    } else {
        assert(!is_sync(evs[n]));
        lemma_sync_commits_latched(evs.drop_last(), i);
        assert(evs.drop_last().take(i) =~= evs.take(i));
    }
}

} // verus!
