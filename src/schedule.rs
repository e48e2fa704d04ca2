//! The fixed order in which one frame refreshes the shared records.
//!
//! Each stage writes exactly one record and reads only records that an
//! earlier stage of the same frame has written, so the renderer and the
//! display never combine values of two different frames.
use vstd::prelude::*;

verus! {

/// One step of a frame.
#[derive(Clone, Copy, Debug, PartialEq, Eq, Structural)]
pub enum Stage {
    /// Copies the window's position and size.
    Window,
    /// Rebuilds the camera frame from the camera widget, when there is one.
    Camera,
    /// Takes the mass from the mass input.
    Spacetime,
    /// Hands camera frame, mass and elapsed time to the renderer.
    Export,
    /// Writes the horizon distances into the diagnostic text.
    Display,
}

/// A piece of state that the stages share.
#[derive(Clone, Copy, Debug, PartialEq, Eq, Structural)]
pub enum Record {
    WindowGeometry,
    CameraFrame,
    SpacetimeParams,
    Uniforms,
    DisplayText,
}

/// The record that a stage overwrites.
pub open spec fn writes(s: Stage) -> Record {
    match s {
        Stage::Window => Record::WindowGeometry,
        Stage::Camera => Record::CameraFrame,
        Stage::Spacetime => Record::SpacetimeParams,
        Stage::Export => Record::Uniforms,
        Stage::Display => Record::DisplayText,
    }
}

/// The shared records that a stage reads.
pub open spec fn reads(s: Stage) -> Set<Record> {
    match s {
        Stage::Export | Stage::Display => set![Record::CameraFrame, Record::SpacetimeParams],
        _ => Set::empty(),
    }
}

/// The stages of one frame, first to last.
pub open spec fn frame_stages() -> Seq<Stage> {
    seq![Stage::Window, Stage::Camera, Stage::Spacetime, Stage::Export, Stage::Display]
}

/// The stages of one frame, in the order in which they must run.
pub fn frame_order() -> (r: Vec<Stage>)
    ensures
        r@ == frame_stages(),
{
    let r = vec![Stage::Window, Stage::Camera, Stage::Spacetime, Stage::Export, Stage::Display];
    assert(r@ =~= frame_stages());
    r
}

/// Every record that a stage reads has been written by an earlier stage of
/// the same frame.
pub proof fn reads_come_after_writes(i: int, rec: Record)
    requires
        0 <= i < frame_stages().len(),
        reads(frame_stages()[i]).contains(rec),
    ensures
        exists|j: int| 0 <= j < i && writes(#[trigger] frame_stages()[j]) == rec,
{
    if rec == Record::CameraFrame {
        assert(writes(frame_stages()[1]) == rec);
    } else {
        assert(writes(frame_stages()[2]) == rec);
    }
}

/// No two stages of a frame write the same record, and each stage runs once.
pub proof fn single_writer(i: int, j: int)
    requires
        0 <= i < j < frame_stages().len(),
    ensures
        writes(frame_stages()[i]) != writes(frame_stages()[j]),
        frame_stages()[i] != frame_stages()[j],
{
}

/// What a record holds after its stage ran with `fresh`: the fresh value when
/// the stage found its input, else the value of the previous frame.
pub open spec fn refreshed<T>(previous: T, fresh: Option<T>) -> T {
    match fresh {
        Some(v) => v,
        None => previous,
    }
}

/// Overwrites a record entirely with the fresh value; keeps it as it was
/// when the stage found no input this frame.
pub fn refresh<T>(record: &mut T, fresh: Option<T>)
    ensures
        *final(record) == refreshed(*old(record), fresh),
{
    match fresh {
        Some(v) => {
            *record = v;
        },
        None => {},
    }
}

/// A second run of a stage with the same input leaves its record as the
/// first run left it.
pub proof fn refresh_is_idempotent<T>(previous: T, fresh: Option<T>)
    ensures
        refreshed(refreshed(previous, fresh), fresh) == refreshed(previous, fresh),
{
}

} // verus!
