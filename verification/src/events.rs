use vstd::prelude::*;

use crate::surface::Extent;

verus! {

/// One event from the window system, as the host hands it over. Only a
/// resize and a close request affect the frame loop; everything else is
/// `Other`.
#[derive(Clone, Copy, PartialEq, Eq, Structural, Debug)]
pub enum WindowEvent {
    Resized { width: u32, height: u32 },
    CloseRequested,
    Other,
}

/// What one non-blocking poll of the window queue amounts to for the frame
/// loop: the dimensions of the last resize seen, if any, and whether a close
/// was requested.
#[derive(Clone, Copy, PartialEq, Eq, Structural, Debug)]
pub struct EventSummary {
    pub resize: Option<Extent>,
    pub close_requested: bool,
}

/// The dimensions of the last resize event in `evs`, if any.
pub open spec fn last_resize(evs: Seq<WindowEvent>) -> Option<Extent>
    decreases evs.len(),
{
    if evs.len() == 0 {
        None
    } else if evs.last() is Resized {
        Some(Extent { width: evs.last()->width, height: evs.last()->height })
    } else {
        last_resize(evs.drop_last())
    }
}

/// Folds one poll's worth of window events into what the frame loop reacts
/// to: the last resize wins (earlier ones are superseded within the same
/// poll), and a close request anywhere in the batch requests termination.
pub fn summarize_window_events(events: &Vec<WindowEvent>) -> (s: EventSummary)
    ensures
        s.resize == last_resize(events@),
        s.close_requested <==> exists|k: int|
            0 <= k < events.len() && events[k] is CloseRequested,
{
    let mut resize: Option<Extent> = None;
    let mut close_requested: bool = false;
    let mut i: usize = 0;
    while i < events.len()
        invariant
            0 <= i <= events.len(),
            resize == last_resize(events@.take(i as int)),
            close_requested <==> exists|k: int| 0 <= k < i && events[k] is CloseRequested,
        decreases events.len() - i,
    {
        match events[i] {
            WindowEvent::Resized { width, height } => {
                resize = Some(Extent { width, height });
            },
            WindowEvent::CloseRequested => {
                close_requested = true;
            },
            WindowEvent::Other => {},
        }
        proof {
            assert(events@.take(i + 1).drop_last() =~= events@.take(i as int));
            assert(events@.take(i + 1).last() == events@[i as int]);
        }
        i += 1;
    }
    proof {
        assert(events@.take(events.len() as int) =~= events@);
    }
    EventSummary { resize, close_requested }
}

} // verus!
