//! The choice of the graphics adapter and the output that show a window.
use crate::types::{Point, Rect};
use vstd::prelude::*;

verus! {

/// An output of a graphics adapter: the rectangle of the desktop that it shows,
/// if it tells.
pub type OutputArea = Option<Rect>;

/// Whether an output shows a point of the desktop.
pub open spec fn shows(output: OutputArea, p: (int, int)) -> bool {
    output matches Some(area) && area.holds(p)
}

/// Whether one of the outputs of an adapter shows a point of the desktop.
pub open spec fn any_shows(outputs: Seq<OutputArea>, p: (int, int)) -> bool {
    exists|i: int| 0 <= i < outputs.len() && shows(#[trigger] outputs[i], p)
}

/// Whether this is the first output that shows a point.
pub open spec fn is_first_showing(outputs: Seq<OutputArea>, n: int, p: (int, int)) -> bool {
    &&& 0 <= n < outputs.len()
    &&& shows(outputs[n], p)
    &&& forall|i: int| 0 <= i < n ==> !shows(#[trigger] outputs[i], p)
}

/// Whether this is the first adapter with an output that shows a point.
pub open spec fn is_first_on(adapters: Seq<Vec<OutputArea>>, n: int, p: (int, int)) -> bool {
    &&& 0 <= n < adapters.len()
    &&& any_shows(adapters[n]@, p)
    &&& forall|i: int| 0 <= i < n ==> !any_shows((#[trigger] adapters[i])@, p)
}

/// Whether no adapter has an output that shows a point.
pub open spec fn on_none(adapters: Seq<Vec<OutputArea>>, p: (int, int)) -> bool {
    forall|i: int| 0 <= i < adapters.len() ==> !any_shows((#[trigger] adapters[i])@, p)
}

/// The first output that shows a point.
fn find_output(outputs: &Vec<OutputArea>, p: Point) -> (r: Option<usize>)
    ensures
        match r {
            Some(n) => is_first_showing(outputs@, n as int, p.coordinates()),
            None => !any_shows(outputs@, p.coordinates()),
        },
{
    for n in 0..outputs.len()
        invariant
            forall|i: int| 0 <= i < n ==> !shows(#[trigger] outputs@[i], p.coordinates()),
    {
        match outputs[n] {
            Some(area) => {
                if area.contains(p) {
                    return Some(n);
                }
            },
            None => {},
        }
    }
    None
}

/// Which graphics adapter to use.
#[derive(Debug, Clone, Copy, PartialEq, Eq, Structural)]
pub enum AdapterChoice {
    /// The one that the device was made for.
    DeviceAdapter,
    /// The one with this index.
    Adapter(usize),
}

/// The adapter that a window is on: the first one with an output that shows
/// the centre of the window. Where there is none, it is the first adapter.
/// Where the place of the window is not known, or there are no adapters, it is
/// the one of the device.
pub fn get_adapter_for_window(window: Option<Rect>, adapters: &Vec<Vec<OutputArea>>) -> (r:
    AdapterChoice)
    ensures
        match (window, r) {
            (None, _) => r == AdapterChoice::DeviceAdapter,
            (Some(rect), AdapterChoice::DeviceAdapter) => adapters@.len() == 0,
            (Some(rect), AdapterChoice::Adapter(n)) => {
                &&& n < adapters@.len()
                &&& {
                    ||| is_first_on(adapters@, n as int, rect.centre())
                    ||| n == 0 && on_none(adapters@, rect.centre())
                }
            },
        },
{
    let centre = match window {
        Some(rect) => rect.center(),
        None => {
            return AdapterChoice::DeviceAdapter;
        },
    };
    for n in 0..adapters.len()
        invariant
            window is Some,
            centre.coordinates() == window->Some_0.centre(),
            forall|i: int|
                0 <= i < n ==> !any_shows((#[trigger] adapters@[i])@, centre.coordinates()),
    {
        match find_output(&adapters[n], centre) {
            Some(_) => {
                return AdapterChoice::Adapter(n);
            },
            None => {},
        }
    }
    if adapters.len() > 0 {
        AdapterChoice::Adapter(0)
    } else {
        AdapterChoice::DeviceAdapter
    }
}

/// The output of an adapter that a window is recorded from: the first one that
/// shows the centre of the window. Where there is none, or the place of the
/// window is not known, it is the first output. An adapter without outputs has
/// none to record a window from whose place is known.
pub fn setup_dxgi_duplication_for_window(window: Option<Rect>, outputs: &Vec<OutputArea>) -> (r:
    Option<usize>)
    ensures
        match (window, r) {
            (None, _) => r == Some(0usize),
            (Some(rect), None) => outputs@.len() == 0,
            (Some(rect), Some(n)) => {
                &&& n < outputs@.len()
                &&& {
                    ||| is_first_showing(outputs@, n as int, rect.centre())
                    ||| n == 0 && !any_shows(outputs@, rect.centre())
                }
            },
        },
{
    let centre = match window {
        Some(rect) => rect.center(),
        None => {
            return Some(0);
        },
    };
    match find_output(outputs, centre) {
        Some(n) => Some(n),
        None => {
            if outputs.len() == 0 {
                None
            } else {
                Some(0)
            }
        },
    }
}

/// The first adapter that shows a point has an output around it, and no adapter
/// before has one.
pub proof fn first_adapter_has_the_point(
    adapters: Seq<Vec<OutputArea>>,
    n: int,
    x: int,
    y: int,
)
    requires
        is_first_on(adapters, n, (x, y)),
    ensures
        0 <= n < adapters.len(),
        exists|j: int|
            0 <= j < adapters[n]@.len() && (#[trigger] adapters[n]@[j] matches Some(area)
                && area.left <= x < area.right && area.top <= y < area.bottom),
        forall|i: int, j: int|
            #![trigger adapters[i]@[j]]
            0 <= i < n && 0 <= j < adapters[i]@.len() ==> !(adapters[i]@[j] matches Some(area)
                && area.left <= x < area.right && area.top <= y < area.bottom),
{
    let j = choose|j: int| 0 <= j < adapters[n]@.len() && shows(#[trigger] adapters[n]@[j], (x, y));
    assert(adapters[n]@[j] is Some);
    assert forall|i: int, j: int|
        #![trigger adapters[i]@[j]]
        0 <= i < n && 0 <= j < adapters[i]@.len() implies !(adapters[i]@[j] matches Some(area)
        && area.left <= x < area.right && area.top <= y < area.bottom) by {
        assert(!any_shows(adapters[i]@, (x, y)));
        assert(!shows(adapters[i]@[j], (x, y)));
    }
}

/// No adapter shows a point only where none has an output around it.
pub proof fn point_on_no_adapter_is_on_no_output(
    adapters: Seq<Vec<OutputArea>>,
    x: int,
    y: int,
    i: int,
    j: int,
)
    requires
        on_none(adapters, (x, y)),
        0 <= i < adapters.len(),
        0 <= j < adapters[i]@.len(),
    ensures
        !(adapters[i]@[j] matches Some(area) && area.left <= x < area.right && area.top <= y
            < area.bottom),
{
    assert(!any_shows(adapters[i]@, (x, y)));
    assert(!shows(adapters[i]@[j], (x, y)));
}

/// The first output that shows a point is around it, and no output before is.
pub proof fn first_output_has_the_point(outputs: Seq<OutputArea>, n: int, x: int, y: int)
    requires
        is_first_showing(outputs, n, (x, y)),
    ensures
        0 <= n < outputs.len(),
        outputs[n] matches Some(area) && area.left <= x < area.right && area.top <= y
            < area.bottom,
        forall|i: int|
            0 <= i < n ==> !(#[trigger] outputs[i] matches Some(area) && area.left <= x
                < area.right && area.top <= y < area.bottom),
{
    assert forall|i: int| 0 <= i < n implies !(#[trigger] outputs[i] matches Some(area)
        && area.left <= x < area.right && area.top <= y < area.bottom) by {
        assert(!shows(outputs[i], (x, y)));
    }
}

} // verus!
