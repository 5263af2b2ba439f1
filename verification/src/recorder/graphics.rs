//! The choice of the graphics device for a window.
use crate::error::WindowsError;
use crate::types::{Point, Rect};
use vstd::prelude::*;

verus! {

/// An output of a graphics adapter that tells what it shows.
#[derive(Debug, Clone, Copy, PartialEq, Eq, Structural)]
pub struct MonitorOutput {
    /// The monitor.
    pub monitor: isize,
    /// The rectangle of the desktop that it shows.
    pub area: Rect,
}

/// Whether an output is the one of a window: it is the window's monitor, or it
/// shows the centre of the window.
pub open spec fn is_output_of(
    output: Option<MonitorOutput>,
    monitor: isize,
    centre: (int, int),
) -> bool {
    output matches Some(o) && (o.monitor == monitor || o.area.holds(centre))
}

/// Whether an adapter has the output of a window.
pub open spec fn has_output_of(
    outputs: Seq<Option<MonitorOutput>>,
    monitor: isize,
    centre: (int, int),
) -> bool {
    exists|i: int| 0 <= i < outputs.len() && is_output_of(#[trigger] outputs[i], monitor, centre)
}

/// The centre of a window; the corner of the desktop where its place is not
/// known.
pub open spec fn centre_or_corner(window: Option<Rect>) -> (int, int) {
    match window {
        Some(rect) => rect.centre(),
        None => (0, 0),
    }
}

/// The numbers from `from` on and below `to`, except one.
pub open spec fn all_but(from: int, to: int, but: int) -> Seq<Option<usize>>
    decreases to - from,
{
    if from >= to {
        Seq::empty()
    } else if from == but {
        all_but(from + 1, to, but)
    } else {
        seq![Some(from as usize)] + all_but(from + 1, to, but)
    }
}

/// The adapters to try one after the other: the one that is wanted, the others
/// of the first `known`, and then `None`, which leaves the choice to the
/// system. Without any adapters the choice is the system's at once.
pub open spec fn attempts(known: int, wanted: int) -> Seq<Option<usize>> {
    if known == 0 {
        seq![None]
    } else {
        seq![Some(wanted as usize)] + all_but(0, known, wanted) + seq![None]
    }
}

/// Whether this is the first adapter with the output of a window.
pub open spec fn is_first_adapter(
    adapters: Seq<Vec<Option<MonitorOutput>>>,
    n: int,
    monitor: isize,
    centre: (int, int),
) -> bool {
    &&& 0 <= n < adapters.len()
    &&& has_output_of(adapters[n]@, monitor, centre)
    &&& forall|i: int| 0 <= i < n ==> !has_output_of((#[trigger] adapters[i])@, monitor, centre)
}

/// Whether no adapter has the output of a window.
pub open spec fn is_on_none(
    adapters: Seq<Vec<Option<MonitorOutput>>>,
    monitor: isize,
    centre: (int, int),
) -> bool {
    forall|i: int|
        0 <= i < adapters.len() ==> !has_output_of((#[trigger] adapters[i])@, monitor, centre)
}

/// Computes `has_output_of`.
fn has_output(outputs: &Vec<Option<MonitorOutput>>, monitor: isize, centre: Point) -> (r: bool)
    ensures
        r == has_output_of(outputs@, monitor, centre.coordinates()),
{
    for i in 0..outputs.len()
        invariant
            forall|k: int|
                0 <= k < i ==> !is_output_of(
                    #[trigger] outputs@[k],
                    monitor,
                    centre.coordinates(),
                ),
    {
        match outputs[i] {
            Some(output) => {
                if output.monitor == monitor || output.area.contains(centre) {
                    assert(is_output_of(outputs@[i as int], monitor, centre.coordinates()));
                    return true;
                }
            },
            None => {},
        }
    }
    false
}

/// Computes `attempts`.
fn list_attempts(known: usize, wanted: usize) -> (r: Vec<Option<usize>>)
    requires
        known == 0 || wanted < known,
    ensures
        r@ == attempts(known as int, wanted as int),
{
    let mut order: Vec<Option<usize>> = Vec::new();
    if known > 0 {
        order.push(Some(wanted));
        let mut i: usize = 0;
        let ghost all = seq![Some(wanted)] + all_but(0, known as int, wanted as int);
        assert(order@ + all_but(0, known as int, wanted as int) =~= all);
        while i < known
            invariant
                i <= known,
                order@ + all_but(i as int, known as int, wanted as int) == all,
            decreases known - i,
        {
            let ghost before = order@;
            if i != wanted {
                order.push(Some(i));
            }
            proof {
                let rest = all_but(i + 1, known as int, wanted as int);
                assert(order@ + rest =~= before + all_but(i as int, known as int, wanted as int));
            }
            i = i + 1;
        }
        assert(order@ =~= all);
    }
    order.push(None);
    assert(order@ =~= attempts(known as int, wanted as int));
    order
}

/// The adapters to make the graphics device for a window with, one after the
/// other until one of them will do.
///
/// The first adapter with the output of the window goes first, and the ones
/// before it follow. Where there is none, it is the adapters in their order.
/// In the end the choice is left to the system.
pub fn create_d3d11_device_for_window(
    window_monitor: isize,
    window: Option<Rect>,
    adapters: &Vec<Vec<Option<MonitorOutput>>>,
) -> (r: Vec<Option<usize>>)
    ensures
        ({
            let centre = centre_or_corner(window);
            ||| is_on_none(adapters@, window_monitor, centre) && r@ == attempts(
                adapters@.len() as int,
                0,
            )
            ||| exists|n: int| #[trigger]
                is_first_adapter(adapters@, n, window_monitor, centre) && r@ == attempts(n + 1, n)
        }),
{
    let centre = match window {
        Some(rect) => rect.center(),
        None => Point { x: 0, y: 0 },
    };
    for n in 0..adapters.len()
        invariant
            centre.coordinates() == centre_or_corner(window),
            forall|i: int|
                0 <= i < n ==> !has_output_of(
                    (#[trigger] adapters@[i])@,
                    window_monitor,
                    centre.coordinates(),
                ),
    {
        if has_output(&adapters[n], window_monitor, centre) {
            assert(is_first_adapter(
                adapters@,
                n as int,
                window_monitor,
                centre.coordinates(),
            ));
            return list_attempts(n + 1, n);
        }
    }
    list_attempts(adapters.len(), 0)
}

/// Whether an attempt may fail.
pub open spec fn may_fail<D, F: Fn(Option<usize>) -> Result<D, WindowsError>>(
    create: F,
    attempt: Option<usize>,
) -> bool {
    exists|error: WindowsError| #[trigger] create.ensures((attempt,), Err::<D, WindowsError>(error))
}

/// Whether all of the first `n` attempts may fail.
pub open spec fn may_fail_before<D, F: Fn(Option<usize>) -> Result<D, WindowsError>>(
    create: F,
    attempts: Seq<Option<usize>>,
    n: int,
) -> bool {
    forall|k: int| 0 <= k < n ==> may_fail::<D, F>(create, #[trigger] attempts[k])
}

/// Makes the graphics device by the first attempt that goes well. Where none
/// does, the error of the last one is reported.
///
/// `create` makes an attempt. It is called only where all attempts before have
/// failed.
pub fn create_on_first<D, F: Fn(Option<usize>) -> Result<D, WindowsError>>(
    attempts: &Vec<Option<usize>>,
    create: F,
) -> (r: Result<D, WindowsError>)
    requires
        attempts@.len() > 0,
        forall|i: int|
            0 <= i < attempts@.len() && may_fail_before::<D, F>(create, attempts@, i)
                ==> create.requires((#[trigger] attempts@[i],)),
    ensures
        match r {
            Ok(device) => exists|n: int|
                {
                    &&& 0 <= n < attempts@.len()
                    &&& may_fail_before::<D, F>(create, attempts@, n)
                    &&& create.ensures((#[trigger] attempts@[n],), Ok::<D, WindowsError>(device))
                },
            Err(error) => {
                &&& may_fail_before::<D, F>(create, attempts@, attempts@.len() - 1)
                &&& create.ensures((attempts@.last(),), Err::<D, WindowsError>(error))
            },
        },
{
    let last: usize = attempts.len() - 1;
    for i in 0..last
        invariant
            last == attempts@.len() - 1,
            may_fail_before::<D, F>(create, attempts@, i as int),
            forall|i: int|
                0 <= i < attempts@.len() && may_fail_before::<D, F>(create, attempts@, i)
                    ==> create.requires((#[trigger] attempts@[i],)),
    {
        match create(attempts[i]) {
            Ok(device) => {
                return Ok(device);
            },
            Err(_) => {},
        }
    }
    create(attempts[last])
}

/// The numbers from `from` on and below `to`, except one, hold all of them.
proof fn all_but_holds_all(from: int, to: int, but: int, n: int)
    requires
        0 <= from <= n < to,
        to <= usize::MAX,
        n != but,
    ensures
        all_but(from, to, but).contains(Some(n as usize)),
    decreases to - from,
{
    let all = all_but(from, to, but);
    let rest = all_but(from + 1, to, but);
    if from == n {
        assert(all[0] == Some(n as usize));
    } else {
        all_but_holds_all(from + 1, to, but, n);
        let k = choose|k: int| 0 <= k < rest.len() && rest[k] == Some(n as usize);
        if from == but {
            assert(all[k] == Some(n as usize));
        } else {
            assert(all[k + 1] == Some(n as usize));
        }
    }
}

/// Every known adapter is tried before the choice is left to the system, the
/// one that is wanted first.
pub proof fn every_adapter_is_tried(known: int, wanted: int, n: int)
    requires
        0 <= wanted < known <= usize::MAX,
        0 <= n < known,
    ensures
        attempts(known, wanted)[0] == Some(wanted as usize),
        attempts(known, wanted).drop_last().contains(Some(n as usize)),
        attempts(known, wanted).last() is None,
{
    let all = attempts(known, wanted);
    let others = all_but(0, known, wanted);
    assert(all.drop_last() =~= seq![Some(wanted as usize)] + others);
    if n == wanted {
        assert(all.drop_last()[0] == Some(n as usize));
    } else {
        all_but_holds_all(0, known, wanted, n);
        let k = choose|k: int| 0 <= k < others.len() && others[k] == Some(n as usize);
        assert(all.drop_last()[k + 1] == Some(n as usize));
    }
}

/// The numbers except one, by their places.
proof fn all_but_by_place(from: int, to: int, but: int, i: int)
    requires
        0 <= from <= but < to <= usize::MAX,
        0 <= i < to - from - 1,
    ensures
        all_but(from, to, but).len() == to - from - 1,
        all_but(from, to, but)[i] == Some(
            if from + i < but {
                (from + i) as usize
            } else {
                (from + i + 1) as usize
            },
        ),
    decreases to - from,
{
    let all = all_but(from, to, but);
    let rest = all_but(from + 1, to, but);
    if from == but {
        all_from(from + 1, to, but, i);
    } else {
        all_but_is_short_by_one(from + 1, to, but);
        if i > 0 {
            all_but_by_place(from + 1, to, but, i - 1);
            assert(all[i] == rest[i - 1]);
        }
    }
}

/// How many numbers are left where one of them is left out.
proof fn all_but_is_short_by_one(from: int, to: int, but: int)
    requires
        from <= but < to,
    ensures
        all_but(from, to, but).len() == to - from - 1,
    decreases to - from,
{
    if from == but {
        all_are_there(from + 1, to, but);
    } else {
        all_but_is_short_by_one(from + 1, to, but);
    }
}

/// How many numbers there are where the one to be left out is not among them.
proof fn all_are_there(from: int, to: int, but: int)
    requires
        but < from <= to,
    ensures
        all_but(from, to, but).len() == to - from,
    decreases to - from,
{
    if from < to {
        all_are_there(from + 1, to, but);
    }
}

/// The numbers where the one to be left out is not among them, by their places.
proof fn all_from(from: int, to: int, but: int, i: int)
    requires
        0 <= but < from <= to <= usize::MAX,
        0 <= i < to - from,
    ensures
        all_but(from, to, but).len() == to - from,
        all_but(from, to, but)[i] == Some((from + i) as usize),
    decreases to - from,
{
    all_are_there(from, to, but);
    if i > 0 {
        all_from(from + 1, to, but, i - 1);
        assert(all_but(from, to, but)[i] == all_but(from + 1, to, but)[i - 1]);
    }
}

/// The adapter that is wanted is tried first, the others follow in their order,
/// each of them once, and the system chooses last.
pub proof fn adapters_are_tried_in_order(known: int, wanted: int, i: int)
    requires
        0 <= wanted < known <= usize::MAX,
        1 <= i < known,
    ensures
        attempts(known, wanted).len() == known + 1,
        attempts(known, wanted)[0] == Some(wanted as usize),
        i <= wanted ==> attempts(known, wanted)[i] == Some((i - 1) as usize),
        i > wanted ==> attempts(known, wanted)[i] == Some(i as usize),
        attempts(known, wanted)[known] is None,
{
    all_but_by_place(0, known, wanted, i - 1);
    let all = attempts(known, wanted);
    assert(all[i] == all_but(0, known, wanted)[i - 1]);
}

/// The adapter of a window is the first one with an output that is the monitor of
/// the window, or has the centre of the window on it.
pub proof fn first_adapter_has_the_window(
    adapters: Seq<Vec<Option<MonitorOutput>>>,
    n: int,
    monitor: isize,
    x: int,
    y: int,
)
    requires
        is_first_adapter(adapters, n, monitor, (x, y)),
    ensures
        exists|j: int|
            0 <= j < adapters[n]@.len() && (#[trigger] adapters[n]@[j] matches Some(o) && (o.monitor
                == monitor || (o.area.left <= x < o.area.right && o.area.top <= y
                < o.area.bottom))),
        forall|i: int, j: int|
            #![trigger adapters[i]@[j]]
            0 <= i < n && 0 <= j < adapters[i]@.len() ==> !(adapters[i]@[j] matches Some(o) && (
            o.monitor == monitor || (o.area.left <= x < o.area.right && o.area.top <= y
                < o.area.bottom))),
{
    let j = choose|j: int|
        0 <= j < adapters[n]@.len() && is_output_of(
            #[trigger] adapters[n]@[j],
            monitor,
            (x, y),
        );
    assert(adapters[n]@[j] is Some);
    assert forall|i: int, j: int|
        #![trigger adapters[i]@[j]]
        0 <= i < n && 0 <= j < adapters[i]@.len() implies !(adapters[i]@[j] matches Some(o) && (
    o.monitor == monitor || (o.area.left <= x < o.area.right && o.area.top <= y
        < o.area.bottom))) by {
        assert(!has_output_of(adapters[i]@, monitor, (x, y)));
        assert(!is_output_of(adapters[i]@[j], monitor, (x, y)));
    }
}

/// A window is on no adapter only where none has an output for it.
pub proof fn window_on_no_adapter_is_on_no_output(
    adapters: Seq<Vec<Option<MonitorOutput>>>,
    monitor: isize,
    x: int,
    y: int,
    i: int,
    j: int,
)
    requires
        is_on_none(adapters, monitor, (x, y)),
        0 <= i < adapters.len(),
        0 <= j < adapters[i]@.len(),
    ensures
        !(adapters[i]@[j] matches Some(o) && (o.monitor == monitor || (o.area.left <= x
            < o.area.right && o.area.top <= y < o.area.bottom))),
{
    assert(!has_output_of(adapters[i]@, monitor, (x, y)));
    assert(!is_output_of(adapters[i]@[j], monitor, (x, y)));
}

/// The window goes by its centre where its place is known, and by the corner of
/// the desktop otherwise.
pub proof fn window_goes_by_its_centre(rect: Rect)
    ensures
        -1 <= rect.left + rect.right - 2 * centre_or_corner(Some(rect)).0 <= 1,
        -1 <= rect.top + rect.bottom - 2 * centre_or_corner(Some(rect)).1 <= 1,
        centre_or_corner(None) == (0int, 0int),
{
}

} // verus!
