//! The procedure run against a recorded desktop.
//!
//! A [`Desktop`] holds what the window manager would answer: the shell root and,
//! for each top-level window in the window manager's order, the result of the
//! two lookups that the procedure may make at it. [`attach_to_desktop`] runs the
//! [`Procedure`] against these answers and returns the requests it made.
//!
//! The run is decided by the first window that has both an icon-view child and
//! a compositing host after it. Windows before it are passed over, windows
//! after it are never looked at.

use crate::handle::WindowHandle;
use crate::procedure::{Phase, Procedure, State};
use crate::protocol::{Reply, Request, WindowClass, NOTIFY_TIMEOUT_MS, SPAWN_HOST_MESSAGE};
use vstd::prelude::*;

verus! {

/// What the window manager answers about one top-level window.
#[derive(Clone, Copy, Debug, PartialEq, Eq, Hash, Structural)]
pub struct TopLevel {
    /// The window itself.
    pub window: WindowHandle,
    /// Its child of the icon-view class; null if it has none.
    pub icon_view: WindowHandle,
    /// The compositing host that follows it among the top-level windows; null
    /// if none does.
    pub host: WindowHandle,
}

impl TopLevel {
    /// Whether the window has an icon-view child.
    pub open spec fn hosts_icons(self) -> bool {
        !self.icon_view.absent()
    }

    /// Whether the window leads to a container: it has an icon-view child and
    /// a compositing host follows it.
    pub open spec fn leads_to_container(self) -> bool {
        self.hosts_icons() && !self.host.absent()
    }
}

/// The answers of a window manager, recorded.
#[derive(Debug)]
pub struct Desktop {
    /// The shell root; null if the shell is not running.
    pub shell_root: WindowHandle,
    /// The top-level windows, in the order in which the window manager
    /// enumerates them.
    pub windows: Vec<TopLevel>,
}

/// Whether the walk over `windows` ends at index `k`: `k` is the first window
/// that leads to a container, or the number of windows if none does.
pub open spec fn walk_ends_at(windows: Seq<TopLevel>, k: int) -> bool {
    &&& 0 <= k <= windows.len()
    &&& forall|i: int| 0 <= i < k ==> !(#[trigger] windows[i]).leads_to_container()
    &&& k < windows.len() ==> windows[k].leads_to_container()
}

/// The index at which the walk over `windows` ends.
pub open spec fn walk_end(windows: Seq<TopLevel>) -> int {
    choose|k: int| walk_ends_at(windows, k)
}

/// The number of windows that the walk takes from the enumeration: all up to
/// and including the first that leads to a container.
pub open spec fn inspected(windows: Seq<TopLevel>) -> nat {
    let k = walk_end(windows);
    if k < windows.len() {
        (k + 1) as nat
    } else {
        windows.len()
    }
}

/// The container that the procedure finds on `windows`: the compositing host
/// that follows the first window that leads to a container, if any window
/// does.
pub open spec fn located(windows: Seq<TopLevel>) -> Option<WindowHandle> {
    let k = walk_end(windows);
    if k < windows.len() {
        Some(windows[k].host)
    } else {
        None
    }
}

/// The two requests with which every run begins.
pub open spec fn opening(shell_root: WindowHandle) -> Seq<Request> {
    seq![
        Request::FindWindow { class: WindowClass::ShellRoot },
        Request::SendMessage {
            to: shell_root,
            message: SPAWN_HOST_MESSAGE,
            timeout_ms: NOTIFY_TIMEOUT_MS,
        },
    ]
}

/// The requests made at one window of the enumeration: it is taken, asked for
/// an icon-view child and, if it has one, the compositing host after it is
/// looked up.
pub open spec fn inspection(window: TopLevel) -> Seq<Request> {
    let take = Request::NextWindow;
    let probe = Request::FindChild { parent: window.window, class: WindowClass::IconView };
    let lookup = Request::FindSibling {
        after: window.window,
        class: WindowClass::CompositingHost,
    };
    if window.hosts_icons() {
        seq![take, probe, lookup]
    } else {
        seq![take, probe]
    }
}

/// The requests made at the first `n` windows of the enumeration, in order.
pub open spec fn inspections(windows: Seq<TopLevel>, n: nat) -> Seq<Request>
    recommends
        n <= windows.len(),
    decreases n,
{
    if n == 0 {
        Seq::empty()
    } else {
        inspections(windows, (n - 1) as nat) + inspection(windows[n - 1])
    }
}

/// The request with which a run ends, after the walk: the one that makes the
/// container the parent of `target`, or, where no window leads to a container,
/// the request for a next window that is answered by the end of the
/// enumeration.
pub open spec fn closing(target: WindowHandle, windows: Seq<TopLevel>) -> Request {
    let k = walk_end(windows);
    if k < windows.len() {
        Request::SetParent { child: target, parent: windows[k].host }
    } else {
        Request::NextWindow
    }
}

/// The requests that the procedure for `target` makes on a desktop with the
/// given shell root and top-level windows, in order.
pub open spec fn requests(
    target: WindowHandle,
    shell_root: WindowHandle,
    windows: Seq<TopLevel>,
) -> Seq<Request> {
    (opening(shell_root) + inspections(windows, inspected(windows))).push(
        closing(target, windows),
    )
}

proof fn walk_from(windows: Seq<TopLevel>, from: int) -> (k: int)
    requires
        0 <= from <= windows.len(),
        forall|i: int| 0 <= i < from ==> !(#[trigger] windows[i]).leads_to_container(),
    ensures
        walk_ends_at(windows, k),
    decreases windows.len() - from,
{
    if from < windows.len() && !windows[from].leads_to_container() {
        walk_from(windows, from + 1)
    } else {
        from
    }
}

/// Every walk ends somewhere: [`walk_end`] is the first window that leads to a
/// container, or the number of windows.
pub proof fn lemma_walk_end(windows: Seq<TopLevel>)
    ensures
        walk_ends_at(windows, walk_end(windows)),
{
    let k = walk_from(windows, 0);
    assert(walk_ends_at(windows, k));
}

/// A walk ends in one place only.
pub proof fn lemma_walk_end_unique(windows: Seq<TopLevel>, k: int)
    requires
        walk_ends_at(windows, k),
    ensures
        walk_end(windows) == k,
{
    lemma_walk_end(windows);
    let e = walk_end(windows);
    if e < k {
        assert(windows[e].leads_to_container());
    } else if k < e {
        assert(windows[k].leads_to_container());
    }
}

/// The first window that leads to a container decides the run, whether or not
/// another does so further down. The windows before it are passed over, also
/// those that have an icon-view child and no host after them. No window after
/// it is taken from the enumeration. The run ends with the lookup that finds
/// the host after it and the request that makes that host the parent of the
/// target.
pub proof fn lemma_first_container_is_chosen(
    target: WindowHandle,
    shell_root: WindowHandle,
    windows: Seq<TopLevel>,
    k: int,
)
    requires
        0 <= k < windows.len(),
        windows[k].leads_to_container(),
        forall|i: int| 0 <= i < k ==> !(#[trigger] windows[i]).leads_to_container(),
    ensures
        located(windows) == Some(windows[k].host),
        inspected(windows) == k + 1,
        requests(target, shell_root, windows) == (opening(shell_root) + inspections(
            windows,
            (k + 1) as nat,
        )).push(Request::SetParent { child: target, parent: windows[k].host }),
        (inspections(windows, (k + 1) as nat).last() == Request::FindSibling {
            after: windows[k].window,
            class: WindowClass::CompositingHost,
        }),
{
    lemma_walk_end_unique(windows, k);
}

/// On a desktop where exactly one window has both an icon-view child and a
/// compositing host after it, the run takes that host as the container and
/// goes no further: it takes the windows up to that one from the enumeration
/// and no more, and its last two requests look up the host and make it the
/// parent of the target.
pub proof fn lemma_sole_icon_host_is_chosen(
    target: WindowHandle,
    shell_root: WindowHandle,
    windows: Seq<TopLevel>,
    k: int,
)
    requires
        0 <= k < windows.len(),
        windows[k].leads_to_container(),
        forall|i: int|
            0 <= i < windows.len() && i != k ==> !(#[trigger] windows[i]).leads_to_container(),
    ensures
        located(windows) == Some(windows[k].host),
        inspected(windows) == k + 1,
        requests(target, shell_root, windows) == (opening(shell_root) + inspections(
            windows,
            (k + 1) as nat,
        )).push(Request::SetParent { child: target, parent: windows[k].host }),
        (inspections(windows, (k + 1) as nat).last() == Request::FindSibling {
            after: windows[k].window,
            class: WindowClass::CompositingHost,
        }),
{
    lemma_first_container_is_chosen(target, shell_root, windows, k);
}

/// On a desktop where no window leads to a container, the run takes every
/// window from the enumeration, finds no container and asks for no window to
/// be given a parent.
pub proof fn lemma_no_container_no_reparent(
    target: WindowHandle,
    shell_root: WindowHandle,
    windows: Seq<TopLevel>,
)
    requires
        forall|i: int| 0 <= i < windows.len() ==> !(#[trigger] windows[i]).leads_to_container(),
    ensures
        located(windows) is None,
        inspected(windows) == windows.len(),
        requests(target, shell_root, windows) == (opening(shell_root) + inspections(
            windows,
            windows.len(),
        )).push(Request::NextWindow),
        forall|j: int|
            0 <= j < requests(target, shell_root, windows).len() ==> !(#[trigger] requests(
                target,
                shell_root,
                windows,
            )[j] is SetParent),
{
    lemma_walk_end_unique(windows, windows.len() as int);
    lemma_inspections(windows, windows.len());
}

/// On a desktop where no window has an icon-view child, the run takes every
/// window from the enumeration, looks up no compositing host, finds no
/// container and asks for no window to be given a parent.
pub proof fn lemma_no_icon_host_no_reparent(
    target: WindowHandle,
    shell_root: WindowHandle,
    windows: Seq<TopLevel>,
)
    requires
        forall|i: int| 0 <= i < windows.len() ==> !(#[trigger] windows[i]).hosts_icons(),
    ensures
        located(windows) is None,
        inspected(windows) == windows.len(),
        requests(target, shell_root, windows) == (opening(shell_root) + inspections(
            windows,
            windows.len(),
        )).push(Request::NextWindow),
        forall|j: int|
            0 <= j < requests(target, shell_root, windows).len() ==> {
                &&& !(#[trigger] requests(target, shell_root, windows)[j] is SetParent)
                &&& !(requests(target, shell_root, windows)[j] is FindSibling)
            },
{
    lemma_no_container_no_reparent(target, shell_root, windows);
    lemma_no_lookups_without_icons(windows, windows.len());
}

/// Taking `n` windows from the enumeration makes two or three requests for
/// each, and none of them gives a window a parent.
pub proof fn lemma_inspections(windows: Seq<TopLevel>, n: nat)
    ensures
        2 * n <= inspections(windows, n).len() <= 3 * n,
        forall|j: int|
            0 <= j < inspections(windows, n).len() ==> !(#[trigger] inspections(
                windows,
                n,
            )[j] is SetParent),
    decreases n,
{
    if n > 0 {
        lemma_inspections(windows, (n - 1) as nat);
    }
}

/// Where none of the first `n` windows has an icon-view child, taking them
/// makes two requests for each, and none looks up a compositing host.
proof fn lemma_no_lookups_without_icons(windows: Seq<TopLevel>, n: nat)
    requires
        n <= windows.len(),
        forall|i: int| 0 <= i < n ==> !(#[trigger] windows[i]).hosts_icons(),
    ensures
        inspections(windows, n).len() == 2 * n,
        forall|j: int|
            0 <= j < 2 * n ==> !(#[trigger] inspections(windows, n)[j] is FindSibling),
    decreases n,
{
    if n > 0 {
        lemma_no_lookups_without_icons(windows, (n - 1) as nat);
        assert(!windows[n - 1].hosts_icons());
    }
}

/// A run asks for the target to be given a parent at most once, as its last
/// request, and only if it found a container. The parent is that container,
/// which is never the null handle, and the child is the target.
pub proof fn lemma_reparents_only_to_located(
    target: WindowHandle,
    shell_root: WindowHandle,
    windows: Seq<TopLevel>,
)
    ensures
        requests(target, shell_root, windows).len() >= 3,
        (match located(windows) {
            Some(container) => {
                &&& !container.absent()
                &&& requests(target, shell_root, windows).last() == Request::SetParent {
                    child: target,
                    parent: container,
                }
            },
            None => !(requests(target, shell_root, windows).last() is SetParent),
        }),
        forall|j: int|
            0 <= j < requests(target, shell_root, windows).len() - 1 ==> !(#[trigger] requests(
                target,
                shell_root,
                windows,
            )[j] is SetParent),
{
    lemma_walk_end(windows);
    lemma_inspections(windows, inspected(windows));
}

/// How the requests made so far relate to the state of a run that has taken
/// `taken` windows from the enumeration.
spec fn on_course(
    target: WindowHandle,
    shell_root: WindowHandle,
    windows: Seq<TopLevel>,
    state: State,
    taken: int,
    performed: Seq<Request>,
) -> bool {
    &&& state.target == target
    &&& 0 <= taken <= windows.len()
    &&& match state.phase {
        Phase::ResolvingShell => taken == 0 && performed == Seq::<Request>::empty(),
        Phase::Notifying { root } => {
            &&& taken == 0
            &&& root == shell_root
            &&& performed == seq![Request::FindWindow { class: WindowClass::ShellRoot }]
        },
        Phase::Enumerating => {
            &&& forall|i: int| 0 <= i < taken ==> !(#[trigger] windows[i]).leads_to_container()
            &&& performed == opening(shell_root) + inspections(windows, taken as nat)
        },
        Phase::ProbingIconView { window } => {
            &&& taken >= 1
            &&& forall|i: int|
                0 <= i < taken - 1 ==> !(#[trigger] windows[i]).leads_to_container()
            &&& window == windows[taken - 1].window
            &&& performed == (opening(shell_root) + inspections(
                windows,
                (taken - 1) as nat,
            )).push(Request::NextWindow)
        },
        Phase::ProbingHost { window } => {
            &&& taken >= 1
            &&& forall|i: int|
                0 <= i < taken - 1 ==> !(#[trigger] windows[i]).leads_to_container()
            &&& windows[taken - 1].hosts_icons()
            &&& window == windows[taken - 1].window
            &&& performed == (opening(shell_root) + inspections(
                windows,
                (taken - 1) as nat,
            )).push(Request::NextWindow).push(
                Request::FindChild {
                    parent: windows[taken - 1].window,
                    class: WindowClass::IconView,
                },
            )
        },
        Phase::Reparenting { container } => {
            &&& taken >= 1
            &&& walk_ends_at(windows, taken - 1)
            &&& container == windows[taken - 1].host
            &&& performed == opening(shell_root) + inspections(windows, taken as nat)
        },
        Phase::Attached { .. } => performed == requests(target, shell_root, windows),
        Phase::NotFound => performed == requests(target, shell_root, windows),
    }
}

/// The steps that a run in `phase` may still take, at most, with `remaining`
/// windows left in the enumeration: three for each window, and those that the
/// phase itself still asks for.
spec fn steps_left(phase: Phase, remaining: int) -> int {
    3 * remaining + match phase {
        Phase::ResolvingShell => 5int,
        Phase::Notifying { .. } => 4,
        Phase::ProbingIconView { .. } => 4,
        Phase::ProbingHost { .. } => 3,
        Phase::Enumerating => 2,
        Phase::Reparenting { .. } => 1,
        Phase::Attached { .. } => 0,
        Phase::NotFound => 0,
    }
}

/// Runs the attachment procedure for `target` against `desktop` and returns the
/// requests that it made, in order.
///
/// `target` must be the handle of an existing window. The run looks up the
/// shell root and notifies it, whether it was found or not. It then takes
/// windows from the enumeration, asks each for an icon-view child and, where
/// there is one, looks up the compositing host after that window. At the first
/// window for which a host is found it stops, looks at no window after that
/// one, and its last request makes the host the parent of `target`. If the
/// enumeration runs out first, the run ends without such a request.
pub fn attach_to_desktop(target: WindowHandle, desktop: &Desktop) -> (performed: Vec<Request>)
    requires
        !target.absent(),
    ensures
        performed@ == requests(target, desktop.shell_root, desktop.windows@),
{
    let mut procedure = Procedure::begin(target);
    let mut performed: Vec<Request> = Vec::new();
    let mut taken: usize = 0;
    loop
        invariant
            on_course(
                target,
                desktop.shell_root,
                desktop.windows@,
                procedure@,
                taken as int,
                performed@,
            ),
        decreases steps_left(procedure@.phase, desktop.windows@.len() - taken),
    {
        let request = match procedure.pending() {
            Some(request) => request,
            None => {
                return performed;
            },
        };
        let ghost before = procedure@;
        let ghost windows = desktop.windows@;
        let reply = match request {
            Request::FindWindow { .. } => Reply::Found(desktop.shell_root),
            Request::SendMessage { .. } => Reply::Performed,
            Request::NextWindow => {
                if taken < desktop.windows.len() {
                    taken = taken + 1;
                    Reply::Window(desktop.windows[taken - 1].window)
                } else {
                    proof {
                        lemma_walk_end_unique(windows, taken as int);
                    }
                    Reply::NoMoreWindows
                }
            },
            Request::FindChild { .. } => Reply::Found(desktop.windows[taken - 1].icon_view),
            Request::FindSibling { .. } => Reply::Found(desktop.windows[taken - 1].host),
            Request::SetParent { .. } => {
                proof {
                    lemma_walk_end_unique(windows, taken - 1);
                }
                Reply::Performed
            },
        };
        performed.push(request);
        let _ = procedure.step(reply);
        proof {
            let head = opening(desktop.shell_root);
            let total = requests(target, desktop.shell_root, windows);
            let now = performed@;
            match before.phase {
                Phase::ResolvingShell => {
                    assert(now =~= seq![request]);
                },
                Phase::Notifying { .. } => {
                    assert(now =~= head + inspections(windows, 0));
                },
                Phase::Enumerating => {
                    if procedure@.phase is NotFound {
                        assert(now =~= total);
                    } else {
                        assert(now =~= (head + inspections(windows, (taken - 1) as nat)).push(
                            Request::NextWindow,
                        ));
                    }
                },
                Phase::ProbingIconView { .. } => {
                    if procedure@.phase is Enumerating {
                        assert(now =~= head + inspections(windows, taken as nat));
                    }
                },
                Phase::ProbingHost { .. } => {
                    assert(now =~= head + inspections(windows, taken as nat));
                },
                Phase::Reparenting { .. } => {
                    assert(now =~= total);
                },
                Phase::Attached { .. } => {},
                Phase::NotFound => {},
            }
        }
    }
}

} // verus!
