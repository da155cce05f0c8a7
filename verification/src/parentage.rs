//! What a run does to the window manager's parent relation.
//!
//! The window manager keeps, for each window that has one, its parent. Of all
//! requests only [`Request::SetParent`] changes that relation. The relation is
//! modelled as a map from child to parent, so a window has at most one parent
//! at any time.

use crate::desktop::{lemma_reparents_only_to_located, located, requests, TopLevel};
use crate::handle::WindowHandle;
use crate::protocol::Request;
use vstd::prelude::*;

verus! {

/// The parent relation after `request` has been carried out on `parents`.
pub open spec fn after_request(
    parents: Map<WindowHandle, WindowHandle>,
    request: Request,
) -> Map<WindowHandle, WindowHandle> {
    match request {
        Request::SetParent { child, parent } => parents.insert(child, parent),
        _ => parents,
    }
}

/// The parent relation after `requests` have been carried out on `parents`, in
/// order.
pub open spec fn after_requests(
    parents: Map<WindowHandle, WindowHandle>,
    requests: Seq<Request>,
) -> Map<WindowHandle, WindowHandle>
    decreases requests.len(),
{
    if requests.len() == 0 {
        parents
    } else {
        after_request(after_requests(parents, requests.drop_last()), requests.last())
    }
}

/// Requests that give no window a parent leave the parent relation as it was.
pub proof fn lemma_lookups_change_nothing(
    parents: Map<WindowHandle, WindowHandle>,
    requests: Seq<Request>,
)
    requires
        forall|j: int| 0 <= j < requests.len() ==> !(#[trigger] requests[j] is SetParent),
    ensures
        after_requests(parents, requests) == parents,
    decreases requests.len(),
{
    if requests.len() > 0 {
        let front = requests.drop_last();
        assert forall|j: int| 0 <= j < front.len() implies !(#[trigger] front[j] is SetParent) by {
            assert(front[j] == requests[j]);
        }
        lemma_lookups_change_nothing(parents, front);
        assert(!(requests[requests.len() - 1] is SetParent));
    }
}

/// A run on a desktop changes the parent relation in one place at most: if it
/// finds a container, that container becomes the parent of the target, in
/// place of any parent that the target had. Otherwise nothing changes.
pub proof fn lemma_run_effect(
    parents: Map<WindowHandle, WindowHandle>,
    target: WindowHandle,
    shell_root: WindowHandle,
    windows: Seq<TopLevel>,
)
    ensures
        after_requests(parents, requests(target, shell_root, windows)) == match located(windows) {
            Some(container) => parents.insert(target, container),
            None => parents,
        },
{
    let run = requests(target, shell_root, windows);
    lemma_reparents_only_to_located(target, shell_root, windows);
    assert(run.len() > 0);
    let front = run.drop_last();
    assert forall|j: int| 0 <= j < front.len() implies !(#[trigger] front[j] is SetParent) by {
        assert(front[j] == run[j]);
    }
    lemma_lookups_change_nothing(parents, front);
}

/// Attaching is idempotent. When two runs for the same target, one after the
/// other, both find a container and find the same one, the parent relation
/// after the second run is what it was after the first: the target has that
/// container as its one parent.
pub proof fn lemma_attach_twice(
    parents: Map<WindowHandle, WindowHandle>,
    target: WindowHandle,
    first_root: WindowHandle,
    first: Seq<TopLevel>,
    second_root: WindowHandle,
    second: Seq<TopLevel>,
)
    requires
        located(first) is Some,
        located(second) == located(first),
    ensures
        ({
            let once = after_requests(parents, requests(target, first_root, first));
            let twice = after_requests(once, requests(target, second_root, second));
            &&& once.dom().contains(target)
            &&& once[target] == located(first)->0
            &&& twice == once
        }),
{
    let once = after_requests(parents, requests(target, first_root, first));
    let twice = after_requests(once, requests(target, second_root, second));
    lemma_run_effect(parents, target, first_root, first);
    lemma_run_effect(once, target, second_root, second);
    assert(twice =~= once);
}

} // verus!
