//! What a whole session comes to, given what each open attempt returns.
//!
//! [`settled`] follows a session from one of its steps to its end, taking
//! each next step from [`resumed`]: from the function in which
//! [`Connector::resume`](crate::connector::Connector::resume) states what it
//! returns. The laws below are proved of it.

use vstd::prelude::*;
use crate::connector::{
    attempt_at, request_for, resumed, started, ConnectError, OpenRequestView, ProgressView,
};
use crate::descriptor::PortDescriptorView;
use crate::matcher::candidate_set;

verus! {

/// How a session ended, and the requests to open a port that it made on the
/// way, in the order in which it made them.
pub struct Settlement<C, E> {
    pub result: Result<C, ConnectError<E>>,
    pub attempted: Seq<OpenRequestView>,
}

/// The requests with which `candidates` are opened, in their order.
pub open spec fn requests_for(candidates: Seq<PortDescriptorView>) -> Seq<OpenRequestView> {
    candidates.map_values(|port: PortDescriptorView| request_for(port))
}

/// The open attempts that a session at `progress` can still make.
pub open spec fn attempts_left<C, E>(progress: ProgressView<C, E>) -> nat {
    match progress {
        ProgressView::Attempt(connector, _) => if connector.cursor < connector.candidates.len() {
            (connector.candidates.len() - connector.cursor) as nat
        } else {
            0
        },
        _ => 0,
    }
}

/// The end of the session that stands at `progress`, where the attempt to
/// open the candidate at index `i` returns `opens[i]`: a port, or nothing
/// where the port could not be opened.
///
/// A step that waits for a candidate past the last one, which no session
/// reaches, counts as the end without a device.
pub open spec fn settled<C, E>(progress: ProgressView<C, E>, opens: Seq<Option<C>>) -> Settlement<
    C,
    E,
>
    decreases attempts_left(progress),
{
    match progress {
        ProgressView::Attempt(connector, request) => {
            if connector.cursor < connector.candidates.len() {
                let rest = settled(
                    resumed::<C, E>(connector, opens[connector.cursor as int]),
                    opens,
                );
                Settlement { result: rest.result, attempted: seq![request] + rest.attempted }
            } else {
                Settlement { result: Err(ConnectError::NoDeviceFound), attempted: Seq::empty() }
            }
        },
        ProgressView::Connected(channel) => Settlement {
            result: Ok(channel),
            attempted: Seq::empty(),
        },
        ProgressView::Failed(error) => Settlement { result: Err(error), attempted: Seq::empty() },
    }
}

/// From the candidate at index `cursor` on, where the candidate at index
/// `first` opens and none between the two does: the session ends with the
/// port of `first`, having tried the candidates from `cursor` to `first` and
/// no other.
proof fn lemma_settled_at_first_opening<C, E>(
    candidates: Seq<PortDescriptorView>,
    opens: Seq<Option<C>>,
    cursor: nat,
    first: nat,
)
    requires
        cursor <= first < candidates.len(),
        first < opens.len(),
        opens[first as int] is Some,
        forall|i: int| cursor <= i < first ==> opens[i] is None,
    ensures
        settled(attempt_at::<C, E>(candidates, cursor), opens) == (Settlement::<C, E> {
            result: Ok(opens[first as int]->0),
            attempted: requests_for(candidates.subrange(cursor as int, first as int + 1)),
        }),
    decreases first - cursor,
{
    reveal_with_fuel(settled, 2);
    let tried = requests_for(candidates.subrange(cursor as int, first as int + 1));
    if cursor < first {
        lemma_settled_at_first_opening::<C, E>(candidates, opens, cursor + 1, first);
        let later = requests_for(candidates.subrange(cursor as int + 1, first as int + 1));
        assert(seq![request_for(candidates[cursor as int])] + later =~= tried);
    } else {
        assert(seq![request_for(candidates[cursor as int])] + Seq::empty() =~= tried);
    }
}

/// From the candidate at index `cursor` on, where no candidate opens: the
/// session ends without a device, having tried every candidate from `cursor`
/// on.
proof fn lemma_settled_without_opening<C, E>(
    candidates: Seq<PortDescriptorView>,
    opens: Seq<Option<C>>,
    cursor: nat,
)
    requires
        cursor <= candidates.len() <= opens.len(),
        forall|i: int| cursor <= i < candidates.len() ==> opens[i] is None,
    ensures
        settled(attempt_at::<C, E>(candidates, cursor), opens) == (Settlement::<C, E> {
            result: Err(ConnectError::NoDeviceFound),
            attempted: requests_for(candidates.subrange(cursor as int, candidates.len() as int)),
        }),
    decreases candidates.len() - cursor,
{
    let tried = requests_for(candidates.subrange(cursor as int, candidates.len() as int));
    if cursor < candidates.len() {
        lemma_settled_without_opening::<C, E>(candidates, opens, cursor + 1);
        let later = requests_for(candidates.subrange(cursor as int + 1, candidates.len() as int));
        assert(seq![request_for(candidates[cursor as int])] + later =~= tried);
    } else {
        assert(tried =~= Seq::empty());
    }
}

/// The first candidate that opens is the one the session ends with.
///
/// Where the candidate at index `first` of the candidates of `ports` opens
/// and every candidate before it fails to open, the session ends with the
/// port that this attempt returned. It has then tried the candidates up to
/// `first`, each once, in their order and with the fixed baud rate and
/// timeout, and no candidate after `first`, whatever such an attempt would
/// have returned.
pub proof fn law_first_opening_wins<C, E>(
    ports: Seq<PortDescriptorView>,
    opens: Seq<Option<C>>,
    first: nat,
)
    requires
        first < candidate_set(ports).len(),
        opens.len() == candidate_set(ports).len(),
        opens[first as int] is Some,
        forall|i: int| 0 <= i < first ==> opens[i] is None,
    ensures
        settled(started::<C, E>(Ok(ports)), opens) == (Settlement::<C, E> {
            result: Ok(opens[first as int]->0),
            attempted: requests_for(candidate_set(ports).take(first as int + 1)),
        }),
        settled(started::<C, E>(Ok(ports)), opens).attempted.len() == first + 1,
{
    lemma_settled_at_first_opening::<C, E>(candidate_set(ports), opens, 0, first);
}

/// Without a candidate that opens, no device is found.
///
/// Where no listed port is a candidate, or every candidate fails to open, the
/// session ends with [`ConnectError::NoDeviceFound`], having tried every
/// candidate once, in their order.
pub proof fn law_no_opening_no_device<C, E>(ports: Seq<PortDescriptorView>, opens: Seq<Option<C>>)
    requires
        opens.len() == candidate_set(ports).len(),
        forall|i: int| 0 <= i < opens.len() ==> opens[i] is None,
    ensures
        settled(started::<C, E>(Ok(ports)), opens) == (Settlement::<C, E> {
            result: Err(ConnectError::NoDeviceFound),
            attempted: requests_for(candidate_set(ports)),
        }),
{
    let candidates = candidate_set(ports);
    lemma_settled_without_opening::<C, E>(candidates, opens, 0);
    assert(candidates.subrange(0, candidates.len() as int) =~= candidates);
}

/// A listing that failed is not taken for a missing device.
///
/// Where listing the ports failed with `cause`, the session ends with
/// [`ConnectError::EnumerationFailed`] and `cause`, which is another value
/// than [`ConnectError::NoDeviceFound`], and no port is tried, whatever an
/// attempt would have returned.
pub proof fn law_failed_listing_ends_the_session<C, E>(cause: E, opens: Seq<Option<C>>)
    ensures
        settled(started::<C, E>(Err(cause)), opens) == (Settlement::<C, E> {
            result: Err(ConnectError::EnumerationFailed(cause)),
            attempted: Seq::empty(),
        }),
        ConnectError::EnumerationFailed(cause) != ConnectError::<E>::NoDeviceFound,
{
}

/// Two sessions on one list of ports do not depend on each other.
///
/// Where the ports hold exactly one candidate, and it opens in a first
/// session with the port `one` and in a second session with the port
/// `other`, the first session ends with `one` and the second with `other`,
/// each after the same single attempt: nothing of the first session is left
/// to the second.
pub proof fn law_sessions_are_independent<C, E>(ports: Seq<PortDescriptorView>, one: C, other: C)
    requires
        candidate_set(ports).len() == 1,
    ensures
        settled(started::<C, E>(Ok(ports)), seq![Some(one)]) == (Settlement::<C, E> {
            result: Ok(one),
            attempted: requests_for(candidate_set(ports)),
        }),
        settled(started::<C, E>(Ok(ports)), seq![Some(other)]) == (Settlement::<C, E> {
            result: Ok(other),
            attempted: requests_for(candidate_set(ports)),
        }),
{
    let candidates = candidate_set(ports);
    law_first_opening_wins::<C, E>(ports, seq![Some(one)], 0);
    law_first_opening_wins::<C, E>(ports, seq![Some(other)], 0);
    assert(candidates.take(1) =~= candidates);
}

} // verus!
