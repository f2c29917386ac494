//! What holds of every dial, proved of the model.
//!
//! The theorems say where the caller's loop ends on every network with fixed
//! answers, and what it did on the way.

use crate::address::Address;
use crate::error::ConnectError;
use crate::model::{ActionView, DialView, EventView, Progress};
use crate::network::{attempts, Network};
use crate::scheme::http;
use std::time::Duration;
use vstd::prelude::*;

verus! {

/// A dial begins well formed, and no event makes it ill formed.
pub proof fn lemma_wf_is_kept<E>(
    timeout: Option<Duration>,
    host: Seq<char>,
    port: u16,
    scheme: Seq<char>,
    dial: DialView<E>,
    event: EventView<E>,
)
    ensures
        DialView::<E>::start(timeout, host, port, scheme).wf(),
        dial.wf() ==> dial.next(event).wf(),
{
}

/// No event changes what a dial was asked for: host, port and timeout stay
/// as they were when it began.
pub proof fn lemma_request_is_kept<E>(dial: DialView<E>, event: EventView<E>)
    ensures
        dial.next(event).host == dial.host,
        dial.next(event).port == dial.port,
        dial.next(event).timeout == dial.timeout,
{
}

/// A dial that has ended stays as it ended: no event moves it, and the
/// caller's loop has nothing left to do.
pub proof fn lemma_ended_is_final<E>(
    dial: DialView<E>,
    event: EventView<E>,
    network: Network<E>,
    steps: nat,
)
    requires
        dial.finished(),
    ensures
        dial.next(event) == dial,
        dial.run(network, steps) == dial,
        dial.trace(network, steps) == Seq::<ActionView>::empty(),
        dial.result() is Some,
{
}

/// A dial ends with a result and only then: while it asks for an action it
/// has none.
pub proof fn lemma_result_iff_ended<E>(dial: DialView<E>)
    ensures
        dial.result() is Some <==> dial.finished(),
{
}

/// Where the first connecting address lies: it connects, no address between
/// `from` and it does, and it is a place in the list. Where there is none, no
/// address from `from` on connects.
pub proof fn lemma_first_connected<E>(
    network: Network<E>,
    addresses: Seq<Address>,
    timeout: Option<Duration>,
    from: nat,
)
    ensures
        match network.first_connected(addresses, timeout, from) {
            Some(index) => {
                &&& from <= index < addresses.len()
                &&& network.connects(addresses, timeout, index)
                &&& forall|j: nat| from <= j < index ==> !network.connects(addresses, timeout, j)
            },
            None => forall|j: nat|
                from <= j < addresses.len() ==> !network.connects(addresses, timeout, j),
        },
    decreases addresses.len() - from,
{
    if from < addresses.len() && !network.connects(addresses, timeout, from) {
        lemma_first_connected(network, addresses, timeout, (from + 1) as nat);
    }
}

/// The converse: an address that connects, with none before it that does, is
/// the first connecting one.
pub proof fn lemma_first_connected_is<E>(
    network: Network<E>,
    addresses: Seq<Address>,
    timeout: Option<Duration>,
    from: nat,
    index: nat,
)
    requires
        from <= index < addresses.len(),
        network.connects(addresses, timeout, index),
        forall|j: nat| from <= j < index ==> !network.connects(addresses, timeout, j),
    ensures
        network.first_connected(addresses, timeout, from) == Some(index),
    decreases index - from,
{
    if from < index {
        assert(!network.connects(addresses, timeout, from));
        lemma_first_connected_is(network, addresses, timeout, (from + 1) as nat, index);
    }
}

/// From an attempt onwards: a dial that attempts the address at `index` is
/// led by the caller's loop to the first address that connects, or, where
/// none does, to the end of the list and the error of the last attempt. On the
/// way the loop attempts each address from `index` up to there, once and in
/// order, and nothing else.
pub proof fn lemma_run_from_attempt<E>(
    network: Network<E>,
    dial: DialView<E>,
    addresses: Seq<Address>,
    index: nat,
    last_error: Option<E>,
    steps: nat,
)
    requires
        dial.progress == (Progress::Attempting { addresses, index, last_error }),
        index < addresses.len(),
        steps >= network.attempts_end(addresses, dial.timeout, index) - index,
    ensures
        dial.run(network, steps).result() == Some(
            match network.first_connected(addresses, dial.timeout, index) {
                Some(winner) => Ok::<nat, ConnectError<E>>(winner),
                None => Err(
                    ConnectError::Connection(
                        network.error_at(addresses, dial.timeout, (addresses.len() - 1) as nat),
                    ),
                ),
            },
        ),
        dial.trace(network, steps) == attempts(
            addresses,
            dial.timeout,
            index,
            network.attempts_end(addresses, dial.timeout, index),
        ),
    decreases addresses.len() - index,
{
    let timeout = dial.timeout;
    let end = network.attempts_end(addresses, timeout, index);
    lemma_first_connected(network, addresses, timeout, index);
    let event = network.answer(dial.action())->Some_0;
    let after = dial.next(event);
    if !network.connects(addresses, timeout, index) && index + 1 < addresses.len() {
        lemma_run_from_attempt(
            network,
            after,
            addresses,
            index + 1,
            Some(network.error_at(addresses, timeout, index)),
            (steps - 1) as nat,
        );
    } else {
        lemma_ended_is_final(after, event, network, (steps - 1) as nat);
    }
    assert(dial.trace(network, steps) =~= attempts(addresses, timeout, index, end));
}

/// Where every dial ends, and what it does on the way.
///
/// Against a network whose answers depend on the question alone, the
/// caller's loop brings a dial to [`Network::outcome`], and carries out
/// exactly [`Network::actions`], once it is given as many steps as there are
/// actions; more steps change nothing.
pub proof fn lemma_run_reaches_outcome<E>(
    network: Network<E>,
    timeout: Option<Duration>,
    host: Seq<char>,
    port: u16,
    scheme: Seq<char>,
    steps: nat,
)
    requires
        steps >= network.actions(timeout, host, port, scheme).len(),
    ensures
        DialView::<E>::start(timeout, host, port, scheme).run(network, steps).result() == Some(
            network.outcome(timeout, host, port, scheme),
        ),
        DialView::<E>::start(timeout, host, port, scheme).trace(network, steps) == network.actions(
            timeout,
            host,
            port,
            scheme,
        ),
{
    let dial = DialView::<E>::start(timeout, host, port, scheme);
    if scheme == http() {
        let event = network.answer(dial.action())->Some_0;
        let after = dial.next(event);
        match (network.resolve)(host, port) {
            Ok(addresses) => {
                if addresses.len() == 0 {
                    lemma_ended_is_final(after, event, network, (steps - 1) as nat);
                    assert(attempts(addresses, timeout, 0, 0) =~= Seq::empty());
                } else {
                    lemma_first_connected(network, addresses, timeout, 0);
                    lemma_run_from_attempt(
                        network,
                        after,
                        addresses,
                        0,
                        None,
                        (steps - 1) as nat,
                    );
                }
            },
            Err(_) => {
                lemma_ended_is_final(after, event, network, (steps - 1) as nat);
            },
        }
        assert(dial.trace(network, steps) =~= network.actions(timeout, host, port, scheme));
    } else {
        lemma_ended_is_final(dial, EventView::Connected, network, steps);
    }
}

/// A dial is short: it resolves at most once and attempts each address at
/// most once, so the caller's loop ends after no more actions than there are
/// addresses, and one.
pub proof fn lemma_actions_are_bounded<E>(
    network: Network<E>,
    timeout: Option<Duration>,
    host: Seq<char>,
    port: u16,
    scheme: Seq<char>,
)
    ensures
        network.actions(timeout, host, port, scheme).len() <= 1 + match (network.resolve)(
            host,
            port,
        ) {
            Ok(addresses) => addresses.len(),
            Err(_) => 0,
        },
        DialView::<E>::start(timeout, host, port, scheme).run(
            network,
            network.actions(timeout, host, port, scheme).len(),
        ).finished(),
{
    match (network.resolve)(host, port) {
        Ok(addresses) => {
            lemma_first_connected(network, addresses, timeout, 0);
        },
        Err(_) => {},
    }
    lemma_run_reaches_outcome(
        network,
        timeout,
        host,
        port,
        scheme,
        network.actions(timeout, host, port, scheme).len(),
    );
}

/// The first address that connects wins, and nothing is attempted after it.
///
/// Where the resolver gives `addresses`, the attempts before `winner` fail
/// and the attempt on `winner` connects, the dial ends in success on
/// `winner`. The loop has then resolved once and attempted the addresses up
/// to `winner`, each once and in the resolver's order; no address behind
/// `winner` is attempted, however many steps the loop is given.
pub proof fn lemma_first_success_wins<E>(
    network: Network<E>,
    timeout: Option<Duration>,
    host: Seq<char>,
    port: u16,
    addresses: Seq<Address>,
    winner: nat,
    steps: nat,
)
    requires
        (network.resolve)(host, port) == Ok::<Seq<Address>, E>(addresses),
        winner < addresses.len(),
        network.connects(addresses, timeout, winner),
        forall|j: nat| j < winner ==> !network.connects(addresses, timeout, j),
        steps >= winner + 2,
    ensures
        DialView::<E>::start(timeout, host, port, http()).run(network, steps).result() == Some(
            Ok::<nat, ConnectError<E>>(winner),
        ),
        DialView::<E>::start(timeout, host, port, http()).trace(network, steps) == seq![
            (ActionView::Resolve { host, port }),
        ] + attempts(addresses, timeout, 0, winner + 1),
{
    lemma_first_connected_is(network, addresses, timeout, 0, winner);
    assert(attempts(addresses, timeout, 0, winner + 1).len() == winner + 1);
    lemma_run_reaches_outcome(network, timeout, host, port, http(), steps);
}

/// Where every attempt fails, the dial fails with the error of the last
/// attempt, as that attempt gave it; each address was attempted once, in the
/// resolver's order.
pub proof fn lemma_all_fail_last_error<E>(
    network: Network<E>,
    timeout: Option<Duration>,
    host: Seq<char>,
    port: u16,
    addresses: Seq<Address>,
    steps: nat,
)
    requires
        (network.resolve)(host, port) == Ok::<Seq<Address>, E>(addresses),
        addresses.len() > 0,
        forall|j: nat| j < addresses.len() ==> !network.connects(addresses, timeout, j),
        steps >= addresses.len() + 1,
    ensures
        DialView::<E>::start(timeout, host, port, http()).run(network, steps).result() == Some(
            Err::<nat, ConnectError<E>>(
                ConnectError::Connection(
                    network.error_at(addresses, timeout, (addresses.len() - 1) as nat),
                ),
            ),
        ),
        DialView::<E>::start(timeout, host, port, http()).trace(network, steps) == seq![
            (ActionView::Resolve { host, port }),
        ] + attempts(addresses, timeout, 0, addresses.len()),
{
    lemma_first_connected(network, addresses, timeout, 0);
    assert(attempts(addresses, timeout, 0, addresses.len()).len() == addresses.len());
    lemma_run_reaches_outcome(network, timeout, host, port, http(), steps);
}

/// A scheme other than `http` is refused before anything is asked: the dial
/// begins ended, with the failure of an invalid scheme, and the caller's loop
/// carries out no action at all, neither a resolution nor an attempt.
pub proof fn lemma_wrong_scheme_asks_nothing<E>(
    network: Network<E>,
    timeout: Option<Duration>,
    host: Seq<char>,
    port: u16,
    scheme: Seq<char>,
    steps: nat,
)
    requires
        scheme != http(),
    ensures
        DialView::<E>::start(timeout, host, port, scheme).finished(),
        DialView::<E>::start(timeout, host, port, scheme).result() == Some(
            Err::<nat, ConnectError<E>>(ConnectError::InvalidScheme),
        ),
        DialView::<E>::start(timeout, host, port, scheme).run(network, steps)
            == DialView::<E>::start(timeout, host, port, scheme),
        DialView::<E>::start(timeout, host, port, scheme).trace(network, steps) == Seq::<
            ActionView,
        >::empty(),
{
}

/// A host without addresses has a failure of its own: where the resolver
/// answers with no address the dial fails with `NoAddresses`, and where the
/// resolver itself fails the dial fails with the resolver's error. Either
/// way the loop has resolved once and attempted nothing.
pub proof fn lemma_resolution_without_addresses<E>(
    network: Network<E>,
    timeout: Option<Duration>,
    host: Seq<char>,
    port: u16,
    steps: nat,
)
    requires
        steps >= 1,
        match (network.resolve)(host, port) {
            Ok(addresses) => addresses.len() == 0,
            Err(_) => true,
        },
    ensures
        DialView::<E>::start(timeout, host, port, http()).run(network, steps).result() == Some(
            Err::<nat, ConnectError<E>>(
                match (network.resolve)(host, port) {
                    Ok(_) => ConnectError::NoAddresses,
                    Err(error) => ConnectError::Resolution(error),
                },
            ),
        ),
        DialView::<E>::start(timeout, host, port, http()).trace(network, steps) == seq![
            (ActionView::Resolve { host, port }),
        ],
{
    match (network.resolve)(host, port) {
        Ok(addresses) => {
            assert(attempts(addresses, timeout, 0, 0) =~= Seq::empty());
        },
        Err(_) => {},
    }
    lemma_run_reaches_outcome(network, timeout, host, port, http(), steps);
    assert(network.actions(timeout, host, port, http()) =~= seq![
        ActionView::Resolve { host, port },
    ]);
}

/// Every attempt is made under the timeout that the dial began with, whole
/// and unchanged: nothing is taken off for the attempts before it, and a dial
/// without a timeout asks for none. Every attempt also asks for a socket of
/// the family of its address.
pub proof fn lemma_attempts_keep_timeout<E>(
    dial: DialView<E>,
    network: Network<E>,
    steps: nat,
    i: int,
)
    requires
        0 <= i < dial.trace(network, steps).len(),
    ensures
        match dial.trace(network, steps)[i] {
            ActionView::Attempt { address, family, timeout, .. } => {
                &&& timeout == dial.timeout
                &&& family == address.family()
            },
            _ => true,
        },
    decreases steps,
{
    match network.answer(dial.action()) {
        Some(event) => {
            if i > 0 {
                lemma_attempts_keep_timeout(dial.next(event), network, (steps - 1) as nat, i - 1);
            }
        },
        None => {},
    }
}

/// Dialling again gives the same again. Two dials that begin from the same
/// timeout, host, port and scheme, each run to its end against the same
/// network, end with the same result after the same actions, however many
/// steps each loop was given beyond those it needed.
pub proof fn lemma_same_inputs_same_outcome<E>(
    network: Network<E>,
    timeout: Option<Duration>,
    host: Seq<char>,
    port: u16,
    scheme: Seq<char>,
    first_steps: nat,
    second_steps: nat,
)
    requires
        DialView::<E>::start(timeout, host, port, scheme).run(network, first_steps).finished(),
        DialView::<E>::start(timeout, host, port, scheme).run(network, second_steps).finished(),
    ensures
        DialView::<E>::start(timeout, host, port, scheme).run(network, first_steps)
            == DialView::<E>::start(timeout, host, port, scheme).run(network, second_steps),
        DialView::<E>::start(timeout, host, port, scheme).trace(network, first_steps)
            == DialView::<E>::start(timeout, host, port, scheme).trace(network, second_steps),
{
    let dial = DialView::<E>::start(timeout, host, port, scheme);
    if first_steps <= second_steps {
        lemma_run_past_the_end(dial, network, first_steps, second_steps);
    } else {
        lemma_run_past_the_end(dial, network, second_steps, first_steps);
    }
}

/// Steps beyond the end change nothing: once the loop has brought the dial
/// to its end, a longer loop leaves the same state and the same trace.
pub proof fn lemma_run_past_the_end<E>(
    dial: DialView<E>,
    network: Network<E>,
    steps: nat,
    more: nat,
)
    requires
        dial.run(network, steps).finished(),
        steps <= more,
    ensures
        dial.run(network, more) == dial.run(network, steps),
        dial.trace(network, more) == dial.trace(network, steps),
    decreases steps,
{
    match network.answer(dial.action()) {
        Some(event) => {
            if steps > 0 {
                lemma_run_past_the_end(
                    dial.next(event),
                    network,
                    (steps - 1) as nat,
                    (more - 1) as nat,
                );
            }
        },
        None => {},
    }
}

} // verus!
