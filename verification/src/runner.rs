use vstd::prelude::*;

use crate::api_types::{Evolving, Grid, Size};
use crate::game_of_life_grid::GameOfLifeGrid;

verus! {

/// A callback that is handed every generation in turn, generation zero
/// included, and decides after each delivery whether the run goes on.
/// The spec members carry default bodies so that implementations outside
/// the verifier's reach need not spell them out; a verified implementation
/// overrides them, and must, since the defaults make `observe`'s contract
/// unmeetable.
pub trait Observer<G> {
    /// The grids delivered to this observer so far, oldest first.
    open spec fn history(&self) -> Seq<G> {
        Seq::empty()
    }

    /// The continuation policy: whether, having seen exactly `history`, the
    /// observer asks for another generation.
    open spec fn continues(history: Seq<G>) -> bool {
        false
    }

    /// An upper bound on how many more deliveries this observer will answer
    /// with "continue". Verus insists that every loop provably terminates,
    /// so a verified observer budgets its run in advance; the budget never
    /// grows, and every "continue" answer consumes part of it.
    open spec fn budget(&self) -> nat {
        0
    }

    /// The implementation's own well-formedness: whatever tie between its
    /// runtime state and its ghost history the implementation needs. The
    /// delivery loop threads it through every call.
    open spec fn inv(&self) -> bool {
        false
    }

    fn observe(&mut self, grid: &G) -> (cont: bool)
        requires
            old(self).inv(),
        ensures
            final(self).inv(),
            final(self).history() == old(self).history().push(*grid),
            cont == Self::continues(final(self).history()),
            final(self).budget() <= old(self).budget(),
            cont ==> final(self).budget() < old(self).budget(),
    ;
}

/// The termination measure of the delivery loop: the observer's remaining
/// budget, plus one while the last answer was "continue".
spec fn loop_measure(budget: nat, cont: bool) -> int {
    budget + if cont {
        1int
    } else {
        0int
    }
}

/// Streams generations to `observer`, starting from `grid` as generation
/// zero. Every generation is delivered before the next one is computed; the
/// run stops the first time the observer declines, never advancing past a
/// generation the observer refused.
pub fn run_gol_for<G: Evolving + Grid, O: Observer<G>>(observer: &mut O, grid: G)
    requires
        old(observer).inv(),
    ensures
        final(observer).inv(),
        old(observer).history().len() < final(observer).history().len(),
        forall|i: int|
            0 <= i < old(observer).history().len() ==> final(observer).history()[i] == old(
                observer,
            ).history()[i],
        final(observer).history()[old(observer).history().len() as int] == grid,
        forall|i: int|
            old(observer).history().len() <= i < final(observer).history().len() - 1 ==> (
            #[trigger] final(observer).history()[i]).evolves_to(final(observer).history()[i + 1]),
        forall|j: int|
            old(observer).history().len() < j < final(observer).history().len()
                ==> O::continues(#[trigger] final(observer).history().take(j)),
        !O::continues(final(observer).history()),
{
    let ghost first = grid;
    let ghost h0 = observer.history();
    let mut g = grid;
    let mut sent = observer.observe(&g);
    while sent
        invariant
            observer.inv(),
            h0.len() < observer.history().len(),
            forall|i: int| 0 <= i < h0.len() ==> observer.history()[i] == h0[i],
            observer.history()[h0.len() as int] == first,
            observer.history().last() == g,
            forall|i: int|
                h0.len() <= i < observer.history().len() - 1 ==> (
                #[trigger] observer.history()[i]).evolves_to(observer.history()[i + 1]),
            forall|j: int|
                h0.len() < j < observer.history().len() ==> O::continues(
                    #[trigger] observer.history().take(j),
                ),
            sent == O::continues(observer.history()),
        decreases loop_measure(observer.budget(), sent),
    {
        let ghost hprev = observer.history();
        let next = g.next_generation();
        g = next;
        sent = observer.observe(&g);
        proof {
            assert(observer.history() == hprev.push(g));
            assert forall|j: int|
                h0.len() < j < observer.history().len() implies O::continues(
                #[trigger] observer.history().take(j),
            ) by {
                assert(observer.history().take(j) =~= hprev.take(j));
                if j == hprev.len() {
                    assert(hprev.take(j) =~= hprev);
                }
            }
        }
    }
}

/// Relies on rand::random: draws one boolean from the thread-local
/// generator, each outcome equally likely; nothing is promised of the
/// result.
#[verifier::external_body]
fn random_cell() -> bool {
    rand::random()
}

/// Seeds generation zero of the given dimensions with a fifty-fifty random
/// population and streams the generations to `observer` until it declines
/// one. The seed cells are random, so nothing is said about which cells of
/// generation zero are alive; every later delivery is the generation the
/// rule produces from the one before it.
pub fn run_gol<O: Observer<GameOfLifeGrid>>(size: Size, observer: &mut O)
    requires
        old(observer).inv(),
    ensures
        final(observer).inv(),
        old(observer).history().len() < final(observer).history().len(),
        forall|i: int|
            0 <= i < old(observer).history().len() ==> final(observer).history()[i] == old(
                observer,
            ).history()[i],
        forall|i: int|
            old(observer).history().len() <= i < final(observer).history().len() ==> (
            #[trigger] final(observer).history()[i]).spec_size() == size,
        forall|i: int|
            old(observer).history().len() <= i < final(observer).history().len() - 1 ==> (
            #[trigger] final(observer).history()[i]).evolves_to(final(observer).history()[i + 1]),
        forall|j: int|
            old(observer).history().len() < j < final(observer).history().len()
                ==> O::continues(#[trigger] final(observer).history().take(j)),
        !O::continues(final(observer).history()),
{
    let grid = GameOfLifeGrid::new(size, |_row: usize, _column: usize| random_cell());
    run_gol_for(observer, grid);
    proof {
        lemma_chain_keeps_size(
            observer.history(),
            old(observer).history().len() as int,
            size,
        );
    }
}

/// Along a chain of generations, the dimensions of the first one carry over
/// to every later one.
proof fn lemma_chain_keeps_size(history: Seq<GameOfLifeGrid>, from: int, size: Size)
    requires
        0 <= from < history.len(),
        history[from].spec_size() == size,
        forall|i: int|
            from <= i < history.len() - 1 ==> (#[trigger] history[i]).evolves_to(history[i + 1]),
    ensures
        forall|i: int| from <= i < history.len() ==> (#[trigger] history[i]).spec_size() == size,
    decreases history.len() - from,
{
    if from + 1 < history.len() {
        assert(history[from].evolves_to(history[from + 1]));
        lemma_chain_keeps_size(history, from + 1, size);
    }
}

/// Delivery count of the loop: an observer that agrees to continue exactly
/// while it has seen at most `k` generations is called exactly `k + 1`
/// times over a run that starts with an empty history.
pub proof fn delivery_count<G, O: Observer<G>>(history: Seq<G>, k: int)
    requires
        0 <= k,
        forall|h: Seq<G>| #[trigger] O::continues(h) == (h.len() <= k),
        0 < history.len(),
        forall|j: int| 0 < j < history.len() ==> O::continues(#[trigger] history.take(j)),
        !O::continues(history),
    ensures
        history.len() == k + 1,
{
    if history.len() > k + 1 {
        assert(O::continues(history.take(k + 1)));
        assert(history.take(k + 1).len() == k + 1);
    }
}

} // verus!
