//! A cycling iterator: walks a list forward, backward or back and forth
//! without end, giving each item a fixed number of times before it moves on.

use vstd::arithmetic::div_mod::{lemma_fundamental_div_mod, lemma_fundamental_div_mod_converse};
use vstd::prelude::*;

verus! {

/// The way the play head moves.
#[derive(Debug, Clone, Copy, PartialEq, Eq, Structural)]
pub enum CycleDirection {
    Forward,
    Backward,
    PingPong,
}

/// A list with a play head on it.
#[derive(Debug)]
pub struct Cycle<I> {
    vec: Vec<I>,
    direction: CycleDirection,
    play_head: usize,
    is_odd: bool,
    repeat: u64,
    repeat_count: u64,
}

/// The state of a cycle as contracts see it.
pub struct CycleView<I> {
    pub items: Seq<I>,
    pub direction: CycleDirection,
    /// The index of the item that the next call gives.
    pub play_head: int,
    /// In ping-pong, whether the play head is on its way down.
    pub descending: bool,
    /// How many times in a row each item is given.
    pub repeat: int,
    /// Which of those times the next call is, counted from 1.
    pub count: int,
}

/// The number of times an item is given for a requested repeat: the number
/// asked for, and 1 where none or 0 was asked for.
pub open spec fn effective_repeat(repeat: Option<u64>) -> int {
    match repeat {
        Some(r) => if r >= 1 {
            r as int
        } else {
            1
        },
        None => 1,
    }
}

impl<I> CycleView<I> {
    /// The play head is on an item (at 0 where there is none), and the
    /// repeat counter is between 1 and the repeat count.
    pub open spec fn wf(self) -> bool {
        &&& 0 <= self.play_head
        &&& self.play_head < self.items.len() || self.play_head == 0
        &&& 1 <= self.count <= self.repeat
    }

    /// A cycle as `new` makes it: the play head on the last item when going
    /// backward, on the first otherwise.
    pub open spec fn fresh(items: Seq<I>, direction: CycleDirection, repeat: Option<u64>) -> Self {
        CycleView {
            items,
            direction,
            play_head: if direction == CycleDirection::Backward && items.len() > 0 {
                items.len() - 1
            } else {
                0
            },
            descending: false,
            repeat: effective_repeat(repeat),
            count: 1,
        }
    }

    /// The cycle over other items: the play head back at 0 and the repeat
    /// counter back at 1.
    pub open spec fn updated(self, items: Seq<I>) -> Self {
        CycleView { items, play_head: 0, count: 1, ..self }
    }

    /// The item under the play head.
    pub open spec fn current(self) -> I {
        self.items[self.play_head]
    }

    /// In ping-pong, the way the play head goes from where it is: down from
    /// the last item, up from the first, and on as before in between.
    pub open spec fn turned(self) -> bool {
        if self.play_head == self.items.len() - 1 {
            true
        } else if self.play_head == 0 {
            false
        } else {
            self.descending
        }
    }

    /// The cycle with the play head moved by one item.
    pub open spec fn moved(self) -> Self {
        let max = self.items.len() - 1;
        match self.direction {
            CycleDirection::Forward => CycleView {
                play_head: if self.play_head >= max {
                    0
                } else {
                    self.play_head + 1
                },
                ..self
            },
            CycleDirection::Backward => CycleView {
                play_head: if self.play_head == 0 {
                    max
                } else {
                    self.play_head - 1
                },
                ..self
            },
            CycleDirection::PingPong => CycleView {
                descending: self.turned(),
                play_head: if self.turned() {
                    if self.play_head == 0 {
                        0
                    } else {
                        self.play_head - 1
                    }
                } else {
                    self.play_head + 1
                },
                ..self
            },
        }
    }

    /// The cycle after one call of `next`: the repeat counter goes up, and
    /// when the item has been given often enough the counter starts over and
    /// the play head moves.
    pub open spec fn after_next(self) -> Self {
        if self.count < self.repeat {
            CycleView { count: self.count + 1, ..self }
        } else {
            CycleView { count: 1, ..self }.moved()
        }
    }

    /// The cycle after `calls` calls of `next`.
    pub open spec fn after_calls(self, calls: nat) -> Self
        decreases calls,
    {
        if calls == 0 {
            self
        } else {
            self.after_calls((calls - 1) as nat).after_next()
        }
    }
}

impl<I> View for Cycle<I> {
    type V = CycleView<I>;

    closed spec fn view(&self) -> CycleView<I> {
        CycleView {
            items: self.vec@,
            direction: self.direction,
            play_head: self.play_head as int,
            descending: self.is_odd,
            repeat: self.repeat as int,
            count: self.repeat_count as int,
        }
    }
}

impl<I> Cycle<I> {
    #[verifier::type_invariant]
    spec fn inv(&self) -> bool {
        self@.wf()
    }

    /// Makes a cycle over `vec`. Each item is given `repeat` times in a row,
    /// once where `repeat` is `None` or 0.
    pub fn new(vec: Vec<I>, direction: CycleDirection, repeat: Option<u64>) -> (cycle: Cycle<I>)
        ensures
            cycle@ == CycleView::fresh(vec@, direction, repeat),
            cycle@.wf(),
    {
        let play_head: usize = match direction {
            CycleDirection::Backward => if vec.len() == 0 {
                0
            } else {
                vec.len() - 1
            },
            _ => 0,
        };
        let repeat: u64 = match repeat {
            Some(r) => if r >= 1 {
                r
            } else {
                1
            },
            None => 1,
        };
        Cycle { vec, direction, play_head, is_odd: false, repeat, repeat_count: 1 }
    }

    /// Replaces the items. The play head goes back to the first item and the
    /// repeat counter starts over.
    pub fn update_vec(&mut self, vec: Vec<I>)
        ensures
            final(self)@ == old(self)@.updated(vec@),
            old(self)@.wf(),
            final(self)@.wf(),
        no_unwind
    {
        proof {
            use_type_invariant(&*self);
        }
        self.play_head = 0;
        self.repeat_count = 1;
        self.vec = vec;
    }

    /// The number of items.
    pub fn len(&self) -> (len: usize)
        ensures
            len == self@.items.len(),
    {
        self.vec.len()
    }

    /// Gives the item under the play head and moves on.
    pub fn next(&mut self) -> (item: &I)
        requires
            old(self)@.items.len() > 0,
        ensures
            *item == old(self)@.current(),
            final(self)@ == old(self)@.after_next(),
            old(self)@.wf(),
            final(self)@.wf(),
        no_unwind
    {
        proof {
            use_type_invariant(&*self);
        }
        let at: usize = self.play_head;
        if self.repeat_count < self.repeat {
            self.repeat_count = self.repeat_count + 1;
            return &self.vec[at];
        }
        self.repeat_count = 1;
        let max: usize = self.vec.len() - 1;
        match self.direction {
            CycleDirection::Forward => {
                if self.play_head >= max {
                    self.play_head = 0;
                } else {
                    self.play_head = self.play_head + 1;
                }
            },
            CycleDirection::Backward => {
                if self.play_head == 0 {
                    self.play_head = max;
                } else {
                    self.play_head = self.play_head - 1;
                }
            },
            CycleDirection::PingPong => {
                if self.play_head == max {
                    self.is_odd = true;
                } else if self.play_head == 0 {
                    self.is_odd = false;
                }
                if self.is_odd {
                    if self.play_head > 0 {
                        self.play_head = self.play_head - 1;
                    }
                } else {
                    self.play_head = self.play_head + 1;
                }
            },
        }
        &self.vec[at]
    }
}

/// The play head stays on an item and the repeat counter stays between 1 and
/// the repeat count, whatever the direction. Neither the items, the
/// direction nor the repeat count change.
pub proof fn lemma_next_keeps_wf<I>(cycle: CycleView<I>)
    requires
        cycle.wf(),
        cycle.items.len() > 0,
    ensures
        cycle.after_next().wf(),
        cycle.after_next().play_head < cycle.items.len(),
        cycle.after_next().items == cycle.items,
        cycle.after_next().direction == cycle.direction,
        cycle.after_next().repeat == cycle.repeat,
{
}

/// A cycle over a single item gives that item at every call.
pub proof fn lemma_single_item<I>(cycle: CycleView<I>, calls: nat)
    requires
        cycle.wf(),
        cycle.items.len() == 1,
    ensures
        cycle.after_calls(calls).wf(),
        cycle.after_calls(calls).items == cycle.items,
        cycle.after_calls(calls).current() == cycle.items[0],
    decreases calls,
{
    if calls > 0 {
        lemma_single_item(cycle, (calls - 1) as nat);
    }
}

/// Counting on by one moves the remainder on by one, or back to 0 from
/// the last remainder, where the quotient goes up instead.
pub proof fn lemma_count_on(n: int, d: int)
    requires
        0 <= n,
        1 <= d,
    ensures
        0 <= n % d < d,
        n % d == d - 1 ==> (n + 1) % d == 0 && (n + 1) / d == n / d + 1,
        n % d != d - 1 ==> (n + 1) % d == n % d + 1 && (n + 1) / d == n / d,
{
    let q = n / d;
    let r = n % d;
    lemma_fundamental_div_mod(n, d);
    if r == d - 1 {
        assert(n + 1 == (q + 1) * d + 0) by (nonlinear_arith)
            requires
                n == d * q + r,
                r == d - 1,
        ;
        lemma_fundamental_div_mod_converse(n + 1, d, q + 1, 0);
    } else {
        assert(n + 1 == q * d + (r + 1)) by (nonlinear_arith)
            requires
                n == d * q + r,
        ;
        lemma_fundamental_div_mod_converse(n + 1, d, q, r + 1);
    }
}

/// Where the play head of a ping-pong cycle over `len` items stands after
/// `moves` moves from the first item: it walks up to the last item and
/// down again, in a round of `2 * (len - 1)` moves.
pub open spec fn ping_pong_head(len: int, moves: int) -> int {
    let round = 2 * (len - 1);
    if len <= 1 {
        0
    } else if moves % round < len {
        moves % round
    } else {
        round - moves % round
    }
}

/// Where the play head of a fresh cycle stands after `calls` calls of
/// `next`. The head moves once every `repeat` calls: forward from the first
/// item and around, backward from the last item and around, or up and down
/// between the two.
pub open spec fn head_after(
    len: int,
    direction: CycleDirection,
    repeat: int,
    calls: int,
) -> int {
    let moves = calls / repeat;
    match direction {
        CycleDirection::Forward => moves % len,
        CycleDirection::Backward => len - 1 - moves % len,
        CycleDirection::PingPong => ping_pong_head(len, moves),
    }
}

/// The closed form of a cycle. After `calls` calls of `next` a fresh cycle
/// has its play head where `head_after` says, so call number `calls`,
/// counted from 0, gives the item there. The repeat counter stands at the
/// remainder of `calls` by the repeat count, and 1.
pub proof fn lemma_closed_form<I>(
    items: Seq<I>,
    direction: CycleDirection,
    repeat: Option<u64>,
    calls: nat,
)
    requires
        items.len() > 0,
    ensures
        ({
            let cycle = CycleView::fresh(items, direction, repeat).after_calls(calls);
            let every = effective_repeat(repeat);
            &&& cycle.wf()
            &&& cycle.items == items
            &&& cycle.direction == direction
            &&& cycle.repeat == every
            &&& cycle.count == calls as int % every + 1
            &&& cycle.play_head == head_after(items.len() as int, direction, every, calls as int)
            &&& 0 <= cycle.play_head < items.len()
            &&& cycle.current() == items[head_after(
                items.len() as int,
                direction,
                every,
                calls as int,
            )]
        }),
    decreases calls,
{
    let len = items.len() as int;
    let every = effective_repeat(repeat);
    let start = CycleView::fresh(items, direction, repeat);
    let round = 2 * (len - 1);
    if calls == 0 {
        lemma_fundamental_div_mod_converse(0, every, 0, 0);
        lemma_fundamental_div_mod_converse(0, len, 0, 0);
        if len > 1 {
            lemma_fundamental_div_mod_converse(0, round, 0, 0);
        }
    } else {
        let before = (calls - 1) as nat;
        lemma_closed_form(items, direction, repeat, before);
        lemma_ping_pong_flag(items, repeat, before);
        let was = start.after_calls(before);
        let moves = before as int / every;
        lemma_count_on(before as int, every);
        assert(0 <= moves) by (nonlinear_arith)
            requires
                0 <= before as int,
                1 <= every,
                moves == before as int / every,
        ;
        lemma_count_on(moves, len);
        if len > 1 {
            lemma_count_on(moves, round);
        }
    }
}

/// In a ping-pong cycle over two items or more, the play head is on its
/// way down in the second half of a round and on its way up in the first.
proof fn lemma_ping_pong_flag<I>(items: Seq<I>, repeat: Option<u64>, calls: nat)
    requires
        items.len() > 0,
    ensures
        ({
            let cycle = CycleView::fresh(items, CycleDirection::PingPong, repeat).after_calls(
                calls,
            );
            let len = items.len() as int;
            let place = (calls as int / effective_repeat(repeat)) % (2 * (len - 1));
            len > 1 ==> {
                &&& 0 < place < len - 1 ==> !cycle.descending
                &&& len - 1 < place ==> cycle.descending
                &&& cycle.play_head == ping_pong_head(len, calls as int / effective_repeat(repeat))
                &&& cycle.count == calls as int % effective_repeat(repeat) + 1
                &&& cycle.repeat == effective_repeat(repeat)
                &&& cycle.items == items
                &&& cycle.direction == CycleDirection::PingPong
            }
        }),
    decreases calls,
{
    let len = items.len() as int;
    let every = effective_repeat(repeat);
    let round = 2 * (len - 1);
    if len > 1 {
        if calls == 0 {
            lemma_fundamental_div_mod_converse(0, every, 0, 0);
            lemma_fundamental_div_mod_converse(0, round, 0, 0);
        } else {
            let before = (calls - 1) as nat;
            lemma_ping_pong_flag(items, repeat, before);
            let moves = before as int / every;
            lemma_count_on(before as int, every);
            assert(0 <= moves) by (nonlinear_arith)
                requires
                    0 <= before as int,
                    1 <= every,
                    moves == before as int / every,
            ;
            lemma_count_on(moves, round);
        }
    }
}

} // verus!
