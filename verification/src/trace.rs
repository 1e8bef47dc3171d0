use vstd::prelude::*;

verus! {

/// True when no entry of `keys` holds a hit.
pub open spec fn all_miss(keys: Seq<Option<u64>>) -> bool {
    forall|i: int| 0 <= i < keys.len() ==> keys[i] is None
}

/// True when `w` is the winning hit among `keys`: the first position whose
/// key is minimal over every position that holds one.
pub open spec fn first_minimal_hit(keys: Seq<Option<u64>>, w: int) -> bool {
    &&& 0 <= w < keys.len()
    &&& keys[w] is Some
    &&& forall|i: int| 0 <= i < keys.len() && keys[i] is Some ==> keys[w]->0 <= #[trigger] keys[i]->0
    &&& forall|i: int| 0 <= i < w && keys[i] is Some ==> #[trigger] keys[i]->0 > keys[w]->0
}

/// Index of the winning hit: the first position holding the minimal key, or
/// `None` when no position holds one. Keys are order-preserving integer
/// encodings of the forward hit distances, one entry per scene object in
/// insertion order, so equal distances tie and the tie goes to the first
/// object.
pub fn nearest_hit(keys: &Vec<Option<u64>>) -> (winner: Option<usize>)
    ensures
        winner is None <==> all_miss(keys@),
        winner matches Some(w) ==> first_minimal_hit(keys@, w as int),
{
    let mut winner: Option<usize> = None;
    let mut best: u64 = 0;
    let mut idx: usize = 0;
    while idx < keys.len()
        invariant
            idx <= keys@.len(),
            winner is None <==> all_miss(keys@.take(idx as int)),
            winner matches Some(w) ==> {
                &&& first_minimal_hit(keys@.take(idx as int), w as int)
                &&& best == keys@[w as int]->0
            },
        decreases keys@.len() - idx,
    {
        let cur: Option<u64> = keys[idx];
        if let Some(k) = cur {
            match winner {
                None => {
                    winner = Some(idx);
                    best = k;
                },
                Some(_) => {
                    if k < best {
                        winner = Some(idx);
                        best = k;
                    }
                },
            }
        }
        proof {
            assert(keys@.take(idx + 1) =~= keys@.take(idx as int).push(keys@[idx as int]));
        }
        idx = idx + 1;
    }
    proof {
        assert(keys@.take(keys@.len() as int) =~= keys@);
    }
    winner
}

/// One step of the recursive tracer.
#[derive(Copy, Clone, Debug, PartialEq, Eq, Structural)]
pub enum TraceStep {
    /// The recursion budget is exhausted: the step yields black.
    Exhausted,
    /// The ray hits the object at `winner` (the first one at the nearest
    /// forward distance): the step bounces and recurses with `next_depth`,
    /// halving each channel of what comes back.
    Bounce { winner: usize, next_depth: usize },
    /// The ray hits nothing: the step yields the background gradient.
    Background,
}

/// Decides one step of the tracer from the remaining depth budget and the
/// encoded hit distances (one entry per scene object in insertion order):
/// depth `0` is exhausted and yields black whatever the hits are; otherwise
/// the first object at the nearest forward hit wins and the trace recurses
/// one level shallower; with no hit at all the background gradient answers.
pub fn trace_step(depth: usize, keys: &Vec<Option<u64>>) -> (step: TraceStep)
    ensures
        step is Exhausted <==> depth == 0,
        step is Background <==> depth > 0 && all_miss(keys@),
        step matches TraceStep::Bounce { winner, next_depth } ==> {
            &&& depth > 0
            &&& next_depth == depth - 1
            &&& first_minimal_hit(keys@, winner as int)
        },
{
    if depth == 0 {
        return TraceStep::Exhausted;
    }
    match nearest_hit(keys) {
        Some(w) => TraceStep::Bounce { winner: w, next_depth: depth - 1 },
        None => TraceStep::Background,
    }
}

} // verus!
