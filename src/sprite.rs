//! Grouping of a frame's sprites by shape into instanced draw calls.
use vstd::prelude::*;
use vstd::seq_lib::lemma_no_dup_in_concat;

verus! {

/// A 2D primitive that represents some basic geometry.
#[derive(Debug, Clone, Copy, PartialEq, Eq, Structural, Hash, PartialOrd, Ord)]
pub enum Shape2D {
    /// A rectangle centered at the origin with corners at (-1, -1), (1, 1).
    Square,
    /// A disc of radius 1 centered at the origin.
    Circle,
}

/// A 2D mesh used for rendering.
#[derive(Debug, Clone, Copy, PartialEq, Eq, Structural, Hash, PartialOrd, Ord)]
pub struct Mesh2D(pub Shape2D);

/// The number of distinct shapes.
pub const SHAPE_COUNT: usize = 2;

/// The largest number of sprites that one frame's instance buffer holds.
pub const MAX_SPRITES_PER_BATCH: usize = 100;

/// The shapes in the order in which their batches are laid out.
pub open spec fn shape_at(k: nat) -> Shape2D {
    if k == 0 {
        Shape2D::Square
    } else {
        Shape2D::Circle
    }
}

/// One indexed, instanced draw call over a contiguous range of the instance buffer.
#[derive(Debug, Clone, Copy, PartialEq, Eq, Structural)]
pub struct DrawCall {
    /// The shape whose mesh is bound for this call.
    pub shape: Shape2D,
    /// The first instance drawn.
    pub first_instance: u32,
    /// The number of instances drawn.
    pub instance_count: u32,
}

/// The layout of one frame's sprites in the instance buffer.
#[derive(Debug, Clone, PartialEq, Eq)]
pub struct SpriteBatch {
    /// Slot `j` of the instance buffer holds the sprite at input position `order[j]`.
    pub order: Vec<usize>,
    /// One draw call per shape that has at least one sprite.
    pub draws: Vec<DrawCall>,
}

/// Why a frame's sprites could not be batched.
#[derive(Debug, Clone, Copy, PartialEq, Eq, Structural)]
pub enum BatchError {
    /// More sprites were submitted than the instance buffer holds.
    CapacityExceeded { requested: usize, capacity: usize },
}

/// The input positions below `n` whose shape is `shape`, in input order.
pub open spec fn group_of(shapes: Seq<Shape2D>, shape: Shape2D, n: nat) -> Seq<usize>
    decreases n,
{
    if n == 0 {
        Seq::empty()
    } else {
        let g = group_of(shapes, shape, (n - 1) as nat);
        if shapes[n - 1] == shape {
            g.push((n - 1) as usize)
        } else {
            g
        }
    }
}

/// The input positions of all sprites whose shape is `shape`, in input order.
pub open spec fn group(shapes: Seq<Shape2D>, shape: Shape2D) -> Seq<usize> {
    group_of(shapes, shape, shapes.len())
}

/// The groups of the first `k` shapes, one after the other.
pub open spec fn order_upto(shapes: Seq<Shape2D>, k: nat) -> Seq<usize>
    decreases k,
{
    if k == 0 {
        Seq::empty()
    } else {
        order_upto(shapes, (k - 1) as nat) + group(shapes, shape_at((k - 1) as nat))
    }
}

/// The draw calls of the first `k` shapes: one per non-empty group, covering its slots.
pub open spec fn draws_upto(shapes: Seq<Shape2D>, k: nat) -> Seq<DrawCall>
    decreases k,
{
    if k == 0 {
        Seq::empty()
    } else {
        let prev = draws_upto(shapes, (k - 1) as nat);
        let g = group(shapes, shape_at((k - 1) as nat));
        if g.len() == 0 {
            prev
        } else {
            prev.push(
                DrawCall {
                    shape: shape_at((k - 1) as nat),
                    first_instance: order_upto(shapes, (k - 1) as nat).len() as u32,
                    instance_count: g.len() as u32,
                },
            )
        }
    }
}

/// Which sprite fills each slot of the instance buffer.
pub open spec fn batch_order(shapes: Seq<Shape2D>) -> Seq<usize> {
    order_upto(shapes, SHAPE_COUNT as nat)
}

/// The draw calls issued for a frame's sprites.
pub open spec fn batch_draws(shapes: Seq<Shape2D>) -> Seq<DrawCall> {
    draws_upto(shapes, SHAPE_COUNT as nat)
}

proof fn lemma_group_facts(shapes: Seq<Shape2D>, shape: Shape2D, n: nat)
    requires
        n <= shapes.len() <= usize::MAX,
    ensures
        group_of(shapes, shape, n).len() <= n,
        forall|j: int|
            0 <= j < group_of(shapes, shape, n).len() ==> {
                let x = #[trigger] group_of(shapes, shape, n)[j];
                x < n && shapes[x as int] == shape
            },
        forall|j1: int, j2: int|
            0 <= j1 < j2 < group_of(shapes, shape, n).len() ==> group_of(shapes, shape, n)[j1]
                < group_of(shapes, shape, n)[j2],
        forall|i: int|
            0 <= i < n && shapes[i] == shape ==> group_of(shapes, shape, n).contains(i as usize),
    decreases n,
{
    if n > 0 {
        lemma_group_facts(shapes, shape, (n - 1) as nat);
        let g = group_of(shapes, shape, (n - 1) as nat);
        if shapes[n - 1] == shape {
            let last = (n - 1) as usize;
            assert(last as int == n - 1);
            assert(g.push(last)[g.len() as int] == last);
            assert forall|j1: int, j2: int|
                0 <= j1 < j2 < g.push(last).len() implies g.push(last)[j1] < g.push(last)[j2] by {
                if j2 == g.len() {
                    assert(g[j1] < n - 1);
                }
            }
            assert forall|i: int| 0 <= i < n && shapes[i] == shape implies g.push(
                (n - 1) as usize,
            ).contains(i as usize) by {
                if i < n - 1 {
                    let j = choose|j: int| 0 <= j < g.len() && g[j] == i as usize;
                    assert(g.push((n - 1) as usize)[j] == i as usize);
                }
            }
        }
    }
}

proof fn lemma_group_lens(shapes: Seq<Shape2D>, n: nat)
    requires
        n <= shapes.len(),
    ensures
        group_of(shapes, Shape2D::Square, n).len() + group_of(shapes, Shape2D::Circle, n).len()
            == n,
    decreases n,
{
    if n > 0 {
        lemma_group_lens(shapes, (n - 1) as nat);
    }
}

/// The number of instances that a sequence of draw calls draws in all.
pub open spec fn instance_total(draws: Seq<DrawCall>) -> nat
    decreases draws.len(),
{
    if draws.len() == 0 {
        0
    } else {
        instance_total(draws.drop_last()) + draws.last().instance_count as nat
    }
}

/// The shapes that a sequence of draw calls binds, one per call.
pub open spec fn draw_shapes(draws: Seq<DrawCall>) -> Seq<Shape2D> {
    draws.map_values(|d: DrawCall| d.shape)
}

/// Whether slot `t` of the instance buffer lies in the range of some draw call.
pub open spec fn slot_drawn(draws: Seq<DrawCall>, t: int) -> bool {
    exists|j: int|
        0 <= j < draws.len() && #[trigger] draws[j].first_instance <= t < draws[j].first_instance
            + draws[j].instance_count
}

/// The instance order and the draw calls, spelled out over the two shape groups.
proof fn lemma_batch_unfold(shapes: Seq<Shape2D>)
    requires
        shapes.len() <= MAX_SPRITES_PER_BATCH,
    ensures
        ({
            let gs = group(shapes, Shape2D::Square);
            let gc = group(shapes, Shape2D::Circle);
            let ds = DrawCall {
                shape: Shape2D::Square,
                first_instance: 0,
                instance_count: gs.len() as u32,
            };
            let dc = DrawCall {
                shape: Shape2D::Circle,
                first_instance: gs.len() as u32,
                instance_count: gc.len() as u32,
            };
            &&& gs.len() + gc.len() == shapes.len()
            &&& batch_order(shapes) == gs + gc
            &&& batch_draws(shapes) == if gs.len() == 0 && gc.len() == 0 {
                Seq::<DrawCall>::empty()
            } else if gs.len() == 0 {
                seq![dc]
            } else if gc.len() == 0 {
                seq![ds]
            } else {
                seq![ds, dc]
            }
        }),
{
    reveal_with_fuel(order_upto, 3);
    reveal_with_fuel(draws_upto, 3);
    lemma_group_lens(shapes, shapes.len());
    let gs = group(shapes, Shape2D::Square);
    assert(order_upto(shapes, 1) =~= gs);
    assert(batch_order(shapes) =~= gs + group(shapes, Shape2D::Circle));
    assert(draws_upto(shapes, 0) =~= Seq::<DrawCall>::empty());
    if gs.len() > 0 {
        assert(draws_upto(shapes, 1) =~= Seq::<DrawCall>::empty().push(
            DrawCall { shape: Shape2D::Square, first_instance: 0, instance_count: gs.len() as u32 },
        ));
    }
}

/// A shape occurs among the sprites exactly when its group is not empty.
proof fn lemma_group_nonempty(shapes: Seq<Shape2D>, shape: Shape2D)
    requires
        shapes.len() <= usize::MAX,
    ensures
        shapes.contains(shape) <==> group(shapes, shape).len() > 0,
{
    lemma_group_facts(shapes, shape, shapes.len());
    if shapes.contains(shape) {
        let i = choose|i: int| 0 <= i < shapes.len() && shapes[i] == shape;
        assert(group(shapes, shape).contains(i as usize));
    }
    if group(shapes, shape).len() > 0 {
        assert(shapes[group(shapes, shape)[0] as int] == shape);
    }
}

/// Batching issues one draw call per distinct shape among the sprites, never one
/// per sprite: the calls bind pairwise distinct shapes, a shape is bound exactly
/// when some sprite has it, and the instance counts of all calls add up to the
/// number of sprites.
pub proof fn lemma_batching_correct(shapes: Seq<Shape2D>)
    requires
        shapes.len() <= MAX_SPRITES_PER_BATCH,
    ensures
        batch_draws(shapes).len() == shapes.to_set().len(),
        draw_shapes(batch_draws(shapes)).no_duplicates(),
        forall|shape: Shape2D|
            shapes.contains(shape) <==> draw_shapes(batch_draws(shapes)).contains(shape),
        instance_total(batch_draws(shapes)) == shapes.len(),
{
    lemma_batch_unfold(shapes);
    lemma_group_nonempty(shapes, Shape2D::Square);
    lemma_group_nonempty(shapes, Shape2D::Circle);
    let draws = batch_draws(shapes);
    let ds = draw_shapes(draws);
    reveal_with_fuel(instance_total, 3);
    assert(draws.len() <= 2);
    if draws.len() == 2 {
        assert(draws.drop_last().drop_last() =~= Seq::<DrawCall>::empty());
    } else if draws.len() == 1 {
        assert(draws.drop_last() =~= Seq::<DrawCall>::empty());
    }
    assert forall|shape: Shape2D| shapes.contains(shape) <==> ds.contains(shape) by {
        if shapes.contains(shape) {
            match shape {
                Shape2D::Square => assert(ds[0] == shape),
                Shape2D::Circle => assert(ds[draws.len() - 1] == shape),
            }
        }
    }
    assert(ds.to_set() =~= shapes.to_set());
    ds.unique_seq_to_set();
}

/// The draw calls' instance ranges tile `[0, n)` for `n` sprites: they start at 0,
/// each begins where the one before it ends, none is empty, and the last ends at
/// `n`, so every slot lies in exactly one range. The instance order holds every
/// sprite exactly once, and each slot of a call's range holds a sprite of that
/// call's shape.
pub proof fn lemma_instance_ranges_partition(shapes: Seq<Shape2D>)
    requires
        shapes.len() <= MAX_SPRITES_PER_BATCH,
    ensures
        ({
            let order = batch_order(shapes);
            let draws = batch_draws(shapes);
            &&& draws.len() == 0 <==> shapes.len() == 0
            &&& draws.len() > 0 ==> draws[0].first_instance == 0
            &&& draws.len() > 0 ==> draws.last().first_instance + draws.last().instance_count
                == shapes.len()
            &&& forall|j: int|
                0 <= j < draws.len() - 1 ==> #[trigger] draws[j + 1].first_instance
                    == draws[j].first_instance + draws[j].instance_count
            &&& forall|j: int| 0 <= j < draws.len() ==> #[trigger] draws[j].instance_count > 0
            &&& forall|t: int| 0 <= t < shapes.len() ==> #[trigger] slot_drawn(draws, t)
            &&& forall|j1: int, j2: int|
                0 <= j1 < j2 < draws.len() ==> draws[j1].first_instance
                    + draws[j1].instance_count <= draws[j2].first_instance
            &&& order.len() == shapes.len()
            &&& order.no_duplicates()
            &&& forall|t: int| 0 <= t < order.len() ==> #[trigger] order[t] < shapes.len()
            &&& forall|j: int, t: int|
                0 <= j < draws.len() && draws[j].first_instance <= t < draws[j].first_instance
                    + draws[j].instance_count ==> shapes[order[t] as int] == draws[j].shape
        }),
{
    lemma_batch_unfold(shapes);
    let gs = group(shapes, Shape2D::Square);
    let gc = group(shapes, Shape2D::Circle);
    lemma_group_facts(shapes, Shape2D::Square, shapes.len());
    lemma_group_facts(shapes, Shape2D::Circle, shapes.len());
    let order = batch_order(shapes);
    assert forall|t: int| 0 <= t < order.len() implies #[trigger] order[t] < shapes.len() && (
    t < gs.len() ==> shapes[order[t] as int] == Shape2D::Square) && (t >= gs.len()
        ==> shapes[order[t] as int] == Shape2D::Circle) by {
        if t < gs.len() {
            assert(order[t] == gs[t]);
        } else {
            assert(order[t] == gc[t - gs.len()]);
        }
    }
    assert(gs.no_duplicates());
    assert(gc.no_duplicates());
    lemma_no_dup_in_concat(gs, gc);
    let draws = batch_draws(shapes);
    assert forall|t: int| 0 <= t < shapes.len() implies #[trigger] slot_drawn(draws, t) by {
        if t < gs.len() {
            assert(draws[0].first_instance <= t < draws[0].first_instance + draws[0].instance_count);
        } else {
            let j = draws.len() - 1;
            assert(draws[j].first_instance <= t < draws[j].first_instance + draws[j].instance_count);
        }
    }
}

/// Appends one shape's group to the instance order, with its draw call when it is not empty.
fn append_group(
    order: &mut Vec<usize>,
    draws: &mut Vec<DrawCall>,
    shape: Shape2D,
    group: Vec<usize>,
)
    requires
        old(order)@.len() + group@.len() <= MAX_SPRITES_PER_BATCH,
    ensures
        final(order)@ == old(order)@ + group@,
        final(draws)@ == if group@.len() == 0 {
            old(draws)@
        } else {
            old(draws)@.push(
                DrawCall {
                    shape,
                    first_instance: old(order)@.len() as u32,
                    instance_count: group@.len() as u32,
                },
            )
        },
{
    let mut group = group;
    if group.len() > 0 {
        draws.push(
            DrawCall {
                shape,
                first_instance: order.len() as u32,
                instance_count: group.len() as u32,
            },
        );
    }
    order.append(&mut group);
}

/// Lays out a frame's sprites, given by shape in input order, for instanced drawing:
/// sprites are grouped by shape (in input order within a group), the groups are
/// concatenated into one instance order, and each non-empty group gets one draw
/// call over its range. More sprites than the instance buffer holds is an error.
pub fn plan_batches(shapes: &Vec<Shape2D>) -> (r: Result<SpriteBatch, BatchError>)
    ensures
        match r {
            Ok(batch) => {
                &&& shapes@.len() <= MAX_SPRITES_PER_BATCH
                &&& batch.order@ == batch_order(shapes@)
                &&& batch.draws@ == batch_draws(shapes@)
            },
            Err(e) => {
                &&& shapes@.len() > MAX_SPRITES_PER_BATCH
                &&& e == (BatchError::CapacityExceeded {
                    requested: shapes@.len() as usize,
                    capacity: MAX_SPRITES_PER_BATCH,
                })
            },
        },
{
    let n = shapes.len();
    if n > MAX_SPRITES_PER_BATCH {
        return Err(BatchError::CapacityExceeded { requested: n, capacity: MAX_SPRITES_PER_BATCH });
    }
    let mut squares: Vec<usize> = Vec::new();
    let mut circles: Vec<usize> = Vec::new();
    let mut i: usize = 0;
    while i < n
        invariant
            n == shapes@.len(),
            i <= n,
            squares@ == group_of(shapes@, Shape2D::Square, i as nat),
            circles@ == group_of(shapes@, Shape2D::Circle, i as nat),
        decreases n - i,
    {
        match shapes[i] {
            Shape2D::Square => squares.push(i),
            Shape2D::Circle => circles.push(i),
        }
        i += 1;
    }
    proof {
        lemma_group_lens(shapes@, n as nat);
        reveal_with_fuel(order_upto, 3);
        reveal_with_fuel(draws_upto, 3);
    }
    let mut order: Vec<usize> = Vec::new();
    let mut draws: Vec<DrawCall> = Vec::new();
    append_group(&mut order, &mut draws, Shape2D::Square, squares);
    append_group(&mut order, &mut draws, Shape2D::Circle, circles);
    proof {
        assert(order@ =~= batch_order(shapes@));
    }
    Ok(SpriteBatch { order, draws })
}

} // verus!
