//! Per-frame scene aggregation.
//!
//! Each frame, every active world entity contributes point, directional
//! and spot lights. The aggregator concatenates the contributions in
//! entity iteration order — never reordering, never deduplicating — and
//! pads every category up to its fixed capacity with a caller-chosen
//! zero-contribution record, so the resulting arrays always have the exact
//! shape the GPU-side uniform buffers expect. Live counts accompany the
//! arrays so a shader knows how many leading entries are meaningful.
//!
//! A category whose live count exceeds its capacity is a fatal
//! configuration error: aggregation reports it as `CapacityExceeded`
//! instead of silently truncating, because clipped lights would render
//! incorrectly with no diagnostic.
//!
//! The light record type is a parameter: the core never reads inside a
//! light, it only counts, concatenates and pads, so the driver can use
//! whatever GPU-layout record it needs.

use vstd::prelude::*;

verus! {

/// Hard capacity of the point-light array of a frame descriptor.
pub const POINT_LIGHT_CAPACITY: usize = 128;

/// Hard capacity of the directional-light array of a frame descriptor.
pub const DIRECTIONAL_LIGHT_CAPACITY: usize = 16;

/// Hard capacity of the spot-light array of a frame descriptor.
pub const SPOT_LIGHT_CAPACITY: usize = 128;

/// The three light categories a frame descriptor carries.
#[derive(Debug, Copy, Clone, PartialEq, Eq, Structural)]
pub enum LightCategory {
    Point,
    Directional,
    Spot,
}

/// The fixed capacity of a category's array.
pub open spec fn spec_capacity_of(cat: LightCategory) -> usize {
    match cat {
        LightCategory::Point => POINT_LIGHT_CAPACITY,
        LightCategory::Directional => DIRECTIONAL_LIGHT_CAPACITY,
        LightCategory::Spot => SPOT_LIGHT_CAPACITY,
    }
}

/// The fixed capacity of a category's array.
pub fn capacity_of(cat: LightCategory) -> (c: usize)
    ensures
        c == spec_capacity_of(cat),
{
    match cat {
        LightCategory::Point => POINT_LIGHT_CAPACITY,
        LightCategory::Directional => DIRECTIONAL_LIGHT_CAPACITY,
        LightCategory::Spot => SPOT_LIGHT_CAPACITY,
    }
}

/// A category held more live lights than its array can carry. `count` is
/// the full live count that was gathered, so the diagnostic names the
/// actual scene load, not just the overflow.
#[derive(Debug, Copy, Clone, PartialEq, Eq, Structural)]
pub struct CapacityExceeded {
    pub category: LightCategory,
    pub count: usize,
}

/// One world entity's per-frame light contribution.
#[derive(Debug)]
pub struct Entity<L> {
    pub point_lights: Vec<L>,
    pub directional_lights: Vec<L>,
    pub spot_lights: Vec<L>,
}

/// The lights an entity contributes to one category.
pub open spec fn category_lights<L>(e: Entity<L>, cat: LightCategory) -> Seq<L> {
    match cat {
        LightCategory::Point => e.point_lights@,
        LightCategory::Directional => e.directional_lights@,
        LightCategory::Spot => e.spot_lights@,
    }
}

/// All lights of one category gathered over the entities in iteration
/// order.
pub open spec fn gathered<L>(entities: Seq<Entity<L>>, cat: LightCategory) -> Seq<L>
    decreases entities.len(),
{
    if entities.len() == 0 {
        Seq::empty()
    } else {
        category_lights(entities[0], cat) + gathered(entities.drop_first(), cat)
    }
}

/// Aggregation is order-preserving: the lights gathered from one run of
/// entities followed by another are exactly the lights of the first run
/// followed by the lights of the second — never reordered, never
/// deduplicated.
pub proof fn lemma_gathered_append<L>(a: Seq<Entity<L>>, b: Seq<Entity<L>>, cat: LightCategory)
    ensures
        gathered(a + b, cat) == gathered(a, cat) + gathered(b, cat),
    decreases a.len(),
{
    if a.len() == 0 {
        assert(a + b =~= b);
        assert(gathered(a, cat) + gathered(b, cat) =~= gathered(b, cat));
    } else {
        assert((a + b).drop_first() =~= a.drop_first() + b);
        lemma_gathered_append(a.drop_first(), b, cat);
        assert(category_lights(a[0], cat) + (gathered(a.drop_first(), cat) + gathered(b, cat))
            =~= (category_lights(a[0], cat) + gathered(a.drop_first(), cat)) + gathered(b, cat));
        assert((a + b)[0] == a[0]);
    }
}

/// A single entity contributes exactly its own lights.
pub proof fn lemma_gathered_singleton<L>(e: Entity<L>, cat: LightCategory)
    ensures
        gathered(seq![e], cat) == category_lights(e, cat),
{
    let s = seq![e];
    assert(s[0] == e);
    assert(s.drop_first() =~= Seq::<Entity<L>>::empty());
    assert(gathered(s.drop_first(), cat) == Seq::<L>::empty());
    assert(category_lights(e, cat) + Seq::<L>::empty() =~= category_lights(e, cat));
}

/// In particular, for two entities in iteration order the gathered lights
/// are the first entity's lights followed by the second's.
pub proof fn lemma_gathered_two<L>(e1: Entity<L>, e2: Entity<L>, cat: LightCategory)
    ensures
        gathered(seq![e1, e2], cat) == category_lights(e1, cat) + category_lights(e2, cat),
{
    assert(seq![e1, e2] =~= seq![e1] + seq![e2]);
    lemma_gathered_append(seq![e1], seq![e2], cat);
    lemma_gathered_singleton(e1, cat);
    lemma_gathered_singleton(e2, cat);
}

/// Extending the gathered run by one entity appends exactly that entity's
/// lights.
pub proof fn lemma_gathered_snoc<L>(entities: Seq<Entity<L>>, cat: LightCategory, i: int)
    requires
        0 <= i < entities.len(),
    ensures
        gathered(entities.take(i + 1), cat)
            == gathered(entities.take(i), cat) + category_lights(entities[i], cat),
{
    assert(entities.take(i + 1) =~= entities.take(i) + seq![entities[i]]);
    lemma_gathered_append(entities.take(i), seq![entities[i]], cat);
    lemma_gathered_singleton(entities[i], cat);
}

/// `arr` is `live` padded with `fill` records up to exactly `capacity`
/// entries.
pub open spec fn padded<L>(live: Seq<L>, capacity: int, fill: L, arr: Seq<L>) -> bool {
    &&& arr.len() == capacity
    &&& arr.take(live.len() as int) == live
    &&& forall|i: int| 0 <= i < live.len() ==> arr[i] == live[i]
    &&& forall|i: int| live.len() <= i < capacity ==> arr[i] == fill
}

/// One frame's aggregated scene data: three light arrays, each filled to
/// its fixed capacity, with the live count of meaningful leading entries.
#[derive(Debug, PartialEq)]
pub struct FrameDescriptor<L> {
    pub point_lights: Vec<L>,
    pub point_count: usize,
    pub directional_lights: Vec<L>,
    pub directional_count: usize,
    pub spot_lights: Vec<L>,
    pub spot_count: usize,
}

impl<L> FrameDescriptor<L> {
    /// Every array has exactly its capacity's length and its live count
    /// never exceeds the capacity.
    pub open spec fn well_formed(self) -> bool {
        &&& self.point_lights@.len() == POINT_LIGHT_CAPACITY
        &&& self.point_count <= POINT_LIGHT_CAPACITY
        &&& self.directional_lights@.len() == DIRECTIONAL_LIGHT_CAPACITY
        &&& self.directional_count <= DIRECTIONAL_LIGHT_CAPACITY
        &&& self.spot_lights@.len() == SPOT_LIGHT_CAPACITY
        &&& self.spot_count <= SPOT_LIGHT_CAPACITY
    }

    /// The descriptor is exactly the aggregation of `entities`: each
    /// category's array is the gathered lights in entity iteration order,
    /// padded with `fill`, and each live count is the gathered length.
    pub open spec fn matches_scene(self, entities: Seq<Entity<L>>, fill: L) -> bool {
        &&& self.point_count == gathered(entities, LightCategory::Point).len()
        &&& padded(
            gathered(entities, LightCategory::Point),
            POINT_LIGHT_CAPACITY as int,
            fill,
            self.point_lights@,
        )
        &&& self.directional_count == gathered(entities, LightCategory::Directional).len()
        &&& padded(
            gathered(entities, LightCategory::Directional),
            DIRECTIONAL_LIGHT_CAPACITY as int,
            fill,
            self.directional_lights@,
        )
        &&& self.spot_count == gathered(entities, LightCategory::Spot).len()
        &&& padded(
            gathered(entities, LightCategory::Spot),
            SPOT_LIGHT_CAPACITY as int,
            fill,
            self.spot_lights@,
        )
    }
}

/// Concatenate one category's lights over the entities, in iteration
/// order.
fn concat_category<L: Copy>(entities: &Vec<Entity<L>>, cat: LightCategory) -> (out: Vec<L>)
    ensures
        out@ == gathered(entities@, cat),
{
    let mut out: Vec<L> = Vec::new();
    let mut i: usize = 0;
    while i < entities.len()
        invariant
            i <= entities@.len(),
            out@ == gathered(entities@.take(i as int), cat),
        decreases entities@.len() - i,
    {
        let lights: &Vec<L> = match cat {
            LightCategory::Point => &entities[i].point_lights,
            LightCategory::Directional => &entities[i].directional_lights,
            LightCategory::Spot => &entities[i].spot_lights,
        };
        let mut j: usize = 0;
        while j < lights.len()
            invariant
                j <= lights@.len(),
                i < entities@.len(),
                lights@ == category_lights(entities@[i as int], cat),
                out@ == gathered(entities@.take(i as int), cat) + lights@.take(j as int),
            decreases lights@.len() - j,
        {
            out.push(lights[j]);
            assert(lights@.take(j + 1) =~= lights@.take(j as int).push(lights@[j as int]));
            assert(out@ =~= gathered(entities@.take(i as int), cat) + lights@.take(j + 1));
            j = j + 1;
        }
        proof {
            lemma_gathered_snoc(entities@, cat, i as int);
            assert(lights@.take(lights@.len() as int) =~= lights@);
            assert(out@ =~= gathered(entities@.take(i + 1), cat));
        }
        i = i + 1;
    }
    proof {
        assert(entities@.take(entities@.len() as int) =~= entities@);
    }
    out
}

/// Append `fill` records until the array holds exactly `capacity`
/// entries, leaving the live prefix untouched.
fn pad_to_capacity<L: Copy>(v: &mut Vec<L>, capacity: usize, fill: L)
    requires
        old(v)@.len() <= capacity,
    ensures
        final(v)@.len() == capacity,
        final(v)@.take(old(v)@.len() as int) == old(v)@,
        forall|i: int| 0 <= i < old(v)@.len() ==> final(v)@[i] == old(v)@[i],
        forall|i: int| old(v)@.len() <= i < capacity ==> final(v)@[i] == fill,
{
    let ghost live = v@;
    proof {
        assert(live.take(live.len() as int) =~= live);
    }
    while v.len() < capacity
        invariant
            live.len() <= v@.len() <= capacity,
            v@.take(live.len() as int) == live,
            forall|i: int| live.len() <= i < v@.len() ==> v@[i] == fill,
        decreases capacity - v@.len(),
    {
        v.push(fill);
        assert(v@.take(live.len() as int) =~= live);
    }
}

/// Merge the per-entity light contributions of one frame into a single
/// frame descriptor.
///
/// The lights of each category are concatenated in entity iteration order
/// and padded with `fill` — the caller's zero-contribution record — up to
/// the category's fixed capacity. If any category's live count exceeds its
/// capacity, the first such category (checked point, then directional,
/// then spot) is reported as `CapacityExceeded` together with the full
/// live count, and no descriptor is produced.
pub fn aggregate<L: Copy>(entities: &Vec<Entity<L>>, fill: L) -> (r: Result<
    FrameDescriptor<L>,
    CapacityExceeded,
>)
    ensures
        r is Ok <==> {
            &&& gathered(entities@, LightCategory::Point).len() <= POINT_LIGHT_CAPACITY
            &&& gathered(entities@, LightCategory::Directional).len()
                <= DIRECTIONAL_LIGHT_CAPACITY
            &&& gathered(entities@, LightCategory::Spot).len() <= SPOT_LIGHT_CAPACITY
        },
        r matches Ok(d) ==> d.matches_scene(entities@, fill) && d.well_formed(),
        gathered(entities@, LightCategory::Point).len() > POINT_LIGHT_CAPACITY ==> r == Err::<
            FrameDescriptor<L>,
            CapacityExceeded,
        >(
            CapacityExceeded {
                category: LightCategory::Point,
                count: gathered(entities@, LightCategory::Point).len() as usize,
            },
        ),
        gathered(entities@, LightCategory::Point).len() <= POINT_LIGHT_CAPACITY && gathered(
            entities@,
            LightCategory::Directional,
        ).len() > DIRECTIONAL_LIGHT_CAPACITY ==> r == Err::<
            FrameDescriptor<L>,
            CapacityExceeded,
        >(
            CapacityExceeded {
                category: LightCategory::Directional,
                count: gathered(entities@, LightCategory::Directional).len() as usize,
            },
        ),
        gathered(entities@, LightCategory::Point).len() <= POINT_LIGHT_CAPACITY && gathered(
            entities@,
            LightCategory::Directional,
        ).len() <= DIRECTIONAL_LIGHT_CAPACITY && gathered(
            entities@,
            LightCategory::Spot,
        ).len() > SPOT_LIGHT_CAPACITY ==> r == Err::<FrameDescriptor<L>, CapacityExceeded>(
            CapacityExceeded {
                category: LightCategory::Spot,
                count: gathered(entities@, LightCategory::Spot).len() as usize,
            },
        ),
{
    let mut point_lights = concat_category(entities, LightCategory::Point);
    let mut directional_lights = concat_category(entities, LightCategory::Directional);
    let mut spot_lights = concat_category(entities, LightCategory::Spot);

    if point_lights.len() > POINT_LIGHT_CAPACITY {
        return Err(
            CapacityExceeded { category: LightCategory::Point, count: point_lights.len() },
        );
    }
    if directional_lights.len() > DIRECTIONAL_LIGHT_CAPACITY {
        return Err(
            CapacityExceeded {
                category: LightCategory::Directional,
                count: directional_lights.len(),
            },
        );
    }
    if spot_lights.len() > SPOT_LIGHT_CAPACITY {
        return Err(CapacityExceeded { category: LightCategory::Spot, count: spot_lights.len() });
    }

    let point_count = point_lights.len();
    let directional_count = directional_lights.len();
    let spot_count = spot_lights.len();
    pad_to_capacity(&mut point_lights, POINT_LIGHT_CAPACITY, fill);
    pad_to_capacity(&mut directional_lights, DIRECTIONAL_LIGHT_CAPACITY, fill);
    pad_to_capacity(&mut spot_lights, SPOT_LIGHT_CAPACITY, fill);

    Ok(
        FrameDescriptor {
            point_lights,
            point_count,
            directional_lights,
            directional_count,
            spot_lights,
            spot_count,
        },
    )
}

} // verus!
