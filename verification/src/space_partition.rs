use vstd::prelude::*;

use crate::utils::Rect;

verus! {

/// The axis along which an area splits its sub-areas.
#[derive(Debug, Clone, Copy, PartialEq, Eq, Structural)]
pub enum Partition {
    Horizontal,
    Vertical,
}

/// How much of the split axis a sub-area claims: a fixed length, or an
/// equal share of whatever the fixed claims leave over.
#[derive(Debug, Clone, Copy, PartialEq, Eq, Structural)]
pub enum SizeConstraint {
    Fixed(u16),
    Rest,
}

/// A node of the declarative layout tree: a name, how its children split
/// it, its own size claim towards its parent, and the children.
#[derive(Debug)]
pub struct Area {
    pub name: String,
    pub partition: Option<Partition>,
    pub size: Option<SizeConstraint>,
    pub areas: Vec<Area>,
}

impl Area {
    /// A leaf with the given name: no partition, no size claim, no children.
    pub fn new(name: &str) -> (r: Area)
        ensures
            r.name@ == name@,
            r.partition is None,
            r.size is None,
            r.areas@.len() == 0,
    {
        Area { name: name.to_owned(), partition: None, size: None, areas: Vec::new() }
    }

    /// The same area, split along the given axis.
    pub fn with_partition(self, partition: Partition) -> (r: Area)
        ensures
            r.name == self.name,
            r.partition == Some(partition),
            r.size == self.size,
            r.areas == self.areas,
    {
        Area { partition: Some(partition), ..self }
    }

    /// The same area, claiming the given size from its parent.
    pub fn with_size_constraint(self, size: SizeConstraint) -> (r: Area)
        ensures
            r.name == self.name,
            r.partition == self.partition,
            r.size == Some(size),
            r.areas == self.areas,
    {
        Area { size: Some(size), ..self }
    }

    /// The same area with one more child, appended after the others.
    pub fn add_sub_area(self, area: Area) -> (r: Area)
        ensures
            r.name == self.name,
            r.partition == self.partition,
            r.size == self.size,
            r.areas@ == self.areas@.push(area),
    {
        let mut r = self;
        r.areas.push(area);
        r
    }
}

/// Where along the split axis the first sub-area begins.
pub open spec fn axis_offset(partition: Option<Partition>, space: Rect) -> int {
    match partition {
        Some(Partition::Horizontal) => space.x as int,
        Some(Partition::Vertical) => space.y as int,
        None => 0,
    }
}

/// How much of the split axis there is to hand out.
pub open spec fn axis_total(partition: Option<Partition>, space: Rect) -> int {
    match partition {
        Some(Partition::Horizontal) => space.width as int,
        Some(Partition::Vertical) => space.height as int,
        None => 0,
    }
}

/// What one sub-area adds to the sum of fixed size claims.
pub open spec fn fixed_claim(sub: Area) -> int {
    match sub.size {
        Some(SizeConstraint::Fixed(s)) => s as int,
        _ => 0,
    }
}

/// What one sub-area adds to the count of rest claims.
pub open spec fn rest_claim(sub: Area) -> int {
    match sub.size {
        Some(SizeConstraint::Rest) => 1,
        _ => 0,
    }
}

/// The sum of the fixed size claims of a row of sub-areas.
pub open spec fn fixed_sum(subs: Seq<Area>) -> int
    decreases subs.len(),
{
    if subs.len() == 0 {
        0
    } else {
        fixed_sum(subs.drop_last()) + fixed_claim(subs.last())
    }
}

/// How many of a row of sub-areas claim a share of the rest.
pub open spec fn rest_count(subs: Seq<Area>) -> int
    decreases subs.len(),
{
    if subs.len() == 0 {
        0
    } else {
        rest_count(subs.drop_last()) + rest_claim(subs.last())
    }
}

/// The equal share handed to each rest claimer: what the fixed claims
/// leave of the axis, divided by the number of claimers; nothing when
/// nobody claims the rest.
pub open spec fn rest_size_of(area: Area, space: Rect) -> int {
    if rest_count(area.areas@) > 0 {
        (axis_total(area.partition, space) - fixed_sum(area.areas@)) / rest_count(area.areas@)
    } else {
        0
    }
}

/// The length a sub-area is assigned along the split axis.
pub open spec fn entry_size(sub: Area, rest_size: int, total: int) -> int {
    match sub.size {
        Some(SizeConstraint::Fixed(s)) => s as int,
        Some(SizeConstraint::Rest) => rest_size,
        None => total,
    }
}

/// How far the running offset moves past a sub-area of the given size.
pub open spec fn axis_advance(partition: Option<Partition>, size: int) -> int {
    match partition {
        Some(_) => size,
        None => 0,
    }
}

/// The rectangle a sub-area receives: its assigned length along the split
/// axis starting at the running offset, the full space across it.
pub open spec fn sub_rect(partition: Option<Partition>, space: Rect, offset: int, size: int) -> Rect {
    match partition {
        Some(Partition::Horizontal) => Rect {
            x: offset as u16,
            y: space.y,
            width: size as u16,
            height: space.height,
        },
        Some(Partition::Vertical) => Rect {
            x: space.x,
            y: offset as u16,
            width: space.width,
            height: size as u16,
        },
        None => Rect { x: space.x, y: space.y, width: space.width, height: space.height },
    }
}

/// The inputs on which the layout walk stays inside the machine's ranges:
/// the fixed claims fit the axis, and no running offset leaves `u16`,
/// here and in every sub-tree that is walked.
pub open spec fn layout_ok(area: Area, space: Rect) -> bool
    decreases area, area.areas@.len() + 1,
{
    &&& area.areas@.len() <= u16::MAX
    &&& fixed_sum(area.areas@) <= axis_total(area.partition, space)
    &&& layout_ok_from(area, space, 0, axis_offset(area.partition, space))
}

/// `layout_ok` for the sub-areas from index `i` on, the running offset
/// standing at `offset`.
pub open spec fn layout_ok_from(area: Area, space: Rect, i: int, offset: int) -> bool
    decreases area, area.areas@.len() - i,
{
    if 0 <= i < area.areas@.len() {
        let sub = area.areas@[i];
        let size = entry_size(sub, rest_size_of(area, space), axis_total(area.partition, space));
        let rect = sub_rect(area.partition, space, offset, size);
        &&& offset + axis_advance(area.partition, size) <= u16::MAX
        &&& (sub.areas@.len() > 0 ==> layout_ok(sub, rect))
        &&& layout_ok_from(area, space, i + 1, offset + axis_advance(area.partition, size))
    } else {
        true
    }
}

/// The named rectangles the layout walk produces, in the order they are
/// recorded: each sub-area's own rectangle, then — for one with children —
/// everything its own walk produces, then the following sub-areas.
pub open spec fn layout_entries(area: Area, space: Rect) -> Seq<(Seq<char>, Rect)>
    decreases area, area.areas@.len() + 1,
{
    layout_entries_from(area, space, 0, axis_offset(area.partition, space))
}

/// `layout_entries` for the sub-areas from index `i` on, the running
/// offset standing at `offset`.
pub open spec fn layout_entries_from(area: Area, space: Rect, i: int, offset: int) -> Seq<
    (Seq<char>, Rect),
>
    decreases area, area.areas@.len() - i,
{
    if 0 <= i < area.areas@.len() {
        let sub = area.areas@[i];
        let size = entry_size(sub, rest_size_of(area, space), axis_total(area.partition, space));
        let rect = sub_rect(area.partition, space, offset, size);
        seq![(sub.name@, rect)] + (if sub.areas@.len() > 0 {
            layout_entries(sub, rect)
        } else {
            Seq::empty()
        }) + layout_entries_from(area, space, i + 1, offset + axis_advance(area.partition, size))
    } else {
        Seq::empty()
    }
}

/// The map a row of named rectangles denotes: a later entry under the same
/// name overrides an earlier one.
pub open spec fn assoc_map(entries: Seq<(Seq<char>, Rect)>) -> Map<Seq<char>, Rect>
    decreases entries.len(),
{
    if entries.len() == 0 {
        Map::empty()
    } else {
        assoc_map(entries.drop_last()).insert(entries.last().0, entries.last().1)
    }
}

/// The computed layout: named rectangles in recording order, read as a
/// map in which the last entry under a name wins.
pub struct Layout {
    pub entries: Vec<(String, Rect)>,
}

impl Layout {
    /// The entries with their names as character sequences.
    pub open spec fn entry_views(self) -> Seq<(Seq<char>, Rect)> {
        self.entries@.map_values(|e: (String, Rect)| (e.0@, e.1))
    }

    /// The layout as a map from names to rectangles.
    pub open spec fn to_map(self) -> Map<Seq<char>, Rect> {
        assoc_map(self.entry_views())
    }

    /// The rectangle recorded under the given name, if any; the last entry
    /// under a name wins.
    pub fn get(&self, name: &str) -> (r: Option<Rect>)
        ensures
            r == (if self.to_map().contains_key(name@) {
                Some(self.to_map()[name@])
            } else {
                None::<Rect>
            }),
    {
        let key: String = name.to_owned();
        let mut i: usize = self.entries.len();
        while i > 0
            invariant
                i <= self.entries@.len(),
                key@ == name@,
                forall|k: int|
                    i <= k < self.entries@.len() ==> (#[trigger] self.entries@[k]).0@ != name@,
            decreases i,
        {
            i = i - 1;
            let found = self.entries[i].0 == key;
            if found {
                let rect = self.entries[i].1;
                proof {
                    let views = self.entry_views();
                    lemma_assoc_map_skips_suffix(views, i + 1, name@);
                    assert(views.take(i + 1).last() == views[i as int]);
                    assert(views.take(i + 1).drop_last() =~= views.take(i as int));
                    assert(self.to_map().contains_key(name@));
                    assert(self.to_map()[name@] == rect);
                }
                return Some(rect);
            }
        }
        proof {
            lemma_assoc_map_skips_suffix(self.entry_views(), 0, name@);
            assert(self.entry_views().take(0) =~= Seq::empty());
        }
        None
    }
}

/// The fixed sum is a sum of non-negative claims and the rest count a
/// count, so neither is negative and the count never tops the row length.
proof fn lemma_claims_bounds(subs: Seq<Area>)
    ensures
        fixed_sum(subs) >= 0,
        0 <= rest_count(subs) <= subs.len(),
    decreases subs.len(),
{
    if subs.len() > 0 {
        lemma_claims_bounds(subs.drop_last());
    }
}

/// Extending a prefix by one sub-area adds exactly that sub-area's claims.
proof fn lemma_claims_take_step(subs: Seq<Area>, i: int)
    requires
        0 <= i < subs.len(),
    ensures
        fixed_sum(subs.take(i + 1)) == fixed_sum(subs.take(i)) + fixed_claim(subs[i]),
        rest_count(subs.take(i + 1)) == rest_count(subs.take(i)) + rest_claim(subs[i]),
{
    assert(subs.take(i + 1).drop_last() =~= subs.take(i));
    assert(subs.take(i + 1).last() == subs[i]);
}

/// A prefix's fixed sum never tops the whole row's.
proof fn lemma_fixed_sum_prefix_le(subs: Seq<Area>, i: int)
    requires
        0 <= i <= subs.len(),
    ensures
        fixed_sum(subs.take(i)) <= fixed_sum(subs),
    decreases subs.len() - i,
{
    if i == subs.len() {
        assert(subs.take(i) =~= subs);
    } else {
        lemma_claims_take_step(subs, i);
        lemma_fixed_sum_prefix_le(subs, i + 1);
        assert(fixed_claim(subs[i]) >= 0);
    }
}

/// Walks the layout tree as the declarative splitter prescribes: a first
/// pass sums the fixed claims and counts the rest claimers to price one
/// rest share, a second pass hands each sub-area its rectangle along the
/// split axis, records it under the sub-area's name, and walks each
/// sub-area that has children inside its own rectangle. A later entry
/// overrides an earlier one of the same name.
pub fn calculate_layout(area: &Area, available_space: Rect) -> (r: Layout)
    requires
        layout_ok(*area, available_space),
    ensures
        r.entry_views() == layout_entries(*area, available_space),
        r.to_map() == assoc_map(layout_entries(*area, available_space)),
    decreases *area,
{
    let mut entries: Vec<(String, Rect)> = Vec::new();
    let total_space: u16 = match area.partition {
        Some(Partition::Horizontal) => available_space.width,
        Some(Partition::Vertical) => available_space.height,
        None => 0,
    };
    let n = area.areas.len();
    let mut space_remaining: u16 = total_space;
    let mut rest_areas_count: u16 = 0;
    let mut i: usize = 0;
    proof {
        assert(area.areas@.take(0) =~= Seq::empty());
    }
    while i < n
        invariant
            n == area.areas@.len(),
            i <= n,
            n <= u16::MAX,
            total_space == axis_total(area.partition, available_space),
            fixed_sum(area.areas@) <= total_space,
            space_remaining == total_space - fixed_sum(area.areas@.take(i as int)),
            rest_areas_count == rest_count(area.areas@.take(i as int)),
        decreases n - i,
    {
        proof {
            lemma_claims_take_step(area.areas@, i as int);
            lemma_fixed_sum_prefix_le(area.areas@, i + 1);
            lemma_claims_bounds(area.areas@.take(i + 1));
        }
        match area.areas[i].size {
            Some(SizeConstraint::Fixed(size)) => {
                space_remaining = space_remaining - size;
            },
            Some(SizeConstraint::Rest) => {
                rest_areas_count = rest_areas_count + 1;
            },
            _ => {},
        }
        i = i + 1;
    }
    proof {
        assert(area.areas@.take(n as int) =~= area.areas@);
    }
    let rest_area_size: u16 = if rest_areas_count > 0 {
        space_remaining / rest_areas_count
    } else {
        0
    };
    proof {
        assert(rest_area_size == rest_size_of(*area, available_space));
    }
    let mut current_offset: u16 = match area.partition {
        Some(Partition::Horizontal) => available_space.x,
        Some(Partition::Vertical) => available_space.y,
        None => 0,
    };
    let mut j: usize = 0;
    while j < n
        invariant
            n == area.areas@.len(),
            j <= n,
            total_space == axis_total(area.partition, available_space),
            rest_area_size == rest_size_of(*area, available_space),
            layout_ok_from(*area, available_space, j as int, current_offset as int),
            entries@.map_values(|e: (String, Rect)| (e.0@, e.1)) + layout_entries_from(
                *area,
                available_space,
                j as int,
                current_offset as int,
            ) == layout_entries(*area, available_space),
        decreases n - j,
    {
        let ghost prev_views = entries@.map_values(|e: (String, Rect)| (e.0@, e.1));
        let ghost off = current_offset as int;
        let sub = &area.areas[j];
        let size: u16 = match sub.size {
            Some(SizeConstraint::Fixed(s)) => s,
            Some(SizeConstraint::Rest) => rest_area_size,
            None => total_space,
        };
        let area_rect: Rect = match area.partition {
            Some(Partition::Horizontal) => Rect::new(
                current_offset,
                available_space.y,
                size,
                available_space.height,
            ),
            Some(Partition::Vertical) => Rect::new(
                available_space.x,
                current_offset,
                available_space.width,
                size,
            ),
            None => Rect::new(
                available_space.x,
                available_space.y,
                available_space.width,
                available_space.height,
            ),
        };
        proof {
            assert(size as int == entry_size(
                area.areas@[j as int],
                rest_size_of(*area, available_space),
                axis_total(area.partition, available_space),
            ));
            assert(area_rect == sub_rect(area.partition, available_space, off, size as int));
        }
        let ghost child_views = if sub.areas@.len() > 0 {
            layout_entries(area.areas@[j as int], area_rect)
        } else {
            Seq::<(Seq<char>, Rect)>::empty()
        };
        entries.push((sub.name.clone(), area_rect));
        if sub.areas.len() > 0 {
            let sub_layout = calculate_layout(sub, area_rect);
            let mut sub_entries = sub_layout.entries;
            entries.append(&mut sub_entries);
        }
        let advance: u16 = match area.partition {
            Some(_) => size,
            None => 0,
        };
        proof {
            let f = |e: (String, Rect)| (e.0@, e.1);
            assert(entries@.map_values(f) =~= prev_views + seq![
                (area.areas@[j as int].name@, area_rect),
            ] + child_views);
            assert(layout_entries_from(*area, available_space, j as int, off) == seq![
                (area.areas@[j as int].name@, area_rect),
            ] + child_views + layout_entries_from(
                *area,
                available_space,
                j + 1,
                off + advance as int,
            ));
            assert(entries@.map_values(f) + layout_entries_from(
                *area,
                available_space,
                j + 1,
                off + advance as int,
            ) =~= prev_views + layout_entries_from(*area, available_space, j as int, off));
        }
        current_offset = current_offset + advance;
        j = j + 1;
    }
    proof {
        let f = |e: (String, Rect)| (e.0@, e.1);
        assert(entries@.map_values(f) + layout_entries_from(
            *area,
            available_space,
            n as int,
            current_offset as int,
        ) =~= entries@.map_values(f));
    }
    Layout { entries }
}

/// Entries from index `i` on that never carry the name `n` play no part in
/// what the map holds under `n`.
proof fn lemma_assoc_map_skips_suffix(entries: Seq<(Seq<char>, Rect)>, i: int, n: Seq<char>)
    requires
        0 <= i <= entries.len(),
        forall|k: int| i <= k < entries.len() ==> (#[trigger] entries[k]).0 != n,
    ensures
        assoc_map(entries).contains_key(n) == assoc_map(entries.take(i)).contains_key(n),
        assoc_map(entries).contains_key(n) ==> assoc_map(entries)[n] == assoc_map(entries.take(i))[n],
    decreases entries.len() - i,
{
    if i < entries.len() {
        let shorter = entries.drop_last();
        assert(entries.last().0 != n);
        assert forall|k: int| i <= k < shorter.len() implies (#[trigger] shorter[k]).0 != n by {
            assert(shorter[k] == entries[k]);
        }
        lemma_assoc_map_skips_suffix(shorter, i, n);
        assert(shorter.take(i) =~= entries.take(i));
    } else {
        assert(entries.take(i) =~= entries);
    }
}

} // verus!
