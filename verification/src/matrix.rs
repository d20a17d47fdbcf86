//! A sparse two-dimensional set of points, kept row by row in ascending
//! order of their coordinates.

use vstd::prelude::*;

verus! {

/// A value with a position that can be replaced.
pub trait PointTrait: Copy {
    /// The column.
    spec fn spec_x(&self) -> u16;

    /// The row.
    spec fn spec_y(&self) -> u16;

    /// The same value at another position.
    spec fn spec_with_x_y(&self, x: u16, y: u16) -> Self;

    fn x(&self) -> (r: u16)
        ensures
            r == self.spec_x(),
    ;

    fn y(&self) -> (r: u16)
        ensures
            r == self.spec_y(),
    ;

    fn with_x(&self, new_x: u16) -> (r: Self)
        ensures
            r == self.spec_with_x_y(new_x, self.spec_y()),
    ;

    fn with_y(&self, new_y: u16) -> (r: Self)
        ensures
            r == self.spec_with_x_y(self.spec_x(), new_y),
    ;

    fn with_x_y(&self, new_x: u16, new_y: u16) -> (r: Self)
        ensures
            r == self.spec_with_x_y(new_x, new_y),
    ;

    /// A moved value is at the position it was moved to.
    proof fn lemma_moved(&self, x: u16, y: u16)
        ensures
            self.spec_with_x_y(x, y).spec_x() == x,
            self.spec_with_x_y(x, y).spec_y() == y,
    ;
}

/// The row and the column of a point.
pub open spec fn position<I: PointTrait>(point: I) -> (u16, u16) {
    (point.spec_y(), point.spec_x())
}

/// Whether `a` comes before `b` in row-major order: in a lower row, or in
/// the same row at a lower column.
pub open spec fn comes_before<I: PointTrait>(a: I, b: I) -> bool {
    a.spec_y() < b.spec_y() || (a.spec_y() == b.spec_y() && a.spec_x() < b.spec_x())
}

/// Whether the points are in strictly ascending row-major order.
pub open spec fn ascending<I: PointTrait>(points: Seq<I>) -> bool {
    forall|i: int, j: int| 0 <= i < j < points.len() ==> comes_before(points[i], points[j])
}

/// The points by position, where a later point of the list replaces an
/// earlier one at the same position.
pub open spec fn as_map<I: PointTrait>(points: Seq<I>) -> Map<(u16, u16), I>
    decreases points.len(),
{
    if points.len() == 0 {
        Map::empty()
    } else {
        as_map(points.drop_last()).insert(position(points.last()), points.last())
    }
}

/// Every point of a list is found in its map at its position or was
/// replaced there, and the map holds nothing else.
pub proof fn lemma_as_map_domain<I: PointTrait>(points: Seq<I>)
    ensures
        forall|i: int|
            0 <= i < points.len() ==> as_map(points).dom().contains(#[trigger] position(points[i])),
        forall|k: (u16, u16)| #[trigger]
            as_map(points).dom().contains(k) ==> exists|i: int|
                0 <= i < points.len() && position(points[i]) == k && as_map(points)[k] == points[i],
    decreases points.len(),
{
    if points.len() > 0 {
        let shorter = points.drop_last();
        lemma_as_map_domain(shorter);
        assert forall|i: int| 0 <= i < points.len() implies as_map(points).dom().contains(
            #[trigger] position(points[i]),
        ) by {
            if i < points.len() - 1 {
                assert(shorter[i] == points[i]);
            }
        }
        assert forall|k: (u16, u16)| #[trigger] as_map(points).dom().contains(k) implies exists|
            i: int,
        | 0 <= i < points.len() && position(points[i]) == k && as_map(points)[k] == points[i] by {
            if k == position(points.last()) {
                assert(position(points[points.len() - 1]) == k);
            } else {
                assert(as_map(shorter).dom().contains(k));
                let i = choose|i: int|
                    0 <= i < shorter.len() && position(shorter[i]) == k && as_map(shorter)[k]
                        == shorter[i];
                assert(points[i] == shorter[i]);
            }
        }
    }
}

/// In an ascending list no position occurs twice, so its map holds every
/// point of it.
pub proof fn lemma_as_map_ascending<I: PointTrait>(points: Seq<I>)
    requires
        ascending(points),
    ensures
        forall|i: int|
            #![trigger points[i]]
            0 <= i < points.len() ==> as_map(points).dom().contains(position(points[i]))
                && as_map(points)[position(points[i])] == points[i],
    decreases points.len(),
{
    if points.len() > 0 {
        let shorter = points.drop_last();
        assert(ascending(shorter)) by {
            assert forall|i: int, j: int| 0 <= i < j < shorter.len() implies comes_before(
                shorter[i],
                shorter[j],
            ) by {
                assert(shorter[i] == points[i] && shorter[j] == points[j]);
            }
        }
        lemma_as_map_ascending(shorter);
        assert forall|i: int| #![trigger points[i]] 0 <= i < points.len() implies as_map(
            points,
        ).dom().contains(position(points[i])) && as_map(points)[position(points[i])]
            == points[i] by {
            if i < points.len() - 1 {
                assert(shorter[i] == points[i]);
                assert(comes_before(points[i], points[points.len() - 1]));
                assert(as_map(shorter).dom().contains(position(shorter[i])));
            }
        }
    }
}

/// Putting a point into an ascending list at its place adds it to the map.
proof fn lemma_insert_view<I: PointTrait>(points: Seq<I>, at: int, point: I)
    requires
        0 <= at <= points.len(),
        forall|j: int| at <= j < points.len() ==> position(points[j]) != position(point),
    ensures
        as_map(points.insert(at, point)) == as_map(points).insert(position(point), point),
    decreases points.len() - at,
{
    let longer = points.insert(at, point);
    if at == points.len() {
        assert(longer.drop_last() =~= points);
    } else {
        let shorter = points.drop_last();
        assert(longer.drop_last() =~= shorter.insert(at, point));
        assert(longer.last() == points.last());
        assert forall|j: int| at <= j < shorter.len() implies position(shorter[j]) != position(
            point,
        ) by {
            assert(shorter[j] == points[j]);
        }
        lemma_insert_view(shorter, at, point);
        assert(position(points[points.len() - 1]) != position(point));
        assert(as_map(longer) =~= as_map(points).insert(position(point), point));
    }
}

/// Replacing a point of a list by one at the same position, where no later
/// point is there, puts the new point into the map.
proof fn lemma_update_view<I: PointTrait>(points: Seq<I>, at: int, point: I)
    requires
        0 <= at < points.len(),
        position(points[at]) == position(point),
        forall|j: int| at < j < points.len() ==> position(points[j]) != position(point),
    ensures
        as_map(points.update(at, point)) == as_map(points).insert(position(point), point),
    decreases points.len() - at,
{
    let changed = points.update(at, point);
    let shorter = points.drop_last();
    if at == points.len() - 1 {
        assert(changed.drop_last() =~= shorter);
        assert(as_map(changed) =~= as_map(points).insert(position(point), point));
    } else {
        assert(changed.drop_last() =~= shorter.update(at, point));
        assert(changed.last() == points.last());
        assert forall|j: int| at < j < shorter.len() implies position(shorter[j]) != position(
            point,
        ) by {
            assert(shorter[j] == points[j]);
        }
        assert(shorter[at] == points[at]);
        lemma_update_view(shorter, at, point);
        assert(position(points[points.len() - 1]) != position(point));
        assert(as_map(changed) =~= as_map(points).insert(position(point), point));
    }
}

/// The point at a position among the cells, if there is one.
pub open spec fn cell_at<I: PointTrait>(cells: Seq<I>, row: u16, column: u16) -> Option<I> {
    if as_map(cells).dom().contains((row, column)) {
        Some(as_map(cells)[(row, column)])
    } else {
        None
    }
}

/// Whether `m` is the lowest column that holds one of the cells.
pub open spec fn is_lowest_column<I: PointTrait>(cells: Seq<I>, m: u16) -> bool {
    &&& exists|y: u16| as_map(cells).dom().contains((y, m))
    &&& forall|y: u16, x: u16| as_map(cells).dom().contains((y, x)) ==> m <= x
}

/// Whether `m` is the highest column that holds one of the cells.
pub open spec fn is_highest_column<I: PointTrait>(cells: Seq<I>, m: u16) -> bool {
    &&& exists|y: u16| as_map(cells).dom().contains((y, m))
    &&& forall|y: u16, x: u16| as_map(cells).dom().contains((y, x)) ==> x <= m
}

/// Whether `m` is the lowest row that holds one of the cells.
pub open spec fn is_lowest_row<I: PointTrait>(cells: Seq<I>, m: u16) -> bool {
    &&& exists|x: u16| as_map(cells).dom().contains((m, x))
    &&& forall|y: u16, x: u16| as_map(cells).dom().contains((y, x)) ==> m <= y
}

/// Whether `m` is the highest row that holds one of the cells.
pub open spec fn is_highest_row<I: PointTrait>(cells: Seq<I>, m: u16) -> bool {
    &&& exists|x: u16| as_map(cells).dom().contains((m, x))
    &&& forall|y: u16, x: u16| as_map(cells).dom().contains((y, x)) ==> y <= m
}

/// The lowest column that holds one of the cells.
pub open spec fn lowest_column<I: PointTrait>(cells: Seq<I>) -> u16 {
    choose|m: u16| is_lowest_column(cells, m)
}

/// The highest column that holds one of the cells.
pub open spec fn highest_column<I: PointTrait>(cells: Seq<I>) -> u16 {
    choose|m: u16| is_highest_column(cells, m)
}

/// The lowest row that holds one of the cells.
pub open spec fn lowest_row<I: PointTrait>(cells: Seq<I>) -> u16 {
    choose|m: u16| is_lowest_row(cells, m)
}

/// The highest row that holds one of the cells.
pub open spec fn highest_row<I: PointTrait>(cells: Seq<I>) -> u16 {
    choose|m: u16| is_highest_row(cells, m)
}

/// The cells of one row, in the order of the list.
pub open spec fn cells_in_row<I: PointTrait>(cells: Seq<I>, row: u16) -> Seq<I> {
    cells.filter(in_row::<I>(row))
}

/// The points of a list in ascending row-major order, a later point
/// replacing an earlier one at the same position.
pub open spec fn arranged<I: PointTrait>(points: Seq<I>) -> Seq<I> {
    choose|cells: Seq<I>| ascending(cells) && as_map(cells) == as_map(points)
}

/// Only one ascending list holds given points at given positions.
pub proof fn lemma_ascending_unique<I: PointTrait>(a: Seq<I>, b: Seq<I>)
    requires
        ascending(a),
        ascending(b),
        as_map(a) == as_map(b),
    ensures
        a == b,
    decreases a.len(),
{
    lemma_as_map_ascending(a);
    lemma_as_map_ascending(b);
    lemma_as_map_domain(a);
    lemma_as_map_domain(b);
    if a.len() == 0 {
        if b.len() > 0 {
            assert(as_map(b).dom().contains(position(b[0])));
        }
        assert(a =~= b);
    } else if b.len() == 0 {
        assert(as_map(a).dom().contains(position(a[0])));
    } else {
        let la = a.last();
        let lb = b.last();
        let ka = position(la);
        let kb = position(lb);
        assert(as_map(a).dom().contains(position(a[a.len() - 1])));
        assert(as_map(b).dom().contains(position(b[b.len() - 1])));
        let j = choose|j: int| 0 <= j < b.len() && position(b[j]) == ka;
        let i = choose|i: int| 0 <= i < a.len() && position(a[i]) == kb;
        if j < b.len() - 1 {
            assert(comes_before(b[j], lb));
            if i < a.len() - 1 {
                assert(comes_before(a[i], la));
            }
            assert(false);
        }
        assert(ka == kb);
        assert(as_map(a)[ka] == a[a.len() - 1]);
        assert(as_map(b)[kb] == b[b.len() - 1]);
        assert(la == lb);
        let sa = a.drop_last();
        let sb = b.drop_last();
        assert(ascending(sa)) by {
            assert forall|p: int, q: int| 0 <= p < q < sa.len() implies comes_before(
                sa[p],
                sa[q],
            ) by {
                assert(sa[p] == a[p] && sa[q] == a[q]);
            }
        }
        assert(ascending(sb)) by {
            assert forall|p: int, q: int| 0 <= p < q < sb.len() implies comes_before(
                sb[p],
                sb[q],
            ) by {
                assert(sb[p] == b[p] && sb[q] == b[q]);
            }
        }
        lemma_as_map_domain(sa);
        lemma_as_map_domain(sb);
        assert(!as_map(sa).dom().contains(ka)) by {
            if as_map(sa).dom().contains(ka) {
                let p = choose|p: int| 0 <= p < sa.len() && position(sa[p]) == ka;
                assert(sa[p] == a[p]);
                assert(comes_before(a[p], la));
            }
        }
        assert(!as_map(sb).dom().contains(kb)) by {
            if as_map(sb).dom().contains(kb) {
                let p = choose|p: int| 0 <= p < sb.len() && position(sb[p]) == kb;
                assert(sb[p] == b[p]);
                assert(comes_before(b[p], lb));
            }
        }
        assert(as_map(sa) =~= as_map(a).remove(ka));
        assert(as_map(sb) =~= as_map(b).remove(kb));
        lemma_ascending_unique(sa, sb);
        assert(a =~= sa.push(la));
        assert(b =~= sb.push(lb));
    }
}

/// The cells of the first `upto` rows, row after row.
pub open spec fn cells_of_rows<I: PointTrait>(rows: Seq<Row<I>>, upto: int) -> Seq<I>
    decreases upto,
{
    if upto <= 0 {
        Seq::empty()
    } else {
        cells_of_rows(rows, upto - 1) + rows[upto - 1].cells@
    }
}

/// The test that a point lies in the given row.
pub open spec fn in_row<I: PointTrait>(row: u16) -> spec_fn(I) -> bool {
    |point: I| point.spec_y() == row
}

/// The cells of one row, in ascending order of their columns.
pub struct Row<I: PointTrait> {
    pub cells: Vec<I>,
}

impl<I: PointTrait> Row<I> {
    /// A row without cells.
    pub fn new() -> (r: Self)
        ensures
            r.cells@.len() == 0,
    {
        Row { cells: Vec::new() }
    }

    /// The number of cells.
    pub fn len(&self) -> (r: usize)
        ensures
            r == self.cells@.len(),
    {
        self.cells.len()
    }
}

/// A sparse set of points: at most one point at each position, kept in
/// ascending row-major order.
pub struct Matrix<I: PointTrait> {
    cells: Vec<I>,
}

impl<I: PointTrait> View for Matrix<I> {
    type V = Map<(u16, u16), I>;

    /// The points by position: row first, then column.
    open spec fn view(&self) -> Map<(u16, u16), I> {
        as_map(self.ordered())
    }
}

impl<I: PointTrait> Matrix<I> {
    /// The points in row-major order.
    pub closed spec fn ordered(&self) -> Seq<I> {
        self.cells@
    }

    /// The points are in strictly ascending row-major order.
    pub open spec fn wf(&self) -> bool {
        ascending(self.ordered())
    }

    /// The point at a position, if there is one.
    pub open spec fn spec_get(&self, row: u16, column: u16) -> Option<I> {
        cell_at(self.ordered(), row, column)
    }

    /// The points of one row, in ascending order of their columns.
    pub open spec fn spec_row(&self, row: u16) -> Seq<I> {
        cells_in_row(self.ordered(), row)
    }

    /// Whether `m` is the lowest column that holds a point.
    pub open spec fn is_x_min(&self, m: u16) -> bool {
        is_lowest_column(self.ordered(), m)
    }

    /// Whether `m` is the highest column that holds a point.
    pub open spec fn is_x_max(&self, m: u16) -> bool {
        is_highest_column(self.ordered(), m)
    }

    /// Whether `m` is the lowest row that holds a point.
    pub open spec fn is_y_min(&self, m: u16) -> bool {
        is_lowest_row(self.ordered(), m)
    }

    /// Whether `m` is the highest row that holds a point.
    pub open spec fn is_y_max(&self, m: u16) -> bool {
        is_highest_row(self.ordered(), m)
    }

    /// Whether no position holds a point: every row is empty.
    pub open spec fn spec_is_empty(&self) -> bool {
        forall|y: u16, x: u16| !self@.dom().contains((y, x))
    }

    /// A matrix holds no point exactly if it has no cells.
    pub proof fn lemma_empty(&self)
        requires
            self.wf(),
        ensures
            self.spec_is_empty() <==> self.ordered().len() == 0,
    {
        self.lemma_cells();
        if self.cells@.len() > 0 {
            assert(self@.dom().contains(position(self.cells@[0])));
        }
    }

    /// What the stored cells say of the map.
    proof fn lemma_cells(&self)
        requires
            self.wf(),
        ensures
            forall|i: int|
                #![trigger self.cells@[i]]
                0 <= i < self.cells@.len() ==> self@.dom().contains(position(self.cells@[i]))
                    && self@[position(self.cells@[i])] == self.cells@[i],
            forall|k: (u16, u16)| #[trigger]
                self@.dom().contains(k) ==> exists|i: int|
                    0 <= i < self.cells@.len() && position(self.cells@[i]) == k,
    {
        lemma_as_map_ascending(self.cells@);
        lemma_as_map_domain(self.cells@);
    }

    /// The matrix of the given points: each at its own position, a later
    /// point replacing an earlier one at the same position.
    pub fn from_slice(points: &[I]) -> (r: Self)
        ensures
            r.wf(),
            r@ == as_map(points@),
            r.ordered() == arranged(points@),
    {
        let mut matrix = Matrix { cells: Vec::new() };
        let mut index: usize = 0;
        while index < points.len()
            invariant
                index <= points.len(),
                matrix.wf(),
                matrix@ == as_map(points@.subrange(0, index as int)),
            decreases points.len() - index,
        {
            let point = points[index];
            matrix.insert(point);
            proof {
                let longer = points@.subrange(0, index + 1);
                assert(longer.drop_last() =~= points@.subrange(0, index as int));
                assert(longer.last() == point);
            }
            index += 1;
        }
        proof {
            assert(points@.subrange(0, index as int) =~= points@);
            let chosen = arranged(points@);
            assert(ascending(matrix.cells@) && as_map(matrix.cells@) == as_map(points@));
            assert(ascending(chosen) && as_map(chosen) == as_map(points@));
            lemma_ascending_unique(matrix.cells@, chosen);
        }
        matrix
    }

    pub fn from_vec(points: Vec<I>) -> (r: Self)
        ensures
            r.wf(),
            r@ == as_map(points@),
            r.ordered() == arranged(points@),
    {
        Self::from_slice(points.as_slice())
    }

    /// The matrix of the cells of the given rows, taken row by row. Rows
    /// without cells add nothing.
    pub fn new(rows: Vec<Row<I>>) -> (r: Self)
        ensures
            r.wf(),
            r@ == as_map(cells_of_rows(rows@, rows@.len() as int)),
            r.ordered() == arranged(cells_of_rows(rows@, rows@.len() as int)),
            r.spec_is_empty() <==> forall|i: int| 0 <= i < rows@.len() ==> rows@[i].cells@.len() == 0,
            r.ordered().len() == 0 <==> r.spec_is_empty(),
            forall|i: int, j: int|
                0 <= i < rows@.len() && 0 <= j < rows@[i].cells@.len() ==> r@.dom().contains(
                    #[trigger] position(rows@[i].cells@[j]),
                ),
    {
        let mut matrix = Matrix { cells: Vec::new() };
        let mut index: usize = 0;
        while index < rows.len()
            invariant
                index <= rows.len(),
                matrix.wf(),
                matrix@ == as_map(cells_of_rows(rows@, index as int)),
                matrix.spec_is_empty() <==> forall|i: int|
                    0 <= i < index ==> rows@[i].cells@.len() == 0,
                forall|i: int, j: int|
                    0 <= i < index && 0 <= j < rows@[i].cells@.len() ==> matrix@.dom().contains(
                        #[trigger] position(rows@[i].cells@[j]),
                    ),
            decreases rows.len() - index,
        {
            let row = &rows[index];
            let mut column: usize = 0;
            let ghost was_empty = matrix.spec_is_empty();
            proof {
                assert(cells_of_rows(rows@, index as int) + row.cells@.subrange(0, 0)
                    =~= cells_of_rows(rows@, index as int));
            }
            while column < row.cells.len()
                invariant
                    column <= row.cells.len(),
                    index < rows.len(),
                    row == &rows@[index as int],
                    matrix.wf(),
                    matrix@ == as_map(
                        cells_of_rows(rows@, index as int) + row.cells@.subrange(0, column as int),
                    ),
                    matrix.spec_is_empty() <==> was_empty && column == 0,
                    forall|i: int, j: int|
                        0 <= i < index && 0 <= j < rows@[i].cells@.len()
                            ==> matrix@.dom().contains(#[trigger] position(rows@[i].cells@[j])),
                    forall|j: int|
                        0 <= j < column ==> matrix@.dom().contains(
                            #[trigger] position(row.cells@[j]),
                        ),
                decreases row.cells.len() - column,
            {
                let point = row.cells[column];
                matrix.insert(point);
                proof {
                    assert(matrix@.dom().contains(position(point)));
                    let longer = cells_of_rows(rows@, index as int) + row.cells@.subrange(
                        0,
                        column + 1,
                    );
                    assert(longer.drop_last() =~= cells_of_rows(rows@, index as int)
                        + row.cells@.subrange(0, column as int));
                    assert(longer.last() == point);
                }
                column += 1;
            }
            proof {
                if row.cells@.len() > 0 {
                    assert(!(rows@[index as int].cells@.len() == 0));
                }
                assert(row.cells@.subrange(0, column as int) =~= row.cells@);
            }
            index += 1;
        }
        proof {
            let all = cells_of_rows(rows@, rows@.len() as int);
            let chosen = arranged(all);
            assert(ascending(matrix.cells@) && as_map(matrix.cells@) == as_map(all));
            assert(ascending(chosen) && as_map(chosen) == as_map(all));
            lemma_ascending_unique(matrix.cells@, chosen);
            matrix.lemma_empty();
        }
        matrix
    }

    /// Puts the point at its position, replacing what was there.
    pub fn insert(&mut self, point: I)
        requires
            old(self).wf(),
        ensures
            final(self).wf(),
            final(self)@ == old(self)@.insert(position(point), point),
    {
        let x: u16 = point.x();
        let y: u16 = point.y();
        let mut at: usize = 0;
        while at < self.cells.len() && (self.cells[at].y() < y || (self.cells[at].y() == y
            && self.cells[at].x() < x))
            invariant
                at <= self.cells@.len(),
                self.cells@ == old(self).cells@,
                x == point.spec_x(),
                y == point.spec_y(),
                forall|j: int| 0 <= j < at ==> comes_before(self.cells@[j], point),
            decreases self.cells@.len() - at,
        {
            at += 1;
        }
        let ghost before = self.cells@;
        if at < self.cells.len() && self.cells[at].y() == y && self.cells[at].x() == x {
            proof {
                assert forall|j: int| at < j < before.len() implies position(before[j])
                    != position(point) by {
                    assert(comes_before(before[at as int], before[j]));
                }
                lemma_update_view(before, at as int, point);
            }
            self.cells.set(at, point);
            proof {
                assert forall|i: int, j: int| 0 <= i < j < self.cells@.len() implies comes_before(
                    self.cells@[i],
                    self.cells@[j],
                ) by {
                    assert(comes_before(before[i], before[j]));
                }
            }
        } else {
            proof {
                assert forall|j: int| at <= j < before.len() implies comes_before(
                    point,
                    before[j],
                ) by {
                    assert(!comes_before(before[at as int], point));
                    if at < j {
                        assert(comes_before(before[at as int], before[j]));
                    }
                }
                lemma_insert_view(before, at as int, point);
            }
            self.cells.insert(at, point);
            proof {
                assert forall|i: int, j: int| 0 <= i < j < self.cells@.len() implies comes_before(
                    self.cells@[i],
                    self.cells@[j],
                ) by {
                    if j < at {
                        assert(comes_before(before[i], before[j]));
                    } else if j == at {
                        assert(comes_before(before[i], point));
                    } else if i < at {
                        assert(comes_before(before[i], before[j - 1]));
                    } else if i == at {
                        assert(comes_before(point, before[j - 1]));
                    } else {
                        assert(comes_before(before[i - 1], before[j - 1]));
                    }
                }
            }
        }
    }

    /// A new matrix of the points that `callback` makes of the points of
    /// this one, taken in row-major order; where two of them come to lie at
    /// the same position, the later one stays.
    pub fn map<F: Fn(I) -> I>(&self, callback: F) -> (r: Self)
        requires
            self.wf(),
            forall|k: int|
                0 <= k < self.ordered().len() ==> call_requires(
                    callback,
                    (#[trigger] self.ordered()[k],),
                ),
        ensures
            r.wf(),
            exists|mapped: Seq<I>|
                {
                    &&& mapped.len() == self.ordered().len()
                    &&& forall|k: int|
                        0 <= k < mapped.len() ==> call_ensures(
                            callback,
                            (self.ordered()[k],),
                            #[trigger] mapped[k],
                        )
                    &&& r@ == as_map(mapped)
                    &&& r.ordered() == arranged(mapped)
                },
    {
        let mut temp_vec: Vec<I> = Vec::new();
        let mut index: usize = 0;
        while index < self.cells.len()
            invariant
                index <= self.cells.len(),
                temp_vec@.len() == index,
                forall|k: int|
                    0 <= k < self.cells@.len() ==> call_requires(
                        callback,
                        (#[trigger] self.cells@[k],),
                    ),
                forall|k: int|
                    0 <= k < index ==> call_ensures(
                        callback,
                        (self.cells@[k],),
                        #[trigger] temp_vec@[k],
                    ),
            decreases self.cells.len() - index,
        {
            let point = self.cells[index];
            temp_vec.push(callback(point));
            index += 1;
        }
        let ghost mapped = temp_vec@;
        let result = Matrix::from_vec(temp_vec);
        proof {
            assert(mapped.len() == self.ordered().len());
            assert(result@ == as_map(mapped));
            assert(result.ordered() == arranged(mapped));
        }
        result
    }

    /// A matrix of the same points.
    pub fn duplicate(&self) -> (r: Self)
        requires
            self.wf(),
        ensures
            r.wf(),
            r.ordered() == self.ordered(),
    {
        let result = Self::from_slice(self.cells.as_slice());
        proof {
            lemma_ascending_unique(result.cells@, self.cells@);
        }
        result
    }

    /// The place of the position among the stored cells, if a cell is there.
    fn find(&self, row: u16, column: u16) -> (r: Option<usize>)
        requires
            self.wf(),
        ensures
            match r {
                Some(i) => i < self.cells@.len() && self.spec_get(row, column) == Some(
                    self.cells@[i as int],
                ),
                None => self.spec_get(row, column) is None,
            },
    {
        let mut index: usize = 0;
        while index < self.cells.len()
            invariant
                index <= self.cells.len(),
                self.wf(),
                forall|j: int| 0 <= j < index ==> position(self.cells@[j]) != (row, column),
            decreases self.cells.len() - index,
        {
            if self.cells[index].y() == row && self.cells[index].x() == column {
                proof {
                    self.lemma_cells();
                    assert(self@[position(self.cells@[index as int])] == self.cells@[index as int]);
                }
                return Some(index);
            }
            index += 1;
        }
        proof {
            self.lemma_cells();
        }
        None
    }

    /// The point at the given row and column, if there is one.
    pub fn get(&self, row: u16, column: u16) -> (r: Option<I>)
        requires
            self.wf(),
        ensures
            r == self.spec_get(row, column),
    {
        match self.find(row, column) {
            Some(index) => Some(self.cells[index]),
            None => None,
        }
    }

    /// The cells of the given row in ascending order of their columns, or
    /// `None` where the row holds no point.
    pub fn get_row(&self, row: u16) -> (r: Option<Row<I>>)
        requires
            self.wf(),
        ensures
            match r {
                Some(found) => found.cells@ == self.spec_row(row) && found.cells@.len() > 0,
                None => self.spec_row(row).len() == 0,
            },
    {
        let mut found: Vec<I> = Vec::new();
        let mut index: usize = 0;
        proof {
            reveal(Seq::filter);
            assert(self.cells@.subrange(0, 0).len() == 0);
        }
        while index < self.cells.len()
            invariant
                index <= self.cells.len(),
                found@ == self.cells@.subrange(0, index as int).filter(in_row::<I>(row)),
            decreases self.cells.len() - index,
        {
            let point = self.cells[index];
            proof {
                reveal(Seq::filter);
                let longer = self.cells@.subrange(0, index + 1);
                assert(longer.len() == index + 1);
                assert(longer.drop_last() =~= self.cells@.subrange(0, index as int));
                assert(longer.last() == point);
            }
            if point.y() == row {
                found.push(point);
            }
            index += 1;
        }
        proof {
            assert(self.cells@.subrange(0, index as int) =~= self.cells@);
        }
        if found.len() == 0 {
            None
        } else {
            Some(Row { cells: found })
        }
    }

    /// Whether a point is at the given row and column.
    pub fn has(&self, row: u16, column: u16) -> (r: bool)
        requires
            self.wf(),
        ensures
            r == self@.dom().contains((row, column)),
    {
        self.find(row, column).is_some()
    }

    /// Whether the matrix holds no point.
    pub fn is_empty(&self) -> (r: bool)
        requires
            self.wf(),
        ensures
            r == self.spec_is_empty(),
            r == (self.ordered().len() == 0),
    {
        proof {
            self.lemma_cells();
            if self.cells@.len() > 0 {
                assert(self@.dom().contains(position(self.cells@[0])));
            }
        }
        self.cells.len() == 0
    }

    /// The highest column that holds a point; `None` for an empty matrix.
    pub fn x_max(&self) -> (r: Option<u16>)
        requires
            self.wf(),
        ensures
            match r {
                Some(m) => self.is_x_max(m) && m == highest_column(self.ordered()),
                None => self.spec_is_empty() && self.ordered().len() == 0,
            },
    {
        proof {
            self.lemma_cells();
        }
        if self.cells.len() == 0 {
            return None;
        }
        let mut x_max: u16 = self.cells[0].x();
        let ghost mut witness: int = 0;
        let mut index: usize = 1;
        while index < self.cells.len()
            invariant
                1 <= index <= self.cells.len(),
                0 <= witness < index,
                self.cells@[witness].spec_x() == x_max,
                forall|j: int| 0 <= j < index ==> self.cells@[j].spec_x() <= x_max,
            decreases self.cells.len() - index,
        {
            let current_x: u16 = self.cells[index].x();
            if x_max < current_x {
                x_max = current_x;
                proof {
                    witness = index as int;
                }
            }
            index += 1;
        }
        proof {
            self.lemma_cells();
            assert(self@.dom().contains(position(self.cells@[witness])));
            assert(self@.dom().contains((self.cells@[witness].spec_y(), x_max)));
            assert forall|y: u16, x: u16| self@.dom().contains((y, x)) implies x <= x_max by {
                let i = choose|i: int|
                    0 <= i < self.cells@.len() && position(self.cells@[i]) == (y, x);
                assert(self.cells@[i].spec_x() <= x_max);
            }
        }
        Some(x_max)
    }

    /// The highest row that holds a point; `None` for an empty matrix.
    pub fn y_max(&self) -> (r: Option<u16>)
        requires
            self.wf(),
        ensures
            match r {
                Some(m) => self.is_y_max(m) && m == highest_row(self.ordered()),
                None => self.spec_is_empty() && self.ordered().len() == 0,
            },
    {
        proof {
            self.lemma_cells();
        }
        let count: usize = self.cells.len();
        if count == 0 {
            return None;
        }
        let y_max: u16 = self.cells[count - 1].y();
        proof {
            let last = self.cells@[count - 1];
            assert(self@.dom().contains(position(last)));
            assert(self@.dom().contains((y_max, last.spec_x())));
            assert forall|y: u16, x: u16| self@.dom().contains((y, x)) implies y <= y_max by {
                let i = choose|i: int|
                    0 <= i < self.cells@.len() && position(self.cells@[i]) == (y, x);
                if i < count - 1 {
                    assert(comes_before(self.cells@[i], last));
                }
            }
        }
        Some(y_max)
    }

    /// The highest column and the highest row.
    pub fn x_y_max(&self) -> (r: Option<(u16, u16)>)
        requires
            self.wf(),
        ensures
            match r {
                Some((x, y)) => self.is_x_max(x) && self.is_y_max(y) && x == highest_column(
                    self.ordered(),
                ) && y == highest_row(self.ordered()),
                None => self.spec_is_empty() && self.ordered().len() == 0,
            },
    {
        match (self.x_max(), self.y_max()) {
            (Some(x), Some(y)) => Some((x, y)),
            _ => None,
        }
    }

    /// The lowest column that holds a point; `None` for an empty matrix.
    pub fn x_min(&self) -> (r: Option<u16>)
        requires
            self.wf(),
        ensures
            match r {
                Some(m) => self.is_x_min(m) && m == lowest_column(self.ordered()),
                None => self.spec_is_empty() && self.ordered().len() == 0,
            },
    {
        proof {
            self.lemma_cells();
        }
        if self.cells.len() == 0 {
            return None;
        }
        let mut x_min: u16 = self.cells[0].x();
        let ghost mut witness: int = 0;
        let mut index: usize = 1;
        while index < self.cells.len()
            invariant
                1 <= index <= self.cells.len(),
                0 <= witness < index,
                self.cells@[witness].spec_x() == x_min,
                forall|j: int| 0 <= j < index ==> x_min <= self.cells@[j].spec_x(),
            decreases self.cells.len() - index,
        {
            let current_x: u16 = self.cells[index].x();
            if x_min > current_x {
                x_min = current_x;
                proof {
                    witness = index as int;
                }
            }
            index += 1;
        }
        proof {
            self.lemma_cells();
            assert(self@.dom().contains(position(self.cells@[witness])));
            assert(self@.dom().contains((self.cells@[witness].spec_y(), x_min)));
            assert forall|y: u16, x: u16| self@.dom().contains((y, x)) implies x_min <= x by {
                let i = choose|i: int|
                    0 <= i < self.cells@.len() && position(self.cells@[i]) == (y, x);
                assert(x_min <= self.cells@[i].spec_x());
            }
        }
        Some(x_min)
    }

    /// The lowest row that holds a point; `None` for an empty matrix.
    pub fn y_min(&self) -> (r: Option<u16>)
        requires
            self.wf(),
        ensures
            match r {
                Some(m) => self.is_y_min(m) && m == lowest_row(self.ordered()),
                None => self.spec_is_empty() && self.ordered().len() == 0,
            },
    {
        proof {
            self.lemma_cells();
        }
        if self.cells.len() == 0 {
            return None;
        }
        let y_min: u16 = self.cells[0].y();
        proof {
            let first = self.cells@[0];
            assert(self@.dom().contains(position(first)));
            assert(self@.dom().contains((y_min, first.spec_x())));
            assert forall|y: u16, x: u16| self@.dom().contains((y, x)) implies y_min <= y by {
                let i = choose|i: int|
                    0 <= i < self.cells@.len() && position(self.cells@[i]) == (y, x);
                if 0 < i {
                    assert(comes_before(first, self.cells@[i]));
                }
            }
        }
        Some(y_min)
    }

    /// The lowest column and the lowest row.
    pub fn x_y_min(&self) -> (r: Option<(u16, u16)>)
        requires
            self.wf(),
        ensures
            match r {
                Some((x, y)) => self.is_x_min(x) && self.is_y_min(y) && x == lowest_column(
                    self.ordered(),
                ) && y == lowest_row(self.ordered()),
                None => self.spec_is_empty() && self.ordered().len() == 0,
            },
    {
        match (self.x_min(), self.y_min()) {
            (Some(x), Some(y)) => Some((x, y)),
            _ => None,
        }
    }
}

/// Every point that a matrix was made of lies within the bounds of the
/// matrix: between its lowest and highest column, and between its lowest
/// and highest row.
pub proof fn lemma_bounds_cover_points<I: PointTrait>(
    matrix: Matrix<I>,
    points: Seq<I>,
    i: int,
    x_min: u16,
    x_max: u16,
    y_min: u16,
    y_max: u16,
)
    requires
        matrix@ == as_map(points),
        0 <= i < points.len(),
        matrix.is_x_min(x_min),
        matrix.is_x_max(x_max),
        matrix.is_y_min(y_min),
        matrix.is_y_max(y_max),
    ensures
        x_min <= points[i].spec_x() <= x_max,
        y_min <= points[i].spec_y() <= y_max,
{
    lemma_as_map_domain(points);
    assert(matrix@.dom().contains(position(points[i])));
    assert(matrix@.dom().contains((points[i].spec_y(), points[i].spec_x())));
}

} // verus!
