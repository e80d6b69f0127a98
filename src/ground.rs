use vstd::prelude::*;
use crate::level::{BoxCollider, Level, BOULDER_HEIGHT, PIXEL, box_around};

verus! {

/// The static geometry of a level's ground: the platforms between the holes,
/// a floor far below that catches what falls, and a wall at each end.
pub struct Ground {
    pub platforms: Vec<BoxCollider>,
    pub floor: BoxCollider,
    pub left_wall: BoxCollider,
    pub right_wall: BoxCollider,
}

/// Where the ground starts, before the starting point.
pub open spec fn track_start() -> int {
    -400 * PIXEL
}

/// Where the ground ends, past the finish line.
pub open spec fn track_end(finish_line: int) -> int {
    finish_line + 400 * PIXEL
}

/// Holes are non-empty, sorted, do not overlap, and lie between the start
/// and the finish line.
pub open spec fn holes_well_formed(holes: Seq<(i64, i64)>, finish_line: int) -> bool {
    &&& 0 <= finish_line
    &&& forall|i: int| 0 <= i < holes.len() ==> 0 <= #[trigger] holes[i].0 < holes[i].1 <= finish_line
    &&& forall|i: int| 0 <= i < holes.len() - 1 ==> #[trigger] holes[i].1 <= holes[i + 1].0
}

/// `x` lies between the track's start and its end.
pub open spec fn on_track(finish_line: int, x: int) -> bool {
    track_start() <= x < track_end(finish_line)
}

/// `x` lies in the half-open interval `[p.0, p.1)`.
pub open spec fn in_interval(p: (i64, i64), x: int) -> bool {
    p.0 <= x < p.1
}

/// The hole boundaries in order, between the track's two ends.
pub open spec fn border_points_spec(holes: Seq<(i64, i64)>, finish_line: int) -> Seq<i64> {
    Seq::new(
        2 * holes.len() + 2,
        |k: int|
            if k == 0 {
                track_start() as i64
            } else if k == 2 * holes.len() + 1 {
                track_end(finish_line) as i64
            } else if k % 2 == 1 {
                holes[(k - 1) / 2].0
            } else {
                holes[(k - 1) / 2].1
            },
    )
}

/// Consecutive points taken two at a time: `(p[0], p[1]), (p[2], p[3]), ...`.
pub open spec fn pairs_spec(points: Seq<i64>) -> Seq<(i64, i64)> {
    Seq::new(points.len() / 2, |i: int| (points[2 * i], points[2 * i + 1]))
}

/// The stretches of ground: from each border point at an even position to
/// the next one.
pub open spec fn ground_segments_spec(holes: Seq<(i64, i64)>, finish_line: int) -> Seq<(i64, i64)> {
    pairs_spec(border_points_spec(holes, finish_line))
}

pub open spec fn platform_box(segment: (i64, i64)) -> BoxCollider {
    BoxCollider {
        left: segment.0,
        bottom: (-BOULDER_HEIGHT) as i64,
        right: segment.1,
        top: BOULDER_HEIGHT,
        rotation: 0,
    }
}

pub open spec fn floor_spec() -> BoxCollider {
    box_around(3600 * PIXEL, -200 * PIXEL, 4000 * PIXEL, BOULDER_HEIGHT as int, 0)
}

pub open spec fn wall_spec(x: int) -> BoxCollider {
    box_around(x, 300 * PIXEL, 300 * PIXEL, BOULDER_HEIGHT as int, 2)
}

/// The border points of the ground: the track's start, each hole's start and
/// end in order, and the track's end.
pub fn border_points(holes: &Vec<(i64, i64)>, finish_line: i64) -> (r: Vec<i64>)
    requires
        -0x1000_0000_0000 <= finish_line <= 0x1000_0000_0000,
    ensures
        r@ == border_points_spec(holes@, finish_line as int),
{
    let mut points: Vec<i64> = Vec::new();
    let mut i: usize = 0;
    while i < holes.len()
        invariant
            i <= holes.len(),
            points@.len() == 2 * i,
            forall|k: int|
                0 <= k < 2 * i ==> #[trigger] points@[k] == border_points_spec(
                    holes@,
                    finish_line as int,
                )[k + 1],
        decreases holes.len() - i,
    {
        let hole = holes[i];
        points.push(hole.0);
        points.push(hole.1);
        i = i + 1;
    }
    points.push(finish_line + 400 * PIXEL);
    points.insert(0, -400 * PIXEL);
    assert(points@ =~= border_points_spec(holes@, finish_line as int));
    points
}

/// Splits the points by the parity of their position into starts and ends,
/// and zips the two.
pub fn pair_borders(points: &Vec<i64>) -> (r: Vec<(i64, i64)>)
    ensures
        r@ == pairs_spec(points@),
{
    let mut starting_points: Vec<i64> = Vec::new();
    let mut ending_points: Vec<i64> = Vec::new();
    let mut index: usize = 0;
    while index < points.len()
        invariant
            index <= points.len(),
            starting_points@.len() == (index + 1) / 2,
            ending_points@.len() == index / 2,
            forall|i: int| 0 <= i < starting_points@.len() ==> #[trigger] starting_points@[i] == points@[2 * i],
            forall|i: int| 0 <= i < ending_points@.len() ==> #[trigger] ending_points@[i] == points@[2 * i + 1],
        decreases points.len() - index,
    {
        if index % 2 == 0 {
            starting_points.push(points[index]);
        } else {
            ending_points.push(points[index]);
        }
        index = index + 1;
    }
    let mut borders: Vec<(i64, i64)> = Vec::new();
    let mut i: usize = 0;
    while i < starting_points.len() && i < ending_points.len()
        invariant
            i <= ending_points@.len(),
            ending_points@.len() == points@.len() / 2,
            starting_points@.len() == (points@.len() + 1) / 2,
            forall|j: int| 0 <= j < starting_points@.len() ==> #[trigger] starting_points@[j] == points@[2 * j],
            forall|j: int| 0 <= j < ending_points@.len() ==> #[trigger] ending_points@[j] == points@[2 * j + 1],
            borders@.len() == i,
            forall|j: int| 0 <= j < i ==> #[trigger] borders@[j] == (points@[2 * j], points@[2 * j + 1]),
        decreases ending_points.len() - i,
    {
        borders.push((starting_points[i], ending_points[i]));
        i = i + 1;
    }
    assert(borders@ =~= pairs_spec(points@));
    borders
}

/// The stretches of ground around the holes, as `(start, end)` pairs.
pub fn ground_segments(holes: &Vec<(i64, i64)>, finish_line: i64) -> (r: Vec<(i64, i64)>)
    requires
        -0x1000_0000_0000 <= finish_line <= 0x1000_0000_0000,
    ensures
        r@ == ground_segments_spec(holes@, finish_line as int),
{
    let points = border_points(holes, finish_line);
    pair_borders(&points)
}

/// The ground of a level: a platform for each stretch between holes, the
/// floor, and the two end walls.
pub fn spawn_ground(level: &Level) -> (r: Ground)
    ensures
        r.platforms@ == ground_segments_spec(level.holes_spec(), level.finish_line_spec()).map_values(
            |s: (i64, i64)| platform_box(s),
        ),
        r.floor == floor_spec(),
        r.left_wall == wall_spec(track_start()),
        r.right_wall == wall_spec(track_end(level.finish_line_spec())),
{
    let finish_line = level.finish_line();
    let holes = level.holes();
    let segments = ground_segments(&holes, finish_line);
    let mut platforms: Vec<BoxCollider> = Vec::new();
    let mut i: usize = 0;
    while i < segments.len()
        invariant
            i <= segments@.len(),
            platforms@.len() == i,
            forall|j: int| 0 <= j < i ==> #[trigger] platforms@[j] == platform_box(segments@[j]),
        decreases segments.len() - i,
    {
        let (start, end) = segments[i];
        platforms.push(
            BoxCollider {
                left: start,
                bottom: -BOULDER_HEIGHT,
                right: end,
                top: BOULDER_HEIGHT,
                rotation: 0,
            },
        );
        i = i + 1;
    }
    assert(platforms@ =~= segments@.map_values(|s: (i64, i64)| platform_box(s)));
    let floor = crate::level::build_collider(3600 * PIXEL, -200 * PIXEL, 4000 * PIXEL, BOULDER_HEIGHT, 0);
    let left_wall = crate::level::build_collider(-400 * PIXEL, 300 * PIXEL, 300 * PIXEL, BOULDER_HEIGHT, 2);
    let right_wall = crate::level::build_collider(
        finish_line + 400 * PIXEL,
        300 * PIXEL,
        300 * PIXEL,
        BOULDER_HEIGHT,
        2,
    );
    Ground { platforms, floor, left_wall, right_wall }
}

/// Each point `p[k]` is at most every later point.
pub open spec fn sorted(points: Seq<i64>) -> bool {
    forall|i: int, j: int| 0 <= i <= j < points.len() ==> points[i] <= points[j]
}

proof fn lemma_border_points_sorted(holes: Seq<(i64, i64)>, finish_line: int)
    requires
        holes_well_formed(holes, finish_line),
        finish_line <= 0x1000_0000_0000,
    ensures
        sorted(border_points_spec(holes, finish_line)),
{
    let b = border_points_spec(holes, finish_line);
    assert forall|k: int| 0 <= k < b.len() - 1 implies #[trigger] b[k] <= b[k + 1] by {
        if k == 0 {
            if holes.len() > 0 {
                assert(0 <= holes[0].0);
            }
        } else if k % 2 == 1 {
            assert(holes[(k - 1) / 2].0 < holes[(k - 1) / 2].1);
        } else {
            let i = (k - 1) / 2;
            assert(holes[i].1 <= finish_line);
            if i + 1 < holes.len() {
                assert(holes[i].1 <= holes[i + 1].0);
            }
        }
    }
    lemma_adjacent_sorted(b, b.len() as int);
}

proof fn lemma_adjacent_sorted(b: Seq<i64>, n: int)
    requires
        0 <= n <= b.len(),
        forall|k: int| 0 <= k < b.len() - 1 ==> #[trigger] b[k] <= b[k + 1],
    ensures
        forall|i: int, j: int| 0 <= i <= j < n ==> b[i] <= b[j],
    decreases n,
{
    if n > 0 {
        lemma_adjacent_sorted(b, n - 1);
        assert forall|i: int, j: int| 0 <= i <= j < n implies b[i] <= b[j] by {
            if j == n - 1 && i < j {
                assert(b[j - 1] <= b[j]);
            }
        }
    }
}

/// Some piece `[b[k], b[k + 1])` of a sorted sequence holds each point
/// between its ends.
proof fn lemma_piece_exists(b: Seq<i64>, n: int, x: int)
    requires
        2 <= n <= b.len(),
        sorted(b),
        b[0] <= x < b[n - 1],
    ensures
        exists|k: int| 0 <= k < n - 1 && #[trigger] b[k] <= x < b[k + 1],
    decreases n,
{
    if x < b[n - 2] {
        lemma_piece_exists(b, n - 1, x);
        let k = choose|k: int| 0 <= k < n - 2 && #[trigger] b[k] <= x < b[k + 1];
        assert(0 <= k < n - 1 && b[k] <= x < b[k + 1]);
    } else {
        assert(b[n - 2] <= x < b[n - 1]);
    }
}

/// How the ground segments and the holes sit on the border points.
pub open spec fn laid_on(b: Seq<i64>, segments: Seq<(i64, i64)>, holes: Seq<(i64, i64)>) -> bool {
    &&& b.len() == 2 * holes.len() + 2
    &&& segments.len() == holes.len() + 1
    &&& forall|i: int| 0 <= i < segments.len() ==> #[trigger] segments[i] == (b[2 * i], b[2 * i + 1])
    &&& forall|j: int| 0 <= j < holes.len() ==> #[trigger] holes[j] == (b[2 * j + 1], b[2 * j + 2])
}

proof fn lemma_laid_on_borders(holes: Seq<(i64, i64)>, finish_line: int)
    ensures
        laid_on(
            border_points_spec(holes, finish_line),
            ground_segments_spec(holes, finish_line),
            holes,
        ),
{
    let b = border_points_spec(holes, finish_line);
    assert forall|j: int| 0 <= j < holes.len() implies #[trigger] holes[j] == (
        b[2 * j + 1],
        b[2 * j + 2],
    ) by {
        assert((2 * j + 1 - 1) / 2 == j);
        assert((2 * j + 2 - 1) / 2 == j);
    }
}

proof fn lemma_tiles_cover(b: Seq<i64>, segments: Seq<(i64, i64)>, holes: Seq<(i64, i64)>, x: int)
    requires
        sorted(b),
        laid_on(b, segments, holes),
        b[0] <= x < b[b.len() - 1],
    ensures
        (exists|i: int| 0 <= i < segments.len() && #[trigger] in_interval(segments[i], x)) || (exists|
            j: int,
        | 0 <= j < holes.len() && #[trigger] in_interval(holes[j], x)),
{
    lemma_piece_exists(b, b.len() as int, x);
    let k = choose|k: int| 0 <= k < b.len() - 1 && #[trigger] b[k] <= x < b[k + 1];
    if k % 2 == 0 {
        assert(segments[k / 2] == (b[k], b[k + 1]));
        assert(in_interval(segments[k / 2], x));
    } else {
        assert(holes[(k - 1) / 2] == (b[k], b[k + 1]));
        assert(in_interval(holes[(k - 1) / 2], x));
    }
}

proof fn lemma_tiles_inside(b: Seq<i64>, segments: Seq<(i64, i64)>, holes: Seq<(i64, i64)>)
    requires
        sorted(b),
        laid_on(b, segments, holes),
    ensures
        forall|x: int, i: int|
            0 <= i < segments.len() && #[trigger] in_interval(segments[i], x) ==> b[0] <= x < b[b.len()
                - 1],
        forall|x: int, j: int|
            0 <= j < holes.len() && #[trigger] in_interval(holes[j], x) ==> b[0] <= x < b[b.len() - 1],
{
    let n = b.len() as int;
    assert forall|x: int, i: int|
        0 <= i < segments.len() && #[trigger] in_interval(segments[i], x) implies b[0] <= x < b[n
        - 1] by {
        assert(segments[i] == (b[2 * i], b[2 * i + 1]));
        assert(b[0] <= b[2 * i]);
        assert(b[2 * i + 1] <= b[n - 1]);
    }
    assert forall|x: int, j: int|
        0 <= j < holes.len() && #[trigger] in_interval(holes[j], x) implies b[0] <= x < b[n - 1] by {
        assert(holes[j] == (b[2 * j + 1], b[2 * j + 2]));
        assert(b[0] <= b[2 * j + 1]);
        assert(b[2 * j + 2] <= b[n - 1]);
    }
}

proof fn lemma_tiles_disjoint(b: Seq<i64>, segments: Seq<(i64, i64)>, holes: Seq<(i64, i64)>)
    requires
        sorted(b),
        laid_on(b, segments, holes),
    ensures
        forall|x: int, i: int, j: int|
            0 <= i < segments.len() && 0 <= j < segments.len() && #[trigger] in_interval(segments[i], x)
                && #[trigger] in_interval(segments[j], x) ==> i == j,
        forall|x: int, i: int, j: int|
            0 <= i < holes.len() && 0 <= j < holes.len() && #[trigger] in_interval(holes[i], x)
                && #[trigger] in_interval(holes[j], x) ==> i == j,
        forall|x: int, i: int, j: int|
            0 <= i < segments.len() && 0 <= j < holes.len() && #[trigger] in_interval(segments[i], x)
                && #[trigger] in_interval(holes[j], x) ==> false,
{
    assert forall|x: int, i: int, j: int|
        0 <= i < segments.len() && 0 <= j < segments.len() && #[trigger] in_interval(segments[i], x)
            && #[trigger] in_interval(segments[j], x) implies i == j by {
        assert(segments[i] == (b[2 * i], b[2 * i + 1]));
        assert(segments[j] == (b[2 * j], b[2 * j + 1]));
        if i < j {
            assert(b[2 * i + 1] <= b[2 * j]);
        } else if j < i {
            assert(b[2 * j + 1] <= b[2 * i]);
        }
    }
    assert forall|x: int, i: int, j: int|
        0 <= i < holes.len() && 0 <= j < holes.len() && #[trigger] in_interval(holes[i], x)
            && #[trigger] in_interval(holes[j], x) implies i == j by {
        assert(holes[i] == (b[2 * i + 1], b[2 * i + 2]));
        assert(holes[j] == (b[2 * j + 1], b[2 * j + 2]));
        if i < j {
            assert(b[2 * i + 2] <= b[2 * j + 1]);
        } else if j < i {
            assert(b[2 * j + 2] <= b[2 * i + 1]);
        }
    }
    assert forall|x: int, i: int, j: int|
        0 <= i < segments.len() && 0 <= j < holes.len() && #[trigger] in_interval(segments[i], x)
            && #[trigger] in_interval(holes[j], x) implies false by {
        assert(segments[i] == (b[2 * i], b[2 * i + 1]));
        assert(holes[j] == (b[2 * j + 1], b[2 * j + 2]));
        if i <= j {
            assert(b[2 * i + 1] <= b[2 * j + 1]);
        } else {
            assert(b[2 * j + 2] <= b[2 * i]);
        }
    }
}

/// The ground of a track and its holes tile the track: each point between
/// the track's start and its end lies in a ground segment or in a hole, in
/// no two of them, and none of them reaches outside the track.
pub proof fn lemma_ground_and_holes_tile_track(holes: Seq<(i64, i64)>, finish_line: i64)
    requires
        holes_well_formed(holes, finish_line as int),
        finish_line <= 0x1000_0000_0000,
    ensures
        ({
            let segments = ground_segments_spec(holes, finish_line as int);
            &&& forall|x: int|
                #[trigger] on_track(finish_line as int, x) ==> (exists|i: int|
                    0 <= i < segments.len() && #[trigger] in_interval(segments[i], x)) || (exists|
                    j: int,
                | 0 <= j < holes.len() && #[trigger] in_interval(holes[j], x))
            &&& forall|x: int, i: int|
                0 <= i < segments.len() && #[trigger] in_interval(segments[i], x) ==> on_track(
                    finish_line as int,
                    x,
                )
            &&& forall|x: int, j: int|
                0 <= j < holes.len() && #[trigger] in_interval(holes[j], x) ==> on_track(
                    finish_line as int,
                    x,
                )
            &&& forall|x: int, i: int, j: int|
                0 <= i < segments.len() && 0 <= j < segments.len() && #[trigger] in_interval(
                    segments[i],
                    x,
                ) && #[trigger] in_interval(segments[j], x) ==> i == j
            &&& forall|x: int, i: int, j: int|
                0 <= i < holes.len() && 0 <= j < holes.len() && #[trigger] in_interval(holes[i], x)
                    && #[trigger] in_interval(holes[j], x) ==> i == j
            &&& forall|x: int, i: int, j: int|
                0 <= i < segments.len() && 0 <= j < holes.len() && #[trigger] in_interval(
                    segments[i],
                    x,
                ) && #[trigger] in_interval(holes[j], x) ==> false
        }),
{
    let f = finish_line as int;
    let b = border_points_spec(holes, f);
    let segments = ground_segments_spec(holes, f);
    lemma_border_points_sorted(holes, f);
    lemma_laid_on_borders(holes, f);
    assert(b[0] == track_start());
    assert(b[b.len() - 1] == track_end(f));
    assert forall|x: int| #[trigger] on_track(f, x) implies (exists|i: int|
        0 <= i < segments.len() && #[trigger] in_interval(segments[i], x)) || (exists|j: int|
        0 <= j < holes.len() && #[trigger] in_interval(holes[j], x)) by {
        lemma_tiles_cover(b, segments, holes, x);
    }
    lemma_tiles_inside(b, segments, holes);
    lemma_tiles_disjoint(b, segments, holes);
}

/// The holes of every level are well formed, so its ground tiles its track.
pub proof fn lemma_level_holes_well_formed(level: Level)
    ensures
        holes_well_formed(level.holes_spec(), level.finish_line_spec()),
{
}

} // verus!
