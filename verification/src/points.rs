//! The named point store a controller node exposes: one typed, timestamped
//! value per hierarchical path. A point's value type is fixed when the
//! point is created and never changes across the store's lifetime.

use vstd::prelude::*;

verus! {

/// A point value: either a fixed-point numeric reading or a text value.
pub enum PointValue {
    Float(i64),
    Text(String),
}

impl PointValue {
    /// Two values of the same wire type: numeric with numeric, text with
    /// text.
    pub open spec fn same_kind(self, other: PointValue) -> bool {
        self is Float <==> other is Float
    }
}

impl Clone for PointValue {
    fn clone(&self) -> (copy: Self)
        ensures
            copy == *self,
    {
        match self {
            PointValue::Float(v) => PointValue::Float(*v),
            PointValue::Text(s) => PointValue::Text(s.clone()),
        }
    }
}

/// One addressable point: a path, the last written value, and the
/// timestamp of that write.
pub struct Point {
    pub path: String,
    pub value: PointValue,
    pub timestamp: u64,
}

/// No two points share a path.
pub open spec fn distinct_paths(points: Seq<Point>) -> bool {
    forall|i: int, j: int|
        0 <= i < j < points.len() ==> points[i].path@ != points[j].path@
}

/// Some point carries the given path.
pub open spec fn has_path(points: Seq<Point>, path: Seq<char>) -> bool {
    exists|i: int| 0 <= i < points.len() && points[i].path@ == path
}

/// The index of the point with the given path; meaningful only when
/// `has_path` holds, and unique under `distinct_paths`.
pub open spec fn path_index(points: Seq<Point>, path: Seq<char>) -> int {
    choose|i: int| 0 <= i < points.len() && points[i].path@ == path
}

/// The point stored under a path, if any.
pub open spec fn lookup(points: Seq<Point>, path: Seq<char>) -> Option<Point> {
    if has_path(points, path) {
        Some(points[path_index(points, path)])
    } else {
        None
    }
}

/// The numeric reading under a path; a missing point or one of the wrong
/// type reads as zero, the documented fallback.
pub open spec fn float_at(points: Seq<Point>, path: Seq<char>) -> int {
    match lookup(points, path) {
        Some(p) => match p.value {
            PointValue::Float(v) => v as int,
            PointValue::Text(_) => 0,
        },
        None => 0,
    }
}

/// A numeric write to this path would be accepted: the point is missing
/// (it would be created) or already numeric.
pub open spec fn accepts_float(points: Seq<Point>, path: Seq<char>) -> bool {
    match lookup(points, path) {
        Some(p) => p.value is Float,
        None => true,
    }
}

/// A text write to this path would be accepted: the point is missing (it
/// would be created) or already text.
pub open spec fn accepts_text(points: Seq<Point>, path: Seq<char>) -> bool {
    match lookup(points, path) {
        Some(p) => p.value is Text,
        None => true,
    }
}

/// The text under a path, if the point exists and is a text point.
pub open spec fn text_at(points: Seq<Point>, path: Seq<char>) -> Option<Seq<char>> {
    match lookup(points, path) {
        Some(p) => match p.value {
            PointValue::Text(s) => Some(s@),
            PointValue::Float(_) => None,
        },
        None => None,
    }
}

/// Under distinct paths, the point at any index is exactly what lookup of
/// its path finds.
pub proof fn lemma_lookup_index(points: Seq<Point>, i: int)
    requires
        distinct_paths(points),
        0 <= i < points.len(),
    ensures
        lookup(points, points[i].path@) == Some(points[i]),
{
    let path = points[i].path@;
    assert(has_path(points, path));
    let k = path_index(points, path);
    assert(0 <= k < points.len() && points[k].path@ == path);
    if k != i {
        assert(false);
    }
}

/// Overwriting the point at an index with one of the same path changes
/// lookup at that path alone.
pub proof fn lemma_lookup_update(points: Seq<Point>, i: int, p: Point)
    requires
        distinct_paths(points),
        0 <= i < points.len(),
        points[i].path@ == p.path@,
    ensures
        distinct_paths(points.update(i, p)),
        lookup(points.update(i, p), p.path@) == Some(p),
        forall|q: Seq<char>|
            q != p.path@ ==> lookup(points.update(i, p), q) == lookup(points, q),
{
    let new = points.update(i, p);
    assert forall|x: int| 0 <= x < new.len() implies new[x].path@ == points[x].path@ by {
        if x == i {
        }
    }
    assert(distinct_paths(new));
    lemma_lookup_index(new, i);
    assert forall|q: Seq<char>| q != p.path@ implies lookup(new, q) == lookup(points, q) by {
        if has_path(new, q) {
            let k = path_index(new, q);
            assert(0 <= k < new.len() && new[k].path@ == q);
            assert(k != i);
            lemma_lookup_index(new, k);
            lemma_lookup_index(points, k);
        }
        if has_path(points, q) {
            let k = path_index(points, q);
            assert(0 <= k < points.len() && points[k].path@ == q);
            assert(k != i);
            lemma_lookup_index(points, k);
            lemma_lookup_index(new, k);
        }
    }
}

/// Appending a point under a fresh path changes lookup at that path alone
/// and keeps paths distinct.
pub proof fn lemma_lookup_push(points: Seq<Point>, p: Point)
    requires
        distinct_paths(points),
        !has_path(points, p.path@),
    ensures
        distinct_paths(points.push(p)),
        lookup(points.push(p), p.path@) == Some(p),
        forall|q: Seq<char>| q != p.path@ ==> lookup(points.push(p), q) == lookup(points, q),
{
    let new = points.push(p);
    let n = points.len() as int;
    assert forall|a: int, b: int| 0 <= a < b < new.len() implies new[a].path@ != new[b].path@ by {
        if b == n {
            assert(new[a] == points[a]);
            if points[a].path@ == p.path@ {
                assert(has_path(points, p.path@));
            }
        } else {
            assert(new[a] == points[a]);
            assert(new[b] == points[b]);
        }
    }
    assert(new[n] == p);
    lemma_lookup_index(new, n);
    assert forall|q: Seq<char>| q != p.path@ implies lookup(new, q) == lookup(points, q) by {
        if has_path(new, q) {
            let k = path_index(new, q);
            assert(0 <= k < new.len() && new[k].path@ == q);
            assert(k != n);
            assert(new[k] == points[k]);
            lemma_lookup_index(new, k);
            lemma_lookup_index(points, k);
        }
        if has_path(points, q) {
            let k = path_index(points, q);
            assert(0 <= k < points.len() && points[k].path@ == q);
            assert(new[k] == points[k]);
            lemma_lookup_index(points, k);
            lemma_lookup_index(new, k);
        }
    }
}

/// A controller node's point store.
pub struct PointStore {
    pub points: Vec<Point>,
}

impl PointStore {
    /// Paths are unique: a path addresses at most one point.
    pub open spec fn wf(&self) -> bool {
        distinct_paths(self.points@)
    }

    pub fn new() -> (store: PointStore)
        ensures
            store.wf(),
            store.points@ == Seq::<Point>::empty(),
    {
        let store = PointStore { points: Vec::new() };
        proof {
            assert(store.points@ =~= Seq::<Point>::empty());
        }
        store
    }

    /// The index of the point with the given path, if any.
    fn find(&self, path: &String) -> (index: Option<usize>)
        requires
            self.wf(),
        ensures
            match index {
                Some(i) => i < self.points@.len() && self.points@[i as int].path@ == path@
                    && lookup(self.points@, path@) == Some(self.points@[i as int]),
                None => lookup(self.points@, path@) is None,
            },
    {
        let n = self.points.len();
        let mut i: usize = 0;
        while i < n
            invariant
                self.wf(),
                n == self.points@.len(),
                i <= n,
                forall|j: int| 0 <= j < i ==> self.points@[j].path@ != path@,
            decreases n - i,
        {
            if self.points[i].path == *path {
                proof {
                    lemma_lookup_index(self.points@, i as int);
                }
                return Some(i);
            }
            i += 1;
        }
        proof {
            if has_path(self.points@, path@) {
                let k = path_index(self.points@, path@);
                assert(0 <= k < self.points@.len() && self.points@[k].path@ == path@);
                assert(false);
            }
        }
        None
    }

    /// The last value and write timestamp under a path, or nothing if no
    /// such point exists: the read side of the point contract.
    pub fn read(&self, path: &String) -> (result: Option<(PointValue, u64)>)
        requires
            self.wf(),
        ensures
            match lookup(self.points@, path@) {
                Some(p) => result == Some((p.value, p.timestamp)),
                None => result is None,
            },
    {
        match self.find(path) {
            Some(i) => {
                let value = self.points[i].value.clone();
                let timestamp = self.points[i].timestamp;
                Some((value, timestamp))
            },
            None => None,
        }
    }

    /// The numeric reading under a path, zero on a missing point or a
    /// type mismatch: the aggregator's documented fallback.
    pub fn read_float(&self, path: &String) -> (value: i64)
        requires
            self.wf(),
        ensures
            value as int == float_at(self.points@, path@),
    {
        match self.find(path) {
            Some(i) => match &self.points[i].value {
                PointValue::Float(v) => *v,
                PointValue::Text(_) => 0,
            },
            None => 0,
        }
    }

    /// The text under a path, nothing on a missing point or a type
    /// mismatch.
    pub fn read_text(&self, path: &String) -> (text: Option<String>)
        requires
            self.wf(),
        ensures
            match text {
                Some(s) => text_at(self.points@, path@) == Some(s@),
                None => text_at(self.points@, path@) is None,
            },
    {
        match self.find(path) {
            Some(i) => match &self.points[i].value {
                PointValue::Text(s) => Some(s.clone()),
                PointValue::Float(_) => None,
            },
            None => None,
        }
    }

    /// Writes a value under a path with a fresh timestamp. A new path
    /// creates the point and fixes its type; an existing point accepts
    /// only a value of its own type, and a mismatched write is refused
    /// and changes nothing. No other path is affected either way.
    pub fn write(&mut self, path: &String, value: PointValue, timestamp: u64) -> (accepted: bool)
        requires
            old(self).wf(),
        ensures
            final(self).wf(),
            accepted == (match lookup(old(self).points@, path@) {
                Some(p) => p.value.same_kind(value),
                None => true,
            }),
            accepted ==> (match lookup(final(self).points@, path@) {
                Some(p) => p.path@ == path@ && p.value == value && p.timestamp == timestamp,
                None => false,
            }),
            !accepted ==> final(self).points@ == old(self).points@,
            forall|q: Seq<char>|
                q != path@ ==> lookup(final(self).points@, q) == lookup(old(self).points@, q),
    {
        match self.find(path) {
            Some(i) => {
                let compatible = match (&self.points[i].value, &value) {
                    (PointValue::Float(_), PointValue::Float(_)) => true,
                    (PointValue::Text(_), PointValue::Text(_)) => true,
                    _ => false,
                };
                if compatible {
                    self.points[i].value = value;
                    self.points[i].timestamp = timestamp;
                    proof {
                        let p = self.points@[i as int];
                        assert(self.points@ =~= old(self).points@.update(i as int, p));
                        lemma_lookup_update(old(self).points@, i as int, p);
                    }
                    true
                } else {
                    false
                }
            },
            None => {
                let point = Point { path: path.clone(), value, timestamp };
                self.points.push(point);
                proof {
                    let p = self.points@[self.points@.len() - 1];
                    assert(self.points@ =~= old(self).points@.push(p));
                    lemma_lookup_push(old(self).points@, p);
                }
                true
            },
        }
    }
}

} // verus!
