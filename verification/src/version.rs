//! The version-comparison rule for update checks: versions are compared
//! numerically, dot-separated segment by segment, with a `-` suffix stripped
//! per segment, unparsable segments dropped, and missing trailing segments
//! reading as zero.

use vstd::prelude::*;
use crate::text::{parse_u32, spec_parse_u32, spec_split, spec_trim_start, str_split, str_trim_start_matches};

verus! {

/// The version string with leading `v` markers removed, the way the
/// comparison reads it.
pub open spec fn spec_version_stripped(s: Seq<char>) -> Seq<char> {
    spec_trim_start(spec_trim_start(s, 'v'), 'V')
}

/// The numeric value of one dot-separated segment: the part before the
/// first `-`, read as a decimal number, if it is one.
pub open spec fn spec_seg_value(part: Seq<char>) -> Option<u32> {
    spec_parse_u32(spec_split(part, '-')[0])
}

/// The numeric segments of a list of parts, dropping unparsable ones.
pub open spec fn spec_segments_of(parts: Seq<Seq<char>>) -> Seq<u32>
    decreases parts.len(),
{
    if parts.len() == 0 {
        Seq::empty()
    } else {
        match spec_seg_value(parts[0]) {
            Some(v) => seq![v] + spec_segments_of(parts.drop_first()),
            None => spec_segments_of(parts.drop_first()),
        }
    }
}

/// The numeric segments of a whole version string.
pub open spec fn spec_version_segments(s: Seq<char>) -> Seq<u32> {
    spec_segments_of(spec_split(spec_version_stripped(s), '.'))
}

/// Segment `i`, with missing trailing segments reading as zero.
pub open spec fn spec_seg_get(segs: Seq<u32>, i: int) -> u32 {
    if 0 <= i < segs.len() {
        segs[i]
    } else {
        0
    }
}

pub open spec fn max2(a: int, b: int) -> int {
    if a > b {
        a
    } else {
        b
    }
}

/// `latest` is strictly newer than `current`, decided at the first
/// differing segment at or after position `i`.
pub open spec fn spec_newer_from(cur: Seq<u32>, latest: Seq<u32>, i: int) -> bool
    decreases max2(cur.len() as int, latest.len() as int) - i,
{
    if i >= max2(cur.len() as int, latest.len() as int) {
        false
    } else if spec_seg_get(latest, i) > spec_seg_get(cur, i) {
        true
    } else if spec_seg_get(latest, i) < spec_seg_get(cur, i) {
        false
    } else {
        spec_newer_from(cur, latest, i + 1)
    }
}

/// `latest` is strictly newer than `current` under the segment rule.
pub open spec fn spec_newer(current: Seq<char>, latest: Seq<char>) -> bool {
    spec_newer_from(spec_version_segments(current), spec_version_segments(latest), 0)
}

proof fn lemma_segments_push(parts: Seq<Seq<char>>, x: Seq<char>)
    ensures
        spec_segments_of(parts.push(x)) == spec_segments_of(parts) + (match spec_seg_value(x) {
            Some(v) => seq![v],
            None => Seq::<u32>::empty(),
        }),
    decreases parts.len(),
{
    let unit = (match spec_seg_value(x) {
        Some(v) => seq![v],
        None => Seq::<u32>::empty(),
    });
    if parts.len() == 0 {
        assert(parts.push(x)[0] == x);
        assert(parts.push(x).drop_first() =~= Seq::<Seq<char>>::empty());
        match spec_seg_value(x) {
            Some(v) => {
                assert(spec_segments_of(parts.push(x)) == seq![v] + spec_segments_of(
                    Seq::<Seq<char>>::empty(),
                ));
                assert(seq![v] + Seq::<u32>::empty() =~= seq![v]);
                assert(spec_segments_of(parts) + unit =~= unit);
            },
            None => {
                assert(spec_segments_of(parts.push(x)) == spec_segments_of(
                    Seq::<Seq<char>>::empty(),
                ));
                assert(spec_segments_of(parts) + unit =~= unit);
            },
        }
    } else {
        assert(parts.push(x)[0] == parts[0]);
        assert(parts.push(x).drop_first() =~= parts.drop_first().push(x));
        lemma_segments_push(parts.drop_first(), x);
        match spec_seg_value(parts[0]) {
            Some(v) => {
                assert(seq![v] + (spec_segments_of(parts.drop_first()) + unit) =~= (seq![v]
                    + spec_segments_of(parts.drop_first())) + unit);
            },
            None => {},
        }
    }
}

/// The numeric segments of a version string, computed as the comparison
/// reads them.
pub fn parse_version_segments(v: &str) -> (r: Vec<u32>)
    ensures
        r@ == spec_version_segments(v@),
{
    let stripped = str_trim_start_matches(str_trim_start_matches(v, 'v'), 'V');
    let parts = str_split(stripped, '.');
    let ghost part_views = parts@.map_values(|t: String| t@);
    let mut segs: Vec<u32> = Vec::new();
    let mut i: usize = 0;
    proof {
        assert(part_views.take(0) =~= Seq::<Seq<char>>::empty());
        assert(segs@ =~= spec_segments_of(part_views.take(0)));
    }
    while i < parts.len()
        invariant
            part_views == parts@.map_values(|t: String| t@),
            i <= parts.len(),
            segs@ == spec_segments_of(part_views.take(i as int)),
        decreases parts.len() - i,
    {
        let dash_parts = str_split(parts[i].as_str(), '-');
        let head = dash_parts[0].as_str();
        proof {
            assert(head@ == spec_split(part_views[i as int], '-')[0]);
            assert(part_views.take(i as int + 1) =~= part_views.take(i as int).push(part_views[i as int]));
            lemma_segments_push(part_views.take(i as int), part_views[i as int]);
        }
        let ghost prev = segs@;
        match parse_u32(head) {
            Some(n) => {
                segs.push(n);
                proof {
                    assert(segs@ =~= prev + seq![n]);
                }
            },
            None => {
                proof {
                    assert(prev + Seq::<u32>::empty() =~= prev);
                }
            },
        }
        i = i + 1;
    }
    proof {
        assert(part_views.take(parts@.len() as int) =~= part_views);
    }
    segs
}

/// Decides whether `latest` is strictly newer than `current` under the
/// numeric-segment rule.
pub fn compare_versions(current: &str, latest: &str) -> (r: bool)
    ensures
        r == spec_newer(current@, latest@),
{
    let cur = parse_version_segments(current);
    let lat = parse_version_segments(latest);
    let bound: usize = if cur.len() > lat.len() {
        cur.len()
    } else {
        lat.len()
    };
    let mut i: usize = 0;
    while i < bound
        invariant
            cur@ == spec_version_segments(current@),
            lat@ == spec_version_segments(latest@),
            bound == max2(cur@.len() as int, lat@.len() as int),
            i <= bound,
            spec_newer(current@, latest@) == spec_newer_from(cur@, lat@, i as int),
        decreases bound - i,
    {
        let c: u32 = if i < cur.len() {
            cur[i]
        } else {
            0
        };
        let l: u32 = if i < lat.len() {
            lat[i]
        } else {
            0
        };
        if l > c {
            return true;
        }
        if l < c {
            return false;
        }
        i = i + 1;
    }
    false
}

/// Law: the "strictly newer" relation is asymmetric. Two versions can
/// never each be newer than the other; in particular, versions with equal
/// segments are newer in neither direction.
pub proof fn lemma_newer_asymmetric(a: Seq<char>, b: Seq<char>)
    ensures
        !(spec_newer(a, b) && spec_newer(b, a)),
{
    lemma_newer_from_asym(spec_version_segments(a), spec_version_segments(b), 0);
}

proof fn lemma_newer_from_asym(c: Seq<u32>, l: Seq<u32>, i: int)
    ensures
        !(spec_newer_from(c, l, i) && spec_newer_from(l, c, i)),
    decreases max2(c.len() as int, l.len() as int) - i,
{
    if i >= max2(c.len() as int, l.len() as int) {
    } else if spec_seg_get(l, i) == spec_seg_get(c, i) {
        lemma_newer_from_asym(c, l, i + 1);
    }
}

/// Law: no version is newer than itself.
pub proof fn lemma_newer_irreflexive(a: Seq<char>)
    ensures
        !spec_newer(a, a),
{
    lemma_newer_asymmetric(a, a);
}

} // verus!
