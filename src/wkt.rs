use vstd::prelude::*;

verus! {

/// One coordinate pair as written in well-known text: `x y`.
pub open spec fn point_text(x: Seq<char>, y: Seq<char>) -> Seq<char> {
    x + " "@ + y
}

/// The first `k` coordinate pairs, separated by `, `.
pub open spec fn points_text(xs: Seq<String>, ys: Seq<String>, k: nat) -> Seq<char>
    decreases k,
{
    if k == 0 {
        Seq::empty()
    } else if k == 1 {
        point_text(xs[0]@, ys[0]@)
    } else {
        points_text(xs, ys, (k - 1) as nat) + ", "@ + point_text(xs[k - 1]@, ys[k - 1]@)
    }
}

/// `LINESTRING(` + body + `)`.
pub open spec fn linestring_text(body: Seq<char>) -> Seq<char> {
    "LINESTRING("@ + body + ")"@
}

/// The segment from pair `i` to pair `i + 1`.
pub open spec fn segment_text(xs: Seq<String>, ys: Seq<String>, i: int) -> Seq<char> {
    linestring_text(point_text(xs[i]@, ys[i]@) + ", "@ + point_text(xs[i + 1]@, ys[i + 1]@))
}

fn wrap_linestring(body: &String) -> (r: String)
    ensures
        r@ == linestring_text(body@),
{
    let mut r = String::from_str("LINESTRING(");
    r.append(body.as_str());
    r.append(")");
    r
}

fn append_point(s: &mut String, x: &String, y: &String)
    ensures
        final(s)@ == old(s)@ + point_text(x@, y@),
{
    s.append(x.as_str());
    s.append(" ");
    s.append(y.as_str());
    assert(final(s)@ =~= old(s)@ + point_text(x@, y@));
}

/// Well-known text of the line through all coordinate pairs, from their
/// already formatted coordinates: `LINESTRING(x0 y0, x1 y1, ...)`.
pub fn to_linestring(xs: &Vec<String>, ys: &Vec<String>) -> (r: String)
    requires
        xs@.len() <= ys@.len(),
    ensures
        r@ == linestring_text(points_text(xs@, ys@, xs@.len() as nat)),
{
    let mut body = String::new();
    let mut i: usize = 0;
    while i < xs.len()
        invariant
            i <= xs@.len() <= ys@.len(),
            body@ == points_text(xs@, ys@, i as nat),
        decreases xs@.len() - i,
    {
        if i > 0 {
            body.append(", ");
        }
        append_point(&mut body, &xs[i], &ys[i]);
        proof {
            if i > 0 {
                assert(points_text(xs@, ys@, (i + 1) as nat) =~= points_text(xs@, ys@, i as nat)
                    + ", "@ + point_text(xs@[i as int]@, ys@[i as int]@));
            } else {
                assert(points_text(xs@, ys@, 1) =~= point_text(xs@[0]@, ys@[0]@));
            }
        }
        i = i + 1;
    }
    wrap_linestring(&body)
}

/// Well-known text of each segment between consecutive coordinate pairs:
/// `LINESTRING(xi yi, xj yj)` with `j = i + 1`.
pub fn to_linestrings(xs: &Vec<String>, ys: &Vec<String>) -> (r: Vec<String>)
    requires
        xs@.len() <= ys@.len(),
    ensures
        r@.len() == if xs@.len() == 0 { 0 } else { xs@.len() - 1 },
        forall|i: int| 0 <= i < r@.len() ==> (#[trigger] r@[i])@ == segment_text(xs@, ys@, i),
{
    let mut r: Vec<String> = Vec::new();
    let mut i: usize = 1;
    while i < xs.len()
        invariant
            1 <= i,
            xs@.len() <= ys@.len(),
            xs@.len() > 0 ==> i <= xs@.len(),
            xs@.len() == 0 ==> i == 1,
            r@.len() == i - 1,
            forall|k: int| 0 <= k < r@.len() ==> (#[trigger] r@[k])@ == segment_text(xs@, ys@, k),
        decreases xs@.len() - i,
    {
        let mut body = String::new();
        append_point(&mut body, &xs[i - 1], &ys[i - 1]);
        body.append(", ");
        append_point(&mut body, &xs[i], &ys[i]);
        let line = wrap_linestring(&body);
        proof {
            let j = (i - 1) as int;
            assert(body@ =~= point_text(xs@[j]@, ys@[j]@) + ", "@ + point_text(
                xs@[j + 1]@,
                ys@[j + 1]@,
            ));
        }
        r.push(line);
        i = i + 1;
    }
    r
}

} // verus!
