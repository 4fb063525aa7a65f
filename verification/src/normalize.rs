use vstd::prelude::*;

verus! {

/// The case-folded form of a line, as produced at the point a line enters the
/// merge: a pure function of the characters of the line.
pub uninterp spec fn lower_of(s: Seq<char>) -> Seq<char>;

/// Relies on str::to_lowercase: it returns the lowercase equivalent of the
/// slice, a value that depends on the input characters alone.
#[verifier::external_body]
fn to_lower(s: &str) -> (r: String)
    ensures
        r@ == lower_of(s@),
{
    s.to_lowercase()
}

/// One line as the merge engine compares it: folded when `insensitive` is set,
/// otherwise unchanged.
pub open spec fn fold_line(s: Seq<char>, insensitive: bool) -> Seq<char> {
    if insensitive {
        lower_of(s)
    } else {
        s
    }
}

/// All lines of one input, each normalized for comparison.
pub open spec fn fold_lines_spec(v: Seq<Seq<char>>, insensitive: bool) -> Seq<Seq<char>> {
    v.map_values(|s: Seq<char>| fold_line(s, insensitive))
}

/// The views of a vector of lines.
pub open spec fn line_views(v: Seq<String>) -> Seq<Seq<char>> {
    Seq::new(v.len(), |i: int| v[i]@)
}

/// Normalize every line of one input for comparison.
pub fn fold_lines(lines: &Vec<String>, insensitive: bool) -> (r: Vec<String>)
    ensures
        line_views(r@) == fold_lines_spec(line_views(lines@), insensitive),
{
    let mut r: Vec<String> = Vec::new();
    let mut i: usize = 0;
    while i < lines.len()
        invariant
            i <= lines@.len(),
            r@.len() == i,
            forall|k: int| 0 <= k < i ==> #[trigger] r@[k]@ == fold_line(lines@[k]@, insensitive),
        decreases lines@.len() - i,
    {
        if insensitive {
            r.push(to_lower(lines[i].as_str()));
        } else {
            r.push(lines[i].clone());
        }
        i = i + 1;
    }
    proof {
        assert(line_views(r@) =~= fold_lines_spec(line_views(lines@), insensitive));
    }
    r
}

} // verus!
