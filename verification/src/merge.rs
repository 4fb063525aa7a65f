use vstd::prelude::*;
use crate::compare::{LineOrd, lex_cmp, cmp_str};
use crate::normalize::line_views;

verus! {

/// One output row of the merge engine, tagged by the input(s) it came from.
#[derive(Debug)]
pub enum Classified {
    LeftOnly(String),
    RightOnly(String),
    Common(String),
}

/// The mathematical image of a classified line.
pub enum ClassV {
    LeftOnly(Seq<char>),
    RightOnly(Seq<char>),
    Common(Seq<char>),
}

impl View for Classified {
    type V = ClassV;

    open spec fn view(&self) -> ClassV {
        match self {
            Classified::LeftOnly(s) => ClassV::LeftOnly(s@),
            Classified::RightOnly(s) => ClassV::RightOnly(s@),
            Classified::Common(s) => ClassV::Common(s@),
        }
    }
}

/// The views of a vector of classified lines.
pub open spec fn class_views(v: Seq<Classified>) -> Seq<ClassV> {
    Seq::new(v.len(), |i: int| v[i]@)
}

/// The sorted merge-compare of two line sequences: walk both in lockstep and
/// classify one line per step until both are exhausted.
pub open spec fn merge_spec(a: Seq<Seq<char>>, b: Seq<Seq<char>>) -> Seq<ClassV>
    decreases a.len() + b.len(),
{
    if a.len() == 0 && b.len() == 0 {
        Seq::empty()
    } else if b.len() == 0 {
        seq![ClassV::LeftOnly(a[0])] + merge_spec(a.drop_first(), b)
    } else if a.len() == 0 {
        seq![ClassV::RightOnly(b[0])] + merge_spec(a, b.drop_first())
    } else {
        match lex_cmp(a[0], b[0]) {
            LineOrd::Less => seq![ClassV::LeftOnly(a[0])] + merge_spec(a.drop_first(), b),
            LineOrd::Greater => seq![ClassV::RightOnly(b[0])] + merge_spec(a, b.drop_first()),
            LineOrd::Equal => seq![ClassV::Common(a[0])] + merge_spec(
                a.drop_first(),
                b.drop_first(),
            ),
        }
    }
}

proof fn lemma_step_left(va: Seq<Seq<char>>, vb: Seq<Seq<char>>, i: int, j: int)
    requires
        0 <= i < va.len(),
        0 <= j <= vb.len(),
        j == vb.len() || lex_cmp(va[i], vb[j]) == LineOrd::Less,
    ensures
        merge_spec(va.skip(i), vb.skip(j)) == seq![ClassV::LeftOnly(va[i])] + merge_spec(
            va.skip(i + 1),
            vb.skip(j),
        ),
{
    let sa = va.skip(i);
    let sb = vb.skip(j);
    assert(sa.len() > 0 && sa[0] == va[i]);
    assert(sa.drop_first() =~= va.skip(i + 1));
    if j < vb.len() {
        assert(sb.len() > 0 && sb[0] == vb[j]);
    }
}

proof fn lemma_step_right(va: Seq<Seq<char>>, vb: Seq<Seq<char>>, i: int, j: int)
    requires
        0 <= i <= va.len(),
        0 <= j < vb.len(),
        i == va.len() || lex_cmp(va[i], vb[j]) == LineOrd::Greater,
    ensures
        merge_spec(va.skip(i), vb.skip(j)) == seq![ClassV::RightOnly(vb[j])] + merge_spec(
            va.skip(i),
            vb.skip(j + 1),
        ),
{
    let sa = va.skip(i);
    let sb = vb.skip(j);
    assert(sb.len() > 0 && sb[0] == vb[j]);
    assert(sb.drop_first() =~= vb.skip(j + 1));
    if i < va.len() {
        assert(sa.len() > 0 && sa[0] == va[i]);
    }
}

proof fn lemma_step_common(va: Seq<Seq<char>>, vb: Seq<Seq<char>>, i: int, j: int)
    requires
        0 <= i < va.len(),
        0 <= j < vb.len(),
        lex_cmp(va[i], vb[j]) == LineOrd::Equal,
    ensures
        merge_spec(va.skip(i), vb.skip(j)) == seq![ClassV::Common(va[i])] + merge_spec(
            va.skip(i + 1),
            vb.skip(j + 1),
        ),
{
    let sa = va.skip(i);
    let sb = vb.skip(j);
    assert(sa.len() > 0 && sa[0] == va[i]);
    assert(sb.len() > 0 && sb[0] == vb[j]);
    assert(sa.drop_first() =~= va.skip(i + 1));
    assert(sb.drop_first() =~= vb.skip(j + 1));
}

/// Merge two already-normalized sorted inputs into the classified sequence
/// that `merge_spec` describes.
pub fn merge(a: &Vec<String>, b: &Vec<String>) -> (r: Vec<Classified>)
    ensures
        class_views(r@) == merge_spec(line_views(a@), line_views(b@)),
{
    let ghost va = line_views(a@);
    let ghost vb = line_views(b@);
    let mut out: Vec<Classified> = Vec::new();
    let mut i: usize = 0;
    let mut j: usize = 0;
    proof {
        assert(va.skip(0) =~= va);
        assert(vb.skip(0) =~= vb);
        assert(class_views(out@) + merge_spec(va, vb) =~= merge_spec(va, vb));
    }
    while i < a.len() || j < b.len()
        invariant
            i <= a@.len(),
            j <= b@.len(),
            va == line_views(a@),
            vb == line_views(b@),
            va.len() == a@.len(),
            vb.len() == b@.len(),
            merge_spec(va, vb) == class_views(out@) + merge_spec(
                va.skip(i as int),
                vb.skip(j as int),
            ),
        decreases a@.len() - i + b@.len() - j,
    {
        let ghost out_pre = out@;
        let ghost i0 = i as int;
        let ghost j0 = j as int;
        if j == b.len() {
            out.push(Classified::LeftOnly(a[i].clone()));
            proof {
                lemma_step_left(va, vb, i0, j0);
            }
            i = i + 1;
        } else if i == a.len() {
            out.push(Classified::RightOnly(b[j].clone()));
            proof {
                lemma_step_right(va, vb, i0, j0);
            }
            j = j + 1;
        } else {
            let ord = cmp_str(a[i].as_str(), b[j].as_str());
            match ord {
                LineOrd::Less => {
                    out.push(Classified::LeftOnly(a[i].clone()));
                    proof {
                        lemma_step_left(va, vb, i0, j0);
                    }
                    i = i + 1;
                },
                LineOrd::Greater => {
                    out.push(Classified::RightOnly(b[j].clone()));
                    proof {
                        lemma_step_right(va, vb, i0, j0);
                    }
                    j = j + 1;
                },
                LineOrd::Equal => {
                    out.push(Classified::Common(a[i].clone()));
                    proof {
                        lemma_step_common(va, vb, i0, j0);
                    }
                    i = i + 1;
                    j = j + 1;
                },
            }
        }
        proof {
            assert(class_views(out@) =~= class_views(out_pre) + seq![out@[out@.len() - 1]@]);
            assert(merge_spec(va, vb) =~= class_views(out@) + merge_spec(
                va.skip(i as int),
                vb.skip(j as int),
            ));
        }
    }
    proof {
        assert(merge_spec(va.skip(i as int), vb.skip(j as int)).len() == 0);
        assert(class_views(out@) =~= merge_spec(va, vb));
    }
    out
}

} // verus!
