use vstd::prelude::*;
use vstd::string::StrSliceExecFns;

verus! {

/// Result of comparing two lines lexicographically.
#[derive(Clone, Copy, Debug, PartialEq, Eq, Structural)]
pub enum LineOrd {
    Less,
    Equal,
    Greater,
}

/// Lexicographic order on character sequences, by code point.
pub open spec fn lex_cmp(a: Seq<char>, b: Seq<char>) -> LineOrd
    decreases a.len(),
{
    if a.len() == 0 && b.len() == 0 {
        LineOrd::Equal
    } else if a.len() == 0 {
        LineOrd::Less
    } else if b.len() == 0 {
        LineOrd::Greater
    } else if a[0] == b[0] {
        lex_cmp(a.drop_first(), b.drop_first())
    } else if (a[0] as u32) < (b[0] as u32) {
        LineOrd::Less
    } else {
        LineOrd::Greater
    }
}

/// Two sequences compare equal exactly when they are the same sequence.
pub proof fn lemma_lex_cmp_equal(a: Seq<char>, b: Seq<char>)
    ensures
        lex_cmp(a, b) == LineOrd::Equal <==> a == b,
    decreases a.len(),
{
    if a.len() == 0 && b.len() == 0 {
        assert(a =~= b);
    } else if a.len() == 0 || b.len() == 0 {
        assert(a.len() != b.len());
    } else if a[0] == b[0] {
        lemma_lex_cmp_equal(a.drop_first(), b.drop_first());
        if lex_cmp(a, b) == LineOrd::Equal {
            assert(a.drop_first() == b.drop_first());
            assert(a.len() == b.len());
            assert forall|k: int| 0 <= k < a.len() implies a[k] == b[k] by {
                if k > 0 {
                    assert(a[k] == a.drop_first()[k - 1]);
                    assert(b[k] == b.drop_first()[k - 1]);
                }
            }
            assert(a =~= b);
        }
        if a == b {
            assert(a.drop_first() =~= b.drop_first());
        }
    } else {
        assert(a != b);
    }
}

/// Compare two lines; the result follows `lex_cmp` of their views.
pub fn cmp_str(a: &str, b: &str) -> (r: LineOrd)
    ensures
        r == lex_cmp(a@, b@),
{
    let a_len: usize = a.unicode_len();
    let b_len: usize = b.unicode_len();
    let mut i: usize = 0;
    proof {
        assert(a@.skip(0) =~= a@);
        assert(b@.skip(0) =~= b@);
    }
    loop
        invariant
            i <= a_len,
            i <= b_len,
            a_len == a@.len(),
            b_len == b@.len(),
            lex_cmp(a@, b@) == lex_cmp(a@.skip(i as int), b@.skip(i as int)),
        decreases a_len - i,
    {
        let ghost sa = a@.skip(i as int);
        let ghost sb = b@.skip(i as int);
        if i == a_len {
            if i == b_len {
                proof {
                    assert(sa.len() == 0 && sb.len() == 0);
                }
                return LineOrd::Equal;
            }
            proof {
                assert(sa.len() == 0 && sb.len() > 0);
            }
            return LineOrd::Less;
        }
        if i == b_len {
            proof {
                assert(sa.len() > 0 && sb.len() == 0);
            }
            return LineOrd::Greater;
        }
        let ca = a.get_char(i);
        let cb = b.get_char(i);
        proof {
            assert(sa[0] == a@[i as int] && sb[0] == b@[i as int]);
        }
        if ca == cb {
            proof {
                assert(sa.drop_first() =~= a@.skip(i + 1));
                assert(sb.drop_first() =~= b@.skip(i + 1));
            }
            i = i + 1;
        } else if (ca as u32) < (cb as u32) {
            return LineOrd::Less;
        } else {
            return LineOrd::Greater;
        }
    }
}

/// Whether two lines are the same text.
pub fn eq_str(a: &str, b: &str) -> (r: bool)
    ensures
        r == (a@ == b@),
{
    let o = cmp_str(a, b);
    proof {
        lemma_lex_cmp_equal(a@, b@);
    }
    match o {
        LineOrd::Equal => true,
        LineOrd::Less => false,
        LineOrd::Greater => false,
    }
}

} // verus!
