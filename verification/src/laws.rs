use vstd::prelude::*;
use crate::compare::{LineOrd, lex_cmp, lemma_lex_cmp_equal};
use crate::config::ConfigV;
use crate::format::{format_row_spec, rows_spec};
use crate::merge::{ClassV, merge_spec};
use crate::normalize::{fold_lines_spec, lower_of};
use crate::comm_spec;

verus! {

/// The texts the merge attributes to the first input, in order: the texts of
/// its `LeftOnly` and `Common` rows.
pub open spec fn left_texts(cs: Seq<ClassV>) -> Seq<Seq<char>>
    decreases cs.len(),
{
    if cs.len() == 0 {
        Seq::empty()
    } else {
        match cs[0] {
            ClassV::LeftOnly(t) => seq![t] + left_texts(cs.drop_first()),
            ClassV::Common(t) => seq![t] + left_texts(cs.drop_first()),
            ClassV::RightOnly(_) => left_texts(cs.drop_first()),
        }
    }
}

/// The texts the merge attributes to the second input, in order: the texts of
/// its `RightOnly` and `Common` rows.
pub open spec fn right_texts(cs: Seq<ClassV>) -> Seq<Seq<char>>
    decreases cs.len(),
{
    if cs.len() == 0 {
        Seq::empty()
    } else {
        match cs[0] {
            ClassV::RightOnly(t) => seq![t] + right_texts(cs.drop_first()),
            ClassV::Common(t) => seq![t] + right_texts(cs.drop_first()),
            ClassV::LeftOnly(_) => right_texts(cs.drop_first()),
        }
    }
}

proof fn lemma_texts_cons(x: ClassV, rest: Seq<ClassV>)
    ensures
        left_texts(seq![x] + rest) == (match x {
            ClassV::LeftOnly(t) => seq![t],
            ClassV::Common(t) => seq![t],
            ClassV::RightOnly(_) => Seq::empty(),
        }) + left_texts(rest),
        right_texts(seq![x] + rest) == (match x {
            ClassV::RightOnly(t) => seq![t],
            ClassV::Common(t) => seq![t],
            ClassV::LeftOnly(_) => Seq::empty(),
        }) + right_texts(rest),
{
    let s = seq![x] + rest;
    assert(s.len() > 0 && s[0] == x);
    assert(s.drop_first() =~= rest);
    assert(Seq::<Seq<char>>::empty() + left_texts(rest) =~= left_texts(rest));
    assert(Seq::<Seq<char>>::empty() + right_texts(rest) =~= right_texts(rest));
}

/// Every line of either input is classified exactly once, with its
/// multiplicity and position kept: reading the texts of the `LeftOnly` and
/// `Common` rows off the merge gives back the first input, and reading the
/// texts of the `RightOnly` and `Common` rows gives back the second.
pub proof fn lemma_merge_partitions(a: Seq<Seq<char>>, b: Seq<Seq<char>>)
    ensures
        left_texts(merge_spec(a, b)) == a,
        right_texts(merge_spec(a, b)) == b,
    decreases a.len() + b.len(),
{
    let m = merge_spec(a, b);
    if a.len() == 0 && b.len() == 0 {
        assert(left_texts(m) =~= a);
        assert(right_texts(m) =~= b);
    } else if b.len() == 0 {
        lemma_merge_partitions(a.drop_first(), b);
        lemma_texts_cons(ClassV::LeftOnly(a[0]), merge_spec(a.drop_first(), b));
        assert(left_texts(m) =~= a);
        assert(right_texts(m) =~= b);
    } else if a.len() == 0 {
        lemma_merge_partitions(a, b.drop_first());
        lemma_texts_cons(ClassV::RightOnly(b[0]), merge_spec(a, b.drop_first()));
        assert(left_texts(m) =~= a);
        assert(right_texts(m) =~= b);
    } else {
        match lex_cmp(a[0], b[0]) {
            LineOrd::Less => {
                lemma_merge_partitions(a.drop_first(), b);
                lemma_texts_cons(ClassV::LeftOnly(a[0]), merge_spec(a.drop_first(), b));
                assert(left_texts(m) =~= a);
                assert(right_texts(m) =~= b);
            },
            LineOrd::Greater => {
                lemma_merge_partitions(a, b.drop_first());
                lemma_texts_cons(ClassV::RightOnly(b[0]), merge_spec(a, b.drop_first()));
                assert(left_texts(m) =~= a);
                assert(right_texts(m) =~= b);
            },
            LineOrd::Equal => {
                lemma_lex_cmp_equal(a[0], b[0]);
                lemma_merge_partitions(a.drop_first(), b.drop_first());
                lemma_texts_cons(
                    ClassV::Common(a[0]),
                    merge_spec(a.drop_first(), b.drop_first()),
                );
                assert(left_texts(m) =~= a);
                assert(right_texts(m) =~= b);
            },
        }
    }
}

/// Idempotence: what a run emits is a function of its two inputs and its
/// configuration alone, so running the engine twice over the same immutable
/// sorted inputs yields identical output.
pub proof fn lemma_run_idempotent(
    a: Seq<Seq<char>>,
    b: Seq<Seq<char>>,
    cfg: ConfigV,
    r1: Seq<Seq<char>>,
    r2: Seq<Seq<char>>,
)
    requires
        r1 == comm_spec(a, b, cfg),
        r2 == comm_spec(a, b, cfg),
    ensures
        r1 == r2,
{
}

/// Whether the column a classified line belongs to is visible.
pub open spec fn category_visible(c: ClassV, cfg: ConfigV) -> bool {
    match c {
        ClassV::LeftOnly(_) => cfg.show_col1,
        ClassV::RightOnly(_) => cfg.show_col2,
        ClassV::Common(_) => cfg.show_col3,
    }
}

/// The number of visible columns strictly before the category's own column.
pub open spec fn visible_before(c: ClassV, cfg: ConfigV) -> nat {
    match c {
        ClassV::LeftOnly(_) => 0,
        ClassV::RightOnly(_) => if cfg.show_col1 {
            1 as nat
        } else {
            0
        },
        ClassV::Common(_) => ((if cfg.show_col1 {
            1 as nat
        } else {
            0 as nat
        }) + (if cfg.show_col2 {
            1 as nat
        } else {
            0 as nat
        })) as nat,
    }
}

/// The text a classified line carries.
pub open spec fn text_of(c: ClassV) -> Seq<char> {
    match c {
        ClassV::LeftOnly(t) => t,
        ClassV::RightOnly(t) => t,
        ClassV::Common(t) => t,
    }
}

/// `n` leading empty fields, rendered: one delimiter per empty field.
pub open spec fn repeat_delim(d: Seq<char>, n: nat) -> Seq<char>
    decreases n,
{
    if n == 0 {
        Seq::empty()
    } else {
        d + repeat_delim(d, (n - 1) as nat)
    }
}

/// Column-suppression composition: a row is emitted exactly when its own
/// column is enabled, and an emitted row consists of one empty field per
/// enabled column before the row's category column, then the text — so its
/// delimiter-separated fields are exactly the enabled columns at or before
/// the category column.
pub proof fn lemma_column_suppression(c: ClassV, cfg: ConfigV)
    ensures
        format_row_spec(c, cfg) is Some <==> category_visible(c, cfg),
        category_visible(c, cfg) ==> format_row_spec(c, cfg)->0 == repeat_delim(
            cfg.delimiter,
            visible_before(c, cfg),
        ) + text_of(c),
{
    let d = cfg.delimiter;
    assert(repeat_delim(d, 0) == Seq::<char>::empty());
    assert(repeat_delim(d, 1) =~= d);
    assert(repeat_delim(d, 2) =~= d + d);
    match c {
        ClassV::LeftOnly(t) => {
            if cfg.show_col1 {
                assert(format_row_spec(c, cfg)->0 =~= repeat_delim(d, 0) + t);
            }
        },
        ClassV::RightOnly(t) => {
            if cfg.show_col2 {
                if cfg.show_col1 {
                    assert(format_row_spec(c, cfg)->0 =~= repeat_delim(d, 1) + t);
                } else {
                    assert(format_row_spec(c, cfg)->0 =~= repeat_delim(d, 0) + t);
                }
            }
        },
        ClassV::Common(t) => {
            if cfg.show_col3 {
                if cfg.show_col1 && cfg.show_col2 {
                    assert(format_row_spec(c, cfg)->0 =~= repeat_delim(d, 2) + t);
                } else if cfg.show_col1 || cfg.show_col2 {
                    assert(format_row_spec(c, cfg)->0 =~= repeat_delim(d, 1) + t);
                } else {
                    assert(format_row_spec(c, cfg)->0 =~= repeat_delim(d, 0) + t);
                }
            }
        },
    }
}

/// Merging a sequence with itself classifies every line as `Common`.
pub proof fn lemma_merge_self(a: Seq<Seq<char>>)
    ensures
        merge_spec(a, a).len() == a.len(),
        forall|i: int| 0 <= i < a.len() ==> merge_spec(a, a)[i] == ClassV::Common(a[i]),
    decreases a.len(),
{
    if a.len() > 0 {
        lemma_lex_cmp_equal(a[0], a[0]);
        lemma_merge_self(a.drop_first());
        let m = merge_spec(a, a);
        let rest = merge_spec(a.drop_first(), a.drop_first());
        assert(m == seq![ClassV::Common(a[0])] + rest);
        assert forall|i: int| 0 <= i < a.len() implies m[i] == ClassV::Common(a[i]) by {
            if i > 0 {
                assert(m[i] == rest[i - 1]);
                assert(a.drop_first()[i - 1] == a[i]);
            }
        }
    }
}

/// The merge emits at least one row per line of the longer input.
pub proof fn lemma_merge_len(a: Seq<Seq<char>>, b: Seq<Seq<char>>)
    ensures
        merge_spec(a, b).len() >= a.len(),
        merge_spec(a, b).len() >= b.len(),
    decreases a.len() + b.len(),
{
    if a.len() == 0 && b.len() == 0 {
    } else if b.len() == 0 {
        lemma_merge_len(a.drop_first(), b);
    } else if a.len() == 0 {
        lemma_merge_len(a, b.drop_first());
    } else {
        match lex_cmp(a[0], b[0]) {
            LineOrd::Less => {
                lemma_merge_len(a.drop_first(), b);
            },
            LineOrd::Greater => {
                lemma_merge_len(a, b.drop_first());
            },
            LineOrd::Equal => {
                lemma_merge_len(a.drop_first(), b.drop_first());
            },
        }
    }
}

/// With every column visible, each classified line yields exactly one row.
pub proof fn lemma_rows_all_visible(cs: Seq<ClassV>, cfg: ConfigV)
    requires
        cfg.show_col1,
        cfg.show_col2,
        cfg.show_col3,
    ensures
        rows_spec(cs, cfg).len() == cs.len(),
    decreases cs.len(),
{
    if cs.len() > 0 {
        lemma_rows_all_visible(cs.drop_first(), cfg);
    }
}

/// Case-insensitivity: when the two inputs differ only by letter case
/// position by position, the insensitive run merges every pair into `Common`,
/// and with every column visible it emits no more rows than the
/// case-sensitive run over the same inputs.
pub proof fn lemma_case_insensitive(
    a: Seq<Seq<char>>,
    b: Seq<Seq<char>>,
    ins_cfg: ConfigV,
    sen_cfg: ConfigV,
)
    requires
        a.len() == b.len(),
        forall|i: int| 0 <= i < a.len() ==> lower_of(a[i]) == lower_of(b[i]),
        ins_cfg.insensitive,
        !sen_cfg.insensitive,
        ins_cfg.show_col1 && ins_cfg.show_col2 && ins_cfg.show_col3,
        sen_cfg.show_col1 && sen_cfg.show_col2 && sen_cfg.show_col3,
    ensures
        comm_spec(a, b, ins_cfg).len() == a.len(),
        forall|i: int|
            0 <= i < a.len() ==> merge_spec(
                fold_lines_spec(a, true),
                fold_lines_spec(b, true),
            )[i] is Common,
        comm_spec(a, b, ins_cfg).len() <= comm_spec(a, b, sen_cfg).len(),
{
    let fa = fold_lines_spec(a, true);
    let fb = fold_lines_spec(b, true);
    assert(fa =~= fb);
    lemma_merge_self(fa);
    lemma_rows_all_visible(merge_spec(fa, fb), ins_cfg);
    assert(fold_lines_spec(a, false) =~= a);
    assert(fold_lines_spec(b, false) =~= b);
    lemma_merge_len(a, b);
    lemma_rows_all_visible(merge_spec(a, b), sen_cfg);
}

} // verus!
