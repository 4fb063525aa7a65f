use vstd::prelude::*;
use vstd::string::StringExecFns;
use crate::config::{Config, ConfigV};
use crate::merge::{Classified, ClassV, class_views};
use crate::normalize::line_views;

verus! {

/// Render one classified line as zero or one output row: the line goes in its
/// category's column, prefixed by one empty field for each visible column
/// before it, and the whole row is dropped when its own column is hidden.
pub open spec fn format_row_spec(c: ClassV, cfg: ConfigV) -> Option<Seq<char>> {
    match c {
        ClassV::LeftOnly(t) => if cfg.show_col1 {
            Some(t)
        } else {
            None
        },
        ClassV::RightOnly(t) => if cfg.show_col2 {
            Some(
                if cfg.show_col1 {
                    cfg.delimiter + t
                } else {
                    t
                },
            )
        } else {
            None
        },
        ClassV::Common(t) => if cfg.show_col3 {
            Some(
                (if cfg.show_col1 {
                    cfg.delimiter
                } else {
                    Seq::empty()
                }) + (if cfg.show_col2 {
                    cfg.delimiter
                } else {
                    Seq::empty()
                }) + t,
            )
        } else {
            None
        },
    }
}

/// Render one classified line, following `format_row_spec`.
pub fn format_row(c: &Classified, config: &Config) -> (r: Option<String>)
    ensures
        (r is Some) == (format_row_spec(c@, config@) is Some),
        r matches Some(s) ==> Some(s@) == format_row_spec(c@, config@),
{
    match c {
        Classified::LeftOnly(t) => {
            if config.show_col1 {
                Some(t.clone())
            } else {
                None
            }
        },
        Classified::RightOnly(t) => {
            if config.show_col2 {
                let mut s = String::new();
                if config.show_col1 {
                    s.append(config.delimiter.as_str());
                }
                s.append(t.as_str());
                proof {
                    assert(s@ =~= format_row_spec(c@, config@)->0);
                }
                Some(s)
            } else {
                None
            }
        },
        Classified::Common(t) => {
            if config.show_col3 {
                let mut s = String::new();
                if config.show_col1 {
                    s.append(config.delimiter.as_str());
                }
                if config.show_col2 {
                    s.append(config.delimiter.as_str());
                }
                s.append(t.as_str());
                proof {
                    assert(s@ =~= format_row_spec(c@, config@)->0);
                }
                Some(s)
            } else {
                None
            }
        },
    }
}

/// The rows that a classified sequence produces: each classified line yields
/// its formatted row, and suppressed rows vanish without leaving an empty line.
pub open spec fn rows_spec(cs: Seq<ClassV>, cfg: ConfigV) -> Seq<Seq<char>>
    decreases cs.len(),
{
    if cs.len() == 0 {
        Seq::empty()
    } else {
        match format_row_spec(cs[0], cfg) {
            Some(r) => seq![r] + rows_spec(cs.drop_first(), cfg),
            None => rows_spec(cs.drop_first(), cfg),
        }
    }
}

proof fn lemma_rows_step(cs: Seq<ClassV>, cfg: ConfigV, i: int)
    requires
        0 <= i < cs.len(),
    ensures
        rows_spec(cs.skip(i), cfg) == (match format_row_spec(cs[i], cfg) {
            Some(r) => seq![r] + rows_spec(cs.skip(i + 1), cfg),
            None => rows_spec(cs.skip(i + 1), cfg),
        }),
{
    let s = cs.skip(i);
    assert(s.len() > 0 && s[0] == cs[i]);
    assert(s.drop_first() =~= cs.skip(i + 1));
}

/// Render a whole classified sequence, following `rows_spec`.
pub fn rows(cs: &Vec<Classified>, config: &Config) -> (r: Vec<String>)
    ensures
        line_views(r@) == rows_spec(class_views(cs@), config@),
{
    let ghost vc = class_views(cs@);
    let mut out: Vec<String> = Vec::new();
    let mut i: usize = 0;
    proof {
        assert(vc.skip(0) =~= vc);
        assert(line_views(out@) + rows_spec(vc, config@) =~= rows_spec(vc, config@));
    }
    while i < cs.len()
        invariant
            i <= cs@.len(),
            vc == class_views(cs@),
            vc.len() == cs@.len(),
            rows_spec(vc, config@) == line_views(out@) + rows_spec(vc.skip(i as int), config@),
        decreases cs@.len() - i,
    {
        let ghost out_pre = out@;
        proof {
            lemma_rows_step(vc, config@, i as int);
        }
        match format_row(&cs[i], config) {
            Some(row) => {
                out.push(row);
                proof {
                    assert(line_views(out@) =~= line_views(out_pre) + seq![
                        out@[out@.len() - 1]@,
                    ]);
                }
            },
            None => {
            },
        }
        i = i + 1;
        proof {
            assert(rows_spec(vc, config@) =~= line_views(out@) + rows_spec(
                vc.skip(i as int),
                config@,
            ));
        }
    }
    proof {
        assert(rows_spec(vc.skip(i as int), config@).len() == 0);
        assert(line_views(out@) =~= rows_spec(vc, config@));
    }
    out
}

} // verus!
