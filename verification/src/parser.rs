//! The specification parser: turns a compact textual specification such as
//! `"my_module=debug,other=info"` into an ordered directive list. Malformed
//! clauses are skipped; only a specification with more than two
//! `/`-separated segments discards the whole list.

use vstd::prelude::*;

use crate::directive::dirs_view;
use crate::directive::DirectiveView;
use crate::directive::LogDirective;
use crate::levels::parse_filter_seq;
use crate::levels::LogLevelFilter;
use crate::text::split_on;
use crate::text::split_str;
use crate::text::str_views;
use crate::text::trim_spec;
use crate::text::trim_str;

verus! {

/// The directive a single `,`-separated clause denotes, or `None` for a
/// clause that yields none: the empty clause, a clause whose level token
/// does not parse, and a clause with more than one `=`.
///
/// A clause that is a bare level name becomes the catch-all directive at
/// that level; a bare module name, or one with an empty (after trimming)
/// right-hand side, enables that module at the most verbose level; and
/// `NAME=LEVEL` pairs the module prefix with the level, whose token is
/// trimmed before parsing.
pub open spec fn parse_clause(c: Seq<char>) -> Option<DirectiveView> {
    if c.len() == 0 {
        None
    } else {
        let parts = split_on(c, '=');
        if parts.len() == 1 {
            match parse_filter_seq(parts[0]) {
                Some(f) => Some(DirectiveView { name: None, level: f }),
                None => Some(
                    DirectiveView { name: Some(parts[0]), level: LogLevelFilter::Trace },
                ),
            }
        } else if parts.len() == 2 {
            let rhs = trim_spec(parts[1]);
            if rhs.len() == 0 {
                Some(DirectiveView { name: Some(parts[0]), level: LogLevelFilter::Trace })
            } else {
                match parse_filter_seq(rhs) {
                    Some(f) => Some(DirectiveView { name: Some(parts[0]), level: f }),
                    None => None,
                }
            }
        } else {
            None
        }
    }
}

/// The directives of a clause list, in clause order, clauses that yield
/// none left out.
pub open spec fn parse_mods(clauses: Seq<Seq<char>>) -> Seq<DirectiveView>
    decreases clauses.len(),
{
    if clauses.len() == 0 {
        Seq::<DirectiveView>::empty()
    } else {
        let init = parse_mods(clauses.subrange(0, clauses.len() - 1));
        match parse_clause(clauses[clauses.len() - 1]) {
            Some(d) => init.push(d),
            None => init,
        }
    }
}

/// The directive list a whole specification denotes: the first
/// `/`-separated segment split on `,` and parsed clause by clause. A
/// second segment is reserved and ignored; a third makes the whole
/// specification invalid and the list empty.
pub open spec fn parse_spec_model(s: Seq<char>) -> Seq<DirectiveView> {
    let segments = split_on(s, '/');
    if segments.len() > 2 {
        Seq::<DirectiveView>::empty()
    } else {
        parse_mods(split_on(segments[0], ','))
    }
}

/// `Ok` with the value of `t`, or `Err(e)` when `t` holds none.
pub fn ok_or<T, E>(t: Option<T>, e: E) -> (r: Result<T, E>)
    ensures
        match t {
            Some(v) => r == Ok::<T, E>(v),
            None => r == Err::<T, E>(e),
        },
{
    match t {
        Some(v) => Ok(v),
        None => Err(e),
    }
}

/// Parses a logging specification into its directive list, exactly as
/// [`parse_spec_model`] describes: clause order is kept, malformed clauses
/// are skipped, and more than two `/`-segments give the empty list.
pub fn parse_logging_spec(spec: &str) -> (r: Vec<LogDirective>)
    ensures
        dirs_view(r@) == parse_spec_model(spec@),
{
    let mut dirs: Vec<LogDirective> = Vec::new();
    let segments = split_str(spec, '/');
    proof {
        assert(str_views(segments@).len() == segments@.len());
        assert(dirs_view(dirs@) =~= Seq::<DirectiveView>::empty());
    }
    if segments.len() > 2 {
        return dirs;
    }
    let mods: &str = segments[0];
    let clauses = split_str(mods, ',');
    let ghost cviews = str_views(clauses@);
    proof {
        assert(str_views(segments@)[0] == segments@[0]@);
        assert(cviews.subrange(0, 0) =~= Seq::<Seq<char>>::empty());
    }
    let mut k: usize = 0;
    while k < clauses.len()
        invariant
            k <= clauses.len(),
            cviews == str_views(clauses@),
            cviews.len() == clauses@.len(),
            dirs_view(dirs@) == parse_mods(cviews.subrange(0, k as int)),
        decreases clauses.len() - k,
    {
        let clause: &str = clauses[k];
        let ghost old_view = dirs_view(dirs@);
        proof {
            assert(cviews[k as int] == clauses@[k as int]@);
        }
        if clause.unicode_len() > 0 {
            let parts = split_str(clause, '=');
            proof {
                assert(str_views(parts@).len() == parts@.len());
                assert(str_views(parts@)[0] == parts@[0]@);
            }
            if parts.len() == 1 {
                let p0: &str = parts[0];
                match LogLevelFilter::from_str(p0) {
                    Ok(f) => {
                        dirs.push(LogDirective { name: None, level: f });
                    },
                    Err(_) => {
                        dirs.push(
                            LogDirective { name: Some(p0.to_owned()), level: LogLevelFilter::max() },
                        );
                    },
                }
            } else if parts.len() == 2 {
                let p0: &str = parts[0];
                let p1: &str = parts[1];
                proof {
                    assert(str_views(parts@)[1] == parts@[1]@);
                }
                let rhs = trim_str(p1);
                if rhs.unicode_len() == 0 {
                    dirs.push(
                        LogDirective { name: Some(p0.to_owned()), level: LogLevelFilter::max() },
                    );
                } else {
                    match LogLevelFilter::from_str(rhs) {
                        Ok(f) => {
                            dirs.push(LogDirective { name: Some(p0.to_owned()), level: f });
                        },
                        Err(_) => {},
                    }
                }
            }
        }
        proof {
            assert(cviews.subrange(0, k + 1 as int).subrange(0, k as int) =~= cviews.subrange(
                0,
                k as int,
            ));
            assert(cviews.subrange(0, k + 1 as int)[k as int] == cviews[k as int]);
            if dirs@.len() > old_view.len() {
                assert(dirs_view(dirs@) =~= old_view.push(dirs@[dirs@.len() - 1]@));
            } else {
                assert(dirs_view(dirs@) =~= old_view);
            }
        }
        k = k + 1;
    }
    proof {
        assert(cviews.subrange(0, clauses@.len() as int) =~= cviews);
    }
    dirs
}

} // verus!
