//! Directives and the matching engine. A directive pairs an optional
//! module-name prefix with a minimum severity filter; the engine scans a
//! directive list from the last element backward and the first directive
//! whose prefix matches the event's target decides enablement.

use vstd::prelude::*;

use crate::levels::filter_rank;
use crate::levels::level_rank;
use crate::levels::LogLevel;
use crate::levels::LogLevelFilter;
use crate::text::is_prefix;
use crate::text::str_starts_with;

verus! {

/// A filtering rule: events from modules starting with `name` pass when
/// their severity is within `level`. A directive without a name is the
/// catch-all rule and applies to every target.
#[derive(Debug, Clone, PartialEq, Eq)]
pub struct LogDirective {
    pub name: Option<String>,
    pub level: LogLevelFilter,
}

/// The mathematical content of a directive: the prefix as a character
/// sequence, and the threshold.
pub ghost struct DirectiveView {
    pub name: Option<Seq<char>>,
    pub level: LogLevelFilter,
}

impl View for LogDirective {
    type V = DirectiveView;

    open spec fn view(&self) -> DirectiveView {
        DirectiveView {
            name: match self.name {
                Some(n) => Some(n@),
                None => None,
            },
            level: self.level,
        }
    }
}

/// The views of a directive list.
pub open spec fn dirs_view(ds: Seq<LogDirective>) -> Seq<DirectiveView> {
    ds.map_values(|d: LogDirective| d@)
}

/// Whether a directive applies to an event target: a named directive
/// applies to the targets it prefixes, the catch-all to every target.
pub open spec fn directive_applies(d: DirectiveView, target: Seq<char>) -> bool {
    match d.name {
        None => true,
        Some(n) => is_prefix(n, target),
    }
}

/// The enable decision over a directive list: scan from the last directive
/// backward; the first one that applies decides by rank comparison, and a
/// scan that exhausts the list disables the event. The engine never sorts:
/// longest-prefix behavior holds only when the caller supplies the list
/// with more specific prefixes later, the catch-all first.
pub open spec fn enabled_model(dirs: Seq<DirectiveView>, level: LogLevel, target: Seq<char>) -> bool
    decreases dirs.len(),
{
    if dirs.len() == 0 {
        false
    } else if directive_applies(dirs[dirs.len() - 1], target) {
        level_rank(level) <= filter_rank(dirs[dirs.len() - 1].level)
    } else {
        enabled_model(dirs.subrange(0, dirs.len() - 1), level, target)
    }
}

/// The directive nearest the end of the list that applies to the target
/// decides enablement on its own: everything before it is shadowed. With
/// the catch-all first and longer prefixes later, this is longest-prefix
/// match; with the list misordered it is still well defined, only the
/// later directive wins.
pub proof fn lemma_first_match_decides(
    dirs: Seq<DirectiveView>,
    level: LogLevel,
    target: Seq<char>,
    j: int,
)
    requires
        0 <= j < dirs.len(),
        directive_applies(dirs[j], target),
        forall|i: int| j < i < dirs.len() ==> !directive_applies(#[trigger] dirs[i], target),
    ensures
        enabled_model(dirs, level, target) == (level_rank(level) <= filter_rank(dirs[j].level)),
    decreases dirs.len(),
{
    if j < dirs.len() - 1 {
        let init = dirs.subrange(0, dirs.len() - 1);
        assert(init[j] == dirs[j]);
        assert forall|i: int| j < i < init.len() implies !directive_applies(
            #[trigger] init[i],
            target,
        ) by {
            assert(init[i] == dirs[i]);
        }
        lemma_first_match_decides(init, level, target, j);
    }
}

/// A list in which no directive applies to the target disables every
/// event from it: the engine fails closed.
pub proof fn lemma_no_match_disables(dirs: Seq<DirectiveView>, level: LogLevel, target: Seq<char>)
    requires
        forall|i: int| 0 <= i < dirs.len() ==> !directive_applies(#[trigger] dirs[i], target),
    ensures
        !enabled_model(dirs, level, target),
    decreases dirs.len(),
{
    if dirs.len() > 0 {
        let init = dirs.subrange(0, dirs.len() - 1);
        assert forall|i: int| 0 <= i < init.len() implies !directive_applies(
            #[trigger] init[i],
            target,
        ) by {
            assert(init[i] == dirs[i]);
        }
        lemma_no_match_disables(init, level, target);
    }
}

/// Decides whether an event of severity `level` from module `target`
/// passes the directive list, exactly as [`enabled_model`] describes.
pub fn is_enabled(directives: &Vec<LogDirective>, level: LogLevel, target: &str) -> (r: bool)
    ensures
        r == enabled_model(dirs_view(directives@), level, target@),
{
    let ghost full = dirs_view(directives@);
    let mut i: usize = directives.len();
    proof {
        assert(full.subrange(0, i as int) =~= full);
    }
    while i > 0
        invariant
            i <= directives.len(),
            full == dirs_view(directives@),
            enabled_model(full, level, target@) == enabled_model(
                full.subrange(0, i as int),
                level,
                target@,
            ),
        decreases i,
    {
        let d = &directives[i - 1];
        proof {
            assert(full.subrange(0, i as int)[i - 1] == directives@[i - 1]@);
            assert(full.subrange(0, i as int).subrange(0, i - 1) =~= full.subrange(0, i - 1));
        }
        let applies = match &d.name {
            Some(n) => str_starts_with(target, n.as_str()),
            None => true,
        };
        if applies {
            return level.le_filter(&d.level);
        }
        i = i - 1;
    }
    proof {
        assert(full.subrange(0, 0) =~= Seq::<DirectiveView>::empty());
    }
    false
}

} // verus!
