//! Command recognition: a configured pattern is matched against message text,
//! and the groups that took part in each match become the command's tokens.

use crate::dispatch::strings_view;
use regex::Regex;
use vstd::prelude::*;

verus! {

/// A compiled regular expression.
#[verifier::external_type_specification]
#[verifier::external_body]
pub struct ExRegex(Regex);

/// The reason a regular expression did not compile.
#[verifier::external_type_specification]
#[verifier::external_body]
pub struct ExRegexError(regex::Error);

/// Whether `pattern` is a regular expression that compiles.
pub uninterp spec fn pattern_compiles(pattern: Seq<char>) -> bool;

/// The successive non-overlapping matches of the regular expression `pattern`
/// in `content`, each as its capture groups in index order (group 0 first),
/// a group that took no part in the match being `None`.
pub uninterp spec fn captures_of(pattern: Seq<char>, content: Seq<char>) -> Seq<Seq<Option<Seq<char>>>>;

/// The text of an optional string.
pub open spec fn opt_view(s: Option<String>) -> Option<Seq<char>> {
    match s {
        Some(t) => Some(t@),
        None => None,
    }
}

/// The text of an optional list of strings.
pub open spec fn opt_strings_view(v: Option<Vec<String>>) -> Option<Seq<Seq<char>>> {
    match v {
        Some(t) => Some(strings_view(t@)),
        None => None,
    }
}

/// The matches, each with the text of its groups.
pub open spec fn matches_view(m: Seq<Vec<Option<String>>>) -> Seq<Seq<Option<Seq<char>>>> {
    m.map_values(|groups: Vec<Option<String>>| groups@.map_values(|g: Option<String>| opt_view(g)))
}

/// The text of the groups that took part, in order.
pub open spec fn participating(groups: Seq<Option<Seq<char>>>) -> Seq<Seq<char>>
    decreases groups.len(),
{
    if groups.len() == 0 {
        Seq::empty()
    } else {
        participating(groups.drop_last()) + match groups.last() {
            Some(t) => seq![t],
            None => Seq::empty(),
        }
    }
}

/// The groups of a match but the whole-match group 0.
pub open spec fn inner_groups(groups: Seq<Option<Seq<char>>>) -> Seq<Option<Seq<char>>> {
    if groups.len() == 0 {
        groups
    } else {
        groups.subrange(1, groups.len() as int)
    }
}

/// The tokens of all matches: the participating groups of each match but
/// group 0, in match order and then group order.
pub open spec fn flatten_matches(matches: Seq<Seq<Option<Seq<char>>>>) -> Seq<Seq<char>>
    decreases matches.len(),
{
    if matches.len() == 0 {
        Seq::empty()
    } else {
        flatten_matches(matches.drop_last()) + participating(inner_groups(matches.last()))
    }
}

/// What the matches make of a message: no command when there is no match,
/// else the command with the flattened tokens (possibly none).
pub open spec fn command_of(matches: Seq<Seq<Option<Seq<char>>>>) -> Option<Seq<Seq<char>>> {
    if matches.len() == 0 {
        None
    } else {
        Some(flatten_matches(matches))
    }
}

/// A configured command pattern, compiled once.
///
/// Its regular expression is always the one compiled from `source`: `new` is
/// the only way to build one.
pub struct CommandPattern {
    source: String,
    regex: Regex,
}

/// A command pattern that is not a valid regular expression.
pub struct BadCommandPattern {
    pub pattern: String,
}

/// Relies on `regex::Regex::new`: it compiles `source`, and fails exactly on
/// the texts that are no valid regular expression.
#[verifier::external_body]
fn compile(source: &str) -> (r: Result<Regex, regex::Error>)
    ensures
        r is Ok <==> pattern_compiles(source@),
{
    Regex::new(source)
}

/// Relies on `regex::Regex::captures_iter`, with `Captures::iter` on each
/// match: the matches of the pattern's regular expression in `content`, each
/// with every group's text, or `None` for a group that took no part.
#[verifier::external_body]
fn capture_groups(pattern: &CommandPattern, content: &str) -> (r: Vec<Vec<Option<String>>>)
    ensures
        matches_view(r@) == captures_of(pattern.source@, content@),
{
    pattern.regex.captures_iter(content).map(|caps| {
        caps.iter().map(|g| g.map(|m| m.as_str().to_string())).collect()
    }).collect()
}

impl CommandPattern {
    /// The text the pattern was compiled from.
    pub closed spec fn spec_source(&self) -> Seq<char> {
        self.source@
    }

    /// Compiles a command pattern; fails exactly on an invalid regular expression.
    pub fn new(source: String) -> (r: Result<CommandPattern, BadCommandPattern>)
        ensures
            r is Ok <==> pattern_compiles(source@),
            r matches Ok(p) ==> p.spec_source() == source@,
            r matches Err(e) ==> e.pattern@ == source@,
    {
        match compile(source.as_str()) {
            Ok(regex) => Ok(CommandPattern { source, regex }),
            Err(_) => Err(BadCommandPattern { pattern: source }),
        }
    }

    /// The text the pattern was compiled from.
    pub fn source(&self) -> (r: &str)
        ensures
            r@ == self.spec_source(),
    {
        self.source.as_str()
    }

    /// The command in `content`: `None` when the pattern does not match, else
    /// the participating groups (group 0 left out) of all matches, in order.
    pub fn tokens(&self, content: &str) -> (r: Option<Vec<String>>)
        ensures
            opt_strings_view(r) == command_of(captures_of(self.spec_source(), content@)),
    {
        let matches = capture_groups(self, content);
        captured_tokens(&matches)
    }
}

/// The command that the given matches make: `None` when there is none, else
/// the participating groups but group 0 of each match, in match order and then
/// group order.
pub fn captured_tokens(matches: &Vec<Vec<Option<String>>>) -> (r: Option<Vec<String>>)
    ensures
        opt_strings_view(r) == command_of(matches_view(matches@)),
{
    if matches.len() == 0 {
        return None;
    }
    let ghost ms = matches_view(matches@);
    let mut out: Vec<String> = Vec::new();
    let mut i: usize = 0;
    while i < matches.len()
        invariant
            i <= matches@.len(),
            ms == matches_view(matches@),
            ms.len() == matches@.len(),
            strings_view(out@) == flatten_matches(ms.take(i as int)),
        decreases matches@.len() - i,
    {
        let groups = &matches[i];
        let ghost gs = ms[i as int];
        assert(gs == groups@.map_values(|g: Option<String>| opt_view(g)));
        let ghost before = flatten_matches(ms.take(i as int));
        let mut j: usize = 1;
        proof {
            if gs.len() > 0 {
                assert(gs.subrange(1, 1) =~= Seq::<Option<Seq<char>>>::empty());
                assert(before + participating(gs.subrange(1, 1)) =~= before);
            }
        }
        while j < groups.len()
            invariant
                1 <= j,
                gs.len() > 0 ==> j <= gs.len(),
                gs == groups@.map_values(|g: Option<String>| opt_view(g)),
                gs.len() == groups@.len(),
                gs.len() > 0 ==> strings_view(out@) == before + participating(gs.subrange(1, j as int)),
                gs.len() == 0 ==> strings_view(out@) == before,
            decreases groups@.len() - j,
        {
            let ghost old_out = out@;
            match &groups[j] {
                Some(t) => {
                    out.push(t.clone());
                },
                None => {},
            }
            proof {
                let next = gs.subrange(1, j as int + 1);
                assert(next.drop_last() =~= gs.subrange(1, j as int));
                assert(next.last() == opt_view(groups@[j as int]));
                assert(next.len() == j as int);
                assert(participating(next) == participating(next.drop_last()) + match next.last() {
                    Some(t) => seq![t],
                    None => Seq::<Seq<char>>::empty(),
                });
                if groups@[j as int] is Some {
                    let t = groups@[j as int]->Some_0;
                    assert(out@ =~= old_out.push(t));
                    assert(strings_view(out@) =~= strings_view(old_out) + seq![t@]);
                } else {
                    assert(out@ =~= old_out);
                }
                assert(strings_view(out@) =~= before + participating(next));
            }
            j = j + 1;
        }
        proof {
            let next = ms.take(i as int + 1);
            assert(next.drop_last() =~= ms.take(i as int));
            assert(next.last() == gs);
            if gs.len() > 0 {
                assert(gs.subrange(1, j as int) =~= inner_groups(gs));
            } else {
                assert(participating(inner_groups(gs)) =~= Seq::<Seq<char>>::empty());
                assert(before + participating(inner_groups(gs)) =~= before);
            }
        }
        i = i + 1;
    }
    proof {
        assert(ms.take(i as int) =~= ms);
    }
    Some(out)
}

} // verus!
