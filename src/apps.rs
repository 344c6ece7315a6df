//! Installed applications: their launch command, and which of them match a query.

use vstd::prelude::*;
use fuzzy_matcher::FuzzyMatcher;
use crate::text::{cat, trim, trim_of};

verus! {

/// An installed application, as its desktop entry describes it.
#[derive(Debug, Clone)]
pub struct AppEntry {
    /// The `Exec` line.
    pub command: String,
    /// Whether it runs in a terminal.
    pub need_terminal: bool,
    pub icon: String,
    pub name: String,
    pub description: String,
}

/// What the search manager is told.
#[derive(Debug)]
pub enum SearchEvent {
    /// A new query.
    Term(String),
    /// Reload the applications.
    Represent,
    /// Close the window.
    RequestClose,
}

/// The letters of the desktop-entry field codes (`%f`, `%F`, ...) that a
/// launch command drops.
pub open spec fn code_letters() -> Seq<char> {
    seq!['f', 'F', 'u', 'U', 'd', 'D', 'n', 'N', 'i', 'c', 'k', 'v', 'm']
}

/// `s` without any occurrence of the two characters `p`, read left to right.
pub open spec fn remove_all(s: Seq<char>, p: Seq<char>) -> Seq<char>
    decreases s.len(),
{
    if s.len() < 2 {
        s
    } else if s.take(2) == p {
        remove_all(s.skip(2), p)
    } else {
        seq![s[0]] + remove_all(s.drop_first(), p)
    }
}

/// `s` without the first `k` field codes, taken one after the other.
pub open spec fn strip_codes(s: Seq<char>, k: int) -> Seq<char>
    decreases k,
{
    if k <= 0 {
        s
    } else {
        remove_all(strip_codes(s, k - 1), seq!['%', code_letters()[k - 1]])
    }
}

/// The command line of an `Exec` value: without field codes, trimmed.
pub open spec fn exec_line(exec: Seq<char>) -> Seq<char> {
    trim_of(strip_codes(exec, 13))
}

proof fn lemma_remove_match(s: Seq<char>, p: Seq<char>, i: int)
    requires
        0 <= i,
        i + 2 <= s.len(),
        s.subrange(i, i + 2) == p,
    ensures
        remove_all(s.skip(i), p) == remove_all(s.skip(i + 2), p),
{
    assert(s.skip(i).take(2) =~= s.subrange(i, i + 2));
    assert(s.skip(i).skip(2) =~= s.skip(i + 2));
}

proof fn lemma_remove_keep(s: Seq<char>, p: Seq<char>, i: int)
    requires
        0 <= i,
        i + 2 <= s.len(),
        s.subrange(i, i + 2) != p,
    ensures
        remove_all(s.skip(i), p) == seq![s[i]] + remove_all(s.skip(i + 1), p),
{
    assert(s.skip(i).take(2) =~= s.subrange(i, i + 2));
    assert(s.skip(i).drop_first() =~= s.skip(i + 1));
}

/// `s` without any `%` followed by `code`.
fn remove_code(s: &str, code: char) -> (r: String)
    ensures
        r@ == remove_all(s@, seq!['%', code]),
{
    let ghost p = seq!['%', code];
    let n = s.unicode_len();
    let mut out = String::new();
    let mut start: usize = 0;
    let mut i: usize = 0;
    assert(s@.subrange(0, 0) =~= Seq::<char>::empty());
    assert(s@.skip(0) =~= s@);
    while n - i >= 2
        invariant
            p == seq!['%', code],
            n == s@.len(),
            start <= i <= n,
            remove_all(s@, p) == out@ + s@.subrange(start as int, i as int) + remove_all(
                s@.skip(i as int),
                p,
            ),
        decreases n - i,
    {
        let c0 = s.get_char(i);
        let c1 = s.get_char(i + 1);
        assert(p[0] == '%' && p[1] == code);
        if c0 == '%' && c1 == code {
            assert(s@.subrange(i as int, i + 2) =~= p);
            proof {
                lemma_remove_match(s@, p, i as int);
            }
            let seg = s.substring_char(start, i);
            out.append(seg);
            i = i + 2;
            start = i;
            assert(s@.subrange(start as int, i as int) =~= Seq::<char>::empty());
        } else {
            assert(s@.subrange(i as int, i + 2) != p) by {
                if s@.subrange(i as int, i + 2) == p {
                    assert(s@.subrange(i as int, i + 2)[0] == s@[i as int]);
                    assert(s@.subrange(i as int, i + 2)[1] == s@[i + 1]);
                }
            }
            proof {
                lemma_remove_keep(s@, p, i as int);
                assert(s@.subrange(start as int, i as int) + seq![s@[i as int]] =~= s@.subrange(
                    start as int,
                    i + 1,
                ));
            }
            i = i + 1;
        }
    }
    assert(remove_all(s@.skip(i as int), p) == s@.skip(i as int));
    let seg = s.substring_char(start, n);
    out.append(seg);
    assert(s@.subrange(start as int, i as int) + s@.skip(i as int) =~= s@.subrange(
        start as int,
        n as int,
    ));
    out
}

/// The command line that launches an `Exec` value: field codes dropped,
/// white space trimmed.
pub fn get_exec(exec: &str) -> (r: String)
    ensures
        r@ == exec_line(exec@),
{
    let letters = vec!['f', 'F', 'u', 'U', 'd', 'D', 'n', 'N', 'i', 'c', 'k', 'v', 'm'];
    assert(letters@ =~= code_letters());
    let mut res = exec.to_string();
    let mut k: usize = 0;
    while k < letters.len()
        invariant
            letters@ == code_letters(),
            k <= 13,
            res@ == strip_codes(exec@, k as int),
        decreases 13 - k,
    {
        res = remove_code(res.as_str(), letters[k]);
        k = k + 1;
    }
    trim(res.as_str())
}

/// The shell command line that starts `exec` (already stripped), in a
/// terminal where the application needs one.
pub open spec fn launch_line(
    exec: Seq<char>,
    need_terminal: bool,
    term: Option<Seq<char>>,
    term_args: Option<Seq<char>>,
) -> Seq<char> {
    if !need_terminal {
        exec
    } else {
        match term {
            Some(t) => match term_args {
                Some(a) => t + " "@ + a + " "@ + exec,
                None => t + " "@ + exec,
            },
            None => "kitty -e "@ + exec,
        }
    }
}

impl AppEntry {
    /// The shell command line that launches this application; `term` and
    /// `term_launch_args` name the terminal to use and its arguments.
    pub fn command_line(&self, term: Option<String>, term_launch_args: Option<String>) -> (r:
        String)
        ensures
            r@ == launch_line(
                exec_line(self.command@),
                self.need_terminal,
                crate::config::opt_view(term),
                crate::config::opt_view(term_launch_args),
            ),
    {
        let exec = get_exec(self.command.as_str());
        if !self.need_terminal {
            return exec;
        }
        match term {
            Some(t) => {
                let line = cat(t.as_str(), " ");
                match term_launch_args {
                    Some(a) => {
                        let line = cat(line.as_str(), a.as_str());
                        let line = cat(line.as_str(), " ");
                        cat(line.as_str(), exec.as_str())
                    },
                    None => cat(line.as_str(), exec.as_str()),
                }
            },
            None => cat("kitty -e ", exec.as_str()),
        }
    }
}

/// The score that the fuzzy matcher gives `choice` for `pattern`, `None`
/// where it does not match.
pub uninterp spec fn skim_score(choice: Seq<char>, pattern: Seq<char>) -> Option<i64>;

/// Relies on `fuzzy_matcher::skim::SkimMatcherV2::fuzzy_match` with the
/// default matcher: its score depends on the two texts alone.
#[verifier::external_body]
fn fuzzy_score(choice: &str, pattern: &str) -> (r: Option<i64>)
    ensures
        r == skim_score(choice@, pattern@),
{
    fuzzy_matcher::skim::SkimMatcherV2::default().fuzzy_match(choice, pattern)
}

/// How many applications are shown: one beside a number, else ten.
pub open spec fn entry_limit(evaluates: bool) -> int {
    if evaluates {
        1
    } else {
        10
    }
}

/// A positive score selects an entry.
pub open spec fn selected(score: Option<i64>) -> bool {
    score matches Some(s) && s > 0
}

/// The indices below `k` whose score selects them, in order.
pub open spec fn selected_below(scores: Seq<Option<i64>>, k: int) -> Seq<usize>
    decreases k,
{
    if k <= 0 {
        Seq::empty()
    } else if selected(scores[k - 1]) {
        selected_below(scores, k - 1).push((k - 1) as usize)
    } else {
        selected_below(scores, k - 1)
    }
}

/// The first `limit` indices whose score selects them.
pub open spec fn chosen(scores: Seq<Option<i64>>, limit: int) -> Seq<usize> {
    let all = selected_below(scores, scores.len() as int);
    if all.len() <= limit {
        all
    } else {
        all.take(limit)
    }
}

/// The indices of the entries to show, given each entry's score: those with
/// a positive score, in order, at most one where the query is a number
/// (`evaluates`) and ten otherwise.
pub fn select_scored(scores: &Vec<Option<i64>>, evaluates: bool) -> (r: Vec<usize>)
    ensures
        r@ == chosen(scores@, entry_limit(evaluates)),
{
    let limit: usize = if evaluates {
        1
    } else {
        10
    };
    let mut all: Vec<usize> = Vec::new();
    let mut i: usize = 0;
    while i < scores.len()
        invariant
            i <= scores@.len(),
            all@ == selected_below(scores@, i as int),
        decreases scores@.len() - i,
    {
        let pick = match scores[i] {
            Some(s) => s > 0,
            None => false,
        };
        if pick {
            all.push(i);
        }
        i = i + 1;
    }
    if all.len() <= limit {
        all
    } else {
        let mut r: Vec<usize> = Vec::new();
        let mut j: usize = 0;
        while j < limit
            invariant
                j <= limit < all@.len(),
                r@ == all@.take(j as int),
            decreases limit - j,
        {
            r.push(all[j]);
            assert(all@.take(j + 1) =~= all@.take(j as int).push(all@[j as int]));
            j = j + 1;
        }
        r
    }
}

/// The indices of the applications to show for `query`, ranked by the
/// fuzzy matcher on their names.
pub fn select_entries(entries: &Vec<AppEntry>, query: &str, evaluates: bool) -> (r: Vec<usize>)
    ensures
        r@ == chosen(
            entries@.map_values(|e: AppEntry| skim_score(e.name@, query@)),
            entry_limit(evaluates),
        ),
{
    let mut scores: Vec<Option<i64>> = Vec::new();
    let mut i: usize = 0;
    while i < entries.len()
        invariant
            i <= entries@.len(),
            scores@ =~= entries@.take(i as int).map_values(
                |e: AppEntry| skim_score(e.name@, query@),
            ),
        decreases entries@.len() - i,
    {
        scores.push(fuzzy_score(entries[i].name.as_str(), query));
        i = i + 1;
    }
    assert(entries@.take(i as int) =~= entries@);
    select_scored(&scores, evaluates)
}

} // verus!
