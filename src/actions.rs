//! The action executor's decisions: what a confirmed action asks the
//! presentation layer to do.

use vstd::prelude::*;
use crate::model::{PluginAction, PluginActionType};
use crate::text::{is_space, is_space_char, trim, trim_of};

verus! {

/// What the caller performs for a confirmed action.
#[derive(Debug)]
pub enum ActionStep {
    /// End the application.
    Quit,
    /// Hand the target to the platform's default opener.
    OpenTarget(String),
    /// Put the text on the clipboard.
    CopyText(String),
    /// Start a detached process: the program, then its arguments.
    Spawn(Vec<String>),
    /// Nothing to do.
    Nothing,
}

/// The word being read, as a word of its own if it has any character.
pub open spec fn flush(cur: Seq<char>) -> Seq<Seq<char>> {
    if cur.len() > 0 {
        seq![cur]
    } else {
        Seq::empty()
    }
}

/// The white-space separated words of `s`, where `cur` is the part of a
/// word already read.
pub open spec fn words_from(s: Seq<char>, cur: Seq<char>) -> Seq<Seq<char>>
    decreases s.len(),
{
    if s.len() == 0 {
        flush(cur)
    } else if is_space(s[0]) {
        flush(cur) + words_from(s.drop_first(), Seq::empty())
    } else {
        words_from(s.drop_first(), cur.push(s[0]))
    }
}

/// The white-space separated words of `s`.
pub open spec fn words(s: Seq<char>) -> Seq<Seq<char>> {
    words_from(s, Seq::empty())
}

/// A placeholder is a word that starts with `%`.
pub open spec fn is_placeholder(w: Seq<char>) -> bool {
    w.len() > 0 && w[0] == '%'
}

/// The words that are not placeholders, in order.
pub open spec fn without_placeholders(ws: Seq<Seq<char>>) -> Seq<Seq<char>>
    decreases ws.len(),
{
    if ws.len() == 0 {
        Seq::empty()
    } else if is_placeholder(ws.last()) {
        without_placeholders(ws.drop_last())
    } else {
        without_placeholders(ws.drop_last()).push(ws.last())
    }
}

/// The words joined by single spaces.
pub open spec fn joined(ws: Seq<Seq<char>>) -> Seq<char>
    decreases ws.len(),
{
    if ws.len() == 0 {
        Seq::empty()
    } else if ws.len() == 1 {
        ws[0]
    } else {
        joined(ws.drop_last()) + " "@ + ws.last()
    }
}

pub open spec fn views(v: Seq<String>) -> Seq<Seq<char>> {
    v.map_values(|w: String| w@)
}

/// What action `a` asks for.
pub open spec fn step_of(a: PluginActionType) -> ActionStepView {
    match a {
        PluginActionType::Exit => ActionStepView::Quit,
        PluginActionType::Open(t) => ActionStepView::OpenTarget(trim_of(t@)),
        PluginActionType::Copy(t) => ActionStepView::CopyText(t@),
        PluginActionType::Launch(c) => spawn_of(without_placeholders(words(c@))),
        PluginActionType::RunCmd(c) => spawn_of(words(c@)),
        PluginActionType::RunScript(_) => ActionStepView::Nothing,
    }
}

/// A process to start, where there is a program to start.
pub open spec fn spawn_of(argv: Seq<Seq<char>>) -> ActionStepView {
    if argv.len() == 0 {
        ActionStepView::Nothing
    } else {
        ActionStepView::Spawn(argv)
    }
}

/// The mathematical value of an [`ActionStep`].
pub enum ActionStepView {
    Quit,
    OpenTarget(Seq<char>),
    CopyText(Seq<char>),
    Spawn(Seq<Seq<char>>),
    Nothing,
}

impl View for ActionStep {
    type V = ActionStepView;

    open spec fn view(&self) -> ActionStepView {
        match self {
            ActionStep::Quit => ActionStepView::Quit,
            ActionStep::OpenTarget(t) => ActionStepView::OpenTarget(t@),
            ActionStep::CopyText(t) => ActionStepView::CopyText(t@),
            ActionStep::Spawn(v) => ActionStepView::Spawn(views(v@)),
            ActionStep::Nothing => ActionStepView::Nothing,
        }
    }
}

proof fn lemma_words_step(s: Seq<char>, i: int, cur: Seq<char>)
    requires
        0 <= i < s.len(),
    ensures
        is_space(s[i]) ==> words_from(s.skip(i), cur) == flush(cur) + words_from(
            s.skip(i + 1),
            Seq::empty(),
        ),
        !is_space(s[i]) ==> words_from(s.skip(i), cur) == words_from(s.skip(i + 1), cur.push(s[i])),
{
    assert(s.skip(i).drop_first() =~= s.skip(i + 1));
    assert(s.skip(i)[0] == s[i]);
}

/// The white-space separated words of `s`.
pub fn split_words(s: &str) -> (r: Vec<String>)
    ensures
        views(r@) == words(s@),
{
    let n = s.unicode_len();
    let mut out: Vec<String> = Vec::new();
    let mut start: usize = 0;
    let mut i: usize = 0;
    assert(s@.skip(0) =~= s@);
    assert(s@.subrange(0, 0) =~= Seq::<char>::empty());
    assert(views(out@) =~= Seq::<Seq<char>>::empty());
    while i < n
        invariant
            n == s@.len(),
            start <= i <= n,
            words(s@) == views(out@) + words_from(
                s@.skip(i as int),
                s@.subrange(start as int, i as int),
            ),
        decreases n - i,
    {
        let c = s.get_char(i);
        let ghost cur = s@.subrange(start as int, i as int);
        proof {
            lemma_words_step(s@, i as int, cur);
        }
        if is_space_char(c) {
            let ghost before = views(out@);
            if start < i {
                out.push(s.substring_char(start, i).to_string());
                assert(views(out@) =~= before + flush(cur));
            } else {
                assert(flush(cur) =~= Seq::<Seq<char>>::empty());
                assert(before + flush(cur) =~= before);
            }
            assert(views(out@) + words_from(s@.skip(i + 1), Seq::empty()) =~= before + (flush(cur)
                + words_from(s@.skip(i + 1), Seq::empty())));
            i = i + 1;
            start = i;
            assert(s@.subrange(start as int, i as int) =~= Seq::<char>::empty());
        } else {
            assert(cur.push(c) =~= s@.subrange(start as int, i + 1));
            i = i + 1;
        }
    }
    assert(s@.skip(n as int) =~= Seq::<char>::empty());
    let ghost cur = s@.subrange(start as int, n as int);
    let ghost before = views(out@);
    if start < n {
        out.push(s.substring_char(start, n).to_string());
        assert(views(out@) =~= before + flush(cur));
    } else {
        assert(before + flush(cur) =~= before);
    }
    out
}

/// The words of `ws` that are not placeholders.
pub fn drop_placeholders(ws: Vec<String>) -> (r: Vec<String>)
    ensures
        views(r@) == without_placeholders(views(ws@)),
{
    let ghost all = views(ws@);
    let mut rest = ws;
    let mut r: Vec<String> = Vec::new();
    let mut i: usize = 0;
    let n = rest.len();
    assert(all.skip(0) =~= all);
    assert(all.take(0) =~= Seq::<Seq<char>>::empty());
    assert(views(r@) =~= Seq::<Seq<char>>::empty());
    while i < n
        invariant
            n == all.len(),
            i <= n,
            views(rest@) == all.skip(i as int),
            rest@.len() == n - i,
            views(r@) == without_placeholders(all.take(i as int)),
        decreases n - i,
    {
        assert(views(rest@)[0] == rest@[0]@);
        let ghost prev = rest@;
        let w = rest.remove(0);
        assert(w@ == all[i as int]);
        assert forall|k: int| 0 <= k < rest@.len() implies views(rest@)[k] == all.skip(
            i + 1,
        )[k] by {
            assert(rest@[k] == prev[k + 1]);
            assert(views(prev)[k + 1] == prev[k + 1]@);
        }
        assert(views(rest@) =~= all.skip(i + 1));
        assert(all.take(i + 1).drop_last() =~= all.take(i as int));
        let ghost before = views(r@);
        let placeholder = w.as_str().unicode_len() > 0 && w.as_str().get_char(0) == '%';
        if !placeholder {
            r.push(w);
            assert(views(r@) =~= before.push(all[i as int]));
        }
        i = i + 1;
    }
    assert(all.take(n as int) =~= all);
    r
}

/// The words joined by single spaces.
pub fn join_words(ws: &Vec<String>) -> (r: String)
    ensures
        r@ == joined(views(ws@)),
{
    let ghost all = views(ws@);
    let mut out = String::new();
    let mut i: usize = 0;
    assert(all.take(0) =~= Seq::<Seq<char>>::empty());
    while i < ws.len()
        invariant
            all == views(ws@),
            i <= ws@.len(),
            out@ == joined(all.take(i as int)),
        decreases ws@.len() - i,
    {
        assert(all.take(i + 1).drop_last() =~= all.take(i as int));
        if i > 0 {
            out.append(" ");
        } else {
            assert(out@ =~= Seq::<char>::empty());
        }
        out.append(ws[i].as_str());
        assert(all.take(i + 1).last() == ws@[i as int]@);
        i = i + 1;
    }
    assert(all.take(ws@.len() as int) =~= all);
    out
}

/// `cmd` with its placeholder words (those that start with `%`) dropped,
/// its words joined by single spaces.
pub fn replace_placeholders(cmd: String) -> (r: String)
    ensures
        r@ == joined(without_placeholders(words(cmd@))),
{
    let ws = drop_placeholders(split_words(cmd.as_str()));
    join_words(&ws)
}

fn spawn(argv: Vec<String>) -> (r: ActionStep)
    ensures
        r@ == spawn_of(views(argv@)),
{
    if argv.len() == 0 {
        ActionStep::Nothing
    } else {
        ActionStep::Spawn(argv)
    }
}

/// What the presentation layer does when the user confirms `a`.
pub fn action_step(a: &PluginAction) -> (r: ActionStep)
    ensures
        r@ == step_of(a.action),
{
    match &a.action {
        PluginActionType::Exit => ActionStep::Quit,
        PluginActionType::Open(t) => ActionStep::OpenTarget(trim(t.as_str())),
        PluginActionType::Copy(t) => ActionStep::CopyText(t.clone()),
        PluginActionType::Launch(c) => spawn(drop_placeholders(split_words(c.as_str()))),
        PluginActionType::RunCmd(c) => spawn(split_words(c.as_str())),
        PluginActionType::RunScript(_) => ActionStep::Nothing,
    }
}

} // verus!
