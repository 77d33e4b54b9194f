//! The agent editor: a four-step assistant for creation (the same
//! structure serves editing). Going back keeps every field; the review
//! shows the distinct destinations before any effect.

use vstd::prelude::*;
use crate::agent_defs::AgentDefinition;
use crate::text::{lit, trim, trim_str, views, join, join_strings, push_char};

verus! {

broadcast use vstd::seq_lib::group_seq_properties;

/// Steps of the creation assistant.
#[derive(Debug, Clone, Copy, PartialEq, Eq, Structural)]
pub enum EditorStep {
    Identity,
    Execution,
    Tools,
    Review,
}

impl EditorStep {
    /// Position of the step in the assistant.
    pub open spec fn ordinal(self) -> nat {
        match self {
            EditorStep::Identity => 0,
            EditorStep::Execution => 1,
            EditorStep::Tools => 2,
            EditorStep::Review => 3,
        }
    }

    /// The step's title.
    pub open spec fn title(self) -> Seq<char> {
        match self {
            EditorStep::Identity => "1 · Identidade e instruções"@,
            EditorStep::Execution => "2 · Execução"@,
            EditorStep::Tools => "3 · Ferramentas"@,
            EditorStep::Review => "4 · Revisão"@,
        }
    }

    /// The step after this one.
    pub open spec fn after(self) -> Option<EditorStep> {
        match self {
            EditorStep::Identity => Some(EditorStep::Execution),
            EditorStep::Execution => Some(EditorStep::Tools),
            EditorStep::Tools => Some(EditorStep::Review),
            EditorStep::Review => None,
        }
    }

    /// The step before this one.
    pub open spec fn before(self) -> Option<EditorStep> {
        match self {
            EditorStep::Identity => None,
            EditorStep::Execution => Some(EditorStep::Identity),
            EditorStep::Tools => Some(EditorStep::Execution),
            EditorStep::Review => Some(EditorStep::Tools),
        }
    }

    /// The step's title.
    pub fn label(self) -> (r: &'static str)
        ensures
            r@ == self.title(),
    {
        match self {
            EditorStep::Identity => "1 · Identidade e instruções",
            EditorStep::Execution => "2 · Execução",
            EditorStep::Tools => "3 · Ferramentas",
            EditorStep::Review => "4 · Revisão",
        }
    }

    /// The next step, if any.
    pub fn next(self) -> (r: Option<EditorStep>)
        ensures
            r == self.after(),
    {
        match self {
            EditorStep::Identity => Some(EditorStep::Execution),
            EditorStep::Execution => Some(EditorStep::Tools),
            EditorStep::Tools => Some(EditorStep::Review),
            EditorStep::Review => None,
        }
    }

    /// The previous step, if any.
    pub fn previous(self) -> (r: Option<EditorStep>)
        ensures
            r == self.before(),
    {
        match self {
            EditorStep::Identity => None,
            EditorStep::Execution => Some(EditorStep::Identity),
            EditorStep::Tools => Some(EditorStep::Execution),
            EditorStep::Review => Some(EditorStep::Tools),
        }
    }

    /// Position of the step in the assistant.
    pub fn position(self) -> (r: u8)
        ensures
            r == self.ordinal(),
    {
        match self {
            EditorStep::Identity => 0,
            EditorStep::Execution => 1,
            EditorStep::Tools => 2,
            EditorStep::Review => 3,
        }
    }

    /// Free navigation goes backwards only: `step` can be chosen directly
    /// from `current` when it does not come after it.
    pub fn reachable_from(self, current: EditorStep) -> (r: bool)
        ensures
            r == (self.ordinal() <= current.ordinal()),
    {
        self.position() <= current.position()
    }
}

impl Default for EditorStep {
    fn default() -> (r: Self)
        ensures
            r == EditorStep::Identity,
    {
        EditorStep::Identity
    }
}

/// Going forward then back returns to the same step, and back then
/// forward too; the assistant runs in order through four steps.
pub proof fn lemma_steps_inverse(s: EditorStep)
    ensures
        s.after() matches Some(n) ==> n.before() == Some(s) && n.ordinal() == s.ordinal() + 1,
        s.before() matches Some(p) ==> p.after() == Some(s) && p.ordinal() + 1 == s.ordinal(),
        s.ordinal() < 4,
{
}

/// A local validation error of one step (values are never erased).
#[derive(Debug, Clone, PartialEq, Eq)]
pub struct StepError {
    pub step: EditorStep,
    pub message: String,
}

/// Editor state: the draft, the current step and the local errors.
#[derive(Debug, Clone)]
pub struct AgentEditor {
    pub draft: AgentDefinition,
    pub step: EditorStep,
    pub errors: Vec<StepError>,
}

/// The message of a step whose required field is missing: only the
/// identity step requires something, a name that is not blank.
pub open spec fn step_problem(step: EditorStep, draft: AgentDefinition) -> Option<Seq<char>> {
    if step == EditorStep::Identity && trim(draft.name@).len() == 0 {
        Some("nome do agente é obrigatório"@)
    } else {
        None
    }
}

/// The errors of other steps than `step`.
pub open spec fn errors_elsewhere(errors: Seq<StepError>, step: EditorStep) -> Seq<StepError> {
    errors.filter(|e: StepError| e.step != step)
}

impl AgentEditor {
    /// An editor on an empty draft with identity `id`, at the first step.
    pub fn new(id: &str) -> (r: Self)
        ensures
            r.draft.is_draft_of(id@),
            r.step == EditorStep::Identity,
            r.errors@.len() == 0,
    {
        AgentEditor { draft: AgentDefinition::draft(id), step: EditorStep::Identity, errors: Vec::new() }
    }

    /// Validates the current step without erasing any value: its earlier
    /// errors are dropped and the new one, if any, is recorded.
    pub fn validate_current(&mut self) -> (ok: bool)
        ensures
            ok == (step_problem(old(self).step, old(self).draft) is None),
            final(self).draft == old(self).draft,
            final(self).step == old(self).step,
            match step_problem(old(self).step, old(self).draft) {
                None => final(self).errors@ == errors_elsewhere(old(self).errors@, old(self).step),
                Some(m) => final(self).errors@.len() == errors_elsewhere(old(self).errors@, old(self).step).len()
                    + 1 && final(self).errors@.drop_last() == errors_elsewhere(old(self).errors@, old(self).step)
                    && final(self).errors@.last().step == old(self).step && final(self).errors@.last().message@
                    == m,
            },
    {
        let step = self.step;
        let ghost pred = |e: StepError| e.step != step;
        let mut old_errors: Vec<StepError> = Vec::new();
        std::mem::swap(&mut old_errors, &mut self.errors);
        let mut kept: Vec<StepError> = Vec::new();
        for e in it: old_errors
            invariant
                it.seq() == old(self).errors@,
                kept@ == it.seq().take(it.index() as int).filter(pred),
                pred == (|e: StepError| e.step != step),
        {
            proof {
                let s = it.seq().take(it.index() as int);
                assert(it.seq().take(it.index() + 1) =~= s.push(e));
                crate::text::lemma_filter_push(s, e, pred);
            }
            if e.step != step {
                kept.push(e);
            }
        }
        proof {
            assert(old(self).errors@.take(old(self).errors@.len() as int) =~= old(self).errors@);
            assert(pred == (|e: StepError| e.step != old(self).step));
        }
        self.errors = kept;
        let missing = match step {
            EditorStep::Identity => trim_str(self.draft.name.as_str()).as_str().is_empty(),
            _ => false,
        };
        if missing {
            self.errors.push(StepError { step, message: lit("nome do agente é obrigatório") });
            return false;
        }
        true
    }

    /// Advances after validating; an invalid step stays where it is.
    pub fn next(&mut self)
        ensures
            final(self).draft == old(self).draft,
            final(self).step == if step_problem(old(self).step, old(self).draft) is None {
                match old(self).step.after() {
                    Some(n) => n,
                    None => old(self).step,
                }
            } else {
                old(self).step
            },
            step_problem(old(self).step, old(self).draft) is None ==> final(self).errors@ == errors_elsewhere(
                old(self).errors@,
                old(self).step,
            ),
            step_problem(old(self).step, old(self).draft) is Some ==> final(self).errors@.len()
                == errors_elsewhere(old(self).errors@, old(self).step).len() + 1,
    {
        if self.validate_current() {
            if let Some(step) = self.step.next() {
                self.step = step;
            }
        }
    }

    /// Goes back, keeping every field and never validating.
    pub fn back(&mut self)
        ensures
            final(self).draft == old(self).draft,
            final(self).errors == old(self).errors,
            final(self).step == match old(self).step.before() {
                Some(p) => p,
                None => old(self).step,
            },
    {
        if let Some(step) = self.step.previous() {
            self.step = step;
        }
    }

    /// Final summary of distinct destinations, for the review.
    pub fn review(&self) -> (r: String)
        ensures
            r@ == self.draft.summary(),
    {
        self.draft.destination_summary()
    }
}

/// Splitting `s` at its line breaks, as read left to right: the lines
/// completed so far and the line in progress.
pub open spec fn split_lines(s: Seq<char>) -> (Seq<Seq<char>>, Seq<char>)
    decreases s.len(),
{
    if s.len() == 0 {
        (Seq::empty(), Seq::empty())
    } else {
        let (done, cur) = split_lines(s.drop_last());
        if s.last() == '\n' {
            (done.push(cur), Seq::empty())
        } else {
            (done, cur.push(s.last()))
        }
    }
}

/// The trimmed, non-blank lines of `lines`.
pub open spec fn kept_lines(lines: Seq<Seq<char>>) -> Seq<Seq<char>>
    decreases lines.len(),
{
    if lines.len() == 0 {
        Seq::empty()
    } else {
        let rest = kept_lines(lines.drop_last());
        if trim(lines.last()).len() > 0 {
            rest.push(trim(lines.last()))
        } else {
            rest
        }
    }
}

/// The tool identifiers typed one per line: each line trimmed, blank
/// lines dropped.
pub open spec fn tool_lines(s: Seq<char>) -> Seq<Seq<char>> {
    let (done, cur) = split_lines(s);
    kept_lines(done.push(cur))
}

proof fn lemma_split_single_line(s: Seq<char>)
    requires
        forall|i: int| 0 <= i < s.len() ==> s[i] != '\n',
    ensures
        split_lines(s) == (Seq::<Seq<char>>::empty(), s),
    decreases s.len(),
{
    if s.len() > 0 {
        lemma_split_single_line(s.drop_last());
        assert(s.drop_last().push(s.last()) =~= s);
    }
}

proof fn lemma_split_after_break(p: Seq<char>, q: Seq<char>)
    requires
        split_lines(p).1.len() == 0,
    ensures
        split_lines(p + q) == (split_lines(p).0 + split_lines(q).0, split_lines(q).1),
    decreases q.len(),
{
    if q.len() == 0 {
        assert(p + q =~= p);
        assert(split_lines(p).0 + Seq::<Seq<char>>::empty() =~= split_lines(p).0);
        assert(split_lines(p).1 =~= Seq::<char>::empty());
    } else {
        lemma_split_after_break(p, q.drop_last());
        assert((p + q).drop_last() =~= p + q.drop_last());
        assert((p + q).last() == q.last());
        let dp = split_lines(p).0;
        let dq = split_lines(q.drop_last()).0;
        let cq = split_lines(q.drop_last()).1;
        assert((dp + dq).push(cq) =~= dp + dq.push(cq));
    }
}

proof fn lemma_kept_lines_append(x: Seq<Seq<char>>, y: Seq<Seq<char>>)
    ensures
        kept_lines(x + y) == kept_lines(x) + kept_lines(y),
    decreases y.len(),
{
    if y.len() == 0 {
        assert(x + y =~= x);
        assert(kept_lines(x) + kept_lines(y) =~= kept_lines(x));
    } else {
        lemma_kept_lines_append(x, y.drop_last());
        assert((x + y).drop_last() =~= x + y.drop_last());
        assert((x + y).last() == y.last());
        let kx = kept_lines(x);
        let ky = kept_lines(y.drop_last());
        assert((kx + ky).push(trim(y.last())) =~= kx + ky.push(trim(y.last())));
    }
}

/// A text without line breaks is one line: it gives its trimmed content
/// as the only tool, or nothing when it is blank. The last line counts
/// even without a trailing line break.
pub proof fn lemma_single_line_is_one_tool(s: Seq<char>)
    requires
        forall|i: int| 0 <= i < s.len() ==> s[i] != '\n',
    ensures
        tool_lines(s) == if trim(s).len() > 0 {
            seq![trim(s)]
        } else {
            Seq::<Seq<char>>::empty()
        },
{
    lemma_split_single_line(s);
    let one = Seq::<Seq<char>>::empty().push(s);
    assert(one.drop_last() =~= Seq::<Seq<char>>::empty());
    assert(one.last() == s);
    assert(kept_lines(Seq::<Seq<char>>::empty()) == Seq::<Seq<char>>::empty());
    assert(tool_lines(s) == kept_lines(one));
    assert(Seq::<Seq<char>>::empty().push(trim(s)) =~= seq![trim(s)]);
}

/// Two texts joined by a line break give the tools of the first followed
/// by the tools of the second: no line is lost or merged at the break.
pub proof fn lemma_tool_lines_concat(a: Seq<char>, b: Seq<char>)
    ensures
        tool_lines(a + "\n"@ + b) == tool_lines(a) + tool_lines(b),
{
    reveal_strlit("\n");
    let p = a + "\n"@;
    assert(p.drop_last() =~= a);
    assert(p.last() == '\n');
    let da = split_lines(a).0;
    let ca = split_lines(a).1;
    assert(split_lines(p) == (da.push(ca), Seq::<char>::empty()));
    lemma_split_after_break(p, b);
    let db = split_lines(b).0;
    let cb = split_lines(b).1;
    assert((da.push(ca) + db).push(cb) =~= da.push(ca) + db.push(cb));
    lemma_kept_lines_append(da.push(ca), db.push(cb));
}

/// Reading back the edited text of a tool list gives the list again, for
/// identifiers that are non-empty, already trimmed and without line breaks.
pub proof fn lemma_tools_text_roundtrip(v: Seq<Seq<char>>)
    requires
        forall|i: int| 0 <= i < v.len() ==> (#[trigger] v[i]).len() > 0 && trim(v[i]) == v[i],
        forall|i: int, k: int| 0 <= i < v.len() && 0 <= k < v[i].len() ==> (#[trigger] v[i][k]) != '\n',
    ensures
        tool_lines(join(v, "\n"@)) == v,
    decreases v.len(),
{
    if v.len() == 0 {
        lemma_single_line_is_one_tool(Seq::<char>::empty());
        crate::text::lemma_trim_blank(Seq::<char>::empty());
        assert(v =~= Seq::<Seq<char>>::empty());
    } else {
        let last = v.last();
        assert(last == v[v.len() - 1]);
        assert forall|k: int| 0 <= k < last.len() implies last[k] != '\n' by {
            assert(v[v.len() - 1][k] != '\n');
        }
        lemma_single_line_is_one_tool(last);
        if v.len() == 1 {
            assert(v =~= seq![last]);
        } else {
            let init = v.drop_last();
            assert forall|i: int| 0 <= i < init.len() implies (#[trigger] init[i]).len() > 0 && trim(init[i]) == init[i] by {
                assert(init[i] == v[i]);
            }
            assert forall|i: int, k: int| 0 <= i < init.len() && 0 <= k < init[i].len() implies (#[trigger] init[i][k])
                != '\n' by {
                assert(init[i] == v[i]);
            }
            lemma_tools_text_roundtrip(init);
            lemma_tool_lines_concat(join(init, "\n"@), last);
            assert(init + seq![last] =~= v);
        }
    }
}

/// Reads the tool list typed one identifier per line.
pub fn tools_from_text(text: &str) -> (r: Vec<String>)
    ensures
        views(r@) == tool_lines(text@),
{
    let v = crate::text::chars_of(text);
    let mut done: Vec<String> = Vec::new();
    let mut cur = String::new();
    let mut i: usize = 0;
    assert(text@.take(0) =~= Seq::<char>::empty());
    while i < v.len()
        invariant
            i <= v@.len(),
            v@ == text@,
            views(done@) == kept_lines(split_lines(text@.take(i as int)).0),
            cur@ == split_lines(text@.take(i as int)).1,
        decreases v.len() - i,
    {
        proof {
            assert(text@.take(i + 1).drop_last() =~= text@.take(i as int));
            let d = split_lines(text@.take(i as int)).0;
            assert(d.push(cur@).drop_last() =~= d);
        }
        if v[i] == '\n' {
            let t = trim_str(cur.as_str());
            if !t.as_str().is_empty() {
                let ghost before = done@;
                done.push(t);
                assert(views(done@) =~= views(before).push(t@));
            }
            cur = String::new();
        } else {
            push_char(&mut cur, v[i]);
        }
        i = i + 1;
    }
    assert(text@.take(v@.len() as int) =~= text@);
    proof {
        let d = split_lines(text@).0;
        assert(d.push(cur@).drop_last() =~= d);
    }
    let t = trim_str(cur.as_str());
    if !t.as_str().is_empty() {
        let ghost before = done@;
        done.push(t);
        assert(views(done@) =~= views(before).push(t@));
    }
    done
}

/// The tool list as edited: one identifier per line.
pub fn tools_text(tools: &Vec<String>) -> (r: String)
    ensures
        r@ == join(views(tools@), "\n"@),
{
    join_strings(tools, "\n")
}

} // verus!
