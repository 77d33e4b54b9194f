//! Bringing up local inference: a readable plan, local validation before any
//! effect, and the decisions of a run (start the node's unit, wait until it
//! is active, pick the first announced model, prove a real generation),
//! which stops at its first failed step.

use vstd::prelude::*;
use crate::inference::ModelInfo;
use crate::services::{ActuateOut, ServiceStatus, fresh_operation_id};
use crate::text::{lit, append, owned, is_blank, is_listed, blank, listed, decimal_of, decimal, bool_str, bool_text, is_ws};

verus! {

/// Device the plan asks for (informative: the unit's binary decides).
#[derive(Debug, Clone, Copy, PartialEq, Eq, Structural)]
pub enum Device {
    Cpu,
    Gpu,
}

/// Launch plan: references a unit the node already knows plus an
/// observable proof.
#[derive(Debug, Clone, PartialEq, Eq)]
pub struct LaunchPlan {
    pub node_url: String,
    pub llama_url: String,
    pub service: String,
    pub device: Device,
    pub ctx_tokens: u32,
    pub slots: u32,
    pub dds_route: String,
    pub proof_prompt: String,
}

/// Why a plan is refused before any effect.
#[derive(Debug, Clone, PartialEq, Eq)]
pub enum LaunchError {
    /// Invalid field or unknown unit: nothing was actuated.
    Invalid { detail: String },
}

impl LaunchError {
    /// The text of the error (`plano invalido: <detail>`).
    pub open spec fn text(self) -> Seq<char> {
        match self {
            LaunchError::Invalid { detail } => "plano invalido: "@ + detail@,
        }
    }

    /// The text of the error.
    pub fn message(&self) -> (r: String)
        ensures
            r@ == self.text(),
    {
        match self {
            LaunchError::Invalid { detail } => {
                let mut r = lit("plano invalido: ");
                append(&mut r, detail.as_str());
                r
            },
        }
    }
}

/// What is wrong with `plan`, first problem first, if anything.
pub open spec fn problem(plan: LaunchPlan, known: Seq<String>) -> Option<Seq<char>> {
    if blank(plan.service@) {
        Some("escolha a unidade na lista lida do nó"@)
    } else if !listed(known, plan.service@) {
        Some("unidade fora da lista lida do nó — releia os serviços"@)
    } else if plan.ctx_tokens == 0 || plan.slots == 0 {
        Some("contexto e slots precisam ser maiores que zero"@)
    } else if blank(plan.proof_prompt@) {
        Some("a prova precisa de um prompt"@)
    } else {
        None
    }
}

/// A plan is valid only when it asks for something runnable: a valid plan
/// names a unit the node listed, has a positive context and a positive
/// number of slots, and a non-blank proof prompt. In particular a plan with
/// zero context tokens or zero slots is always refused (so
/// [`LaunchPlan::validate`] returns `Err` and [`LaunchState::start`] runs
/// nothing), with the capacity message once its unit is a listed one.
pub proof fn lemma_valid_plan_is_runnable(plan: LaunchPlan, known: Seq<String>)
    ensures
        problem(plan, known) is None ==> {
            &&& plan.ctx_tokens > 0
            &&& plan.slots > 0
            &&& exists|i: int| 0 <= i < known.len() && (#[trigger] known[i])@ == plan.service@
            &&& exists|i: int| 0 <= i < plan.proof_prompt@.len() && !is_ws(#[trigger] plan.proof_prompt@[i])
        },
        plan.ctx_tokens == 0 || plan.slots == 0 ==> problem(plan, known) is Some,
        (plan.ctx_tokens == 0 || plan.slots == 0) && (exists|i: int| 0 <= i < known.len() && (#[trigger] known[i])@
            == plan.service@) && !blank(plan.service@) ==> problem(plan, known) == Some(
            "contexto e slots precisam ser maiores que zero"@,
        ),
{
}

/// How the preview names the device.
pub open spec fn device_text(d: Device) -> Seq<char> {
    match d {
        Device::Cpu => "CPU"@,
        Device::Gpu => "GPU (exige build com o backend real)"@,
    }
}

/// The readable preview of a plan.
pub open spec fn preview_text(p: LaunchPlan) -> Seq<char> {
    "1. POST "@ + p.node_url@ + "/services/"@ + p.service@ + "/start (operação idempotente nova)\n2. aguardar active=true em GET /services (até 60s)\n3. GET "@
        + p.llama_url@ + "/v1/models e usar o primeiro modelo anunciado\n4. prova: POST /v1/chat/completions, temp 0, 32 tokens\ndispositivo pedido: "@
        + device_text(p.device) + " · contexto: "@ + decimal(p.ctx_tokens as nat) + " · slots: "@
        + decimal(p.slots as nat) + "\nrota DDS pretendida: "@ + p.dds_route@
        + "\nNADA é criado no nó: só start de unidade própria existente."@
}

impl LaunchPlan {
    /// The default plan: local node and llama server, GPU, 4096 tokens of
    /// context, one slot, minimal proof prompt, no unit chosen.
    pub open spec fn is_default(self) -> bool {
        &&& self.node_url@ == "http://127.0.0.1:4317"@
        &&& self.llama_url@ == "http://127.0.0.1:8082"@
        &&& self.service@.len() == 0
        &&& self.device == Device::Gpu
        &&& self.ctx_tokens == 4096
        &&& self.slots == 1
        &&& self.dds_route@ == "LLM.InferenceRequest (domínio 0)"@
        &&& self.proof_prompt@ == "Responda apenas: INFERENCIA_OK"@
    }

    /// The default plan.
    pub fn new() -> (r: Self)
        ensures
            r.is_default(),
    {
        LaunchPlan {
            node_url: lit("http://127.0.0.1:4317"),
            llama_url: lit("http://127.0.0.1:8082"),
            service: String::new(),
            device: Device::Gpu,
            ctx_tokens: 4096,
            slots: 1,
            dds_route: lit("LLM.InferenceRequest (domínio 0)"),
            proof_prompt: lit("Responda apenas: INFERENCIA_OK"),
        }
    }

    /// An identical plan.
    pub fn duplicate(&self) -> (r: Self)
        ensures
            r == *self,
    {
        LaunchPlan {
            node_url: self.node_url.clone(),
            llama_url: self.llama_url.clone(),
            service: self.service.clone(),
            device: self.device,
            ctx_tokens: self.ctx_tokens,
            slots: self.slots,
            dds_route: self.dds_route.clone(),
            proof_prompt: self.proof_prompt.clone(),
        }
    }

    /// Validates without effect: the unit must be one the node listed, the
    /// numbers useful, the proof prompt non-blank.
    pub fn validate(&self, known_services: &[String]) -> (r: Result<(), LaunchError>)
        ensures
            match problem(*self, known_services@) {
                None => r is Ok,
                Some(d) => r matches Err(LaunchError::Invalid { detail }) && detail@ == d,
            },
    {
        if is_blank(self.service.as_str()) {
            return Err(LaunchError::Invalid { detail: lit("escolha a unidade na lista lida do nó") });
        }
        if !is_listed(known_services, self.service.as_str()) {
            return Err(
                LaunchError::Invalid {
                    detail: lit("unidade fora da lista lida do nó — releia os serviços"),
                },
            );
        }
        if self.ctx_tokens == 0 || self.slots == 0 {
            return Err(
                LaunchError::Invalid { detail: lit("contexto e slots precisam ser maiores que zero") },
            );
        }
        if is_blank(self.proof_prompt.as_str()) {
            return Err(LaunchError::Invalid { detail: lit("a prova precisa de um prompt") });
        }
        Ok(())
    }

    /// Readable preview of everything the run will do, before any effect.
    pub fn preview(&self) -> (r: String)
        ensures
            r@ == preview_text(*self),
    {
        let device = match self.device {
            Device::Cpu => "CPU",
            Device::Gpu => "GPU (exige build com o backend real)",
        };
        let mut r = lit("1. POST ");
        append(&mut r, self.node_url.as_str());
        append(&mut r, "/services/");
        append(&mut r, self.service.as_str());
        append(
            &mut r,
            "/start (operação idempotente nova)\n2. aguardar active=true em GET /services (até 60s)\n3. GET ",
        );
        append(&mut r, self.llama_url.as_str());
        append(
            &mut r,
            "/v1/models e usar o primeiro modelo anunciado\n4. prova: POST /v1/chat/completions, temp 0, 32 tokens\ndispositivo pedido: ",
        );
        append(&mut r, device);
        append(&mut r, " · contexto: ");
        append(&mut r, decimal_of(self.ctx_tokens as u64).as_str());
        append(&mut r, " · slots: ");
        append(&mut r, decimal_of(self.slots as u64).as_str());
        append(&mut r, "\nrota DDS pretendida: ");
        append(&mut r, self.dds_route.as_str());
        append(&mut r, "\nNADA é criado no nó: só start de unidade própria existente.");
        r
    }
}

impl Default for LaunchPlan {
    fn default() -> (r: Self)
        ensures
            r.is_default(),
    {
        Self::new()
    }
}

/// Result of one step of a run, for the panel.
#[derive(Debug, Clone, PartialEq, Eq)]
pub struct StepResult {
    pub step: &'static str,
    pub ok: bool,
    pub detail: String,
}

/// Contents of a [`StepResult`].
pub struct StepView {
    pub step: Seq<char>,
    pub ok: bool,
    pub detail: Seq<char>,
}

impl View for StepResult {
    type V = StepView;

    open spec fn view(&self) -> StepView {
        StepView { step: self.step@, ok: self.ok, detail: self.detail@ }
    }
}

impl StepResult {
    /// The step's line in the panel: a mark, the step and its detail.
    pub open spec fn line_text(self) -> Seq<char> {
        "["@ + (if self.ok {
            "✔"@
        } else {
            "✘"@
        }) + "] "@ + self.step@ + " — "@ + self.detail@
    }

    /// The step's line in the panel.
    pub fn line(&self) -> (r: String)
        ensures
            r@ == self.line_text(),
    {
        let mut r = lit("[");
        append(&mut r, if self.ok { "✔" } else { "✘" });
        append(&mut r, "] ");
        append(&mut r, self.step);
        append(&mut r, " — ");
        append(&mut r, self.detail.as_str());
        r
    }
}

/// Every step succeeded, and there is at least one.
pub open spec fn all_ok(s: Seq<StepResult>) -> bool {
    s.len() > 0 && forall|i: int| 0 <= i < s.len() ==> (#[trigger] s[i]).ok
}

/// The steps a run reports: up to and including the first failed one.
pub open spec fn through_first_failure(s: Seq<StepResult>) -> Seq<StepResult>
    decreases s.len(),
{
    if s.len() == 0 {
        s
    } else if !s[0].ok {
        seq![s[0]]
    } else {
        seq![s[0]] + through_first_failure(s.drop_first())
    }
}

/// The steps to report from a runner's list: they stop at the first failure.
pub fn delivered(steps: Vec<StepResult>) -> (r: Vec<StepResult>)
    ensures
        r@ == through_first_failure(steps@),
{
    let mut rest = steps;
    let mut taken: Vec<StepResult> = Vec::new();
    while rest.len() > 0
        invariant
            through_first_failure(steps@) == taken@ + through_first_failure(rest@),
        decreases rest.len(),
    {
        let ghost before = rest@;
        let step = rest.remove(0);
        assert(before.drop_first() =~= rest@);
        assert(before[0] == step);
        let failed = !step.ok;
        let ghost old_taken = taken@;
        taken.push(step);
        if failed {
            assert(through_first_failure(before) =~= seq![step]);
            assert(taken@ =~= old_taken + seq![step]);
            return taken;
        }
        assert(through_first_failure(before) =~= seq![step] + through_first_failure(rest@));
        assert(taken@ + through_first_failure(rest@) =~= old_taken + (seq![step] + through_first_failure(rest@)));
    }
    assert(through_first_failure(rest@) =~= Seq::<StepResult>::empty());
    assert(taken@ =~= taken@ + Seq::<StepResult>::empty());
    taken
}

/// The assistant: the plan form and the progress of the current run.
pub struct LaunchState {
    pub plan: LaunchPlan,
    pub running: bool,
    pub steps: Vec<StepResult>,
    pub error: String,
}

/// The error line a failed step leaves (`<step>: <detail>`).
pub open spec fn step_error(s: StepResult) -> Seq<char> {
    s.step@ + ": "@ + s.detail@
}

/// A message of a run in the background: a step's result, or its end.
#[derive(Debug)]
pub enum LaunchMsg {
    Step(StepResult),
    Finished,
}

/// The steps carried by `msgs`, in order.
pub open spec fn steps_in(msgs: Seq<LaunchMsg>) -> Seq<StepResult>
    decreases msgs.len(),
{
    if msgs.len() == 0 {
        Seq::empty()
    } else {
        match msgs.last() {
            LaunchMsg::Step(s) => steps_in(msgs.drop_last()).push(s),
            LaunchMsg::Finished => steps_in(msgs.drop_last()),
        }
    }
}

/// The error line after taking `steps` in, starting from `error`: the
/// first failure is kept.
pub open spec fn error_after(error: Seq<char>, steps: Seq<StepResult>) -> Seq<char>
    decreases steps.len(),
{
    if steps.len() == 0 {
        error
    } else {
        let e = error_after(error, steps.drop_last());
        if !steps.last().ok && e.len() == 0 {
            step_error(steps.last())
        } else {
            e
        }
    }
}

/// The message says the run ended.
pub open spec fn is_end(m: LaunchMsg) -> bool {
    m is Finished
}

/// Some message of `msgs` says the run ended.
pub open spec fn ends(msgs: Seq<LaunchMsg>) -> bool {
    exists|i: int| 0 <= i < msgs.len() && #[trigger] is_end(msgs[i])
}

impl LaunchState {
    /// Closed assistant on the default plan, without effect.
    pub fn new() -> (r: Self)
        ensures
            r.plan.is_default(),
            !r.running,
            r.steps@.len() == 0,
            r.error@.len() == 0,
    {
        LaunchState { plan: LaunchPlan::new(), running: false, steps: Vec::new(), error: String::new() }
    }

    /// Validates the plan against the units the node listed. On success the
    /// assistant starts running with a clean slate and the plan to execute
    /// is returned; on failure the error is shown and nothing runs. While a
    /// run is in progress nothing changes.
    pub fn start(&mut self, known_services: &[String]) -> (run: Option<LaunchPlan>)
        ensures
            old(self).running ==> run is None && *final(self) == *old(self),
            !old(self).running && problem(old(self).plan, known_services@) is None ==> {
                &&& run == Some(old(self).plan)
                &&& final(self).running
                &&& final(self).steps@.len() == 0
                &&& final(self).error@.len() == 0
                &&& final(self).plan == old(self).plan
            },
            problem(old(self).plan, known_services@) matches Some(d) ==> (!old(self).running ==> {
                &&& run is None
                &&& final(self).error@ == "plano invalido: "@ + d
                &&& !final(self).running
                &&& final(self).steps == old(self).steps
                &&& final(self).plan == old(self).plan
            }),
    {
        if self.running {
            return None;
        }
        match self.plan.validate(known_services) {
            Ok(()) => {
                self.error = String::new();
                self.steps = Vec::new();
                self.running = true;
                Some(self.plan.duplicate())
            },
            Err(err) => {
                self.error = err.message();
                None
            },
        }
    }

    /// Takes a step reported by the run; the first failure becomes the
    /// error line.
    pub fn deliver(&mut self, step: StepResult)
        ensures
            final(self).steps@ == old(self).steps@.push(step),
            final(self).error@ == if !step.ok && old(self).error@.len() == 0 {
                step_error(step)
            } else {
                old(self).error@
            },
            final(self).plan == old(self).plan,
            final(self).running == old(self).running,
    {
        if !step.ok && self.error.as_str().is_empty() {
            let mut e = lit(step.step);
            append(&mut e, ": ");
            append(&mut e, step.detail.as_str());
            self.error = e;
        }
        self.steps.push(step);
    }

    /// The run ended.
    pub fn finish(&mut self)
        ensures
            !final(self).running,
            final(self).steps == old(self).steps,
            final(self).error == old(self).error,
            final(self).plan == old(self).plan,
    {
        self.running = false;
    }

    /// Takes in the messages the run sent since the last poll: each step
    /// joins the list (the first failure becomes the error line), and the
    /// end of the run stops it.
    pub fn poll(&mut self, msgs: Vec<LaunchMsg>)
        ensures
            final(self).steps@ == old(self).steps@ + steps_in(msgs@),
            final(self).error@ == error_after(old(self).error@, steps_in(msgs@)),
            final(self).running == (old(self).running && !ends(msgs@)),
            final(self).plan == old(self).plan,
    {
        let ghost all = msgs@;
        let ghost start_steps = self.steps@;
        let ghost start_error = self.error@;
        let mut finished = false;
        assert(all.take(0) =~= Seq::<LaunchMsg>::empty());
        assert(start_steps + steps_in(all.take(0)) =~= start_steps);
        for m in it: msgs
            invariant
                it.seq() == all,
                self.steps@ == start_steps + steps_in(all.take(it.index() as int)),
                self.error@ == error_after(start_error, steps_in(all.take(it.index() as int))),
                finished == ends(all.take(it.index() as int)),
                self.running == old(self).running,
                self.plan == old(self).plan,
        {
            let ghost idx = it.index();
            proof {
                assert(all.take(idx + 1).drop_last() =~= all.take(idx as int));
                assert(all.take(idx + 1).last() == m);
            }
            match m {
                LaunchMsg::Step(step) => {
                    let ghost prev = steps_in(all.take(idx as int));
                    self.deliver(step);
                    proof {
                        assert(steps_in(all.take(idx + 1)) == prev.push(step));
                        assert(prev.push(step).drop_last() =~= prev);
                        assert(start_steps + prev.push(step) =~= (start_steps + prev).push(step));
                        if ends(all.take(idx + 1)) {
                            let i = choose|i: int| 0 <= i < idx + 1 && #[trigger] is_end(all.take(idx + 1)[i]);
                            assert(is_end(all.take(idx as int)[i]));
                        }
                    }
                },
                LaunchMsg::Finished => {
                    finished = true;
                    proof {
                        assert(is_end(all.take(idx + 1)[idx as int]));
                    }
                },
            }
        }
        proof {
            assert(all.take(all.len() as int) =~= all);
        }
        if finished {
            self.finish();
        }
    }

    /// The proof the overview shows: the last step's detail once every
    /// step succeeded, nothing otherwise.
    pub fn proof_text(&self) -> (r: &str)
        ensures
            r@ == if !self.running && all_ok(self.steps@) {
                self.steps@.last().detail@
            } else {
                Seq::<char>::empty()
            },
    {
        if self.proved() {
            let last = self.steps.len() - 1;
            self.steps[last].detail.as_str()
        } else {
            proof {
                reveal_strlit("");
            }
            ""
        }
    }

    /// Whether the run ended with every step successful.
    pub fn proved(&self) -> (b: bool)
        ensures
            b == (!self.running && all_ok(self.steps@)),
    {
        if self.running || self.steps.len() == 0 {
            return false;
        }
        let mut i: usize = 0;
        while i < self.steps.len()
            invariant
                i <= self.steps.len(),
                forall|k: int| 0 <= k < i ==> (#[trigger] self.steps@[k]).ok,
            decreases self.steps.len() - i,
        {
            if !self.steps[i].ok {
                return false;
            }
            i = i + 1;
        }
        true
    }
}

impl Default for LaunchState {
    fn default() -> (r: Self)
        ensures
            r.plan.is_default(),
            !r.running,
            r.steps@.len() == 0,
            r.error@.len() == 0,
    {
        Self::new()
    }
}

/// The error line of the first failed step of `s` (nothing when every step
/// succeeded).
pub open spec fn first_error(s: Seq<StepResult>) -> Seq<char>
    decreases s.len(),
{
    if s.len() == 0 {
        Seq::empty()
    } else if !s[0].ok {
        step_error(s[0])
    } else {
        first_error(s.drop_first())
    }
}

/// One step message per step of `s`, in order.
pub open spec fn step_messages(s: Seq<StepResult>) -> Seq<LaunchMsg>
    decreases s.len(),
{
    if s.len() == 0 {
        Seq::empty()
    } else {
        step_messages(s.drop_last()).push(LaunchMsg::Step(s.last()))
    }
}

/// What a background run whose runner produced `steps` sends: the steps up
/// to the first failure (see [`delivered`]), then its end.
pub open spec fn run_messages(steps: Seq<StepResult>) -> Seq<LaunchMsg> {
    step_messages(through_first_failure(steps)).push(LaunchMsg::Finished)
}

proof fn lemma_steps_of_messages(s: Seq<StepResult>)
    ensures
        steps_in(step_messages(s)) == s,
    decreases s.len(),
{
    if s.len() > 0 {
        lemma_steps_of_messages(s.drop_last());
        assert(step_messages(s).drop_last() =~= step_messages(s.drop_last()));
        assert(s.drop_last().push(s.last()) =~= s);
    }
}

proof fn lemma_error_after_append(e: Seq<char>, a: Seq<StepResult>, b: Seq<StepResult>)
    ensures
        error_after(e, a + b) == error_after(error_after(e, a), b),
    decreases b.len(),
{
    if b.len() == 0 {
        assert(a + b =~= a);
    } else {
        assert((a + b).drop_last() =~= a + b.drop_last());
        assert((a + b).last() == b.last());
        lemma_error_after_append(e, a, b.drop_last());
    }
}

proof fn lemma_first_error_reported(s: Seq<StepResult>)
    ensures
        error_after(Seq::empty(), through_first_failure(s)) == first_error(s),
    decreases s.len(),
{
    if s.len() > 0 {
        let one = seq![s[0]];
        let empty = Seq::<StepResult>::empty();
        assert(one.drop_last() =~= empty);
        assert(one.last() == s[0]);
        assert(error_after(Seq::empty(), empty) == Seq::<char>::empty());
        if s[0].ok {
            assert(error_after(Seq::empty(), one) == error_after(Seq::empty(), empty));
            lemma_first_error_reported(s.drop_first());
            lemma_error_after_append(Seq::empty(), one, through_first_failure(s.drop_first()));
            assert(through_first_failure(s) == one + through_first_failure(s.drop_first()));
        } else {
            assert(through_first_failure(s) == one);
            assert(error_after(Seq::empty(), one) == step_error(s[0]));
        }
    }
}

/// A run polled to its end reports exactly the steps up to and including
/// the first failure, shows that failure's error line (none when every
/// step succeeded), and stops. `before` is the assistant just after a
/// successful [`LaunchState::start`], `after` what [`LaunchState::poll`]
/// leaves once given every message of the run.
pub proof fn lemma_run_reports_first_failure(before: LaunchState, after: LaunchState, steps: Seq<StepResult>)
    requires
        before.running,
        before.steps@.len() == 0,
        before.error@.len() == 0,
        after.steps@ == before.steps@ + steps_in(run_messages(steps)),
        after.error@ == error_after(before.error@, steps_in(run_messages(steps))),
        after.running == (before.running && !ends(run_messages(steps))),
    ensures
        after.steps@ == through_first_failure(steps),
        after.error@ == first_error(steps),
        !after.running,
{
    let t = through_first_failure(steps);
    let msgs = run_messages(steps);
    lemma_steps_of_messages(t);
    assert(msgs.drop_last() =~= step_messages(t));
    assert(steps_in(msgs) == t);
    assert(is_end(msgs[msgs.len() - 1]));
    assert(before.steps@ + t =~= t);
    assert(before.error@ =~= Seq::<char>::empty());
    lemma_first_error_reported(steps);
}

/// Effect a run asks of its executor next.
#[derive(Debug, Clone, PartialEq, Eq)]
pub enum LaunchAction {
    /// `POST <node>/services/<service>/start` with a new operation id.
    Actuate { node_url: String, service: String, operation_id: String },
    /// `GET <node>/services`.
    ListServices { node_url: String },
    /// Wait one second before polling again.
    Pause,
    /// `GET <llama>/v1/models`.
    ListModels { llama_url: String },
    /// `POST <llama>/v1/chat/completions` with the prompt as the one user
    /// message, temperature zero and `max_tokens` tokens.
    Prove { llama_url: String, model: String, prompt: String, max_tokens: u32 },
    /// Nothing more to do.
    Stop,
}

/// What the executor observed, one per action.
#[derive(Debug, PartialEq, Eq)]
pub enum LaunchEvent {
    Actuated(Result<ActuateOut, String>),
    Services(Result<Vec<ServiceStatus>, String>),
    Paused,
    Models(Result<Vec<ModelInfo>, String>),
    Replied(Result<String, String>),
}

/// Where a run stands.
#[derive(Debug, Clone, Copy, PartialEq, Eq, Structural)]
pub enum RunPhase {
    /// Waiting for the outcome of the start request.
    Actuating,
    /// Waiting for a service listing; `polls` listings were asked so far.
    Waiting { polls: u32 },
    /// Waiting out the pause after `polls` listings without the unit active.
    Pausing { polls: u32 },
    /// Waiting for the model listing.
    Listing,
    /// Waiting for the generation.
    Proving,
    /// Done (successfully or at a failed step).
    Finished,
}

/// How many service listings a run waits for the unit to become active.
pub const MAX_POLLS: u32 = 60;

/// Tokens the generation proof asks for.
pub const PROOF_TOKENS: u32 = 32;

/// Decisions of one launch run.
pub struct LaunchRun {
    pub plan: LaunchPlan,
    pub phase: RunPhase,
    pub steps: Vec<StepResult>,
}

/// Detail of a successful start step.
pub open spec fn actuate_detail(out: ActuateOut) -> Seq<char> {
    if out.active || !out.acted {
        "wanted=true active="@ + bool_text(out.active) + " acted="@ + bool_text(out.acted)
    } else {
        "registrado; active="@ + bool_text(out.active) + " (aguardando)"@
    }
}

/// The unit is listed and effectively active.
pub open spec fn unit_active(list: Seq<ServiceStatus>, service: Seq<char>) -> bool {
    exists|i: int| 0 <= i < list.len() && (#[trigger] list[i]).service@ == service && list[i].active
}

/// A step with the given name, outcome and detail.
pub open spec fn step_is(s: StepResult, name: Seq<char>, ok: bool, detail: Seq<char>) -> bool {
    s.step@ == name && s.ok == ok && s.detail@ == detail
}

impl LaunchRun {
    /// A run stops at its first failure: every step but the last succeeded,
    /// and a failed step means the run is finished.
    pub open spec fn wf(self) -> bool {
        &&& forall|i: int| 0 <= i < self.steps@.len() - 1 ==> (#[trigger] self.steps@[i]).ok
        &&& (self.steps@.len() > 0 && !self.steps@.last().ok) ==> self.phase == RunPhase::Finished
        &&& match self.phase {
            RunPhase::Waiting { polls } => 1 <= polls <= MAX_POLLS,
            RunPhase::Pausing { polls } => 1 <= polls <= MAX_POLLS,
            _ => true,
        }
    }

    /// Starts a run of `plan`: the first action starts the node's unit.
    pub fn begin(plan: LaunchPlan) -> (r: (LaunchRun, LaunchAction))
        ensures
            r.0.plan == plan,
            r.0.phase == RunPhase::Actuating,
            r.0.steps@.len() == 0,
            r.0.wf(),
            r.1 matches LaunchAction::Actuate { node_url, service, operation_id }
                && node_url@ == plan.node_url@ && service@ == plan.service@
                && exists|n: nat| operation_id@ == "gui-"@ + plan.service@ + "-"@ + decimal(n),
    {
        let operation_id = fresh_operation_id(plan.service.as_str());
        let action = LaunchAction::Actuate {
            node_url: plan.node_url.clone(),
            service: plan.service.clone(),
            operation_id,
        };
        (LaunchRun { plan, phase: RunPhase::Actuating, steps: Vec::new() }, action)
    }

    fn record(&mut self, name: &'static str, ok: bool, detail: String)
        ensures
            final(self).steps@.len() == old(self).steps@.len() + 1,
            final(self).steps@.drop_last() == old(self).steps@,
            step_is(final(self).steps@.last(), name@, ok, detail@),
            forall|i: int| 0 <= i < old(self).steps@.len() ==> final(self).steps@[i] == old(self).steps@[i],
            final(self).plan == old(self).plan,
            final(self).phase == old(self).phase,
    {
        self.steps.push(StepResult { step: name, ok, detail });
        assert(self.steps@.drop_last() =~= old(self).steps@);
    }

    /// Advances the run with what the executor observed and returns the next
    /// action. An event that does not answer the pending action changes
    /// nothing and stops the run's requests.
    pub fn advance(&mut self, event: LaunchEvent) -> (action: LaunchAction)
        requires
            old(self).wf(),
        ensures
            final(self).wf(),
            final(self).plan == old(self).plan,
            match (old(self).phase, event) {
                (RunPhase::Actuating, LaunchEvent::Actuated(Ok(out))) => {
                    &&& final(self).steps@.drop_last() == old(self).steps@
                    &&& step_is(final(self).steps@.last(), "atuar start"@, true, actuate_detail(out))
                    &&& final(self).phase == (RunPhase::Waiting { polls: 1 })
                    &&& (action matches LaunchAction::ListServices { node_url } && node_url@ == old(self).plan.node_url@)
                },
                (RunPhase::Actuating, LaunchEvent::Actuated(Err(e))) => {
                    &&& final(self).steps@.drop_last() == old(self).steps@
                    &&& step_is(final(self).steps@.last(), "atuar start"@, false, e@)
                    &&& final(self).phase == RunPhase::Finished
                    &&& action == LaunchAction::Stop
                },
                (RunPhase::Waiting { polls }, LaunchEvent::Services(Ok(list))) => if unit_active(list@, old(self).plan.service@) {
                    &&& final(self).steps@.drop_last() == old(self).steps@
                    &&& step_is(final(self).steps@.last(), "aguardar ativo"@, true, "active=true"@)
                    &&& final(self).phase == RunPhase::Listing
                    &&& (action matches LaunchAction::ListModels { llama_url } && llama_url@ == old(self).plan.llama_url@)
                } else {
                    &&& final(self).steps == old(self).steps
                    &&& final(self).phase == (RunPhase::Pausing { polls })
                    &&& action == LaunchAction::Pause
                },
                (RunPhase::Waiting { .. }, LaunchEvent::Services(Err(e))) => {
                    &&& final(self).steps@.drop_last() == old(self).steps@
                    &&& step_is(final(self).steps@.last(), "aguardar ativo"@, false, e@)
                    &&& final(self).phase == RunPhase::Finished
                    &&& action == LaunchAction::Stop
                },
                (RunPhase::Pausing { polls }, LaunchEvent::Paused) => if polls < MAX_POLLS {
                    &&& final(self).steps == old(self).steps
                    &&& final(self).phase == (RunPhase::Waiting { polls: (polls + 1) as u32 })
                    &&& (action matches LaunchAction::ListServices { node_url } && node_url@ == old(self).plan.node_url@)
                } else {
                    &&& final(self).steps@.drop_last() == old(self).steps@
                    &&& step_is(final(self).steps@.last(), "aguardar ativo"@, false, "unidade não ficou ativa em 60s"@)
                    &&& final(self).phase == RunPhase::Finished
                    &&& action == LaunchAction::Stop
                },
                (RunPhase::Listing, LaunchEvent::Models(Ok(models))) => if models@.len() > 0 {
                    &&& final(self).steps@.drop_last() == old(self).steps@
                    &&& step_is(final(self).steps@.last(), "listar modelos"@, true, "primeiro anunciado: "@ + models@[0].id@)
                    &&& final(self).phase == RunPhase::Proving
                    &&& (action matches LaunchAction::Prove { llama_url, model, prompt, max_tokens }
                        && llama_url@ == old(self).plan.llama_url@ && model@ == models@[0].id@
                        && prompt@ == old(self).plan.proof_prompt@ && max_tokens == PROOF_TOKENS)
                } else {
                    &&& final(self).steps@.drop_last() == old(self).steps@
                    &&& step_is(final(self).steps@.last(), "listar modelos"@, false, "servidor sem modelos anunciados"@)
                    &&& final(self).phase == RunPhase::Finished
                    &&& action == LaunchAction::Stop
                },
                (RunPhase::Listing, LaunchEvent::Models(Err(e))) => {
                    &&& final(self).steps@.drop_last() == old(self).steps@
                    &&& step_is(final(self).steps@.last(), "listar modelos"@, false, e@)
                    &&& final(self).phase == RunPhase::Finished
                    &&& action == LaunchAction::Stop
                },
                (RunPhase::Proving, LaunchEvent::Replied(Ok(text))) => {
                    &&& final(self).steps@.drop_last() == old(self).steps@
                    &&& step_is(final(self).steps@.last(), "prova de geração"@, true, text@)
                    &&& final(self).phase == RunPhase::Finished
                    &&& action == LaunchAction::Stop
                },
                (RunPhase::Proving, LaunchEvent::Replied(Err(e))) => {
                    &&& final(self).steps@.drop_last() == old(self).steps@
                    &&& step_is(final(self).steps@.last(), "prova de geração"@, false, e@)
                    &&& final(self).phase == RunPhase::Finished
                    &&& action == LaunchAction::Stop
                },
                _ => {
                    &&& final(self).steps == old(self).steps
                    &&& final(self).phase == old(self).phase
                    &&& action == LaunchAction::Stop
                },
            },
    {
        proof {
            if old(self).phase != RunPhase::Finished && old(self).steps@.len() > 0 {
                assert(old(self).steps@[old(self).steps@.len() - 1].ok);
            }
        }
        match (self.phase, event) {
            (RunPhase::Actuating, LaunchEvent::Actuated(Ok(out))) => {
                let detail = if out.active || !out.acted {
                    let mut d = lit("wanted=true active=");
                    append(&mut d, bool_str(out.active));
                    append(&mut d, " acted=");
                    append(&mut d, bool_str(out.acted));
                    d
                } else {
                    let mut d = lit("registrado; active=");
                    append(&mut d, bool_str(out.active));
                    append(&mut d, " (aguardando)");
                    d
                };
                self.record("atuar start", true, detail);
                self.phase = RunPhase::Waiting { polls: 1 };
                LaunchAction::ListServices { node_url: self.plan.node_url.clone() }
            },
            (RunPhase::Actuating, LaunchEvent::Actuated(Err(e))) => {
                self.record("atuar start", false, e);
                self.phase = RunPhase::Finished;
                LaunchAction::Stop
            },
            (RunPhase::Waiting { polls }, LaunchEvent::Services(Ok(list))) => {
                if unit_is_active(&list, self.plan.service.as_str()) {
                    self.record("aguardar ativo", true, lit("active=true"));
                    self.phase = RunPhase::Listing;
                    LaunchAction::ListModels { llama_url: self.plan.llama_url.clone() }
                } else {
                    self.phase = RunPhase::Pausing { polls };
                    LaunchAction::Pause
                }
            },
            (RunPhase::Waiting { .. }, LaunchEvent::Services(Err(e))) => {
                self.record("aguardar ativo", false, e);
                self.phase = RunPhase::Finished;
                LaunchAction::Stop
            },
            (RunPhase::Pausing { polls }, LaunchEvent::Paused) => {
                if polls < MAX_POLLS {
                    self.phase = RunPhase::Waiting { polls: polls + 1 };
                    LaunchAction::ListServices { node_url: self.plan.node_url.clone() }
                } else {
                    self.record("aguardar ativo", false, lit("unidade não ficou ativa em 60s"));
                    self.phase = RunPhase::Finished;
                    LaunchAction::Stop
                }
            },
            (RunPhase::Listing, LaunchEvent::Models(Ok(models))) => {
                if models.len() > 0 {
                    let id = models[0].id.clone();
                    let mut d = lit("primeiro anunciado: ");
                    append(&mut d, id.as_str());
                    self.record("listar modelos", true, d);
                    self.phase = RunPhase::Proving;
                    LaunchAction::Prove {
                        llama_url: self.plan.llama_url.clone(),
                        model: id,
                        prompt: self.plan.proof_prompt.clone(),
                        max_tokens: PROOF_TOKENS,
                    }
                } else {
                    self.record("listar modelos", false, lit("servidor sem modelos anunciados"));
                    self.phase = RunPhase::Finished;
                    LaunchAction::Stop
                }
            },
            (RunPhase::Listing, LaunchEvent::Models(Err(e))) => {
                self.record("listar modelos", false, e);
                self.phase = RunPhase::Finished;
                LaunchAction::Stop
            },
            (RunPhase::Proving, LaunchEvent::Replied(reply)) => {
                match reply {
                    Ok(text) => self.record("prova de geração", true, text),
                    Err(e) => self.record("prova de geração", false, e),
                }
                self.phase = RunPhase::Finished;
                LaunchAction::Stop
            },
            _ => LaunchAction::Stop,
        }
    }
}

fn unit_is_active(list: &Vec<ServiceStatus>, service: &str) -> (b: bool)
    ensures
        b == unit_active(list@, service@),
{
    let mut i: usize = 0;
    while i < list.len()
        invariant
            i <= list.len(),
            forall|k: int| 0 <= k < i ==> !((#[trigger] list@[k]).service@ == service@ && list@[k].active),
        decreases list.len() - i,
    {
        if list[i].active && crate::text::same(list[i].service.as_str(), service) {
            return true;
        }
        i = i + 1;
    }
    false
}

} // verus!
