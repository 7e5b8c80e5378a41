use vstd::prelude::*;
use solana_program::account_info::AccountInfo;
use solana_program::program_error::ProgramError;
use crate::cpi::Instruction;
use crate::error::AppError;
use crate::request::{build, CallRequest, CallRequestView};
use crate::runtime::{invoke, invoke_signed, log_line, seeds_view};

verus! {

/// One step of a pipeline: the line written to the program log before the
/// step, if any, the call to make, the positions in the account list of the
/// handles to pass with it, in order, and the seeds to sign it with, if it is
/// signed for a program-derived address.
#[derive(Clone, Debug, PartialEq, Eq)]
pub struct PlannedCall<'s> {
    pub label: Option<String>,
    pub request: CallRequest,
    pub accounts: Vec<usize>,
    pub signer_seeds: Option<&'s [&'s [u8]]>,
}

/// The mathematical value of a [`PlannedCall`].
pub struct PlannedCallView {
    pub label: Option<Seq<char>>,
    pub request: CallRequestView,
    pub accounts: Seq<usize>,
    pub signer_seeds: Option<Seq<Seq<u8>>>,
}

impl<'s> View for PlannedCall<'s> {
    type V = PlannedCallView;

    open spec fn view(&self) -> PlannedCallView {
        PlannedCallView {
            label: match self.label {
                Some(line) => Some(line@),
                None => None,
            },
            request: self.request@,
            accounts: self.accounts@,
            signer_seeds: optional_seeds_view(self.signer_seeds),
        }
    }
}

/// The byte sequences of an optional list of seeds.
pub open spec fn optional_seeds_view(seeds: Option<&[&[u8]]>) -> Option<Seq<Seq<u8>>> {
    match seeds {
        Some(list) => Some(seeds_view(list@)),
        None => None,
    }
}

/// The characters of an optional line.
pub open spec fn optional_line_view(line: Option<&str>) -> Option<Seq<char>> {
    match line {
        Some(text) => Some(text@),
        None => None,
    }
}

impl<'s> PlannedCall<'s> {
    /// A step from its parts.
    pub fn new(
        label: Option<&str>,
        request: CallRequest,
        accounts: Vec<usize>,
        signer_seeds: Option<&'s [&'s [u8]]>,
    ) -> (call: PlannedCall<'s>)
        ensures
            call@ == (PlannedCallView {
                label: optional_line_view(label),
                request: request@,
                accounts: accounts@,
                signer_seeds: optional_seeds_view(signer_seeds),
            }),
    {
        let label = match label {
            Some(line) => Some(line.to_owned()),
            None => None,
        };
        PlannedCall { label, request, accounts, signer_seeds }
    }
}

impl PlannedCallView {
    /// Whether the step can be run against a list of `count` accounts: its
    /// arguments can be encoded and every position it names is in the list.
    pub open spec fn runnable(self, count: nat) -> bool {
        &&& self.request.encodable()
        &&& forall|i: int| 0 <= i < self.accounts.len() ==> self.accounts[i] < count
    }
}

/// The mathematical value of a plan: the value of each step, in order.
pub open spec fn plan_view(plan: Seq<PlannedCall>) -> Seq<PlannedCallView> {
    plan.map_values(|call: PlannedCall| call@)
}

/// Whether every step of a plan can be run against a list of `count`
/// accounts.
pub open spec fn plan_runnable(plan: Seq<PlannedCallView>, count: nat) -> bool {
    forall|i: int| 0 <= i < plan.len() ==> (#[trigger] plan[i]).runnable(count)
}

/// Why a pipeline stopped.
#[derive(Debug, PartialEq)]
pub enum CallFailure {
    /// The builder of step `index` refused its arguments; the call was never
    /// handed to the runtime.
    Refused { index: usize, error: ProgramError },
    /// Step `index` was handed to the runtime and came back with an error.
    Failed { index: usize, error: ProgramError },
}

/// What a pipeline did: the instructions it handed to the runtime, in order,
/// and why it stopped, if it stopped before the end.
#[derive(Debug, PartialEq)]
pub struct CallReport {
    pub issued: Vec<Instruction>,
    pub failure: Option<CallFailure>,
}

impl CallReport {
    /// Whether the report is a run of `plan`. The issued instructions are
    /// those of the first steps of the plan, in the plan's order, each the
    /// instruction that stands for its step. A run without failure issued
    /// every step. A refused step is the first step not issued, and it has no
    /// instruction. A failed step is the last one issued. So every step but a
    /// failed one came back from the runtime with success.
    pub open spec fn follows(&self, plan: Seq<PlannedCallView>) -> bool {
        &&& self.issued@.len() <= plan.len()
        &&& forall|i: int|
            0 <= i < self.issued@.len() ==> (#[trigger] plan[i]).request.instruction() == Some(
                self.issued@[i]@,
            )
        &&& match self.failure {
            None => self.issued@.len() == plan.len(),
            Some(CallFailure::Refused { index, .. }) => {
                &&& index == self.issued@.len()
                &&& index < plan.len()
                &&& plan[index as int].request.instruction() is None
            },
            Some(CallFailure::Failed { index, .. }) => index + 1 == self.issued@.len(),
        }
    }

    /// Whether step `index` was handed to the runtime and came back with
    /// success.
    pub open spec fn succeeded(&self, index: int) -> bool {
        &&& 0 <= index < self.issued@.len()
        &&& !(self.failure matches Some(CallFailure::Failed { index: failed, .. }) && failed == index)
    }

    /// The result that the instruction reports for this run: success where
    /// nothing failed, and otherwise the error of the step that stopped the
    /// run, as it came.
    pub open spec fn spec_result(&self) -> Result<(), AppError> {
        match self.failure {
            None => Ok(()),
            Some(CallFailure::Refused { error, .. }) => Err(AppError::External(error)),
            Some(CallFailure::Failed { error, .. }) => Err(AppError::External(error)),
        }
    }

    /// The result that the instruction reports for this run.
    pub fn into_result(self) -> (result: Result<(), AppError>)
        ensures
            result == self.spec_result(),
            result is Ok <==> self.failure is None,
    {
        match self.failure {
            None => Ok(()),
            Some(CallFailure::Refused { index: _, error }) => Err(AppError::External(error)),
            Some(CallFailure::Failed { index: _, error }) => Err(AppError::External(error)),
        }
    }
}

/// What became of a pipeline: it was stopped before anything was handed to
/// the runtime, or it ran, wholly or in part.
#[derive(Debug, PartialEq)]
pub enum Attempt {
    /// Nothing was handed to the runtime, for this reason.
    Stopped(AppError),
    /// The calls were begun; the report says how far they went.
    Ran(CallReport),
}

impl Attempt {
    /// Whether the attempt is a run of `plan`: the calls were begun, and the
    /// report follows the plan.
    pub open spec fn ran(&self, plan: Seq<PlannedCallView>) -> bool {
        self matches Attempt::Ran(report) && report.follows(plan)
    }

    /// The result that the instruction reports for this attempt: the reason
    /// of a stop, or the result of the run.
    pub open spec fn spec_result(&self) -> Result<(), AppError> {
        match *self {
            Attempt::Stopped(error) => Err(error),
            Attempt::Ran(report) => report.spec_result(),
        }
    }

    /// The result that the instruction reports for this attempt.
    pub fn into_result(self) -> (result: Result<(), AppError>)
        ensures
            result == self.spec_result(),
    {
        match self {
            Attempt::Stopped(error) => Err(error),
            Attempt::Ran(report) => report.into_result(),
        }
    }
}

/// The handles at `positions` of `infos`, in the order of the positions.
pub fn select_handles<'a, 'b>(infos: &'b [&'b AccountInfo<'a>], positions: &Vec<usize>) -> (handles: Vec<
    &'b AccountInfo<'a>,
>)
    requires
        forall|i: int| 0 <= i < positions@.len() ==> positions@[i] < infos@.len(),
    ensures
        handles@.len() == positions@.len(),
        forall|i: int| 0 <= i < positions@.len() ==> handles@[i] == infos@[positions@[i] as int],
{
    let mut handles: Vec<&'b AccountInfo<'a>> = Vec::new();
    let mut i: usize = 0;
    while i < positions.len()
        invariant
            i <= positions@.len(),
            handles@.len() == i,
            forall|j: int| 0 <= j < positions@.len() ==> positions@[j] < infos@.len(),
            forall|j: int| 0 <= j < i ==> handles@[j] == infos@[positions@[j] as int],
        decreases positions@.len() - i,
    {
        handles.push(infos[positions[i]]);
        i = i + 1;
    }
    handles
}

/// In every run of a plan the steps are handed to the runtime in the plan's
/// order and without gaps: a step is issued only after every step before it
/// was issued and came back with success. The first failure is the end.
pub proof fn lemma_steps_are_gated(plan: Seq<PlannedCallView>, report: CallReport, step: int, earlier: int)
    requires
        report.follows(plan),
        0 <= earlier < step < report.issued@.len(),
    ensures
        report.succeeded(earlier),
        plan[earlier].request.instruction() == Some(report.issued@[earlier]@),
{
}

/// Runs a plan: for each step in order, writes its label to the program log
/// if it has one, builds its instruction and hands it to the runtime with the
/// account handles the step names, signed with the step's seeds if it has
/// any. The first step that is refused or fails ends the run; nothing is
/// retried.
///
/// Whether a call succeeds is for the called program to say. Whatever it
/// says, the report is a run of the plan.
pub fn execute<'a, 'b>(plan: &Vec<PlannedCall<'_>>, infos: &'b [&'b AccountInfo<'a>]) -> (report: CallReport)
    requires
        plan_runnable(plan_view(plan@), infos@.len()),
    ensures
        report.follows(plan_view(plan@)),
        plan@.len() == 0 ==> report.failure is None,
{
    let ghost steps = plan_view(plan@);
    let mut issued: Vec<Instruction> = Vec::new();
    let mut next: usize = 0;
    while next < plan.len()
        invariant
            steps == plan_view(plan@),
            plan_runnable(steps, infos@.len()),
            next <= plan@.len(),
            issued@.len() == next,
            forall|i: int|
                0 <= i < next ==> (#[trigger] steps[i]).request.instruction() == Some(issued@[i]@),
        decreases plan@.len() - next,
    {
        let step = &plan[next];
        assert(steps[next as int] == step@);
        assert(steps[next as int].runnable(infos@.len()));
        assert(forall|i: int| 0 <= i < step.accounts@.len() ==> step.accounts@[i] < infos@.len()) by {
            assert(step@.accounts == step.accounts@);
        }
        if let Some(line) = &step.label {
            log_line(line.as_str());
        }
        match build(&step.request) {
            Err(error) => {
                return CallReport { issued, failure: Some(CallFailure::Refused { index: next, error }) };
            },
            Ok(call) => {
                let handles = select_handles(infos, &step.accounts);
                let outcome = match step.signer_seeds {
                    Some(seeds) => invoke_signed(&call, &handles, seeds),
                    None => invoke(&call, &handles),
                };
                issued.push(call);
                if let Err(error) = outcome {
                    return CallReport { issued, failure: Some(CallFailure::Failed { index: next, error }) };
                }
            },
        }
        next = next + 1;
    }
    CallReport { issued, failure: None }
}

} // verus!
