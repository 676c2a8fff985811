//! Per-item invocation of the external computation: the fixed argument
//! template and the meaning of a child process's termination.
//!
//! The computation itself is opaque and runs outside the library; the caller
//! spawns it with the argument list fixed here, waits for it, and reports
//! back how the child terminated.  What that termination means for the item —
//! success, or which kind of failure — is decided here.

use vstd::prelude::*;

use crate::enumerate::WorkItem;
use crate::naming::clone_bytes;
use crate::naming::join_path;
use crate::naming::joined;
use crate::naming::output_file_name;
use crate::naming::output_name_of;

verus! {

/// The run-wide configuration: where the computation's entry point and its
/// auxiliary binary resource stand, and which directories the batch reads
/// from and writes to.
pub struct RunConfig {
    pub script: Vec<u8>,
    pub wasm: Vec<u8>,
    pub input_dir: Vec<u8>,
    pub output_dir: Vec<u8>,
}

/// How one child process ended: it could not be started at all, it exited
/// with a status code, or it was cut short by a signal or other external
/// termination.
#[derive(Clone, Copy, Debug, PartialEq, Eq, Structural)]
pub enum Termination {
    SpawnFailed,
    Exited(i32),
    Signalled,
}

/// The kinds of per-item failure.
#[derive(Clone, Copy, Debug, PartialEq, Eq, Structural)]
pub enum FailureKind {
    Spawn,
    Computation,
    Abnormal,
}

/// A per-item failure: which item, by its base name, and which kind.
pub struct ItemFailure {
    pub base_name: Vec<u8>,
    pub kind: FailureKind,
}

/// The mathematical content of a per-item failure.
pub ghost struct FailureView {
    pub base_name: Seq<u8>,
    pub kind: FailureKind,
}

impl View for ItemFailure {
    type V = FailureView;

    open spec fn view(&self) -> FailureView {
        FailureView { base_name: self.base_name@, kind: self.kind }
    }
}

/// The outcome of one invocation: success, or a failure naming the item.
pub enum InvocationOutcome {
    Success,
    Failure(ItemFailure),
}

/// The mathematical content of an invocation outcome.
pub ghost enum OutcomeView {
    Success,
    Failure(FailureView),
}

impl View for InvocationOutcome {
    type V = OutcomeView;

    open spec fn view(&self) -> OutcomeView {
        match self {
            InvocationOutcome::Success => OutcomeView::Success,
            InvocationOutcome::Failure(f) => OutcomeView::Failure(f@),
        }
    }
}

/// How one item's invocation is to be made: the computation's entry point,
/// its auxiliary resource, the item's input path and the derived output
/// path.  Built once per item and never changed.
pub struct InvocationSpec {
    pub script: Vec<u8>,
    pub wasm: Vec<u8>,
    pub input_path: Vec<u8>,
    pub output_path: Vec<u8>,
}

impl InvocationSpec {
    /// Fixes how an item's computation is invoked: entry point and resource
    /// from the run's configuration, the input resolved against the input
    /// directory, and the output artifact named after the item's base name
    /// and resolved against the output directory.
    pub fn build(cfg: &RunConfig, item: &WorkItem) -> (s: InvocationSpec)
        ensures
            s.script@ == cfg.script@,
            s.wasm@ == cfg.wasm@,
            s.input_path@ == joined(cfg.input_dir@, item@.file_name),
            s.output_path@ == joined(cfg.output_dir@, output_name_of(item@.base_name)),
    {
        let artifact = output_file_name(&item.base_name);
        InvocationSpec {
            script: clone_bytes(&cfg.script),
            wasm: clone_bytes(&cfg.wasm),
            input_path: join_path(&cfg.input_dir, &item.file_name),
            output_path: join_path(&cfg.output_dir, &artifact),
        }
    }

    /// The argument vector handed to the computation's runtime, in the fixed
    /// order: entry point, auxiliary resource, input path, output path.
    pub fn arg_list(&self) -> (args: Vec<Vec<u8>>)
        ensures
            args@.len() == 4,
            args@[0]@ == self.script@,
            args@[1]@ == self.wasm@,
            args@[2]@ == self.input_path@,
            args@[3]@ == self.output_path@,
    {
        let mut args: Vec<Vec<u8>> = Vec::new();
        args.push(clone_bytes(&self.script));
        args.push(clone_bytes(&self.wasm));
        args.push(clone_bytes(&self.input_path));
        args.push(clone_bytes(&self.output_path));
        args
    }
}

/// What a termination means for an item: only a plain exit with status zero
/// is success; a non-zero exit is a computation failure, a spawn that never
/// happened is a spawn failure, and a child cut short from outside is an
/// abnormal termination.  Every failure carries the item's base name.
pub open spec fn outcome_for(base: Seq<u8>, t: Termination) -> OutcomeView {
    match t {
        Termination::Exited(code) => if code == 0 {
            OutcomeView::Success
        } else {
            OutcomeView::Failure(FailureView { base_name: base, kind: FailureKind::Computation })
        },
        Termination::SpawnFailed => OutcomeView::Failure(
            FailureView { base_name: base, kind: FailureKind::Spawn },
        ),
        Termination::Signalled => OutcomeView::Failure(
            FailureView { base_name: base, kind: FailureKind::Abnormal },
        ),
    }
}

/// Decides an item's outcome from how its child process ended.
pub fn classify(item: &WorkItem, t: Termination) -> (r: InvocationOutcome)
    ensures
        r@ == outcome_for(item@.base_name, t),
{
    match t {
        Termination::Exited(code) => {
            if code == 0 {
                InvocationOutcome::Success
            } else {
                InvocationOutcome::Failure(
                    ItemFailure {
                        base_name: clone_bytes(&item.base_name),
                        kind: FailureKind::Computation,
                    },
                )
            }
        },
        Termination::SpawnFailed => InvocationOutcome::Failure(
            ItemFailure { base_name: clone_bytes(&item.base_name), kind: FailureKind::Spawn },
        ),
        Termination::Signalled => InvocationOutcome::Failure(
            ItemFailure { base_name: clone_bytes(&item.base_name), kind: FailureKind::Abnormal },
        ),
    }
}

} // verus!
