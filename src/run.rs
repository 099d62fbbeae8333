//! A lint run over resolved manifests, driven one validator invocation at a
//! time: the caller starts each invocation and hands its outcome back.
use crate::config::{config_manifests, load_manifest_refs, ConfigError};
use crate::diagnostics::{
    invocation_diagnostics, invocation_errors, invocation_warnings, texts, Classified,
};
use crate::paths::{resolve_paths, resolved_paths};
use vstd::prelude::*;

verus! {

/// What happened when the validator was started on one manifest.
pub enum Outcome {
    /// The validator ran to its end with this exit status and standard output.
    Exited { success: bool, stdout: Vec<u8> },
    /// The validator could not be started; the text says why.
    NotStarted { message: String },
}

/// A fault that ends the whole run at once.
#[derive(Debug)]
pub enum LintError {
    /// The config gave no list of manifests.
    Config(ConfigError),
    /// The validator could not be started on the manifest at `path`.
    Invocation { path: String, message: String },
}

/// The state of a run, for contracts.
pub struct RunState {
    /// The resolved manifest paths, in processing order.
    pub paths: Seq<Seq<char>>,
    /// How many manifests have been processed.
    pub next: nat,
    /// The real errors found so far, in manifest order then line order.
    pub errors: Seq<Seq<char>>,
    /// Whether a fatal fault has ended the run.
    pub aborted: bool,
}

/// The state before any manifest is processed.
pub open spec fn initial(paths: Seq<Seq<char>>) -> RunState {
    RunState { paths, next: 0, errors: Seq::empty(), aborted: false }
}

/// A manifest is waiting for its invocation.
pub open spec fn pending(s: RunState) -> bool {
    !s.aborted && s.next < s.paths.len()
}

/// The state after the outcome of the pending manifest's invocation.
pub open spec fn step(s: RunState, o: Outcome) -> RunState {
    match o {
        Outcome::Exited { success, stdout } => RunState {
            next: s.next + 1,
            errors: s.errors + invocation_errors(success, stdout@),
            ..s
        },
        Outcome::NotStarted { .. } => RunState { aborted: true, ..s },
    }
}

/// The state that a sequence of outcomes leads to; outcomes beyond the end
/// of the run are not consumed.
pub open spec fn replay(s: RunState, outcomes: Seq<Outcome>) -> RunState
    decreases outcomes.len(),
{
    if outcomes.len() == 0 || !pending(s) {
        s
    } else {
        replay(step(s, outcomes[0]), outcomes.drop_first())
    }
}

/// The process exit code that a finished run calls for.
pub open spec fn exit_code_of(s: RunState) -> i32 {
    if s.aborted || s.errors.len() > 0 {
        1
    } else {
        0
    }
}

/// A run over a list of resolved manifest paths.
pub struct LintRun {
    paths: Vec<String>,
    next: usize,
    errors: Vec<String>,
    aborted: bool,
}

impl View for LintRun {
    type V = RunState;

    closed spec fn view(&self) -> RunState {
        RunState {
            paths: texts(self.paths@),
            next: self.next as nat,
            errors: texts(self.errors@),
            aborted: self.aborted,
        }
    }
}

impl LintRun {
    /// The run's fields agree with each other.
    pub closed spec fn wf(&self) -> bool {
        self.next <= self.paths.len()
    }

    /// A run over these paths, with nothing processed yet.
    pub fn start(paths: Vec<String>) -> (r: LintRun)
        ensures
            r.wf(),
            r@ == initial(texts(paths@)),
    {
        let r = LintRun { paths, next: 0, errors: Vec::new(), aborted: false };
        proof {
            assert(texts(r.errors@) =~= Seq::empty());
        }
        r
    }

    /// The path of the manifest to validate next, or `None` when the run is
    /// over.
    pub fn next_manifest(&self) -> (r: Option<String>)
        requires
            self.wf(),
        ensures
            r is Some <==> pending(self@),
            r is Some ==> r->0@ == self@.paths[self@.next as int],
    {
        if !self.aborted && self.next < self.paths.len() {
            Some(self.paths[self.next].clone())
        } else {
            None
        }
    }

    /// Records the outcome of the pending manifest's invocation. Gives that
    /// manifest's diagnostics, or the fatal fault where the validator could
    /// not be started.
    pub fn record(&mut self, outcome: Outcome) -> (r: Result<Classified, LintError>)
        requires
            old(self).wf(),
            pending(old(self)@),
        ensures
            final(self).wf(),
            final(self)@ == step(old(self)@, outcome),
            match outcome {
                Outcome::Exited { success, stdout } => r is Ok && texts(r->Ok_0.errors@)
                    == invocation_errors(success, stdout@) && texts(r->Ok_0.warnings@)
                    == invocation_warnings(success, stdout@),
                Outcome::NotStarted { message } => match r {
                    Err(LintError::Invocation { path, message: m }) => path@ == old(
                        self,
                    )@.paths[old(self)@.next as int] && m == message,
                    _ => false,
                },
            },
    {
        match outcome {
            Outcome::Exited { success, stdout } => {
                let found = invocation_diagnostics(success, stdout.as_slice());
                let ghost before = self.errors@;
                let mut i: usize = 0;
                while i < found.errors.len()
                    invariant
                        i <= found.errors@.len(),
                        self.paths == old(self).paths,
                        self.next == old(self).next,
                        self.aborted == old(self).aborted,
                        before == old(self).errors@,
                        texts(self.errors@) == texts(before) + texts(found.errors@).take(i as int),
                    decreases found.errors@.len() - i,
                {
                    let ghost prev = self.errors@;
                    self.errors.push(found.errors[i].clone());
                    proof {
                        assert(self.errors@ == prev.push(found.errors@[i as int]));
                        assert(texts(self.errors@) =~= texts(prev).push(found.errors@[i as int]@));
                        assert(texts(found.errors@).take(i + 1) =~= texts(found.errors@).take(
                            i as int,
                        ).push(found.errors@[i as int]@));
                    }
                    i = i + 1;
                }
                proof {
                    assert(texts(found.errors@).take(i as int) =~= texts(found.errors@));
                }
                self.next = self.next + 1;
                Ok(found)
            },
            Outcome::NotStarted { message } => {
                self.aborted = true;
                Err(LintError::Invocation { path: self.paths[self.next].clone(), message })
            },
        }
    }

    /// The real errors found so far, in manifest order then line order.
    pub fn errors(&self) -> (r: &Vec<String>)
        ensures
            texts(r@) == self@.errors,
    {
        &self.errors
    }

    /// Whether every manifest has been processed without a fatal fault.
    pub fn succeeded(&self) -> (r: bool)
        requires
            self.wf(),
            !pending(self@),
        ensures
            r == (!self@.aborted && self@.errors.len() == 0),
    {
        !self.aborted && self.errors.len() == 0
    }

    /// The exit code of a finished run: 0 when no manifest had a real error
    /// and no fault ended the run, else 1.
    pub fn exit_code(&self) -> (r: i32)
        requires
            self.wf(),
            !pending(self@),
        ensures
            r == exit_code_of(self@),
    {
        if self.aborted || self.errors.len() > 0 {
            1
        } else {
            0
        }
    }
}

/// Reads the manifest list from a config text and starts a run over the
/// manifests resolved against `base`. No run exists where the config is at
/// fault, so no validator is started then.
pub fn prepare_run(text: &str, base: &str) -> (r: Result<LintRun, LintError>)
    ensures
        match (r, config_manifests(text@)) {
            (Ok(run), Ok(refs)) => run.wf() && run@ == initial(resolved_paths(base@, refs)),
            (Err(LintError::Config(e)), Err(f)) => e.fault() == Some(f),
            _ => false,
        },
{
    match load_manifest_refs(text) {
        Ok(refs) => Ok(LintRun::start(resolve_paths(base, &refs))),
        Err(e) => Err(LintError::Config(e)),
    }
}

} // verus!
