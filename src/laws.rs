//! Properties of the lint pipeline as a whole.
use crate::config::{
    config_manifests, document_manifests, ConfigFault, first_non_string, yaml_at, yaml_documents, yaml_is_bad,
    yaml_is_null, yaml_items, yaml_text, MANIFESTS_KEY,
};
use crate::diagnostics::{error_lines, lines_of, utf8_lossy};
use crate::paths::resolved_paths;
use crate::run::{exit_code_of, initial, pending, replay, step, Outcome, RunState};
use vstd::prelude::*;
use yaml_rust2::Yaml;

verus! {

/// A config whose first document lacks the manifests key lists no
/// manifests; the run over them is over at once, processes nothing and ends
/// with exit code 0, whatever the validator would do.
pub proof fn lemma_missing_key_passes(text: Seq<char>, base: Seq<char>, outcomes: Seq<Outcome>)
    requires
        yaml_documents(text) is Some,
        yaml_documents(text)->0.len() > 0,
        !yaml_is_null(yaml_documents(text)->0[0]),
        yaml_is_bad(yaml_at(yaml_documents(text)->0[0], MANIFESTS_KEY@)),
    ensures
        config_manifests(text) == Ok::<Seq<Seq<char>>, ConfigFault>(Seq::empty()),
        ({
            let s = replay(initial(resolved_paths(base, Seq::empty())), outcomes);
            s.next == 0 && !pending(s) && exit_code_of(s) == 0
        }),
{
    let s0 = initial(resolved_paths(base, Seq::empty()));
    assert(s0.paths =~= Seq::empty());
    assert(!pending(s0));
}

/// Some item that is not a string means a non-string item comes first
/// somewhere.
proof fn lemma_non_string_found(items: Seq<Yaml>, i: int)
    requires
        0 <= i < items.len(),
        yaml_text(items[i]) is None,
    ensures
        first_non_string(items) is Some,
    decreases items.len(),
{
    if i < items.len() - 1 {
        lemma_non_string_found(items.drop_last(), i);
    }
}

/// A manifests sequence with an item that is not a string is a config fault:
/// no run is started, so no validator is invoked.
pub proof fn lemma_non_string_item_is_fatal(text: Seq<char>, i: int)
    requires
        yaml_documents(text) is Some,
        yaml_documents(text)->0.len() > 0,
        !yaml_is_null(yaml_documents(text)->0[0]),
        !yaml_is_bad(yaml_at(yaml_documents(text)->0[0], MANIFESTS_KEY@)),
        yaml_items(yaml_at(yaml_documents(text)->0[0], MANIFESTS_KEY@)) is Some,
        0 <= i < yaml_items(yaml_at(yaml_documents(text)->0[0], MANIFESTS_KEY@))->0.len(),
        yaml_text(yaml_items(yaml_at(yaml_documents(text)->0[0], MANIFESTS_KEY@))->0[i]) is None,
    ensures
        config_manifests(text) is Err,
{
    let doc = yaml_documents(text)->0[0];
    lemma_non_string_found(yaml_items(yaml_at(doc, MANIFESTS_KEY@))->0, i);
    assert(document_manifests(doc) is Err);
}

/// A successful invocation adds no error, whatever the validator printed.
pub proof fn lemma_success_adds_no_errors(s: RunState, stdout: Vec<u8>)
    ensures
        step(s, Outcome::Exited { success: true, stdout }).errors == s.errors,
        step(s, Outcome::Exited { success: true, stdout }).next == s.next + 1,
{
    assert(s.errors + Seq::<Seq<char>>::empty() =~= s.errors);
}

/// A failed invocation adds exactly its output's lines that are neither empty
/// nor benign, in their order, after the errors found before.
pub proof fn lemma_failure_adds_error_lines(s: RunState, stdout: Vec<u8>)
    ensures
        step(s, Outcome::Exited { success: false, stdout }).errors == s.errors + error_lines(
            lines_of(utf8_lossy(stdout@)),
        ),
        error_lines(lines_of(utf8_lossy(stdout@))) == lines_of(utf8_lossy(stdout@)).filter(
            |l: Seq<char>| l.len() > 0 && !crate::diagnostics::is_benign_line(l),
        ),
{
    let ls = lines_of(utf8_lossy(stdout@));
    assert(error_lines(ls) == ls.filter(
        |l: Seq<char>| l.len() > 0 && !crate::diagnostics::is_benign_line(l),
    )) by {
        assert((|l: Seq<char>| crate::diagnostics::is_error_line(l)) =~= (|l: Seq<char>|
            l.len() > 0 && !crate::diagnostics::is_benign_line(l)));
    }
}

/// Two runs over the same config and base, fed the same validator outcomes,
/// end with the same errors and the same exit code.
pub proof fn lemma_rerun_identical(
    text: Seq<char>,
    base: Seq<char>,
    first: RunState,
    second: RunState,
    outcomes: Seq<Outcome>,
)
    requires
        config_manifests(text) is Ok,
        first == initial(resolved_paths(base, config_manifests(text)->Ok_0)),
        second == initial(resolved_paths(base, config_manifests(text)->Ok_0)),
    ensures
        replay(first, outcomes).errors == replay(second, outcomes).errors,
        exit_code_of(replay(first, outcomes)) == exit_code_of(replay(second, outcomes)),
{
}

} // verus!
