//! Remote command execution inside a pod: combining the captured output
//! streams and folding the outcome into the stable response shape.

use vstd::prelude::*;

use crate::types::view_opt_str;
use crate::types::ContainerFields;
use crate::types::ExecResponse;
use crate::types::PodFields;

verus! {

/// The combined output of a command: stdout verbatim when stderr stayed
/// empty, otherwise stdout followed by the literal stderr separator and
/// the stderr text.
pub open spec fn spec_combined_output(stdout: Seq<char>, stderr: Seq<char>) -> Seq<char> {
    if stderr.len() == 0 {
        stdout
    } else {
        stdout + "\n[stderr]:\n"@ + stderr
    }
}

/// Combine the fully captured stdout and stderr streams of an executed
/// command into one output text.
pub fn combine_exec_output(stdout: &str, stderr: &str) -> (r: String)
    ensures
        r@ == spec_combined_output(stdout@, stderr@),
{
    if stderr.is_empty() {
        stdout.to_owned()
    } else {
        let r = stdout.to_owned().concat("\n[stderr]:\n").concat(stderr);
        proof {
            assert(r@ =~= spec_combined_output(stdout@, stderr@));
        }
        r
    }
}

/// Fold an execution outcome into the stable response shape: captured
/// output on success, otherwise empty output with the failure text
/// embedded verbatim as a soft error.
pub fn exec_pod_command(outcome: Result<String, String>) -> (r: ExecResponse)
    ensures
        match outcome {
            Ok(o) => r.output@ == o@ && r.error is None,
            Err(e) => r.output@.len() == 0 && view_opt_str(r.error) == Some(e@),
        },
{
    match outcome {
        Ok(o) => ExecResponse { output: o, error: None },
        Err(e) => ExecResponse { output: String::new(), error: Some(e) },
    }
}

/// The views of a vector of strings.
pub open spec fn string_views(s: Seq<String>) -> Seq<Seq<char>> {
    s.map(|i: int, x: String| x@)
}

/// The names of a sequence of declared containers, in order.
pub open spec fn spec_container_names(cs: Seq<crate::types::ContainerFieldsView>) -> Seq<
    Seq<char>,
> {
    cs.map(|i: int, c: crate::types::ContainerFieldsView| c.name)
}

/// The declared container names of a pod, in order.
pub fn container_names(pod: &PodFields) -> (r: Vec<String>)
    ensures
        string_views(r@) == spec_container_names(pod@.containers),
{
    let mut r: Vec<String> = Vec::new();
    let mut i: usize = 0;
    while i < pod.containers.len()
        invariant
            i <= pod.containers@.len(),
            r@.len() == i,
            forall|j: int| 0 <= j < i ==> (#[trigger] r@[j])@ == pod.containers@[j].name@,
        decreases pod.containers@.len() - i,
    {
        r.push(pod.containers[i].name.clone());
        i = i + 1;
    }
    proof {
        assert forall|j: int| 0 <= j < pod.containers@.len() implies string_views(r@)[j]
            == spec_container_names(pod@.containers)[j] by {
            assert(r@[j]@ == pod.containers@[j].name@);
            assert(pod@.containers[j] == pod.containers@[j]@);
        }
        assert(string_views(r@) =~= spec_container_names(pod@.containers));
    }
    r
}

} // verus!
