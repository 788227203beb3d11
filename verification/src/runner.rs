//! What is said of a command once it has ended: whether it counts as a
//! success, and which lines are shown.

use vstd::prelude::*;
use vstd::string::*;

verus! {

/// What a command wrote while its output was kept back.
#[derive(Clone, Debug, PartialEq, Eq)]
pub struct Captured {
    pub stdout: String,
    pub stderr: String,
}

/// How a command ended.
#[derive(Clone, Debug, PartialEq, Eq)]
pub struct Outcome {
    /// The exit code; a command that was ended by a signal has none.
    pub code: Option<i32>,
    /// What the command wrote, where its output was kept back rather than
    /// forwarded while it ran.
    pub captured: Option<Captured>,
}

/// The line that is shown after every command that succeeded.
pub open spec fn spec_success_marker() -> Seq<char> {
    "[-] success!"@
}

/// The lines that are shown once a command has ended: the success marker
/// after a success; after a failure what the command wrote, where that was
/// kept back, and nothing where it was forwarded while the command ran.
pub open spec fn spec_report(success: bool, captured: Option<(Seq<char>, Seq<char>)>) -> Seq<
    Seq<char>,
> {
    if success {
        seq![spec_success_marker()]
    } else {
        match captured {
            Some((stdout, stderr)) => seq!["stdout: "@ + stdout, "stderr: "@ + stderr],
            None => Seq::empty(),
        }
    }
}

/// The line that is shown after every command that succeeded.
pub fn success_marker() -> (marker: String)
    ensures
        marker@ == spec_success_marker(),
{
    String::from_str("[-] success!")
}

impl Outcome {
    /// A command succeeded if it ended with the exit code 0.
    pub open spec fn spec_success(&self) -> bool {
        self.code == Some(0i32)
    }

    /// What the command wrote, where that was kept back.
    pub open spec fn spec_captured(&self) -> Option<(Seq<char>, Seq<char>)> {
        match self.captured {
            Some(captured) => Some((captured.stdout@, captured.stderr@)),
            None => None,
        }
    }

    /// Whether the command succeeded.
    pub fn success(&self) -> (ok: bool)
        ensures
            ok == self.spec_success(),
    {
        match self.code {
            Some(code) => code == 0,
            None => false,
        }
    }

    /// The lines to show for this outcome, in order.
    pub fn report(&self) -> (lines: Vec<String>)
        ensures
            lines.deep_view() == spec_report(self.spec_success(), self.spec_captured()),
    {
        let mut lines: Vec<String> = Vec::new();
        if self.success() {
            lines.push(success_marker());
            assert(lines.deep_view() == seq![spec_success_marker()]);
        } else {
            match &self.captured {
                Some(captured) => {
                    lines.push(String::from_str("stdout: ").concat(captured.stdout.as_str()));
                    lines.push(String::from_str("stderr: ").concat(captured.stderr.as_str()));
                    assert(lines.deep_view() == seq![
                        "stdout: "@ + captured.stdout@,
                        "stderr: "@ + captured.stderr@,
                    ]);
                },
                None => {
                    assert(lines.deep_view() == Seq::<Seq<char>>::empty());
                },
            }
        }
        lines
    }
}

/// The success marker is shown exactly once after a success, as the only
/// line, and never after a failure. After a failure of a command whose
/// output was kept back, what it wrote to its error stream is shown.
pub proof fn lemma_report_marks_success(success: bool, captured: Option<(Seq<char>, Seq<char>)>)
    ensures
        success ==> spec_report(success, captured) == seq![spec_success_marker()],
        !success ==> forall|k: int|
            0 <= k < spec_report(success, captured).len() ==> spec_report(success, captured)[k]
                != spec_success_marker(),
        !success ==> (captured matches Some((stdout, stderr)) ==> spec_report(
            success,
            captured,
        ).len() == 2 && spec_report(success, captured)[1] == "stderr: "@ + stderr),
{
    reveal_strlit("[-] success!");
    reveal_strlit("stdout: ");
    reveal_strlit("stderr: ");
    if !success {
        match captured {
            Some((stdout, stderr)) => {
                assert(("stdout: "@ + stdout)[0] == 's');
                assert(("stderr: "@ + stderr)[0] == 's');
                assert(spec_success_marker()[0] == '[');
            },
            None => {},
        }
    }
}

} // verus!
