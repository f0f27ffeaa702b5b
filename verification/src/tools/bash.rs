use vstd::prelude::*;
use vstd::string::StringExecFns;
use crate::content::Fragment;
use crate::text::trim_ws;
use crate::text::trimmed;
use crate::tool::Tool;
use crate::tool::ToolKind;

verus! {

/// Input of the shell capability.
pub struct BashInput {
    pub command: String,
}

/// Register the shell tool.
pub fn execute_bash_tool() -> (t: Tool)
    ensures
        crate::tool::tool_wf(t),
        t.name@ == "bash"@,
        t.description@ == "Execute a bash command and return its output. Use this to run shell commands."@,
        t.validator.kind is Bash,
{
    Tool::new(
        String::from_str("bash"),
        String::from_str(
            "Execute a bash command and return its output. Use this to run shell commands.",
        ),
        ToolKind::Bash,
    )
}

/// The shell capability's result content: the captured standard output,
/// trimmed, as one text fragment.
pub fn bash_output_fragments(stdout: &str) -> (f: Vec<Fragment>)
    ensures
        f@.len() == 1,
        f@[0] matches Fragment::Text(t) && t@ == trimmed(stdout@),
{
    let mut f: Vec<Fragment> = Vec::new();
    f.push(Fragment::Text(trim_ws(stdout)));
    f
}

} // verus!
