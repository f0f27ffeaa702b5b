use vstd::prelude::*;
use vstd::string::StringExecFns;
use crate::content::Fragment;
use crate::tool::Tool;
use crate::tool::ToolKind;

verus! {

/// Input of the file-read capability.
pub struct ReadFileInput {
    pub path: String,
}

/// Register the file-read tool.
pub fn read_file_tool() -> (t: Tool)
    ensures
        crate::tool::tool_wf(t),
        t.name@ == "read_file"@,
        t.description@ == "Read the contents of a given relative file path. Use this when you want to see what's inside a file. Do not use this with directory names."@,
        t.validator.kind is ReadFile,
{
    Tool::new(
        String::from_str("read_file"),
        String::from_str(
            "Read the contents of a given relative file path. Use this when you want to see what's inside a file. Do not use this with directory names.",
        ),
        ToolKind::ReadFile,
    )
}

/// The file-read capability's result content: the file's text as one
/// fragment.
pub fn read_file_fragments(content: String) -> (f: Vec<Fragment>)
    ensures
        f@.len() == 1,
        f@[0] matches Fragment::Text(t) && t@ == content@,
{
    let mut f: Vec<Fragment> = Vec::new();
    f.push(Fragment::Text(content));
    f
}

} // verus!
