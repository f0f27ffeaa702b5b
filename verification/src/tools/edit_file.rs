use vstd::prelude::*;
use vstd::string::StrSliceExecFns;
use vstd::string::StringExecFns;
use crate::content::Fragment;
use crate::text::concat_strs;
use crate::text::count_matches;
use crate::text::decimal;
use crate::text::dec_of;
use crate::text::find_first;
use crate::text::first_at;
use crate::text::lemma_count_pos_iff_found;
use crate::text::occ_count;
use crate::text::replace_at;
use crate::tool::Tool;
use crate::tool::ToolKind;

verus! {

/// Input of the file-edit capability.
pub struct EditFileInput {
    pub new_str: String,
    pub old_str: String,
    pub path: String,
}

/// Register the file-edit tool.
pub fn edit_file_tool() -> (t: Tool)
    ensures
        crate::tool::tool_wf(t),
        t.name@ == "edit_file"@,
        t.description@ == "Make edits to a text file.\n\nReplaces 'old_str' with 'new_str' in the given file. 'old_str' and 'new_str' MUST be different from each other.\n\nIf the file specified with path doesn't exist, it will be created.\n"@,
        t.validator.kind is EditFile,
{
    Tool::new(
        String::from_str("edit_file"),
        String::from_str(
            "Make edits to a text file.\n\nReplaces 'old_str' with 'new_str' in the given file. 'old_str' and 'new_str' MUST be different from each other.\n\nIf the file specified with path doesn't exist, it will be created.\n",
        ),
        ToolKind::EditFile,
    )
}

/// Why an edit was refused; each case is reported before anything would be
/// written.
#[derive(Debug)]
pub enum EditError {
    EmptyPath,
    SameStrings,
    NotFound,
    Ambiguous { count: usize, path: String },
}

pub open spec fn edit_err_msg(e: EditError) -> Seq<char> {
    match e {
        EditError::EmptyPath => "path must not be empty"@,
        EditError::SameStrings => "old_str and new_str must be different"@,
        EditError::NotFound => "old_str not found in file"@,
        EditError::Ambiguous { count, path } => "old_str found "@ + dec_of(count as int)
            + " times in file "@ + path@ + ", must be unique"@,
    }
}

impl EditError {
    /// The diagnostic handed back to the model; the ambiguous case names the
    /// exact occurrence count.
    pub fn message(&self) -> (r: String)
        ensures
            r@ == edit_err_msg(*self),
    {
        match self {
            EditError::EmptyPath => String::from_str("path must not be empty"),
            EditError::SameStrings => String::from_str("old_str and new_str must be different"),
            EditError::NotFound => String::from_str("old_str not found in file"),
            EditError::Ambiguous { count, path } => {
                let r = String::from_str("old_str found ").concat(decimal(*count).as_str()).concat(
                    " times in file ",
                ).concat(path.as_str()).concat(", must be unique");
                assert(r@ =~= edit_err_msg(*self));
                r
            },
        }
    }
}

/// The refusals that precede any I/O: an empty path and equal strings are
/// rejected before the file is looked at, read or written. The shell
/// consults this before touching the file system.
pub fn edit_precheck(input: &EditFileInput) -> (r: Result<(), EditError>)
    ensures
        input.path@.len() == 0 ==> (r matches Err(e) && e is EmptyPath),
        (input.path@.len() > 0 && input.old_str@ == input.new_str@) ==> (r matches Err(e) && e
            is SameStrings),
        (input.path@.len() > 0 && input.old_str@ != input.new_str@) ==> r is Ok,
{
    if input.path.as_str().is_empty() {
        Err(EditError::EmptyPath)
    } else if input.old_str == input.new_str {
        Err(EditError::SameStrings)
    } else {
        Ok(())
    }
}

/// The text after replacing the first occurrence of `old` with `new`;
/// meaningful when an occurrence exists.
pub open spec fn replaced_once(text: Seq<char>, old: Seq<char>, new: Seq<char>) -> Seq<char> {
    (text.subrange(0, first_at(text, old, 0)) + new + text.subrange(
        first_at(text, old, 0) + old.len() as int,
        text.len() as int,
    ))
}

/// The whole file-edit decision, free of any I/O. `existing` is the current
/// file content, or `None` when no file exists at the path. On success the
/// result is the full content to write:
/// - an empty path or equal strings is refused before anything else;
/// - a missing file is created with exactly the new text;
/// - an empty `old_str` appends the new text;
/// - otherwise `old_str` must occur exactly once and that occurrence is
///   replaced; zero or several occurrences are refused, the latter with a
///   count-exact diagnostic.
pub fn edit_plan(input: &EditFileInput, existing: Option<&String>) -> (r: Result<
    String,
    EditError,
>)
    ensures
        input.path@.len() == 0 ==> (r matches Err(e) && e is EmptyPath),
        (input.path@.len() > 0 && input.old_str@ == input.new_str@) ==> (r matches Err(e) && e
            is SameStrings),
        (input.path@.len() > 0 && input.old_str@ != input.new_str@) ==> (match existing {
            None => (r matches Ok(s) && s@ == input.new_str@),
            Some(text) => (if input.old_str@.len() == 0 {
                r matches Ok(s) && s@ == text@ + input.new_str@
            } else if occ_count(text@, input.old_str@, 0) == 0 {
                r matches Err(e) && e is NotFound
            } else if occ_count(text@, input.old_str@, 0) > 1 {
                r matches Err(EditError::Ambiguous { count, path }) && count as nat == occ_count(
                    text@,
                    input.old_str@,
                    0,
                ) && path@ == input.path@
            } else {
                r matches Ok(s) && s@ == replaced_once(text@, input.old_str@, input.new_str@)
            }),
        }),
{
    if input.path.as_str().is_empty() {
        return Err(EditError::EmptyPath);
    }
    if input.old_str == input.new_str {
        return Err(EditError::SameStrings);
    }
    match existing {
        None => Ok(input.new_str.clone()),
        Some(text) => {
            if input.old_str.as_str().is_empty() {
                Ok(concat_strs(text.as_str(), input.new_str.as_str()))
            } else {
                let c = count_matches(text.as_str(), input.old_str.as_str());
                if c == 0 {
                    Err(EditError::NotFound)
                } else if c > 1 {
                    Err(EditError::Ambiguous { count: c, path: input.path.clone() })
                } else {
                    proof {
                        lemma_count_pos_iff_found(text@, input.old_str@, 0);
                    }
                    match find_first(text.as_str(), input.old_str.as_str()) {
                        Some(i) => {
                            let m = input.old_str.as_str().unicode_len();
                            Ok(replace_at(text.as_str(), i, m, input.new_str.as_str()))
                        },
                        None => {
                            // One occurrence was counted, so the search
                            // cannot come back empty.
                            assert(false);
                            Err(EditError::NotFound)
                        },
                    }
                }
            }
        },
    }
}

/// The file-edit capability's success content: the fixed acknowledgement.
pub fn edit_ok_fragments() -> (f: Vec<Fragment>)
    ensures
        f@.len() == 1,
        f@[0] matches Fragment::Text(t) && t@ == "OK"@,
{
    let mut f: Vec<Fragment> = Vec::new();
    f.push(Fragment::Text(String::from_str("OK")));
    f
}

} // verus!
