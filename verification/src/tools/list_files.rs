use vstd::prelude::*;
use vstd::string::StringExecFns;
use crate::content::Fragment;
use crate::text::concat_strs;
use crate::text::has_prefix;
use crate::text::match_at;
use crate::text::str_eq;
use crate::tool::Tool;
use crate::tool::ToolKind;

verus! {

/// Input of the directory-listing capability.
pub struct ListFilesInput {
    pub path: Option<String>,
}

/// One directory entry as the shell reads it: its name and whether it is a
/// directory.
pub struct DirEntry {
    pub name: String,
    pub is_dir: bool,
}

/// Register the directory-listing tool.
pub fn list_files_tool() -> (t: Tool)
    ensures
        crate::tool::tool_wf(t),
        t.name@ == "list_files"@,
        t.description@ == "List files and directories at a given path. If no path is provided, lists files in the current directory."@,
        t.validator.kind is ListFiles,
{
    Tool::new(
        String::from_str("list_files"),
        String::from_str(
            "List files and directories at a given path. If no path is provided, lists files in the current directory.",
        ),
        ToolKind::ListFiles,
    )
}

/// An entry is left out when its name is the reserved tooling directory or
/// nested under it, whatever kind of entry carries the name.
pub open spec fn excluded(e: DirEntry) -> bool {
    e.name@ == ".direnv"@ || match_at(e.name@, ".direnv/"@, 0)
}

/// How an entry appears in the listing: directories carry a trailing
/// separator marker, plain files do not.
pub open spec fn rendered(e: DirEntry) -> Seq<char> {
    if e.is_dir {
        e.name@ + "/"@
    } else {
        e.name@
    }
}

/// The names the listing shows, in directory order, reserved entries left
/// out.
pub open spec fn spec_listing(entries: Seq<DirEntry>) -> Seq<Seq<char>>
    decreases entries.len(),
{
    if entries.len() == 0 {
        Seq::empty()
    } else {
        spec_listing(entries.drop_last()) + (if excluded(entries.last()) {
            Seq::empty()
        } else {
            seq![rendered(entries.last())]
        })
    }
}

/// Every shown name is the rendering of some entry that is not reserved,
/// and every entry that is not reserved is shown.
pub proof fn lemma_listing_law(entries: Seq<DirEntry>)
    ensures
        forall|j: int|
            0 <= j < spec_listing(entries).len() ==> exists|i: int|
                0 <= i < entries.len() && !excluded(entries[i]) && #[trigger] spec_listing(
                    entries,
                )[j] == rendered(entries[i]),
        forall|i: int|
            0 <= i < entries.len() && !excluded(#[trigger] entries[i]) ==> spec_listing(
                entries,
            ).contains(rendered(entries[i])),
    decreases entries.len(),
{
    if entries.len() == 0 {
    } else {
        let prefix = entries.drop_last();
        lemma_listing_law(prefix);
        assert forall|j: int| 0 <= j < spec_listing(entries).len() implies exists|i: int|
            0 <= i < entries.len() && !excluded(entries[i]) && #[trigger] spec_listing(entries)[j]
                == rendered(entries[i]) by {
            if j < spec_listing(prefix).len() {
                let i = choose|i: int|
                    0 <= i < prefix.len() && !excluded(prefix[i]) && spec_listing(prefix)[j]
                        == rendered(prefix[i]);
                assert(prefix[i] == entries[i]);
                assert(spec_listing(entries)[j] == spec_listing(prefix)[j]);
            } else {
                assert(!excluded(entries.last()));
                assert(spec_listing(entries)[j] == rendered(entries[entries.len() - 1]));
            }
        }
        assert forall|i: int|
            0 <= i < entries.len() && !excluded(#[trigger] entries[i]) implies spec_listing(
            entries,
        ).contains(rendered(entries[i])) by {
            if i < entries.len() - 1 {
                assert(prefix[i] == entries[i]);
                assert(spec_listing(prefix).contains(rendered(prefix[i])));
                let j = choose|j: int|
                    0 <= j < spec_listing(prefix).len() && spec_listing(prefix)[j] == rendered(
                        prefix[i],
                    );
                assert(spec_listing(entries)[j] == rendered(entries[i]));
            } else {
                assert(spec_listing(entries).last() == rendered(entries[i]));
            }
        }
    }
}

fn entry_excluded(e: &DirEntry) -> (r: bool)
    ensures
        r == excluded(*e),
{
    str_eq(e.name.as_str(), ".direnv") || has_prefix(e.name.as_str(), ".direnv/")
}

fn render_entry(e: &DirEntry) -> (r: String)
    ensures
        r@ == rendered(*e),
{
    if e.is_dir {
        concat_strs(e.name.as_str(), "/")
    } else {
        e.name.clone()
    }
}

/// Turn the entries the shell read into the names the listing shows.
pub fn render_entries(entries: &Vec<DirEntry>) -> (out: Vec<String>)
    ensures
        out@.map_values(|s: String| s@) == spec_listing(entries@),
{
    let n: usize = entries.len();
    let mut out: Vec<String> = Vec::new();
    let mut i: usize = 0;
    assert(entries@.subrange(0, 0).len() == 0);
    assert(out@.map_values(|s: String| s@) =~= spec_listing(entries@.subrange(0, 0)));
    while i < n
        invariant
            n == entries@.len(),
            i <= n,
            out@.map_values(|s: String| s@) == spec_listing(entries@.subrange(0, i as int)),
        decreases n - i,
    {
        let ghost pre = entries@.subrange(0, i as int);
        let ghost post = entries@.subrange(0, i + 1);
        assert(post.drop_last() =~= pre);
        assert(post.last() == entries@[i as int]);
        if !entry_excluded(&entries[i]) {
            let s = render_entry(&entries[i]);
            let ghost old_out = out@;
            out.push(s);
            assert(out@.map_values(|s: String| s@) =~= old_out.map_values(|s: String| s@).push(
                s@,
            ));
            assert(spec_listing(post) =~= spec_listing(pre).push(rendered(entries@[i as int])));
        } else {
            assert(spec_listing(post) =~= spec_listing(pre));
        }
        i += 1;
    }
    assert(entries@.subrange(0, n as int) =~= entries@);
    out
}

/// The JSON text that `serde_json` writes for an array of strings; a
/// function of those strings alone.
pub uninterp spec fn json_array_of(items: Seq<Seq<char>>) -> Seq<char>;

/// Relies on serde_json::to_string: encodes a list of strings as a JSON
/// array; the text depends on the strings alone. For strings the encoder
/// cannot fail: serialization errors come only from a failing `Serialize`
/// impl or a map with non-string keys, and the writer is an infallible
/// in-memory buffer.
#[verifier::external_body]
fn encode_string_array(items: &Vec<String>) -> (r: String)
    ensures
        r@ == json_array_of(items@.map_values(|it: String| it@)),
{
    serde_json::to_string(items).unwrap()
}

/// The listing capability's result content: one text fragment holding the
/// JSON-encoded names, reserved entries left out and directories marked.
pub fn list_files_fragments(entries: &Vec<DirEntry>) -> (f: Vec<Fragment>)
    ensures
        f@.len() == 1,
        f@[0] matches Fragment::Text(t) && t@ == json_array_of(spec_listing(entries@)),
{
    let names = render_entries(entries);
    let mut f: Vec<Fragment> = Vec::new();
    f.push(Fragment::Text(encode_string_array(&names)));
    f
}

/// The directory the listing reads: the given path, or the current
/// directory when none was given.
pub fn effective_path(input: &ListFilesInput) -> (r: String)
    ensures
        match input.path {
            Some(p) => r@ == p@,
            None => r@ == "."@,
        },
{
    match &input.path {
        Some(p) => p.clone(),
        None => String::from_str("."),
    }
}

} // verus!
