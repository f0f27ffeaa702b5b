use vstd::prelude::*;
use vstd::string::StringExecFns;
use crate::content::Fragment;
use crate::content::Role;
use crate::content::Turn;
use crate::json::JsonValue;
use crate::schema::conforms;
use crate::schema::spec_diag;
use crate::text::all_blank;
use crate::text::is_blank;
use crate::text::str_eq;
use crate::tool::Tool;
use crate::tool::TypedInput;
use crate::tool::spec_decode;
use crate::tool::tool_wf;
use crate::tools::bash::execute_bash_tool;
use crate::tools::edit_file::edit_file_tool;
use crate::tools::list_files::list_files_tool;
use crate::tools::read_file::read_file_tool;

verus! {

/// Where the engine stands in one exchange. A turn cycle runs
/// `AwaitingInput -> ModelRequested -> (ToolDispatchPending <-> ModelRequested)* -> TurnComplete`.
pub enum Phase {
    AwaitingInput,
    ModelRequested { include_tools: bool },
    ToolDispatchPending,
    TurnComplete,
}

/// What the shell should show the operator for one model turn, in order.
/// Opaque fragments appear as placeholder markers, never as raw content.
pub enum DisplayItem {
    Say(String),
    ImagePlaceholder,
    DocumentPlaceholder,
    ToolResultPlaceholder,
    ToolUse { name: String },
    UnknownTool,
}

/// One dispatch decision awaiting its result: either answered on the spot
/// — an unknown tool name or a validation refusal, whose capability never
/// runs — or a validated input the shell must execute.
pub enum Pending {
    Answered { request_id: String, diagnostic: String },
    Execute { request_id: String, input: TypedInput },
}

pub open spec fn is_request(f: Fragment) -> bool {
    f is ToolRequest
}

pub open spec fn req_id(f: Fragment) -> Seq<char> {
    match f {
        Fragment::ToolRequest { id, .. } => id@,
        _ => Seq::empty(),
    }
}

pub open spec fn req_name(f: Fragment) -> Seq<char> {
    match f {
        Fragment::ToolRequest { name, .. } => name@,
        _ => Seq::empty(),
    }
}

pub open spec fn req_input(f: Fragment) -> JsonValue {
    match f {
        Fragment::ToolRequest { input, .. } => input,
        _ => JsonValue::Null,
    }
}

pub open spec fn result_req_id(f: Fragment) -> Seq<char> {
    match f {
        Fragment::ToolResult { request_id, .. } => request_id@,
        _ => Seq::empty(),
    }
}

/// Index of the first registered tool with this name, or -1.
pub open spec fn spec_tool_at(tools: Seq<Tool>, name: Seq<char>) -> int
    decreases tools.len(),
{
    if tools.len() == 0 {
        -1
    } else if tools[0].name@ == name {
        0
    } else {
        let r = spec_tool_at(tools.drop_first(), name);
        if r == -1 {
            -1
        } else {
            r + 1
        }
    }
}

pub open spec fn tool_named(tools: Seq<Tool>, name: Seq<char>) -> bool {
    spec_tool_at(tools, name) >= 0
}

proof fn lemma_tool_at_range(tools: Seq<Tool>, name: Seq<char>)
    ensures
        -1 <= spec_tool_at(tools, name) < tools.len(),
    decreases tools.len(),
{
    if tools.len() == 0 {
    } else if tools[0].name@ == name {
    } else {
        lemma_tool_at_range(tools.drop_first(), name);
    }
}

proof fn lemma_tool_at_skip(tools: Seq<Tool>, name: Seq<char>, i: int)
    requires
        0 <= i <= tools.len(),
        forall|j: int| 0 <= j < i ==> (#[trigger] tools[j]).name@ != name,
    ensures
        spec_tool_at(tools, name) == (if spec_tool_at(tools.skip(i), name) == -1 {
            -1
        } else {
            spec_tool_at(tools.skip(i), name) + i
        }),
    decreases i,
{
    if i == 0 {
        assert(tools.skip(0) =~= tools);
    } else {
        assert(tools[0].name@ != name);
        assert(tools.drop_first().skip(i - 1) =~= tools.skip(i));
        assert forall|j: int| 0 <= j < i - 1 implies (#[trigger] tools.drop_first()[j]).name@
            != name by {
            assert(tools.drop_first()[j] == tools[j + 1]);
        }
        lemma_tool_at_skip(tools.drop_first(), name, i - 1);
        lemma_tool_at_range(tools.skip(i), name);
    }
}

/// Look a tool up by name: the first registered tool with that name wins.
fn find_tool<'a>(tools: &'a Vec<Tool>, name: &str) -> (r: Option<&'a Tool>)
    ensures
        match r {
            Some(t) => 0 <= spec_tool_at(tools@, name@) < tools@.len() && *t == tools@[
                spec_tool_at(tools@, name@)
            ],
            None => spec_tool_at(tools@, name@) == -1,
        },
{
    let n: usize = tools.len();
    let mut i: usize = 0;
    while i < n
        invariant
            n == tools@.len(),
            i <= n,
            forall|j: int| 0 <= j < i ==> (#[trigger] tools@[j]).name@ != name@,
        decreases n - i,
    {
        if str_eq(tools[i].name.as_str(), name) {
            proof {
                lemma_tool_at_skip(tools@, name@, i as int);
                assert(tools@.skip(i as int)[0] == tools@[i as int]);
                assert(spec_tool_at(tools@.skip(i as int), name@) == 0);
            }
            return Some(&tools[i]);
        }
        i += 1;
    }
    proof {
        lemma_tool_at_skip(tools@, name@, n as int);
        assert(tools@.skip(n as int).len() == 0);
    }
    None
}

/// The tool-invocation requests of a turn, in encounter order.
pub open spec fn requests_of(frags: Seq<Fragment>) -> Seq<Fragment>
    decreases frags.len(),
{
    if frags.len() == 0 {
        Seq::empty()
    } else {
        requests_of(frags.drop_last()) + (if is_request(frags.last()) {
            seq![frags.last()]
        } else {
            Seq::<Fragment>::empty()
        })
    }
}

/// What one fragment of a model turn shows the operator: text verbatim,
/// placeholders for opaque content, a note for each tool use, and the
/// "tool not found" diagnostic after an unknown one.
pub open spec fn display_of_fragment(tools: Seq<Tool>, f: Fragment) -> Seq<DisplayItem> {
    match f {
        Fragment::Text(t) => seq![DisplayItem::Say(t)],
        Fragment::Image { .. } => seq![DisplayItem::ImagePlaceholder],
        Fragment::Document { .. } => seq![DisplayItem::DocumentPlaceholder],
        Fragment::ToolResult { .. } => seq![DisplayItem::ToolResultPlaceholder],
        Fragment::ToolRequest { id, name, input } => seq![DisplayItem::ToolUse { name }] + (
        if tool_named(tools, name@) {
            Seq::<DisplayItem>::empty()
        } else {
            seq![DisplayItem::UnknownTool]
        }),
    }
}

pub open spec fn display_of(tools: Seq<Tool>, frags: Seq<Fragment>) -> Seq<DisplayItem>
    decreases frags.len(),
{
    if frags.len() == 0 {
        Seq::empty()
    } else {
        display_of(tools, frags.drop_last()) + display_of_fragment(tools, frags.last())
    }
}

/// The decision dispatch owes one request. A name the registry does not
/// know, or a validation refusal, is answered on the spot with its
/// diagnostic — the capability never runs; a conforming input decodes and
/// waits for execution. Every decision carries the request's id.
pub open spec fn pending_entry_matches(tools: Seq<Tool>, req: Fragment, p: Pending) -> bool {
    let ti = spec_tool_at(tools, req_name(req));
    if ti < 0 {
        p matches Pending::Answered { request_id, diagnostic } && request_id@ == req_id(req)
            && diagnostic@ == "Tool not found"@
    } else {
        ti < tools.len() && (if conforms(tools[ti].validator.schema, req_input(req)) {
            p matches Pending::Execute { request_id, input } && request_id@ == req_id(req) && Some(
                input,
            ) == spec_decode(tools[ti].validator.kind, req_input(req))
        } else {
            p matches Pending::Answered { request_id, diagnostic } && request_id@ == req_id(req)
                && diagnostic@ == spec_diag(tools[ti].validator.schema, req_input(req))
        })
    }
}

/// Dispatch owes exactly one decision per request of the turn, in encounter
/// order — never an omission.
pub open spec fn pending_matches(tools: Seq<Tool>, frags: Seq<Fragment>, pending: Seq<
    Pending,
>) -> bool {
    pending.len() == requests_of(frags).len() && forall|i: int|
        0 <= i < pending.len() ==> pending_entry_matches(
            tools,
            requests_of(frags)[i],
            #[trigger] pending[i],
        )
}

/// How many of the first `upto` decisions need the shell to execute
/// something.
pub open spec fn n_execs(pending: Seq<Pending>, upto: int) -> nat
    decreases upto,
{
    if upto <= 0 {
        0
    } else {
        n_execs(pending, upto - 1) + (if pending[upto - 1] is Execute {
            1nat
        } else {
            0nat
        })
    }
}

pub proof fn lemma_n_execs_mono(pending: Seq<Pending>, a: int, b: int)
    requires
        a <= b,
    ensures
        n_execs(pending, a) <= n_execs(pending, b),
    decreases b - a,
{
    if a < b {
        lemma_n_execs_mono(pending, a, b - 1);
    }
}

/// The result fragment owed for one decision: an answered decision carries
/// its diagnostic as an error result; an executed one carries the
/// capability's fragments, or its failure text as an error result — never
/// an omission.
pub open spec fn result_entry_matches(
    p: Pending,
    outcomes: Seq<Result<Vec<Fragment>, String>>,
    j: int,
    f: Fragment,
) -> bool {
    match p {
        Pending::Answered { request_id, diagnostic } => (f matches Fragment::ToolResult {
            request_id: rid,
            content,
            is_error,
        } && rid@ == request_id@ && is_error && content@.len() == 1 && (content@[0] matches
        Fragment::Text(t) && t@ == diagnostic@)),
        Pending::Execute { request_id, input } => (match outcomes[j] {
            Ok(frs) => (f matches Fragment::ToolResult { request_id: rid, content, is_error }
                && rid@ == request_id@ && !is_error && content@ == frs@),
            Err(msg) => (f matches Fragment::ToolResult { request_id: rid, content, is_error }
                && rid@ == request_id@ && is_error && content@.len() == 1 && (content@[0] matches
            Fragment::Text(t) && t@ == msg@)),
        }),
    }
}

/// One result per decision, in order, each drawing on the outcome of its
/// own execution if it had one.
pub open spec fn results_match(
    pending: Seq<Pending>,
    outcomes: Seq<Result<Vec<Fragment>, String>>,
    results: Seq<Fragment>,
) -> bool {
    results.len() == pending.len() && forall|i: int|
        0 <= i < pending.len() ==> result_entry_matches(
            #[trigger] pending[i],
            outcomes,
            n_execs(pending, i) as int,
            results[i],
        )
}

pub open spec fn registry_wf(tools: Seq<Tool>) -> bool {
    forall|k: int| 0 <= k < tools.len() ==> tool_wf(#[trigger] tools[k])
}

/// The engine that drives one session: the registry fixed at startup, the
/// append-only transcript, the phase of the current exchange, and the
/// dispatch decisions awaiting their results.
pub struct Agent {
    pub tools: Vec<Tool>,
    pub transcript: Vec<Turn>,
    pub phase: Phase,
    pub pending: Vec<Pending>,
}

impl Agent {
    pub open spec fn wf(self) -> bool {
        registry_wf(self.tools@) && (!(self.phase is ToolDispatchPending) ==> self.pending@.len()
            == 0)
    }

    /// A fresh session over the given registry: empty transcript, waiting
    /// for the operator.
    pub fn new(tools: Vec<Tool>) -> (a: Agent)
        requires
            registry_wf(tools@),
        ensures
            a.wf(),
            a.tools == tools,
            a.transcript@.len() == 0,
            a.phase is AwaitingInput,
            a.pending@.len() == 0,
    {
        Agent { tools, transcript: Vec::new(), phase: Phase::AwaitingInput, pending: Vec::new() }
    }

    /// Offer the operator's line. Blank input (empty or whitespace-only) is
    /// discarded: nothing is appended and the engine keeps waiting.
    /// Anything else becomes an Operator turn of one text fragment, and the
    /// first model request of the cycle — the one that carries the tool
    /// declarations — is due.
    pub fn submit_operator_input(&mut self, text: String) -> (advanced: bool)
        requires
            old(self).wf(),
            old(self).phase is AwaitingInput,
        ensures
            final(self).wf(),
            advanced == !all_blank(text@),
            !advanced ==> *final(self) == *old(self),
            advanced ==> (final(self).tools == old(self).tools && final(self).pending@.len() == 0
                && final(self).phase == (Phase::ModelRequested { include_tools: true }) && final(self).transcript@.len() == old(self).transcript@.len() + 1 && final(self).transcript@
                .subrange(0, old(self).transcript@.len() as int) == old(self).transcript@ && (final(self).transcript@.last().role is Operator) && final(self).transcript@.last().fragments@.len()
                == 1 && (final(self).transcript@.last().fragments@[0] matches Fragment::Text(t)
                && t@ == text@)),
    {
        if is_blank(text.as_str()) {
            return false;
        }
        let mut fragments: Vec<Fragment> = Vec::new();
        fragments.push(Fragment::Text(text));
        self.transcript.push(Turn { role: Role::Operator, fragments });
        self.phase = Phase::ModelRequested { include_tools: true };
        proof {
            assert(final(self).transcript@.subrange(0, old(self).transcript@.len() as int) =~= old(self).transcript@);
        }
        true
    }

    /// Whether the due model request must carry the tool declarations:
    /// only the first submission of a turn cycle does; resubmissions that
    /// merely deliver tool results do not.
    pub fn outbound_includes_tools(&self) -> (r: bool)
        requires
            self.phase is ModelRequested,
        ensures
            self.phase == (Phase::ModelRequested { include_tools: r }),
    {
        match &self.phase {
            Phase::ModelRequested { include_tools } => *include_tools,
            _ => false,
        }
    }

    /// Take the model's turn. It is appended to the transcript as received;
    /// the returned items say what to show the operator, in order. Every
    /// request becomes one pending decision, in encounter order: a request
    /// naming an unknown tool is answered on the spot with the "tool not
    /// found" diagnostic (its capability never runs), and so is one whose
    /// input fails validation. With no requests at all the turn cycle is
    /// complete; otherwise dispatch is due.
    pub fn receive_model_turn(&mut self, fragments: Vec<Fragment>) -> (display: Vec<DisplayItem>)
        requires
            old(self).wf(),
            old(self).phase is ModelRequested,
        ensures
            final(self).wf(),
            final(self).tools == old(self).tools,
            final(self).transcript@ == old(self).transcript@.push(
                Turn { role: Role::Model, fragments },
            ),
            display@ == display_of(old(self).tools@, fragments@),
            pending_matches(old(self).tools@, fragments@, final(self).pending@),
            requests_of(fragments@).len() == 0 <==> final(self).phase is TurnComplete,
            requests_of(fragments@).len() > 0 <==> final(self).phase is ToolDispatchPending,
    {
        let n: usize = fragments.len();
        let mut display: Vec<DisplayItem> = Vec::new();
        let mut pending: Vec<Pending> = Vec::new();
        let mut has_request = false;
        let mut i: usize = 0;
        proof {
            assert(fragments@.subrange(0, 0).len() == 0);
            assert(display@ =~= display_of(self.tools@, fragments@.subrange(0, 0)));
            assert(requests_of(fragments@.subrange(0, 0)).len() == 0);
        }
        while i < n
            invariant
                *self == *old(self),
                old(self).wf(),
                n == fragments@.len(),
                i <= n,
                display@ == display_of(self.tools@, fragments@.subrange(0, i as int)),
                pending_matches(self.tools@, fragments@.subrange(0, i as int), pending@),
                has_request == (requests_of(fragments@.subrange(0, i as int)).len() > 0),
            decreases n - i,
        {
            let ghost pre = fragments@.subrange(0, i as int);
            let ghost post = fragments@.subrange(0, i + 1);
            proof {
                assert(post.drop_last() =~= pre);
                assert(post.last() == fragments@[i as int]);
            }
            let ghost old_display = display@;
            let ghost old_pending = pending@;
            match &fragments[i] {
                Fragment::Text(t) => {
                    display.push(DisplayItem::Say(t.clone()));
                },
                Fragment::Image { .. } => {
                    display.push(DisplayItem::ImagePlaceholder);
                },
                Fragment::Document { .. } => {
                    display.push(DisplayItem::DocumentPlaceholder);
                },
                Fragment::ToolResult { .. } => {
                    display.push(DisplayItem::ToolResultPlaceholder);
                },
                Fragment::ToolRequest { id, name, input } => {
                    has_request = true;
                    display.push(DisplayItem::ToolUse { name: name.clone() });
                    match find_tool(&self.tools, name.as_str()) {
                        None => {
                            display.push(DisplayItem::UnknownTool);
                            pending.push(
                                Pending::Answered {
                                    request_id: id.clone(),
                                    diagnostic: String::from_str("Tool not found"),
                                },
                            );
                        },
                        Some(tool) => {
                            proof {
                                assert(tool_wf(self.tools@[spec_tool_at(self.tools@, name@)]));
                            }
                            match tool.validator.get_value(input) {
                                Ok(t) => {
                                    pending.push(
                                        Pending::Execute { request_id: id.clone(), input: t },
                                    );
                                },
                                Err(e) => {
                                    pending.push(
                                        Pending::Answered {
                                            request_id: id.clone(),
                                            diagnostic: e.message(),
                                        },
                                    );
                                },
                            }
                        },
                    }
                },
            }
            proof {
                let tools = self.tools@;
                let f = fragments@[i as int];
                assert(display_of(tools, post) =~= display_of(tools, pre) + display_of_fragment(
                    tools,
                    f,
                ));
                assert(display@ =~= display_of(tools, post));
                let pre_reqs = requests_of(pre);
                let post_reqs = requests_of(post);
                if is_request(f) {
                    assert(post_reqs =~= pre_reqs.push(f));
                    assert(pending@.len() == post_reqs.len());
                    assert forall|k: int| 0 <= k < pending@.len() implies pending_entry_matches(
                        tools,
                        post_reqs[k],
                        #[trigger] pending@[k],
                    ) by {
                        if k < old_pending.len() {
                            assert(pending@[k] == old_pending[k]);
                            assert(post_reqs[k] == pre_reqs[k]);
                            assert(pending_entry_matches(tools, pre_reqs[k], old_pending[k]));
                        } else {
                            assert(post_reqs[k] == f);
                        }
                    }
                } else {
                    assert(post_reqs =~= pre_reqs);
                }
            }
            i += 1;
        }
        proof {
            assert(fragments@.subrange(0, n as int) =~= fragments@);
        }
        self.pending = pending;
        self.transcript.push(Turn { role: Role::Model, fragments });
        if has_request {
            self.phase = Phase::ToolDispatchPending;
        } else {
            self.phase = Phase::TurnComplete;
        }
        display
    }

    /// Hand back the execution outcomes, one per decision that needed one,
    /// in dispatch order. The owed results — one per pending decision, in
    /// order, failures as error results — are appended as a single Operator
    /// turn, and the cycle's resubmission (without tool declarations) is
    /// due.
    pub fn provide_outcomes(&mut self, outcomes: Vec<Result<Vec<Fragment>, String>>)
        requires
            old(self).wf(),
            old(self).phase is ToolDispatchPending,
            outcomes@.len() == n_execs(old(self).pending@, old(self).pending@.len() as int),
        ensures
            final(self).wf(),
            final(self).tools == old(self).tools,
            final(self).phase == (Phase::ModelRequested { include_tools: false }),
            final(self).pending@.len() == 0,
            final(self).transcript@.len() == old(self).transcript@.len() + 1,
            final(self).transcript@.subrange(0, old(self).transcript@.len() as int) == old(self).transcript@,
            (final(self).transcript@.last().role is Operator),
            results_match(old(self).pending@, outcomes@, final(self).transcript@.last().fragments@),
    {
        let ghost orig = outcomes@;
        let mut outcomes = outcomes;
        let total: usize = outcomes.len();
        proof {
            assert(orig.len() == total);
        }
        let mut results: Vec<Fragment> = Vec::new();
        let n: usize = self.pending.len();
        let mut i: usize = 0;
        let mut j: usize = 0;
        while i < n
            invariant
                *self == *old(self),
                n == self.pending@.len(),
                i <= n,
                j as nat == n_execs(self.pending@, i as int),
                orig.len() == n_execs(self.pending@, n as int),
                orig.len() == total,
                j <= orig.len(),
                outcomes@ == orig.skip(j as int),
                results@.len() == i,
                forall|k: int|
                    0 <= k < i ==> result_entry_matches(
                        #[trigger] self.pending@[k],
                        orig,
                        n_execs(self.pending@, k) as int,
                        results@[k],
                    ),
            decreases n - i,
        {
            match &self.pending[i] {
                Pending::Answered { request_id, diagnostic } => {
                    let mut content: Vec<Fragment> = Vec::new();
                    content.push(Fragment::Text(diagnostic.clone()));
                    results.push(
                        Fragment::ToolResult {
                            request_id: request_id.clone(),
                            content,
                            is_error: true,
                        },
                    );
                },
                Pending::Execute { request_id, input: _ } => {
                    proof {
                        lemma_n_execs_mono(self.pending@, i + 1, n as int);
                        assert(n_execs(self.pending@, i + 1) == j + 1);
                        assert(orig.skip(j as int)[0] == orig[j as int]);
                    }
                    let oc = outcomes.remove(0);
                    proof {
                        assert(outcomes@ =~= orig.skip(j + 1));
                    }
                    match oc {
                        Ok(frs) => {
                            results.push(
                                Fragment::ToolResult {
                                    request_id: request_id.clone(),
                                    content: frs,
                                    is_error: false,
                                },
                            );
                        },
                        Err(msg) => {
                            let mut content: Vec<Fragment> = Vec::new();
                            content.push(Fragment::Text(msg));
                            results.push(
                                Fragment::ToolResult {
                                    request_id: request_id.clone(),
                                    content,
                                    is_error: true,
                                },
                            );
                        },
                    }
                    j += 1;
                },
            }
            i += 1;
        }
        self.pending = Vec::new();
        self.transcript.push(Turn { role: Role::Operator, fragments: results });
        self.phase = Phase::ModelRequested { include_tools: false };
        proof {
            assert(final(self).transcript@.subrange(0, old(self).transcript@.len() as int) =~= old(self).transcript@);
        }
    }

    /// A read-only view of the transcript, for building the next outbound
    /// request. No turn is ever edited or removed: every engine step only
    /// appends.
    pub fn snapshot(&self) -> (r: &Vec<Turn>)
        ensures
            r@ == self.transcript@,
    {
        &self.transcript
    }

    /// Acknowledge a completed cycle: control returns to the operator.
    pub fn next_turn(&mut self)
        requires
            old(self).wf(),
            old(self).phase is TurnComplete,
        ensures
            final(self).wf(),
            final(self).phase is AwaitingInput,
            final(self).tools == old(self).tools,
            final(self).transcript@ == old(self).transcript@,
            final(self).pending@.len() == 0,
    {
        self.phase = Phase::AwaitingInput;
    }
}

/// The fixed capability set a session starts with, in registration order.
pub fn standard_tools() -> (tools: Vec<Tool>)
    ensures
        registry_wf(tools@),
        tools@.len() == 4,
        tools@[0].name@ == "bash"@ && tools@[0].validator.kind is Bash,
        tools@[1].name@ == "edit_file"@ && tools@[1].validator.kind is EditFile,
        tools@[2].name@ == "list_files"@ && tools@[2].validator.kind is ListFiles,
        tools@[3].name@ == "read_file"@ && tools@[3].validator.kind is ReadFile,
        tools@[0].description@ == "Execute a bash command and return its output. Use this to run shell commands."@,
        tools@[1].description@ == "Make edits to a text file.\n\nReplaces 'old_str' with 'new_str' in the given file. 'old_str' and 'new_str' MUST be different from each other.\n\nIf the file specified with path doesn't exist, it will be created.\n"@,
        tools@[2].description@ == "List files and directories at a given path. If no path is provided, lists files in the current directory."@,
        tools@[3].description@ == "Read the contents of a given relative file path. Use this when you want to see what's inside a file. Do not use this with directory names."@,
{
    let mut tools: Vec<Tool> = Vec::new();
    tools.push(execute_bash_tool());
    tools.push(edit_file_tool());
    tools.push(list_files_tool());
    tools.push(read_file_tool());
    tools
}

/// Law: a request naming a tool absent from the registry yields the
/// "tool not found" diagnostic among the shown items, and no process-level
/// failure: the turn is still processed fragment for fragment, and the
/// request itself is answered like any other (`lemma_every_request_answered`).
pub proof fn lemma_unknown_tool_diagnosed(tools: Seq<Tool>, frags: Seq<Fragment>, i: int)
    requires
        0 <= i < frags.len(),
        is_request(frags[i]),
        !tool_named(tools, req_name(frags[i])),
    ensures
        display_of(tools, frags).contains(DisplayItem::UnknownTool),
    decreases frags.len(),
{
    let prefix = frags.drop_last();
    if i == frags.len() - 1 {
        let d = display_of(tools, frags);
        let head = display_of(tools, prefix);
        assert(d[head.len() as int + 1] == DisplayItem::UnknownTool);
    } else {
        lemma_unknown_tool_diagnosed(tools, prefix, i);
        let j = choose|j: int|
            0 <= j < display_of(tools, prefix).len() && display_of(tools, prefix)[j]
                == DisplayItem::UnknownTool;
        assert(display_of(tools, frags)[j] == DisplayItem::UnknownTool);
    }
}

/// Law: a model turn with N requests is answered request for request:
/// dispatch produces exactly N results, in encounter order, each carrying
/// the matching request id — and this holds even when a name is unknown or
/// a dispatch fails, since both become error-marked results, never
/// omissions.
pub proof fn lemma_every_request_answered(
    tools: Seq<Tool>,
    frags: Seq<Fragment>,
    pending: Seq<Pending>,
    outcomes: Seq<Result<Vec<Fragment>, String>>,
    results: Seq<Fragment>,
)
    requires
        pending_matches(tools, frags, pending),
        results_match(pending, outcomes, results),
    ensures
        results.len() == requests_of(frags).len(),
        forall|i: int| 0 <= i < results.len() ==> (#[trigger] results[i]) is ToolResult,
        forall|i: int|
            0 <= i < results.len() ==> result_req_id(#[trigger] results[i]) == req_id(
                requests_of(frags)[i],
            ),
{
    assert forall|i: int| 0 <= i < results.len() implies (#[trigger] results[i]) is ToolResult
        && result_req_id(results[i]) == req_id(requests_of(frags)[i]) by {
        assert(pending_entry_matches(tools, requests_of(frags)[i], pending[i]));
        assert(result_entry_matches(pending[i], outcomes, n_execs(pending, i) as int, results[i]));
    }
}

} // verus!
