//! Tools and gateways: definition, restrictions and the test panel. A
//! kind without an executor says so; nothing improvises a shell. Linking
//! a tool is not a tool-use loop.

use vstd::prelude::*;
use crate::text::{lit, append, owned, same, decimal, decimal_of};

verus! {

/// How the tool is implemented (supported kinds run; the rest is an
/// explicitly missing capability).
#[derive(Debug, Clone, Copy, PartialEq, Eq, Structural)]
pub enum ToolImpl {
    Http,
    Local,
    Unsupported,
}

impl ToolImpl {
    /// Display name.
    pub open spec fn title(self) -> Seq<char> {
        match self {
            ToolImpl::Http => "HTTP"@,
            ToolImpl::Local => "local"@,
            ToolImpl::Unsupported => "sem executor"@,
        }
    }

    /// Display name.
    pub fn label(self) -> (r: &'static str)
        ensures
            r@ == self.title(),
    {
        match self {
            ToolImpl::Http => "HTTP",
            ToolImpl::Local => "local",
            ToolImpl::Unsupported => "sem executor",
        }
    }
}

/// A tool definition (local draft).
#[derive(Debug, Clone, PartialEq)]
pub struct ToolDefinition {
    pub id: String,
    pub name: String,
    pub description: String,
    pub implementation: ToolImpl,
    pub gateway: String,
    pub machine: String,
    pub declared_restriction: String,
    pub observed_restriction: Option<String>,
}

impl ToolDefinition {
    /// An empty draft with identity `id` and no executor.
    pub open spec fn is_draft_of(self, id: Seq<char>) -> bool {
        &&& self.id@ == id
        &&& self.name@.len() == 0
        &&& self.description@.len() == 0
        &&& self.implementation == ToolImpl::Unsupported
        &&& self.gateway@.len() == 0
        &&& self.machine@.len() == 0
        &&& self.declared_restriction@.len() == 0
        &&& self.observed_restriction is None
    }

    /// The restriction line: declared beside what was actually observed.
    pub open spec fn restriction_text(self) -> Seq<char> {
        match self.observed_restriction {
            Some(o) => "declarada: "@ + self.declared_restriction@ + "; observada: "@ + o@,
            None => "declarada: "@ + self.declared_restriction@ + "; ainda não observada"@,
        }
    }

    /// An empty draft with identity `id`.
    pub fn draft(id: &str) -> (r: Self)
        ensures
            r.is_draft_of(id@),
    {
        ToolDefinition {
            id: owned(id),
            name: String::new(),
            description: String::new(),
            implementation: ToolImpl::Unsupported,
            gateway: String::new(),
            machine: String::new(),
            declared_restriction: String::new(),
            observed_restriction: None,
        }
    }

    /// Restriction line: declared × observed.
    pub fn restriction_line(&self) -> (r: String)
        ensures
            r@ == self.restriction_text(),
    {
        let mut r = lit("declarada: ");
        append(&mut r, self.declared_restriction.as_str());
        match &self.observed_restriction {
            Some(o) => {
                append(&mut r, "; observada: ");
                append(&mut r, o.as_str());
            },
            None => append(&mut r, "; ainda não observada"),
        }
        r
    }
}

/// Result of the test panel: input, destination, output or error,
/// duration and operation id.
#[derive(Debug, Clone, PartialEq, Eq)]
pub struct ToolTestResult {
    pub input: String,
    pub destination: String,
    pub output: String,
    pub duration_ms: u64,
    pub operation_id: String,
}

/// Contents of a [`ToolsPanel`].
pub struct ToolsView {
    pub tools: Seq<ToolDefinition>,
    pub selected: Option<Seq<char>>,
    pub last_test: Option<ToolTestResult>,
    pub next_id: u64,
}

/// State of the tools panel.
#[derive(Debug, Clone)]
pub struct ToolsPanel {
    pub tools: Vec<ToolDefinition>,
    pub selected: Option<String>,
    pub last_test: Option<ToolTestResult>,
    next_id: u64,
}

impl View for ToolsPanel {
    type V = ToolsView;

    closed spec fn view(&self) -> ToolsView {
        ToolsView {
            tools: self.tools@,
            selected: match self.selected {
                Some(s) => Some(s@),
                None => None,
            },
            last_test: self.last_test,
            next_id: self.next_id,
        }
    }
}

/// Position of the first tool with identity `id`.
pub open spec fn first_tool(tools: Seq<ToolDefinition>, id: Seq<char>) -> Option<int>
    decreases tools.len(),
{
    if tools.len() == 0 {
        None
    } else if tools[0].id@ == id {
        Some(0)
    } else {
        match first_tool(tools.drop_first(), id) {
            Some(i) => Some(i + 1),
            None => None,
        }
    }
}

fn find_tool(tools: &Vec<ToolDefinition>, id: &str) -> (r: Option<usize>)
    ensures
        match r {
            Some(i) => i < tools@.len() && first_tool(tools@, id@) == Some(i as int),
            None => first_tool(tools@, id@) is None,
        },
{
    let mut i: usize = 0;
    assert(tools@.subrange(0, tools@.len() as int) =~= tools@);
    while i < tools.len()
        invariant
            i <= tools.len(),
            first_tool(tools@, id@) == match first_tool(tools@.subrange(i as int, tools@.len() as int), id@) {
                Some(j) => Some(j + i),
                None => None,
            },
        decreases tools.len() - i,
    {
        let ghost rest = tools@.subrange(i as int, tools@.len() as int);
        assert(rest.drop_first() =~= tools@.subrange(i + 1, tools@.len() as int));
        if same(tools[i].id.as_str(), id) {
            return Some(i);
        }
        i = i + 1;
    }
    None
}

impl ToolsPanel {
    /// An empty panel.
    pub fn new() -> (r: Self)
        ensures
            r@.tools.len() == 0,
            r@.selected is None,
            r@.last_test is None,
            r@.next_id == 0,
    {
        ToolsPanel { tools: Vec::new(), selected: None, last_test: None, next_id: 0 }
    }

    /// Creates a draft with a new identity, `tool-<n>`.
    pub fn create_draft(&mut self) -> (r: &ToolDefinition)
        requires
            old(self)@.next_id < u64::MAX,
        ensures
            final(self)@.next_id == old(self)@.next_id + 1,
            r.is_draft_of("tool-"@ + decimal(final(self)@.next_id as nat)),
            final(self)@.tools == old(self)@.tools.push(*r),
            final(self)@.selected == old(self)@.selected,
            final(self)@.last_test == old(self)@.last_test,
    {
        self.next_id = self.next_id + 1;
        let mut id = lit("tool-");
        append(&mut id, decimal_of(self.next_id).as_str());
        self.tools.push(ToolDefinition::draft(id.as_str()));
        let last = self.tools.len() - 1;
        &self.tools[last]
    }

    /// Selects by identity; an unknown one clears the selection.
    pub fn select(&mut self, id: &str)
        ensures
            final(self)@.tools == old(self)@.tools,
            final(self)@.last_test == old(self)@.last_test,
            final(self)@.next_id == old(self)@.next_id,
            final(self)@.selected == if first_tool(old(self)@.tools, id@) is Some {
                Some(id@)
            } else {
                None::<Seq<char>>
            },
    {
        if let Some(_) = find_tool(&self.tools, id) {
            self.selected = Some(owned(id));
        } else {
            self.selected = None;
        }
    }

    /// The selected tool: the first with the selected identity.
    pub fn selected(&self) -> (r: Option<&ToolDefinition>)
        ensures
            match self@.selected {
                Some(id) => match first_tool(self@.tools, id) {
                    Some(i) => r is Some && *r.unwrap() == self@.tools[i],
                    None => r is None,
                },
                None => r is None,
            },
    {
        match &self.selected {
            Some(id) => match find_tool(&self.tools, id.as_str()) {
                Some(i) => Some(&self.tools[i]),
                None => None,
            },
            None => None,
        }
    }
}

impl Default for ToolsPanel {
    fn default() -> (r: Self)
        ensures
            r@.tools.len() == 0,
            r@.selected is None,
            r@.next_id == 0,
    {
        Self::new()
    }
}

} // verus!
