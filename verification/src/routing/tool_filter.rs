//! The tool filter: an included list and an exclude list over tool names.

use vstd::prelude::*;
use crate::config::{listed, ToolFilter};
use crate::error::{ErrorKind, ProxyError};
use crate::text::contains_name;
use crate::mcp::types::ToolDefinition;

verus! {

impl ToolFilter {
    /// A tool is allowed when the included list names nothing or names the
    /// tool, and the exclude list does not name it.
    pub open spec fn allowed(&self, tool_name: Seq<char>) -> bool {
        &&& listed(self.included).len() == 0 || listed(self.included).contains(tool_name)
        &&& !listed(self.exclude).contains(tool_name)
    }

    /// Whether the filter lets the tool called `tool_name` through.
    pub fn allows(&self, tool_name: &str) -> (allowed: bool)
        ensures
            allowed == self.allowed(tool_name@),
    {
        if let Some(included) = &self.included {
            if included.len() > 0 && !contains_name(included, tool_name) {
                return false;
            }
        }
        if let Some(exclude) = &self.exclude {
            if contains_name(exclude, tool_name) {
                return false;
            }
        }
        true
    }
}

/// Whether `filter` lets `tool_name` through; no filter lets every tool through.
pub open spec fn tool_allowed(tool_name: Seq<char>, filter: Option<&ToolFilter>) -> bool {
    match filter {
        None => true,
        Some(f) => f.allowed(tool_name),
    }
}

/// Whether a tool may be seen and called through `filter`.
pub fn is_tool_allowed(tool_name: &str, filter: Option<&ToolFilter>) -> (allowed: bool)
    ensures
        allowed == tool_allowed(tool_name@, filter),
{
    match filter {
        None => true,
        Some(filter) => filter.allows(tool_name),
    }
}

/// Before a call is dispatched: `ToolNotAllowed` where `filter` does not
/// let the tool through, whether or not the backend has such a tool.
pub fn ensure_tool_allowed(tool_name: &str, filter: Option<&ToolFilter>) -> (r: Result<
    (),
    ProxyError,
>)
    ensures
        match r {
            Ok(()) => tool_allowed(tool_name@, filter),
            Err(e) => !tool_allowed(tool_name@, filter) && e.is_of(
                ErrorKind::ToolNotAllowed,
                tool_name@,
            ),
        },
{
    if !is_tool_allowed(tool_name, filter) {
        return Err(ProxyError::tool_not_allowed(tool_name));
    }
    Ok(())
}

/// Whatever the included list says, a tool that the exclude list names
/// is not allowed.
pub proof fn lemma_exclude_wins(filter: ToolFilter, tool_name: Seq<char>)
    requires
        listed(filter.exclude).contains(tool_name),
    ensures
        !filter.allowed(tool_name),
{
}

/// A filter whose lists name nothing allows every tool.
pub proof fn lemma_empty_filter_allows_all(filter: ToolFilter, tool_name: Seq<char>)
    requires
        listed(filter.included).len() == 0,
        listed(filter.exclude).len() == 0,
    ensures
        filter.allowed(tool_name),
{
}

/// The tools of `tools` that `filter` lets through, in their order.
pub fn apply_tool_filter(tools: Vec<ToolDefinition>, filter: Option<&ToolFilter>) -> (kept: Vec<
    ToolDefinition,
>)
    ensures
        kept@ == tools@.filter(|t: ToolDefinition| tool_allowed(t.name@, filter)),
{
    let ghost pred = |t: ToolDefinition| tool_allowed(t.name@, filter);
    let ghost all = tools@;
    let mut kept: Vec<ToolDefinition> = Vec::new();
    proof {
        assert(all.take(0).filter(pred) =~= Seq::<ToolDefinition>::empty()) by {
            reveal(Seq::filter);
        }
    }
    for tool in iter: tools.into_iter()
        invariant
            iter.seq() == all,
            forall|t: ToolDefinition| #[trigger] pred(t) == tool_allowed(t.name@, filter),
            kept@ == all.take(iter.index() as int).filter(pred),
    {
        proof {
            let done = iter.index() as int;
            let next = all.take(done + 1);
            assert(next.drop_last() =~= all.take(done));
            assert(next.last() == tool);
            assert(next.filter(pred) == if pred(tool) {
                all.take(done).filter(pred).push(tool)
            } else {
                all.take(done).filter(pred)
            }) by {
                reveal(Seq::filter);
            }
        }
        if is_tool_allowed(tool.name.as_str(), filter) {
            kept.push(tool);
        }
    }
    proof {
        assert(all.take(all.len() as int) =~= all);
    }
    kept
}

} // verus!
