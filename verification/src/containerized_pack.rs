//! The coding pack with its side effects behind a terminal backend.
//!
//! The pack takes the place of the coding pack: the same tools under the same
//! names, with the same permissions. The shell and the file tools work through
//! the backend; the others stay on the host.

use vstd::prelude::*;
use crate::coding_pack;
use crate::domain_pack::{self, DomainPack, DomainPackView, ToolHandle, ToolHandleView};
use crate::text;

verus! {

/// What the containerized pack is for.
pub const CONTAINERIZED_DESCRIPTION: &'static str = "Containerized coding domain pack — VM-backed shell + file tools (Gondolin tool-override). All shell/file side-effects route through a single TerminalBackend (the VM is the boundary; auth + command-string safety stay on host).";

/// The tools that work through the backend.
pub open spec fn contained_tools() -> Seq<Seq<char>> {
    seq!["shell"@, "read_file"@, "edit_file"@, "write_file"@, "list_directory"@]
}

/// The tool, working through the backend where it has side effects on files or
/// runs commands.
pub open spec fn contained(tool: ToolHandleView, backend: Seq<char>) -> ToolHandleView {
    if contained_tools().contains(tool.name) {
        ToolHandleView { name: tool.name, backend: Some(backend) }
    } else {
        tool
    }
}

/// Each of the tools, where it is to work.
pub open spec fn all_contained(tools: Seq<ToolHandleView>, backend: Seq<char>) -> Seq<
    ToolHandleView,
> {
    tools.map_values(|tool: ToolHandleView| contained(tool, backend))
}

/// The coding pack with its tools where they are to work.
pub open spec fn containerized(project_dir: Seq<char>, backend: Seq<char>) -> DomainPackView {
    let coding = coding_pack::coding_contents(project_dir);
    DomainPackView {
        name: "containerized-coding"@,
        description: CONTAINERIZED_DESCRIPTION@,
        tools: all_contained(coding.tools, backend),
        ..coding
    }
}

/// Each of the tools, where it is to work.
pub fn contain_tools(tools: &Vec<ToolHandle>, backend: &str) -> (r: Vec<ToolHandle>)
    ensures
        r.deep_view() == all_contained(tools.deep_view(), backend@),
{
    let names = text::texts(["shell", "read_file", "edit_file", "write_file", "list_directory"]);
    assert(names.deep_view() =~= contained_tools());
    let ghost all = tools.deep_view();
    let mut r: Vec<ToolHandle> = Vec::new();
    let mut i: usize = 0;
    while i < tools.len()
        invariant
            i <= tools.len(),
            all == tools.deep_view(),
            names.deep_view() == contained_tools(),
            r.deep_view() == all_contained(all.take(i as int), backend@),
        decreases tools.len() - i,
    {
        let ghost before = r.deep_view();
        assert(all[i as int] == tools@[i as int].deep_view());
        let tool = if text::list_contains(&names, tools[i].name.as_str()) {
            ToolHandle { name: tools[i].name.clone(), backend: Some(backend.to_string()) }
        } else {
            tools[i].clone()
        };
        assert(tool.deep_view() == contained(all[i as int], backend@));
        r.push(tool);
        assert(r.deep_view() =~= before.push(contained(all[i as int], backend@)));
        i = i + 1;
        assert(r.deep_view() =~= all_contained(all.take(i as int), backend@));
    }
    assert(all.take(i as int) =~= all);
    r
}

/// The coding pack with its tools where they are to work.
pub fn containerized_coding_pack(project_dir: &str, backend: &str) -> (r: DomainPack)
    ensures
        r.deep_view() == containerized(project_dir@, backend@),
{
    let coding = coding_pack::coding_pack(project_dir);
    let tools = contain_tools(&coding.tools, backend);
    DomainPack {
        name: "containerized-coding".to_string(),
        description: CONTAINERIZED_DESCRIPTION.to_string(),
        tools,
        ..coding
    }
}

// ─── Laws ───────────────────────────────────────────────────────────────────

/// The pack has the tools of the coding pack, under their names and in their
/// order, and everything but its name, its description and where its tools work
/// is that of the coding pack: its permissions in particular.
pub proof fn law_takes_the_place_of_coding(project_dir: Seq<char>, backend: Seq<char>)
    ensures
        ({
            let coding = coding_pack::coding_contents(project_dir);
            let pack = containerized(project_dir, backend);
            &&& pack.tools.len() == coding.tools.len()
            &&& forall|i: int|
                0 <= i < coding.tools.len() ==> (#[trigger] pack.tools[i]).name
                    == coding.tools[i].name
            &&& pack.permission_profile == coding.permission_profile
            &&& pack == (DomainPackView {
                name: pack.name,
                description: pack.description,
                tools: pack.tools,
                ..coding
            })
        }),
{
}

/// Every tool that runs commands or touches files works through the backend
/// that was given, and no other tool does.
pub proof fn law_side_effects_are_contained(
    project_dir: Seq<char>,
    backend: Seq<char>,
    i: int,
)
    requires
        0 <= i < containerized(project_dir, backend).tools.len(),
    ensures
        ({
            let tool = containerized(project_dir, backend).tools[i];
            if contained_tools().contains(tool.name) {
                tool.backend == Some(backend)
            } else {
                tool == domain_pack::host_tool(tool.name)
            }
        }),
{
    let names = coding_pack::coding_tool_names();
    assert(coding_pack::coding_contents(project_dir).tools[i] == domain_pack::host_tool(names[i]));
}

} // verus!
