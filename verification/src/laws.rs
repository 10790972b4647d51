//! Engine-wide laws, stated over the specification parser and renderer
//! that every executable function's contract is pinned to.

use vstd::prelude::*;

use crate::nodes::ContextData;
use crate::nodes::NodeData;
use crate::nodes::ParseError;
use crate::nodes::RenderErrorData;
use crate::parser::spec_parse;
use crate::text::spec_starts_with;
use crate::writer::spec_render;

verus! {

/// Round-trip of literal sources: a source that does not open with
/// `[template]` parses as one literal text node, and rendering that node
/// yields exactly the source, under any context, loader and depth budget.
pub proof fn lemma_static_source_roundtrip(
    x: Seq<char>,
    ctx: Map<Seq<char>, ContextData>,
    loader: Map<Seq<char>, Seq<char>>,
    fuel: nat,
)
    requires
        !spec_starts_with(x, 0, "[template]"@),
    ensures
        spec_parse(x) == Ok::<NodeData, ParseError>(NodeData::HtmlNode { value: x }),
        spec_render(NodeData::HtmlNode { value: x }, ctx, loader, fuel) == Ok::<
            Seq<char>,
            RenderErrorData,
        >(x),
{
}

/// Parsing is deterministic: any two results that model the parse of the
/// same source are identical.  Together with `parse`'s contract — its
/// result always models `spec_parse` of its input — two calls of `parse`
/// on one source produce structurally identical trees.
pub proof fn lemma_parse_deterministic(
    x: Seq<char>,
    r1: Result<NodeData, ParseError>,
    r2: Result<NodeData, ParseError>,
)
    requires
        r1 == spec_parse(x),
        r2 == spec_parse(x),
    ensures
        r1 == r2,
{
}

/// Import scoping: an import whose target loads and parses renders that
/// target against the very context handed to the import node itself, with
/// only the depth budget reduced.
pub proof fn lemma_import_scoping(
    path: Seq<char>,
    size: nat,
    target: NodeData,
    ctx: Map<Seq<char>, ContextData>,
    loader: Map<Seq<char>, Seq<char>>,
    fuel: nat,
)
    requires
        fuel > 0,
        loader.contains_key(path),
        spec_parse(loader[path]) == Ok::<NodeData, ParseError>(target),
    ensures
        spec_render(NodeData::ImportNode { path, size }, ctx, loader, fuel) == spec_render(
            target,
            ctx,
            loader,
            (fuel - 1) as nat,
        ),
{
}

/// Import scoping, seen through a binding: importing a template that is a
/// single value placeholder behaves exactly like a local value placeholder
/// for the same name — changing the binding visible to the importer
/// changes the imported output identically.
pub proof fn lemma_import_of_value_matches_local_value(
    name: Seq<char>,
    path: Seq<char>,
    size: nat,
    ctx: Map<Seq<char>, ContextData>,
    loader: Map<Seq<char>, Seq<char>>,
    fuel: nat,
)
    requires
        fuel > 0,
        loader.contains_key(path),
        spec_parse(loader[path]) == Ok::<NodeData, ParseError>(
            NodeData::ValueNode { value: name },
        ),
    ensures
        spec_render(NodeData::ImportNode { path, size }, ctx, loader, fuel) == spec_render(
            NodeData::ValueNode { value: name },
            ctx,
            loader,
            fuel,
        ),
{
    lemma_import_scoping(path, size, NodeData::ValueNode { value: name }, ctx, loader, fuel);
}

} // verus!
