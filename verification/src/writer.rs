//! The renderer: walks a `TemplateNode` tree together with a `ContextMap`
//! and produces output text, resolving `Import` nodes through a `Loader`.
//! Behaviour is specified by a recursive specification renderer over the
//! tree's model and proved equal to it.
//!
//! Semantics by node kind: literal text is emitted verbatim; a value
//! placeholder emits the bound single value, or nothing when the name is
//! absent or bound to another kind; an `if` block renders its children only
//! under a true boolean binding and reports a non-boolean binding as a
//! `ContextTypeMismatch`; a `for` block renders its children once per
//! element of the bound collection, in order, each time against the parent
//! context with one override binding; an import loads, parses and renders
//! its target against the importer's own context; the root wrapper renders
//! its children in order.  Concatenation is always append in document
//! order.

use vstd::prelude::*;
use vstd::string::StrSliceExecFns;
use vstd::string::StringExecFns;

use crate::nodes::Context;
use crate::nodes::ContextData;
use crate::nodes::ContextMap;
use crate::nodes::CtchiValue;
use crate::nodes::ForTag;
use crate::nodes::Html;
use crate::nodes::IfTag;
use crate::nodes::ImportTag;
use crate::nodes::Loader;
use crate::nodes::NodeData;
use crate::nodes::RenderError;
use crate::nodes::RenderErrorData;
use crate::nodes::TemplateNode;
use crate::nodes::TemplateTag;
use crate::nodes::lemma_nodes_view_index;
use crate::nodes::node_view;
use crate::nodes::nodes_view;
use crate::parser::Content;
use crate::parser::parse;
use crate::parser::spec_parse;

verus! {

/// How many imports deep a render call will follow before it reports
/// `ImportDepthExceeded`; a guard against circular import chains.
pub const IMPORT_DEPTH_LIMIT: u64 = 64;

/// The text rendered in place of an import whose path the loader does not
/// resolve: one broken import degrades a page rather than failing it.
pub open spec fn spec_load_error_text(path: Seq<char>) -> Seq<char> {
    "cannot load template: "@ + path
}

/// The output of one node under the given bindings and loader snapshot.
pub open spec fn spec_render(
    nd: NodeData,
    ctx: Map<Seq<char>, ContextData>,
    loader: Map<Seq<char>, Seq<char>>,
    fuel: nat,
) -> Result<Seq<char>, RenderErrorData>
    decreases fuel, nd, 1int, 0int,
{
    match nd {
        NodeData::HtmlNode { value } => Ok(value),
        NodeData::ValueNode { value } => {
            if ctx.contains_key(value) {
                match ctx[value] {
                    ContextData::SingleValue(s) => Ok(s),
                    _ => Ok(Seq::empty()),
                }
            } else {
                Ok(Seq::empty())
            }
        },
        NodeData::IfNode { var_name, children, size } => {
            if ctx.contains_key(var_name) {
                match ctx[var_name] {
                    ContextData::BooleanValue(b) => {
                        if b {
                            spec_render_children(children, ctx, loader, fuel)
                        } else {
                            Ok(Seq::empty())
                        }
                    },
                    _ => Err(RenderErrorData::ContextTypeMismatch { name: var_name }),
                }
            } else {
                Ok(Seq::empty())
            }
        },
        NodeData::ForNode { var_name, param_name, children, size } => {
            if ctx.contains_key(param_name) {
                match ctx[param_name] {
                    ContextData::MultiValue(items) => spec_render_items(
                        items,
                        var_name,
                        children,
                        ctx,
                        loader,
                        fuel,
                    ),
                    _ => Err(RenderErrorData::ContextTypeMismatch { name: param_name }),
                }
            } else {
                Ok(Seq::empty())
            }
        },
        NodeData::ImportNode { path, size } => {
            if fuel == 0 {
                Err(RenderErrorData::ImportDepthExceeded { path })
            } else if !loader.contains_key(path) {
                Ok(spec_load_error_text(path))
            } else {
                match spec_parse(loader[path]) {
                    Err(e) => Err(RenderErrorData::ImportFailed { path, error: e }),
                    Ok(nd2) => spec_render(nd2, ctx, loader, (fuel - 1) as nat),
                }
            }
        },
        NodeData::TemplateTagNode { name, children, size } => spec_render_children(
            children,
            ctx,
            loader,
            fuel,
        ),
    }
}

/// The concatenated outputs of a node sequence, in order; the first error
/// stops the walk.
pub open spec fn spec_render_children(
    cs: Seq<NodeData>,
    ctx: Map<Seq<char>, ContextData>,
    loader: Map<Seq<char>, Seq<char>>,
    fuel: nat,
) -> Result<Seq<char>, RenderErrorData>
    decreases fuel, cs, 0int, 0int,
{
    if cs.len() == 0 {
        Ok(Seq::empty())
    } else {
        match spec_render(cs[0], ctx, loader, fuel) {
            Err(e) => Err(e),
            Ok(head) => {
                match spec_render_children(cs.subrange(1, cs.len() as int), ctx, loader, fuel) {
                    Err(e) => Err(e),
                    Ok(tail) => Ok(head + tail),
                }
            },
        }
    }
}

/// The concatenated outputs of a loop body, one pass per collection
/// element in order, each pass against the parent context with the loop
/// variable overridden by that element.
pub open spec fn spec_render_items(
    items: Seq<Seq<char>>,
    var_name: Seq<char>,
    children: Seq<NodeData>,
    ctx: Map<Seq<char>, ContextData>,
    loader: Map<Seq<char>, Seq<char>>,
    fuel: nat,
) -> Result<Seq<char>, RenderErrorData>
    decreases fuel, children, 1int, items.len(),
{
    if items.len() == 0 {
        Ok(Seq::empty())
    } else {
        let child_ctx = ctx.insert(var_name, ContextData::SingleValue(items[0]));
        match spec_render_children(children, child_ctx, loader, fuel) {
            Err(e) => Err(e),
            Ok(head) => {
                match spec_render_items(
                    items.subrange(1, items.len() as int),
                    var_name,
                    children,
                    ctx,
                    loader,
                    fuel,
                ) {
                    Err(e) => Err(e),
                    Ok(tail) => Ok(head + tail),
                }
            },
        }
    }
}

/// Renders the children of one tag body, concatenating in document order.
#[verifier::loop_isolation(false)]
fn render_children(
    children: &Vec<TemplateNode>,
    ctx: &ContextMap,
    loader: &Loader,
    fuel: u64,
) -> (r: Result<String, RenderError>)
    ensures
        match r {
            Ok(out) => spec_render_children(nodes_view(children@), ctx@, loader@, fuel as nat)
                == Ok::<Seq<char>, RenderErrorData>(out@),
            Err(e) => spec_render_children(nodes_view(children@), ctx@, loader@, fuel as nat)
                == Err::<Seq<char>, RenderErrorData>(e@),
        },
    decreases fuel, *children, 0int,
{
    let ghost cs = nodes_view(children@);
    proof {
        lemma_nodes_view_index(children@);
    }
    let mut out: String = String::new();
    proof {
        assert(cs.subrange(0, cs.len() as int) =~= cs);
        match spec_render_children(cs, ctx@, loader@, fuel as nat) {
            Ok(tail) => {
                assert(out@ + tail =~= tail);
            },
            Err(e) => {},
        }
    }
    let mut k: usize = 0;
    while k < children.len()
        invariant
            k <= children@.len(),
            (match spec_render_children(
                cs.subrange(k as int, cs.len() as int),
                ctx@,
                loader@,
                fuel as nat,
            ) {
                Ok(tail) => spec_render_children(cs, ctx@, loader@, fuel as nat) == Ok::<
                    Seq<char>,
                    RenderErrorData,
                >(out@ + tail),
                Err(e) => spec_render_children(cs, ctx@, loader@, fuel as nat) == Err::<
                    Seq<char>,
                    RenderErrorData,
                >(e),
            }),
        decreases children@.len() - k,
    {
        let ghost rest = cs.subrange(k as int, cs.len() as int);
        proof {
            assert(rest[0] == cs[k as int]);
            assert(rest.subrange(1, rest.len() as int) =~= cs.subrange(
                k as int + 1,
                cs.len() as int,
            ));
        }
        match render_node(&children[k], ctx, loader, fuel) {
            Err(e) => {
                return Err(e);
            },
            Ok(piece) => {
                let ghost out_before = out@;
                out.append(piece.as_str());
                k = k + 1;
                proof {
                    match spec_render_children(
                        cs.subrange(k as int, cs.len() as int),
                        ctx@,
                        loader@,
                        fuel as nat,
                    ) {
                        Ok(tail) => {
                            assert(out_before + (piece@ + tail) =~= out@ + tail);
                        },
                        Err(e) => {},
                    }
                }
            },
        }
    }
    proof {
        assert(cs.subrange(cs.len() as int, cs.len() as int) =~= Seq::<NodeData>::empty());
        assert(out@ + Seq::<char>::empty() =~= out@);
    }
    Ok(out)
}

/// Renders a conditional block: children under a true boolean, nothing
/// under false or an absent binding, an error under any other binding.
fn render_if_tag(t: &IfTag, ctx: &ContextMap, loader: &Loader, fuel: u64) -> (r: Result<
    String,
    RenderError,
>)
    ensures
        match r {
            Ok(out) => spec_render(t@, ctx@, loader@, fuel as nat) == Ok::<
                Seq<char>,
                RenderErrorData,
            >(out@),
            Err(e) => spec_render(t@, ctx@, loader@, fuel as nat) == Err::<
                Seq<char>,
                RenderErrorData,
            >(e@),
        },
    decreases fuel, *t, 0int,
{
    match ctx.get(t.var_name.as_str()) {
        None => Ok(String::new()),
        Some(c) => match c {
            Context::BooleanValue(b) => {
                if *b {
                    render_children(&t.children, ctx, loader, fuel)
                } else {
                    Ok(String::new())
                }
            },
            _ => Err(RenderError::ContextTypeMismatch { name: t.var_name.clone() }),
        },
    }
}

/// Renders a loop block: one pass of the children per element of the bound
/// collection, in element order, against a per-iteration child context.
#[verifier::loop_isolation(false)]
fn render_for_tag(t: &ForTag, ctx: &ContextMap, loader: &Loader, fuel: u64) -> (r: Result<
    String,
    RenderError,
>)
    ensures
        match r {
            Ok(out) => spec_render(t@, ctx@, loader@, fuel as nat) == Ok::<
                Seq<char>,
                RenderErrorData,
            >(out@),
            Err(e) => spec_render(t@, ctx@, loader@, fuel as nat) == Err::<
                Seq<char>,
                RenderErrorData,
            >(e@),
        },
    decreases fuel, *t, 0int,
{
    match ctx.get(t.param_name.as_str()) {
        None => Ok(String::new()),
        Some(c) => match c {
            Context::MultiValue(items) => {
                let ghost items_model = Seq::new(items@.len(), |q: int| items@[q]@);
                let ghost cs = nodes_view(t.children@);
                let mut out: String = String::new();
                proof {
                    assert(items_model.subrange(0, items_model.len() as int) =~= items_model);
                    match spec_render_items(items_model, t.var_name@, cs, ctx@, loader@,
                        fuel as nat) {
                        Ok(tail) => {
                            assert(out@ + tail =~= tail);
                        },
                        Err(e) => {},
                    }
                }
                let mut k: usize = 0;
                while k < items.len()
                    invariant
                        k <= items@.len(),
                        (match spec_render_items(
                            items_model.subrange(k as int, items_model.len() as int),
                            t.var_name@,
                            cs,
                            ctx@,
                            loader@,
                            fuel as nat,
                        ) {
                            Ok(tail) => spec_render_items(
                                items_model,
                                t.var_name@,
                                cs,
                                ctx@,
                                loader@,
                                fuel as nat,
                            ) == Ok::<Seq<char>, RenderErrorData>(out@ + tail),
                            Err(e) => spec_render_items(
                                items_model,
                                t.var_name@,
                                cs,
                                ctx@,
                                loader@,
                                fuel as nat,
                            ) == Err::<Seq<char>, RenderErrorData>(e),
                        }),
                    decreases items@.len() - k,
                {
                    let ghost rest = items_model.subrange(k as int, items_model.len() as int);
                    proof {
                        assert(rest[0] == items_model[k as int]);
                        assert(rest.subrange(1, rest.len() as int) =~= items_model.subrange(
                            k as int + 1,
                            items_model.len() as int,
                        ));
                    }
                    let elem: String = items[k].clone();
                    let child_ctx: ContextMap = ctx.child(
                        t.var_name.clone(),
                        Context::SingleValue(elem),
                    );
                    match render_children(&t.children, &child_ctx, loader, fuel) {
                        Err(e) => {
                            return Err(e);
                        },
                        Ok(piece) => {
                            let ghost out_before = out@;
                            out.append(piece.as_str());
                            k = k + 1;
                            proof {
                                match spec_render_items(
                                    items_model.subrange(k as int, items_model.len() as int),
                                    t.var_name@,
                                    cs,
                                    ctx@,
                                    loader@,
                                    fuel as nat,
                                ) {
                                    Ok(tail) => {
                                        assert(out_before + (piece@ + tail) =~= out@ + tail);
                                    },
                                    Err(e) => {},
                                }
                            }
                        },
                    }
                }
                proof {
                    assert(items_model.subrange(items_model.len() as int, items_model.len() as int)
                        =~= Seq::<Seq<char>>::empty());
                    assert(out@ + Seq::<char>::empty() =~= out@);
                }
                Ok(out)
            },
            _ => Err(RenderError::ContextTypeMismatch { name: t.param_name.clone() }),
        },
    }
}

/// Renders a value placeholder: the bound single value, or nothing when
/// the name is absent or bound to another kind.
fn render_value_tag(vn: &CtchiValue, ctx: &ContextMap) -> (r: String)
    ensures
        forall|loader: Map<Seq<char>, Seq<char>>, fuel: nat|
            #[trigger] spec_render(vn@, ctx@, loader, fuel) == Ok::<Seq<char>, RenderErrorData>(
                r@,
            ),
{
    match ctx.get(vn.value.as_str()) {
        None => String::new(),
        Some(c) => match c {
            Context::SingleValue(s) => s.clone(),
            _ => String::new(),
        },
    }
}

/// Renders one node of any kind.
fn render_node(node: &TemplateNode, ctx: &ContextMap, loader: &Loader, fuel: u64) -> (r: Result<
    String,
    RenderError,
>)
    ensures
        match r {
            Ok(out) => spec_render(node@, ctx@, loader@, fuel as nat) == Ok::<
                Seq<char>,
                RenderErrorData,
            >(out@),
            Err(e) => spec_render(node@, ctx@, loader@, fuel as nat) == Err::<
                Seq<char>,
                RenderErrorData,
            >(e@),
        },
    decreases fuel, *node, 1int,
{
    match node {
        TemplateNode::HtmlNode(h) => Ok(h.value.clone()),
        TemplateNode::CtchiValueNode(vn) => Ok(render_value_tag(vn, ctx)),
        TemplateNode::CtchiIfTagNode(t) => render_if_tag(t, ctx, loader, fuel),
        TemplateNode::CtchiForTagNode(t) => render_for_tag(t, ctx, loader, fuel),
        TemplateNode::CtchiImportTagNode(t) => {
            if fuel == 0 {
                return Err(RenderError::ImportDepthExceeded { path: t.path.clone() });
            }
            match loader.load(t.path.as_str()) {
                None => {
                    let mut msg: String = String::from_str("cannot load template: ");
                    msg.append(t.path.as_str());
                    Ok(msg)
                },
                Some(content) => {
                    match parse(content.as_str()) {
                        Err(e) => Err(RenderError::ImportFailed {
                            path: t.path.clone(),
                            error: e,
                        }),
                        Ok(tree) => render_node(&tree, ctx, loader, fuel - 1),
                    }
                },
            }
        },
        TemplateNode::CtchiTemplateTagNode(t) => render_children(&t.children, ctx, loader, fuel),
    }
}

/// Renders a parsed tree against the given bindings, resolving imports
/// through `loader`, and returns the whole output text.
pub fn write(root: &TemplateNode, context: &ContextMap, loader: &Loader) -> (r: Result<
    String,
    RenderError,
>)
    ensures
        match r {
            Ok(out) => spec_render(root@, context@, loader@, IMPORT_DEPTH_LIMIT as nat) == Ok::<
                Seq<char>,
                RenderErrorData,
            >(out@),
            Err(e) => spec_render(root@, context@, loader@, IMPORT_DEPTH_LIMIT as nat) == Err::<
                Seq<char>,
                RenderErrorData,
            >(e@),
        },
{
    render_node(root, context, loader, IMPORT_DEPTH_LIMIT)
}

impl Content for TemplateNode {
    open spec fn content_model(&self) -> NodeData {
        node_view(*self)
    }

    fn get_content(&self, context: &ContextMap, loader: &Loader) -> (r: Result<
        Vec<u8>,
        RenderError,
    >) {
        match render_node(self, context, loader, IMPORT_DEPTH_LIMIT) {
            Ok(out) => Ok(out.as_str().as_bytes_vec()),
            Err(e) => Err(e),
        }
    }
}

impl Content for TemplateTag {
    open spec fn content_model(&self) -> NodeData {
        node_view(TemplateNode::CtchiTemplateTagNode(*self))
    }

    fn get_content(&self, context: &ContextMap, loader: &Loader) -> (r: Result<
        Vec<u8>,
        RenderError,
    >) {
        match render_children(&self.children, context, loader, IMPORT_DEPTH_LIMIT) {
            Ok(out) => Ok(out.as_str().as_bytes_vec()),
            Err(e) => Err(e),
        }
    }
}

impl Content for ForTag {
    open spec fn content_model(&self) -> NodeData {
        node_view(TemplateNode::CtchiForTagNode(*self))
    }

    fn get_content(&self, context: &ContextMap, loader: &Loader) -> (r: Result<
        Vec<u8>,
        RenderError,
    >) {
        match render_for_tag(self, context, loader, IMPORT_DEPTH_LIMIT) {
            Ok(out) => Ok(out.as_str().as_bytes_vec()),
            Err(e) => Err(e),
        }
    }
}

impl Content for IfTag {
    open spec fn content_model(&self) -> NodeData {
        node_view(TemplateNode::CtchiIfTagNode(*self))
    }

    fn get_content(&self, context: &ContextMap, loader: &Loader) -> (r: Result<
        Vec<u8>,
        RenderError,
    >) {
        match render_if_tag(self, context, loader, IMPORT_DEPTH_LIMIT) {
            Ok(out) => Ok(out.as_str().as_bytes_vec()),
            Err(e) => Err(e),
        }
    }
}

impl Content for ImportTag {
    open spec fn content_model(&self) -> NodeData {
        node_view(TemplateNode::CtchiImportTagNode(*self))
    }

    fn get_content(&self, context: &ContextMap, loader: &Loader) -> (r: Result<
        Vec<u8>,
        RenderError,
    >) {
        let node = TemplateNode::CtchiImportTagNode(ImportTag {
            path: self.path.clone(),
            size: self.size,
        });
        match render_node(&node, context, loader, IMPORT_DEPTH_LIMIT) {
            Ok(out) => Ok(out.as_str().as_bytes_vec()),
            Err(e) => Err(e),
        }
    }
}

impl Content for CtchiValue {
    open spec fn content_model(&self) -> NodeData {
        node_view(TemplateNode::CtchiValueNode(*self))
    }

    fn get_content(&self, context: &ContextMap, loader: &Loader) -> (r: Result<
        Vec<u8>,
        RenderError,
    >) {
        let out: String = render_value_tag(self, context);
        Ok(out.as_str().as_bytes_vec())
    }
}

impl Content for Html {
    open spec fn content_model(&self) -> NodeData {
        node_view(TemplateNode::HtmlNode(*self))
    }

    fn get_content(&self, context: &ContextMap, loader: &Loader) -> (r: Result<
        Vec<u8>,
        RenderError,
    >) {
        Ok(self.value.as_str().as_bytes_vec())
    }
}

} // verus!
