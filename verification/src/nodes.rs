//! Data model of the template engine: runtime context bindings, the template
//! loader capability, the parsed node tree, and the engine's error types.

use vstd::prelude::*;
use vstd::string::StringExecFns;
use crate::text::str_eq_str;

verus! {

/// A value bound to a variable name in a rendering context.
pub enum Context {
    BooleanValue(bool),
    SingleValue(String),
    MultiValue(Vec<String>),
}

/// Mathematical model of a `Context` value.
pub enum ContextData {
    BooleanValue(bool),
    SingleValue(Seq<char>),
    MultiValue(Seq<Seq<char>>),
}

impl View for Context {
    type V = ContextData;

    open spec fn view(&self) -> ContextData {
        match self {
            Context::BooleanValue(b) => ContextData::BooleanValue(*b),
            Context::SingleValue(s) => ContextData::SingleValue(s@),
            Context::MultiValue(v) => ContextData::MultiValue(
                Seq::new(v@.len(), |i: int| v@[i]@),
            ),
        }
    }
}

impl Clone for Context {
    fn clone(&self) -> (r: Self)
        ensures
            r@ == self@,
    {
        match self {
            Context::BooleanValue(b) => Context::BooleanValue(*b),
            Context::SingleValue(s) => Context::SingleValue(s.clone()),
            Context::MultiValue(v) => {
                let mut nv: Vec<String> = Vec::new();
                let mut i: usize = 0;
                while i < v.len()
                    invariant
                        i <= v@.len(),
                        nv@.len() == i,
                        forall|t: int| 0 <= t < i ==> nv@[t] == v@[t],
                    decreases v@.len() - i,
                {
                    nv.push(v[i].clone());
                    i = i + 1;
                }
                proof {
                    assert(nv@ =~= v@);
                }
                Context::MultiValue(nv)
            },
        }
    }
}

/// The bindings a key-value sequence stands for, later entries shadowing
/// earlier ones.
pub open spec fn entries_map<V: View>(s: Seq<(String, V)>) -> Map<Seq<char>, V::V>
    decreases s.len(),
{
    if s.len() == 0 {
        Map::empty()
    } else {
        entries_map(s.drop_last()).insert(s.last().0@, s.last().1@)
    }
}

proof fn lemma_entries_map_found<V: View>(s: Seq<(String, V)>, name: Seq<char>, i: int)
    requires
        0 <= i < s.len(),
        s[i].0@ == name,
        forall|t: int| i < t < s.len() ==> s[t].0@ != name,
    ensures
        entries_map(s).contains_key(name),
        entries_map(s)[name] == s[i].1@,
    decreases s.len(),
{
    if i < s.len() - 1 {
        assert(s.drop_last()[i] == s[i]);
        lemma_entries_map_found(s.drop_last(), name, i);
    }
}

proof fn lemma_entries_map_missing<V: View>(s: Seq<(String, V)>, name: Seq<char>)
    requires
        forall|t: int| 0 <= t < s.len() ==> s[t].0@ != name,
    ensures
        !entries_map(s).contains_key(name),
    decreases s.len(),
{
    if s.len() > 0 {
        lemma_entries_map_missing(s.drop_last(), name);
    }
}

proof fn lemma_entries_map_congruence<V: View>(a: Seq<(String, V)>, b: Seq<(String, V)>)
    requires
        a.len() == b.len(),
        forall|t: int| 0 <= t < a.len() ==> a[t].0@ == b[t].0@ && a[t].1@ == b[t].1@,
    ensures
        entries_map(a) == entries_map(b),
    decreases a.len(),
{
    if a.len() > 0 {
        assert(forall|t: int|
            0 <= t < a.drop_last().len() ==> a.drop_last()[t].0@ == b.drop_last()[t].0@
                && a.drop_last()[t].1@ == b.drop_last()[t].1@);
        lemma_entries_map_congruence(a.drop_last(), b.drop_last());
    }
}

/// The variable bindings supplied at render time: a mapping from variable
/// names to `Context` values, immutable during a render.
pub struct ContextMap {
    entries: Vec<(String, Context)>,
}

impl View for ContextMap {
    type V = Map<Seq<char>, ContextData>;

    closed spec fn view(&self) -> Map<Seq<char>, ContextData> {
        entries_map(self.entries@)
    }
}

impl ContextMap {
    /// An empty set of bindings.
    pub fn new() -> (r: ContextMap)
        ensures
            r@ == Map::<Seq<char>, ContextData>::empty(),
    {
        ContextMap { entries: Vec::new() }
    }

    /// Binds `name` to `value`, shadowing any earlier binding of `name`.
    pub fn insert(&mut self, name: String, value: Context)
        ensures
            final(self)@ == old(self)@.insert(name@, value@),
    {
        let ghost before = self.entries@;
        self.entries.push((name, value));
        proof {
            assert(self.entries@.drop_last() =~= before);
        }
    }

    /// The value bound to `name`, if any.
    pub fn get<'a>(&'a self, name: &str) -> (r: Option<&'a Context>)
        ensures
            match r {
                Some(c) => self@.contains_key(name@) && c@ == self@[name@],
                None => !self@.contains_key(name@),
            },
    {
        let key: String = String::from_str(name);
        let mut i: usize = self.entries.len();
        while i > 0
            invariant
                i <= self.entries@.len(),
                key@ == name@,
                forall|t: int| i <= t < self.entries@.len() ==> self.entries@[t].0@ != name@,
            decreases i,
        {
            i = i - 1;
            if self.entries[i].0 == key {
                proof {
                    lemma_entries_map_found(self.entries@, name@, i as int);
                }
                return Some(&self.entries[i].1);
            }
        }
        proof {
            lemma_entries_map_missing(self.entries@, name@);
        }
        None
    }

    /// A fresh context consisting of these bindings plus one override: the
    /// derivation a `For` node performs for each iteration.
    pub fn child(&self, name: String, value: Context) -> (r: ContextMap)
        ensures
            r@ == self@.insert(name@, value@),
    {
        let mut entries: Vec<(String, Context)> = Vec::new();
        let mut i: usize = 0;
        while i < self.entries.len()
            invariant
                i <= self.entries@.len(),
                entries@.len() == i,
                forall|t: int| 0 <= t < i ==> entries@[t].0@ == self.entries@[t].0@
                    && entries@[t].1@ == self.entries@[t].1@,
            decreases self.entries@.len() - i,
        {
            let name_copy: String = self.entries[i].0.clone();
            let value_copy: Context = self.entries[i].1.clone();
            entries.push((name_copy, value_copy));
            i = i + 1;
        }
        let ghost copied = entries@;
        proof {
            lemma_entries_map_congruence(copied, self.entries@);
        }
        entries.push((name, value));
        let r = ContextMap { entries };
        proof {
            assert(r.entries@.drop_last() =~= copied);
        }
        r
    }
}

/// The external capability an `Import` node resolves template paths through:
/// a snapshot mapping each path to the template text loaded for it.
pub struct Loader {
    entries: Vec<(String, String)>,
}

impl View for Loader {
    type V = Map<Seq<char>, Seq<char>>;

    closed spec fn view(&self) -> Map<Seq<char>, Seq<char>> {
        entries_map(self.entries@)
    }
}

impl Loader {
    /// A loader that resolves no path.
    pub fn new() -> (r: Loader)
        ensures
            r@ == Map::<Seq<char>, Seq<char>>::empty(),
    {
        Loader { entries: Vec::new() }
    }

    /// Makes `content` the text that `path` resolves to.
    pub fn insert(&mut self, path: String, content: String)
        ensures
            final(self)@ == old(self)@.insert(path@, content@),
    {
        let ghost before = self.entries@;
        self.entries.push((path, content));
        proof {
            assert(self.entries@.drop_last() =~= before);
        }
    }

    /// The template text at `path`, if the loader resolves it.
    pub fn load<'a>(&'a self, path: &str) -> (r: Option<&'a String>)
        ensures
            match r {
                Some(c) => self@.contains_key(path@) && c@ == self@[path@],
                None => !self@.contains_key(path@),
            },
    {
        let key: String = String::from_str(path);
        let mut i: usize = self.entries.len();
        while i > 0
            invariant
                i <= self.entries@.len(),
                key@ == path@,
                forall|t: int| i <= t < self.entries@.len() ==> self.entries@[t].0@ != path@,
            decreases i,
        {
            i = i - 1;
            if self.entries[i].0 == key {
                proof {
                    lemma_entries_map_found(self.entries@, path@, i as int);
                }
                return Some(&self.entries[i].1);
            }
        }
        proof {
            lemma_entries_map_missing(self.entries@, path@);
        }
        None
    }
}

/// Why a template source was rejected by the parser; `offset` is the
/// character position of the offending tag or of the point where scanning
/// failed.
#[derive(Clone, Copy, PartialEq, Eq, Structural, Debug)]
pub enum ParseError {
    MalformedTemplate { offset: usize },
    UnknownTag { offset: usize },
}

/// Why rendering a well-formed tree failed.
#[derive(Debug)]
pub enum RenderError {
    /// A variable was bound to a value of the wrong kind for the node that
    /// read it, such as an `if` condition bound to a non-boolean.
    ContextTypeMismatch { name: String },
    /// An imported template loaded but did not parse.
    ImportFailed { path: String, error: ParseError },
    /// A chain of imports exceeded the import depth limit.
    ImportDepthExceeded { path: String },
}

/// Mathematical model of a `RenderError`.
pub enum RenderErrorData {
    ContextTypeMismatch { name: Seq<char> },
    ImportFailed { path: Seq<char>, error: ParseError },
    ImportDepthExceeded { path: Seq<char> },
}

impl View for RenderError {
    type V = RenderErrorData;

    open spec fn view(&self) -> RenderErrorData {
        match self {
            RenderError::ContextTypeMismatch { name } => RenderErrorData::ContextTypeMismatch {
                name: name@,
            },
            RenderError::ImportFailed { path, error } => RenderErrorData::ImportFailed {
                path: path@,
                error: *error,
            },
            RenderError::ImportDepthExceeded { path } => RenderErrorData::ImportDepthExceeded {
                path: path@,
            },
        }
    }
}

/// Mathematical model of a parsed template node.  `size` mirrors the
/// consumed-source-length bookkeeping the parser keeps on each node.
pub enum NodeData {
    IfNode { var_name: Seq<char>, children: Seq<NodeData>, size: nat },
    ImportNode { path: Seq<char>, size: nat },
    ForNode { var_name: Seq<char>, param_name: Seq<char>, children: Seq<NodeData>, size: nat },
    TemplateTagNode { name: Seq<char>, children: Seq<NodeData>, size: nat },
    ValueNode { value: Seq<char> },
    HtmlNode { value: Seq<char> },
}

/// The parsed template tree: a closed union over every node kind the
/// template grammar can produce.
#[derive(Debug)]
pub enum TemplateNode {
    CtchiIfTagNode(IfTag),
    CtchiImportTagNode(ImportTag),
    CtchiForTagNode(ForTag),
    CtchiTemplateTagNode(TemplateTag),
    CtchiValueNode(CtchiValue),
    HtmlNode(Html),
}

/// The document root wrapper; `size` is the source span the whole document
/// consumed, in characters.
#[derive(Debug)]
pub struct TemplateTag {
    pub name: String,
    pub children: Vec<TemplateNode>,
    pub size: usize,
}

/// A loop block: renders its children once per element of the collection
/// bound to `param_name`, with `var_name` bound to the element.
#[derive(Debug)]
pub struct ForTag {
    pub var_name: String,
    pub param_name: String,
    pub children: Vec<TemplateNode>,
    pub size: usize,
}

/// A conditional block guarded by the boolean bound to `var_name`.
#[derive(Debug)]
pub struct IfTag {
    pub var_name: String,
    pub children: Vec<TemplateNode>,
    pub size: usize,
}

/// A self-closing reference to another template, resolved at render time.
#[derive(Debug)]
pub struct ImportTag {
    pub path: String,
    pub size: usize,
}

/// A single-value interpolation placeholder; `value` is the variable name.
#[derive(Debug)]
pub struct CtchiValue {
    pub value: String,
}

/// A run of literal output text.
#[derive(Debug)]
pub struct Html {
    pub value: String,
}

/// A parsed document, rooted at its template tag.
#[derive(Debug)]
pub struct Page {
    pub root: TemplateTag,
}

/// The model of one node.
pub open spec fn node_view(n: TemplateNode) -> NodeData
    decreases n,
{
    match n {
        TemplateNode::CtchiIfTagNode(t) => NodeData::IfNode {
            var_name: t.var_name@,
            children: nodes_view(t.children@),
            size: t.size as nat,
        },
        TemplateNode::CtchiImportTagNode(t) => NodeData::ImportNode {
            path: t.path@,
            size: t.size as nat,
        },
        TemplateNode::CtchiForTagNode(t) => NodeData::ForNode {
            var_name: t.var_name@,
            param_name: t.param_name@,
            children: nodes_view(t.children@),
            size: t.size as nat,
        },
        TemplateNode::CtchiTemplateTagNode(t) => NodeData::TemplateTagNode {
            name: t.name@,
            children: nodes_view(t.children@),
            size: t.size as nat,
        },
        TemplateNode::CtchiValueNode(v) => NodeData::ValueNode { value: v.value@ },
        TemplateNode::HtmlNode(h) => NodeData::HtmlNode { value: h.value@ },
    }
}

/// The models of a sequence of nodes, in order.
pub open spec fn nodes_view(s: Seq<TemplateNode>) -> Seq<NodeData>
    decreases s,
{
    if s.len() == 0 {
        Seq::empty()
    } else {
        seq![node_view(s[0])] + nodes_view(s.drop_first())
    }
}

pub broadcast proof fn lemma_nodes_view_index(s: Seq<TemplateNode>)
    ensures
        (#[trigger] nodes_view(s)).len() == s.len(),
        forall|i: int| 0 <= i < s.len() ==> nodes_view(s)[i] == node_view(s[i]),
    decreases s.len(),
{
    if s.len() > 0 {
        lemma_nodes_view_index(s.drop_first());
    }
}

impl View for TemplateNode {
    type V = NodeData;

    open spec fn view(&self) -> NodeData {
        node_view(*self)
    }
}

impl View for TemplateTag {
    type V = NodeData;

    open spec fn view(&self) -> NodeData {
        node_view(TemplateNode::CtchiTemplateTagNode(*self))
    }
}

impl View for ForTag {
    type V = NodeData;

    open spec fn view(&self) -> NodeData {
        node_view(TemplateNode::CtchiForTagNode(*self))
    }
}

impl View for IfTag {
    type V = NodeData;

    open spec fn view(&self) -> NodeData {
        node_view(TemplateNode::CtchiIfTagNode(*self))
    }
}

impl View for ImportTag {
    type V = NodeData;

    open spec fn view(&self) -> NodeData {
        node_view(TemplateNode::CtchiImportTagNode(*self))
    }
}

impl View for CtchiValue {
    type V = NodeData;

    open spec fn view(&self) -> NodeData {
        node_view(TemplateNode::CtchiValueNode(*self))
    }
}

impl View for Html {
    type V = NodeData;

    open spec fn view(&self) -> NodeData {
        node_view(TemplateNode::HtmlNode(*self))
    }
}

impl TemplateNode {
    /// Wraps a document root tag as a node.
    pub fn from_tag(tag: TemplateTag) -> (r: TemplateNode)
        ensures
            r == TemplateNode::CtchiTemplateTagNode(tag),
    {
        TemplateNode::CtchiTemplateTagNode(tag)
    }

    /// Wraps a literal text run as a node.
    pub fn from_html(text: Html) -> (r: TemplateNode)
        ensures
            r == TemplateNode::HtmlNode(text),
    {
        TemplateNode::HtmlNode(text)
    }

    /// Wraps an interpolation placeholder as a node.
    pub fn from_value(value: CtchiValue) -> (r: TemplateNode)
        ensures
            r == TemplateNode::CtchiValueNode(value),
    {
        TemplateNode::CtchiValueNode(value)
    }

    /// Whether two trees are structurally identical: same shape, same names,
    /// same literal text, same recorded sizes.
    pub fn structural_eq(&self, other: &TemplateNode) -> (r: bool)
        ensures
            r == (self@ == other@),
        decreases *self,
    {
        match (self, other) {
            (TemplateNode::CtchiIfTagNode(a), TemplateNode::CtchiIfTagNode(b)) => {
                str_eq_str(a.var_name.as_str(), b.var_name.as_str()) && a.size == b.size
                    && nodes_structural_eq(&a.children, &b.children)
            },
            (TemplateNode::CtchiImportTagNode(a), TemplateNode::CtchiImportTagNode(b)) => {
                str_eq_str(a.path.as_str(), b.path.as_str()) && a.size == b.size
            },
            (TemplateNode::CtchiForTagNode(a), TemplateNode::CtchiForTagNode(b)) => {
                str_eq_str(a.var_name.as_str(), b.var_name.as_str())
                    && str_eq_str(a.param_name.as_str(), b.param_name.as_str())
                    && a.size == b.size && nodes_structural_eq(&a.children, &b.children)
            },
            (TemplateNode::CtchiTemplateTagNode(a), TemplateNode::CtchiTemplateTagNode(b)) => {
                str_eq_str(a.name.as_str(), b.name.as_str()) && a.size == b.size
                    && nodes_structural_eq(&a.children, &b.children)
            },
            (TemplateNode::CtchiValueNode(a), TemplateNode::CtchiValueNode(b)) => {
                str_eq_str(a.value.as_str(), b.value.as_str())
            },
            (TemplateNode::HtmlNode(a), TemplateNode::HtmlNode(b)) => {
                str_eq_str(a.value.as_str(), b.value.as_str())
            },
            _ => false,
        }
    }
}

/// Whether two node sequences are elementwise structurally identical.
pub fn nodes_structural_eq(a: &Vec<TemplateNode>, b: &Vec<TemplateNode>) -> (r: bool)
    ensures
        r == (nodes_view(a@) == nodes_view(b@)),
    decreases *a,
{
    proof {
        lemma_nodes_view_index(a@);
        lemma_nodes_view_index(b@);
    }
    if a.len() != b.len() {
        proof {
            assert(nodes_view(a@).len() != nodes_view(b@).len());
        }
        return false;
    }
    let mut i: usize = 0;
    while i < a.len()
        invariant
            a@.len() == b@.len(),
            i <= a@.len(),
            nodes_view(a@).len() == a@.len(),
            nodes_view(b@).len() == b@.len(),
            forall|t: int| 0 <= t < a@.len() ==> nodes_view(a@)[t] == node_view(a@[t]),
            forall|t: int| 0 <= t < b@.len() ==> nodes_view(b@)[t] == node_view(b@[t]),
            forall|t: int| 0 <= t < i ==> node_view(a@[t]) == node_view(b@[t]),
        decreases a@.len() - i,
    {
        if !a[i].structural_eq(&b[i]) {
            proof {
                assert(nodes_view(a@)[i as int] != nodes_view(b@)[i as int]);
            }
            return false;
        }
        i = i + 1;
    }
    proof {
        assert(nodes_view(a@) =~= nodes_view(b@));
    }
    true
}

} // verus!
