//! The template parser: a single forward scan over the source characters
//! that builds a `TemplateNode` tree, specified by a recursive-descent
//! specification parser over `Seq<char>` and proved equal to it.
//!
//! Grammar, informally: a document either does not open with `[template]`
//! and is one literal text node, or is `[template]` followed by child nodes
//! and `[endtemplate]`.  A child is `[[name]]` (value placeholder), a
//! bracket tag (`[if v]`, `[for x in xs]`, `[import "p"/]`, each with its
//! matching `[end...]` unless self-closing), or a run of literal text up to
//! the next `[`.  Before tag scanning, the escapes `\[` and `\]` are
//! rewritten to the entity texts `&#x5B;` and `&#x5D;`.

use vstd::prelude::*;
use vstd::string::StrSliceExecFns;
use vstd::string::StringExecFns;

use crate::nodes::CtchiValue;
use crate::nodes::ForTag;
use crate::nodes::Html;
use crate::nodes::IfTag;
use crate::nodes::ImportTag;
use crate::nodes::NodeData;
use crate::nodes::ParseError;
use crate::nodes::TemplateNode;
use crate::nodes::TemplateTag;
use crate::nodes::nodes_view;
use crate::text::find_char_from;
use crate::text::find_pair_from;
use crate::text::lemma_replace_pair_head;
use crate::text::spec_find_from;
use crate::text::spec_find_pair;
use crate::text::spec_replace_pair;
use crate::text::spec_split_from;
use crate::text::spec_starts_with;
use crate::text::split_str;
use crate::text::starts_with_at;
use crate::text::str_chars;
use crate::text::str_eq_str;

verus! {

/// Anything that can render itself to output bytes against a context,
/// resolving imports through a loader.
pub trait Content {
    /// The model of the node this content is rendered from.
    spec fn content_model(&self) -> NodeData;

    /// The rendered output of this node under `context`, as UTF-8 bytes.
    fn get_content(&self, context: &crate::nodes::ContextMap, loader: &crate::nodes::Loader) -> (r:
        Result<Vec<u8>, crate::nodes::RenderError>)
        ensures
            match r {
                Ok(bytes) => (match crate::writer::spec_render(
                    self.content_model(),
                    context@,
                    loader@,
                    crate::writer::IMPORT_DEPTH_LIMIT as nat,
                ) {
                    Ok(out) => bytes@ == vstd::utf8::encode_utf8(out),
                    Err(e2) => false,
                }),
                Err(e) => crate::writer::spec_render(
                    self.content_model(),
                    context@,
                    loader@,
                    crate::writer::IMPORT_DEPTH_LIMIT as nat,
                ) == Err::<Seq<char>, crate::nodes::RenderErrorData>(e@),
            },
    ;
}

/// The source text after the escape pre-pass: each `\[` becomes `&#x5B;`,
/// then each `\]` of the result becomes `&#x5D;`.
pub open spec fn spec_escape(s: Seq<char>) -> Seq<char> {
    spec_replace_pair(spec_replace_pair(s, '\\', '[', "&#x5B;"@), '\\', ']', "&#x5D;"@)
}

/// The closing tag text for a tag named `name`.
pub open spec fn spec_end_tag(name: Seq<char>) -> Seq<char> {
    "[end"@ + name + "]"@
}

/// One of the three fixed closing sequences stands at position `i`.
pub open spec fn spec_is_end_tag(s: Seq<char>, i: int) -> bool {
    ||| spec_starts_with(s, i, "[endfor]"@)
    ||| spec_starts_with(s, i, "[endtemplate]"@)
    ||| spec_starts_with(s, i, "[endif]"@)
}

/// A value placeholder read at position `i` (which holds `[[`): everything
/// up to the next `]]` is the variable name; consuming it spans the name
/// plus the four delimiter characters.
pub open spec fn spec_parse_value(s: Seq<char>, i: int) -> Result<(NodeData, int), ParseError> {
    let j = spec_find_pair(s, ']', ']', i + 2);
    if j >= s.len() {
        Err(ParseError::MalformedTemplate { offset: i as usize })
    } else {
        Ok((NodeData::ValueNode { value: s.subrange(i + 2, j) }, j + 2 - i))
    }
}

/// A literal text run read at position `i`: everything up to the next `[`,
/// which must exist (text inside a tag body is always followed by a tag or
/// a closing sequence).
pub open spec fn spec_parse_text(s: Seq<char>, i: int) -> Result<(NodeData, int), ParseError> {
    let j = spec_find_from(s, '[', i);
    if j >= s.len() {
        Err(ParseError::MalformedTemplate { offset: i as usize })
    } else {
        Ok((NodeData::HtmlNode { value: s.subrange(i, j) }, j - i))
    }
}

/// The node a tag's open token describes, given its already-parsed children
/// and consumed span.  Attribute reading is positional over the token split
/// on spaces: `for` takes the variable at index 1 and the collection at
/// index 3, `if` the condition at index 1, `import` the quoted path at
/// index 1 stripped of `"` and `"/`.
pub open spec fn spec_build(
    tokens: Seq<Seq<char>>,
    children: Seq<NodeData>,
    size: int,
    offset: int,
) -> Result<NodeData, ParseError> {
    let name = tokens[0];
    if name == "for"@ {
        if tokens.len() < 4 {
            Err(ParseError::MalformedTemplate { offset: offset as usize })
        } else {
            Ok(NodeData::ForNode {
                var_name: tokens[1],
                param_name: tokens[3],
                children,
                size: size as nat,
            })
        }
    } else if name == "if"@ {
        if tokens.len() < 2 {
            Err(ParseError::MalformedTemplate { offset: offset as usize })
        } else {
            Ok(NodeData::IfNode { var_name: tokens[1], children, size: size as nat })
        }
    } else if name == "import"@ {
        if tokens.len() < 2 || tokens[1].len() < 3 {
            Err(ParseError::MalformedTemplate { offset: offset as usize })
        } else {
            Ok(NodeData::ImportNode {
                path: tokens[1].subrange(1, tokens[1].len() - 2),
                size: size as nat,
            })
        }
    } else if name == "template"@ {
        Ok(NodeData::TemplateTagNode { name, children, size: size as nat })
    } else {
        Err(ParseError::UnknownTag { offset: offset as usize })
    }
}

/// A whole tag read at position `i` (which holds `[`): its open token up to
/// `]`, its children unless the token is self-closing (trailing `/`), its
/// matching closing tag, and the span all of that consumed.
pub open spec fn spec_parse_tag(s: Seq<char>, i: int) -> Result<(NodeData, int), ParseError>
    decreases s.len() - i, 0int,
    when 0 <= i <= s.len()
{
    if i >= s.len() {
        Err(ParseError::MalformedTemplate { offset: i as usize })
    } else {
        let j = spec_find_from(s, ']', i + 1);
        if j < i + 1 || j >= s.len() {
            Err(ParseError::MalformedTemplate { offset: i as usize })
        } else {
            let token = s.subrange(i + 1, j);
            let single = token.len() > 0 && token.last() == '/';
            let body = if single {
                Ok::<(Seq<NodeData>, int), ParseError>((Seq::empty(), j + 1))
            } else {
                spec_parse_nodes(s, j + 1)
            };
            match body {
                Err(e) => Err(e),
                Ok((children, end_i)) => {
                    let tokens = spec_split_from(token, ' ', 0);
                    let end_tag = spec_end_tag(tokens[0]);
                    let consumed = if single {
                        j + 1 - i
                    } else {
                        end_i + end_tag.len() - i
                    };
                    match spec_build(tokens, children, consumed, i) {
                        Err(e) => Err(e),
                        Ok(nd) => {
                            if single || spec_starts_with(s, end_i, end_tag) {
                                Ok((nd, consumed))
                            } else {
                                Err(ParseError::MalformedTemplate { offset: end_i as usize })
                            }
                        },
                    }
                },
            }
        }
    }
}

/// The children of a tag body from position `i` on: nodes read one after
/// the other, each advancing the scan by exactly its consumed span, until
/// one of the fixed closing sequences stands at the scan position.
pub open spec fn spec_parse_nodes(s: Seq<char>, i: int) -> Result<
    (Seq<NodeData>, int),
    ParseError,
>
    decreases s.len() - i, 1int,
    when 0 <= i <= s.len()
{
    if spec_is_end_tag(s, i) {
        Ok((Seq::empty(), i))
    } else if i >= s.len() {
        Err(ParseError::MalformedTemplate { offset: i as usize })
    } else {
        let child = if s[i] == '[' && i + 1 >= s.len() {
            Err(ParseError::MalformedTemplate { offset: i as usize })
        } else if s[i] == '[' && s[i + 1] == '[' {
            spec_parse_value(s, i)
        } else if s[i] == '[' {
            spec_parse_tag(s, i)
        } else {
            spec_parse_text(s, i)
        };
        match child {
            Err(e) => Err(e),
            Ok((nd, sz)) => {
                if 1 <= sz && i + sz <= s.len() {
                    match spec_parse_nodes(s, i + sz) {
                        Err(e) => Err(e),
                        Ok((rest, end)) => Ok((seq![nd] + rest, end)),
                    }
                } else {
                    Err(ParseError::MalformedTemplate { offset: i as usize })
                }
            },
        }
    }
}

/// A whole document: a source that does not open with `[template]` is one
/// literal text node; otherwise the escape pre-pass runs and the root tag
/// is parsed from position 0.  Characters after the root's closing tag are
/// not examined.
pub open spec fn spec_parse(s: Seq<char>) -> Result<NodeData, ParseError> {
    if !spec_starts_with(s, 0, "[template]"@) {
        Ok(NodeData::HtmlNode { value: s })
    } else {
        match spec_parse_tag(spec_escape(s), 0) {
            Ok((nd, _)) => Ok(nd),
            Err(e) => Err(e),
        }
    }
}

/// Relies on `regex::Regex::replace_all` with the fixed two-character
/// pattern `\[`: every non-overlapping match, leftmost first, becomes the
/// entity text `&#x5B;`.  `Regex::new` cannot fail on this fixed pattern.
#[verifier::external_body]
fn replace_escaped_open(s: &str) -> (r: String)
    ensures
        r@ == spec_replace_pair(s@, '\\', '[', "&#x5B;"@),
{
    let re = regex::Regex::new(r"\\\[").unwrap();
    re.replace_all(s, "&#x5B;").into_owned()
}

/// Relies on `regex::Regex::replace_all` with the fixed two-character
/// pattern `\]`: every non-overlapping match, leftmost first, becomes the
/// entity text `&#x5D;`.  `Regex::new` cannot fail on this fixed pattern.
#[verifier::external_body]
fn replace_escaped_close(s: &str) -> (r: String)
    ensures
        r@ == spec_replace_pair(s@, '\\', ']', "&#x5D;"@),
{
    let re = regex::Regex::new(r"\\]").unwrap();
    re.replace_all(s, "&#x5D;").into_owned()
}

/// The escape pre-pass over a whole page.
fn escape_page(html: &str) -> (r: String)
    ensures
        r@ == spec_escape(html@),
{
    let open_replaced: String = replace_escaped_open(html);
    replace_escaped_close(open_replaced.as_str())
}

/// Whether one of the three fixed closing sequences stands at `i`.
fn is_end_tag_at(v: &Vec<char>, i: usize) -> (r: bool)
    requires
        i <= v@.len(),
    ensures
        r == spec_is_end_tag(v@, i as int),
{
    let end_for: Vec<char> = str_chars("[endfor]");
    let end_template: Vec<char> = str_chars("[endtemplate]");
    let end_if: Vec<char> = str_chars("[endif]");
    starts_with_at(v, i, &end_for) || starts_with_at(v, i, &end_template)
        || starts_with_at(v, i, &end_if)
}

/// Reads the value placeholder at `i`.
fn parse_value_at(s: &str, v: &Vec<char>, i: usize) -> (r: Result<
    (TemplateNode, usize),
    ParseError,
>)
    requires
        v@ == s@,
        i + 1 < v@.len(),
        v@[i as int] == '[',
        v@[i + 1] == '[',
    ensures
        match r {
            Ok(p) => spec_parse_value(s@, i as int) == Ok::<(NodeData, int), ParseError>(
                (p.0@, p.1 as int),
            ),
            Err(e) => spec_parse_value(s@, i as int) == Err::<(NodeData, int), ParseError>(e),
        },
{
    let n: usize = v.len();
    let j: usize = find_pair_from(v, ']', ']', i + 2);
    if j >= n {
        Err(ParseError::MalformedTemplate { offset: i })
    } else {
        let value: String = String::from_str(s.substring_char(i + 2, j));
        Ok((TemplateNode::CtchiValueNode(CtchiValue { value }), j + 2 - i))
    }
}

/// Reads the literal text run at `i`.
fn parse_text_at(s: &str, v: &Vec<char>, i: usize) -> (r: Result<
    (TemplateNode, usize),
    ParseError,
>)
    requires
        v@ == s@,
        i < v@.len(),
    ensures
        match r {
            Ok(p) => spec_parse_text(s@, i as int) == Ok::<(NodeData, int), ParseError>(
                (p.0@, p.1 as int),
            ),
            Err(e) => spec_parse_text(s@, i as int) == Err::<(NodeData, int), ParseError>(e),
        },
{
    let j: usize = find_char_from(v, '[', i);
    if j >= v.len() {
        Err(ParseError::MalformedTemplate { offset: i })
    } else {
        let value: String = String::from_str(s.substring_char(i, j));
        Ok((TemplateNode::HtmlNode(Html { value }), j - i))
    }
}

/// Builds the node for a tag from its split open token.
fn build_result(
    tokens: &Vec<String>,
    children: Vec<TemplateNode>,
    size: usize,
    offset: usize,
) -> (r: Result<TemplateNode, ParseError>)
    requires
        tokens@.len() >= 1,
    ensures
        match r {
            Ok(node) => spec_build(
                tokens.deep_view(),
                nodes_view(children@),
                size as int,
                offset as int,
            ) == Ok::<NodeData, ParseError>(node@),
            Err(e) => spec_build(
                tokens.deep_view(),
                nodes_view(children@),
                size as int,
                offset as int,
            ) == Err::<NodeData, ParseError>(e),
        },
{
    if str_eq_str(tokens[0].as_str(), "for") {
        if tokens.len() < 4 {
            Err(ParseError::MalformedTemplate { offset })
        } else {
            Ok(TemplateNode::CtchiForTagNode(ForTag {
                var_name: tokens[1].clone(),
                param_name: tokens[3].clone(),
                children,
                size,
            }))
        }
    } else if str_eq_str(tokens[0].as_str(), "if") {
        if tokens.len() < 2 {
            Err(ParseError::MalformedTemplate { offset })
        } else {
            Ok(TemplateNode::CtchiIfTagNode(IfTag {
                var_name: tokens[1].clone(),
                children,
                size,
            }))
        }
    } else if str_eq_str(tokens[0].as_str(), "import") {
        if tokens.len() < 2 {
            Err(ParseError::MalformedTemplate { offset })
        } else {
            let attr_len: usize = tokens[1].as_str().unicode_len();
            if attr_len < 3 {
                Err(ParseError::MalformedTemplate { offset })
            } else {
                let path: String = String::from_str(
                    tokens[1].as_str().substring_char(1, attr_len - 2),
                );
                Ok(TemplateNode::CtchiImportTagNode(ImportTag { path, size }))
            }
        }
    } else if str_eq_str(tokens[0].as_str(), "template") {
        Ok(TemplateNode::CtchiTemplateTagNode(TemplateTag {
            name: tokens[0].clone(),
            children,
            size,
        }))
    } else {
        Err(ParseError::UnknownTag { offset })
    }
}

/// Reads the whole tag at `i`: open token, children unless self-closing,
/// and the matching closing tag.
#[verifier::loop_isolation(false)]
fn parse_tag_at(s: &str, v: &Vec<char>, i: usize) -> (r: Result<(TemplateNode, usize), ParseError>)
    requires
        v@ == s@,
        i < v@.len(),
    ensures
        match r {
            Ok(p) => spec_parse_tag(s@, i as int) == Ok::<(NodeData, int), ParseError>(
                (p.0@, p.1 as int),
            ),
            Err(e) => spec_parse_tag(s@, i as int) == Err::<(NodeData, int), ParseError>(e),
        },
    decreases v@.len() - i,
{
    let n: usize = v.len();
    let j: usize = find_char_from(v, ']', i + 1);
    if j >= n {
        return Err(ParseError::MalformedTemplate { offset: i });
    }
    let token: String = String::from_str(s.substring_char(i + 1, j));
    let token_chars: Vec<char> = str_chars(token.as_str());
    let single_line: bool = token_chars.len() > 0 && token_chars[token_chars.len() - 1] == '/';
    proof {
        assert(token@ == s@.subrange(i as int + 1, j as int));
        assert(single_line == (token@.len() > 0 && token@.last() == '/'));
    }
    let mut children: Vec<TemplateNode> = Vec::new();
    let mut cur: usize = j + 1;
    if !single_line {
        while !is_end_tag_at(v, cur)
            invariant
                v@ == s@,
                n == v@.len(),
                i < n,
                i + 1 <= j < n,
                j == spec_find_from(s@, ']', i as int + 1),
                j + 1 <= cur <= n,
                (match spec_parse_nodes(s@, cur as int) {
                    Ok(p) => spec_parse_nodes(s@, j as int + 1) == Ok::<
                        (Seq<NodeData>, int),
                        ParseError,
                    >((nodes_view(children@) + p.0, p.1)),
                    Err(e) => spec_parse_nodes(s@, j as int + 1) == Err::<
                        (Seq<NodeData>, int),
                        ParseError,
                    >(e),
                }),
            decreases n - cur,
        {
            if cur >= n {
                proof {
                    assert(spec_parse_nodes(s@, cur as int) == Err::<
                        (Seq<NodeData>, int),
                        ParseError,
                    >(ParseError::MalformedTemplate { offset: cur }));
                }
                return Err(ParseError::MalformedTemplate { offset: cur });
            }
            let child: Result<(TemplateNode, usize), ParseError> = if v[cur] == '[' {
                if cur + 1 >= n {
                    proof {
                        assert(spec_parse_nodes(s@, cur as int) == Err::<
                            (Seq<NodeData>, int),
                            ParseError,
                        >(ParseError::MalformedTemplate { offset: cur }));
                    }
                    return Err(ParseError::MalformedTemplate { offset: cur });
                } else if v[cur + 1] == '[' {
                    parse_value_at(s, v, cur)
                } else {
                    parse_tag_at(s, v, cur)
                }
            } else {
                parse_text_at(s, v, cur)
            };
            match child {
                Err(e) => {
                    proof {
                        assert(spec_parse_nodes(s@, cur as int) == Err::<
                            (Seq<NodeData>, int),
                            ParseError,
                        >(e));
                    }
                    return Err(e);
                },
                Ok((node, sz)) => {
                    if sz < 1 || sz > n - cur {
                        proof {
                            assert(spec_parse_nodes(s@, cur as int) == Err::<
                                (Seq<NodeData>, int),
                                ParseError,
                            >(ParseError::MalformedTemplate { offset: cur }));
                        }
                        return Err(ParseError::MalformedTemplate { offset: cur });
                    }
                    let ghost old_children = children@;
                    let ghost old_cur = cur as int;
                    let ghost nview = node@;
                    children.push(node);
                    cur = cur + sz;
                    proof {
                        crate::nodes::lemma_nodes_view_index(old_children);
                        crate::nodes::lemma_nodes_view_index(children@);
                        assert(nodes_view(children@) =~= nodes_view(old_children) + seq![nview]);
                        match spec_parse_nodes(s@, cur as int) {
                            Ok(p) => {
                                assert(spec_parse_nodes(s@, old_cur) == Ok::<
                                    (Seq<NodeData>, int),
                                    ParseError,
                                >((seq![nview] + p.0, p.1)));
                                assert(nodes_view(old_children) + (seq![nview] + p.0)
                                    =~= nodes_view(children@) + p.0);
                            },
                            Err(e) => {
                                assert(spec_parse_nodes(s@, old_cur) == Err::<
                                    (Seq<NodeData>, int),
                                    ParseError,
                                >(e));
                            },
                        }
                    }
                },
            }
        }
        proof {
            assert(spec_parse_nodes(s@, cur as int) == Ok::<(Seq<NodeData>, int), ParseError>(
                (Seq::<NodeData>::empty(), cur as int),
            ));
            assert(nodes_view(children@) + Seq::<NodeData>::empty() =~= nodes_view(children@));
            assert(spec_parse_nodes(s@, j as int + 1) == Ok::<(Seq<NodeData>, int), ParseError>(
                (nodes_view(children@), cur as int),
            ));
        }
    }
    let tokens: Vec<String> = split_str(token.as_str(), ' ');
    let mut end_tag: String = String::from_str("[end");
    end_tag.append(tokens[0].as_str());
    end_tag.append("]");
    let end_chars: Vec<char> = str_chars(end_tag.as_str());
    let end_len: usize = end_chars.len();
    proof {
        assert(end_tag@ == spec_end_tag(tokens.deep_view()[0]));
    }
    let fits: bool = single_line || end_len <= n - cur;
    let consumed: usize = if single_line {
        j + 1 - i
    } else if fits {
        cur + end_len - i
    } else {
        0
    };
    let built: Result<TemplateNode, ParseError> = build_result(&tokens, children, consumed, i);
    match built {
        Err(e) => Err(e),
        Ok(node) => {
            if single_line {
                Ok((node, consumed))
            } else if starts_with_at(v, cur, &end_chars) {
                Ok((node, consumed))
            } else {
                Err(ParseError::MalformedTemplate { offset: cur })
            }
        },
    }
}

/// Parses a whole template source.  A source that does not open with
/// `[template]` parses as one literal text node; any structural violation
/// is reported as an error, never as a partial tree.
pub fn parse(html: &str) -> (r: Result<TemplateNode, ParseError>)
    ensures
        match r {
            Ok(node) => spec_parse(html@) == Ok::<NodeData, ParseError>(node@),
            Err(e) => spec_parse(html@) == Err::<NodeData, ParseError>(e),
        },
{
    let v: Vec<char> = str_chars(html);
    let opener: Vec<char> = str_chars("[template]");
    proof {
        reveal_strlit("[template]");
    }
    if !starts_with_at(&v, 0, &opener) {
        return Ok(TemplateNode::HtmlNode(Html { value: String::from_str(html) }));
    }
    let escaped: String = escape_page(html);
    let ev: Vec<char> = str_chars(escaped.as_str());
    proof {
        assert("[template]"@.len() == 10);
        assert(html@.subrange(0, 10)[0] == html@[0]);
        assert(html@[0] == '[');
        lemma_replace_pair_head(html@, '\\', '[', "&#x5B;"@);
        lemma_replace_pair_head(
            spec_replace_pair(html@, '\\', '[', "&#x5B;"@),
            '\\',
            ']',
            "&#x5D;"@,
        );
    }
    match parse_tag_at(escaped.as_str(), &ev, 0) {
        Ok((node, _)) => Ok(node),
        Err(e) => Err(e),
    }
}

} // verus!
