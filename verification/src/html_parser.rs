//! The earlier parser interface, kept for hosts built against it: the
//! same node tree and grammar as `parser`, reached through a parser
//! object instead of a free function.

use vstd::prelude::*;

pub use crate::nodes::CtchiValue;
pub use crate::nodes::ForTag;
pub use crate::nodes::Html;
pub use crate::nodes::IfTag;
pub use crate::nodes::ImportTag;
pub use crate::nodes::Page;
pub use crate::nodes::TemplateNode;
pub use crate::nodes::TemplateTag;

use crate::nodes::NodeData;
use crate::nodes::ParseError;
use crate::parser::spec_parse;

verus! {

/// One parsed attribute of a tag, as a name-value pair.
#[derive(Debug)]
pub struct CtchiTagAttribute {
    pub name: String,
    pub value: String,
}

/// A parser object over the template grammar.
pub struct HtmlParser;

impl HtmlParser {
    /// Parses a whole template source; same grammar and same result as
    /// the free `parse` function.
    pub fn parse(&mut self, html: &str) -> (r: Result<TemplateNode, ParseError>)
        ensures
            match r {
                Ok(node) => spec_parse(html@) == Ok::<NodeData, ParseError>(node@),
                Err(e) => spec_parse(html@) == Err::<NodeData, ParseError>(e),
            },
    {
        crate::parser::parse(html)
    }
}

} // verus!
