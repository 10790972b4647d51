//! Process configuration model: the settings record and the parsing of a
//! `key=value` configuration text into it.  Reading the configuration file
//! itself is the host's concern; this module turns its content into a
//! `Config`.

use vstd::prelude::*;

use crate::text::spec_split_from;
use crate::text::split_str;
use crate::text::str_eq_str;

verus! {

/// The server's settings: bind address, template directory, static-file
/// URI prefix and log file path.
#[derive(Debug)]
pub struct Config {
    pub bind_path: String,
    pub base_path: String,
    pub static_uri_pref: String,
    pub log_path: String,
}

/// The value the configuration lines give for `key`, later lines winning;
/// `dflt` when no line sets it.  A line sets `key` when its first
/// `=`-separated column is `key` and a second column exists.
pub open spec fn spec_config_value(lines: Seq<Seq<char>>, key: Seq<char>, dflt: Seq<char>)
    -> Seq<char>
    decreases lines.len(),
{
    if lines.len() == 0 {
        dflt
    } else {
        let prev = spec_config_value(lines.drop_last(), key, dflt);
        let cols = spec_split_from(lines.last(), '=', 0);
        if cols[0] == key && cols.len() >= 2 {
            cols[1]
        } else {
            prev
        }
    }
}

impl Config {
    /// Parses a configuration text: one `key=value` setting per line, keys
    /// `bind_path`, `base_path` and `log_path`, unknown keys and lines
    /// without a value ignored, later lines overriding earlier ones.
    /// `default_base_path` is the template directory used when no line
    /// sets one.
    #[verifier::loop_isolation(false)]
    pub fn parse_config(content: &str, default_base_path: &str) -> (r: Config)
        ensures
            ({
                let lines = spec_split_from(content@, '\n', 0);
                &&& r.bind_path@ == spec_config_value(lines, "bind_path"@, "127.0.0.1:8080"@)
                &&& r.base_path@ == spec_config_value(lines, "base_path"@, default_base_path@)
                &&& r.log_path@ == spec_config_value(
                    lines,
                    "log_path"@,
                    "/Users/glotitude/log/ctchi/server.log"@,
                )
                &&& r.static_uri_pref@ == "/static/"@
            }),
    {
        let lines: Vec<String> = split_str(content, '\n');
        let ghost lines_model = lines.deep_view();
        let mut bind_path: String = String::from_str("127.0.0.1:8080");
        let mut base_path: String = String::from_str(default_base_path);
        let mut log_path: String = String::from_str("/Users/glotitude/log/ctchi/server.log");
        let mut i: usize = 0;
        while i < lines.len()
            invariant
                i <= lines@.len(),
                bind_path@ == spec_config_value(
                    lines_model.subrange(0, i as int),
                    "bind_path"@,
                    "127.0.0.1:8080"@,
                ),
                base_path@ == spec_config_value(
                    lines_model.subrange(0, i as int),
                    "base_path"@,
                    default_base_path@,
                ),
                log_path@ == spec_config_value(
                    lines_model.subrange(0, i as int),
                    "log_path"@,
                    "/Users/glotitude/log/ctchi/server.log"@,
                ),
            decreases lines@.len() - i,
        {
            let cols: Vec<String> = split_str(lines[i].as_str(), '=');
            if cols.len() >= 2 {
                if str_eq_str(cols[0].as_str(), "bind_path") {
                    bind_path = cols[1].clone();
                }
                if str_eq_str(cols[0].as_str(), "base_path") {
                    base_path = cols[1].clone();
                }
                if str_eq_str(cols[0].as_str(), "log_path") {
                    log_path = cols[1].clone();
                }
            }
            i = i + 1;
            proof {
                assert(lines_model.subrange(0, i as int).drop_last() =~= lines_model.subrange(
                    0,
                    i as int - 1,
                ));
                assert(lines_model.subrange(0, i as int).last() == lines_model[i as int - 1]);
            }
        }
        proof {
            assert(lines_model.subrange(0, lines_model.len() as int) =~= lines_model);
        }
        Config {
            bind_path,
            base_path,
            static_uri_pref: String::from_str("/static/"),
            log_path,
        }
    }
}

} // verus!
