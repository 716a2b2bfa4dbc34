//! Configuration files on disk: the three supported formats, the format a
//! path's extension selects, and the global application configuration.

use vstd::prelude::*;

use crate::SpringError;
use crate::text::{chars_of_str, str_eq, string_of_chars};

verus! {

/// The global application configuration.
#[derive(Debug)]
pub struct GlobalConfig {
    pub dir: String,
}

impl GlobalConfig {
    pub fn new(dir: &str) -> (r: Self)
        ensures
            r.dir@ == dir@,
    {
        GlobalConfig { dir: dir.to_owned() }
    }
}

/// The serialization formats a configuration file may use.
#[derive(Clone, Copy, PartialEq, Eq, Structural, Debug)]
pub enum FileType {
    Yaml,
    Json,
    Toml,
}

/// A configuration file's path together with the format its extension
/// selects.
#[derive(Debug)]
pub struct ConfigMetadata {
    pub file_type: FileType,
    pub path: String,
}

/// The position of the last occurrence of `c`, or `-1` where there is
/// none.
pub open spec fn last_index_of(s: Seq<char>, c: char) -> int
    decreases s.len(),
{
    if s.len() == 0 {
        -1
    } else if s.last() == c {
        s.len() - 1
    } else {
        last_index_of(s.drop_last(), c)
    }
}

/// The extension of a path: what follows the last dot of its final
/// component, provided that dot is neither the component's first
/// character nor absent.
pub open spec fn path_extension(p: Seq<char>) -> Option<Seq<char>> {
    let ls = last_index_of(p, '/');
    let ld = last_index_of(p, '.');
    if ld > ls + 1 {
        Option::Some(p.subrange(ld + 1, p.len() as int))
    } else {
        Option::None
    }
}

/// The format an extension selects, if any.
pub open spec fn file_type_of_extension(e: Seq<char>) -> Option<FileType> {
    if e == "yaml"@ || e == "yml"@ {
        Option::Some(FileType::Yaml)
    } else if e == "json"@ {
        Option::Some(FileType::Json)
    } else if e == "toml"@ {
        Option::Some(FileType::Toml)
    } else {
        Option::None
    }
}

/// Finds the last occurrence of `c` in the vector.
#[verifier::loop_isolation(false)]
fn find_last(v: &Vec<char>, c: char) -> (r: Option<usize>)
    ensures
        match r {
            Option::Some(i) => last_index_of(v@, c) == i && i < v@.len(),
            Option::None => last_index_of(v@, c) == -1,
        },
{
    let mut i: usize = v.len();
    proof {
        assert(v@.subrange(0, v@.len() as int) =~= v@);
    }
    while i > 0
        invariant
            i <= v@.len(),
            last_index_of(v@, c) == last_index_of(v@.subrange(0, i as int), c),
        decreases i,
    {
        if v[i - 1] == c {
            proof {
                assert(v@.subrange(0, i as int).last() == v@[i - 1]);
            }
            return Option::Some(i - 1);
        }
        proof {
            assert(v@.subrange(0, i as int).drop_last() =~= v@.subrange(0, i - 1));
        }
        i = i - 1;
    }
    proof {
        assert(v@.subrange(0, 0).len() == 0);
    }
    Option::None
}

impl ConfigMetadata {
    pub fn new(filetype: FileType, configpath: String) -> (r: Self)
        ensures
            r.file_type == filetype,
            r.path@ == configpath@,
    {
        ConfigMetadata { file_type: filetype, path: configpath }
    }

    /// Reads the format out of a path's extension: `yaml` and `yml` select
    /// YAML, `json` selects JSON, `toml` selects TOML; a path without an
    /// extension, or with any other one, is rejected.
    pub fn from_path(file_path: String) -> (r: Result<Self, SpringError>)
        ensures
            match path_extension(file_path@) {
                Option::None => r == Result::<Self, SpringError>::Err(
                    SpringError::NoFileExtension,
                ),
                Option::Some(e) => match file_type_of_extension(e) {
                    Option::Some(t) => r is Ok && r->Ok_0.file_type == t && r->Ok_0.path@
                        == file_path@,
                    Option::None => r == Result::<Self, SpringError>::Err(
                        SpringError::UnsupportedFileType,
                    ),
                },
            },
    {
        let chars = chars_of_str(file_path.as_str());
        let ls = find_last(&chars, '/');
        let ld = find_last(&chars, '.');
        let mut usable: Option<usize> = Option::None;
        if let Option::Some(d) = ld {
            match ls {
                Option::None => {
                    if d >= 1 {
                        usable = Option::Some(d);
                    }
                },
                Option::Some(s) => {
                    if d > s && d - s > 1 {
                        usable = Option::Some(d);
                    }
                },
            }
        }
        if let Option::Some(d) = usable {
            let n = chars.len();
            proof {
                assert(d < n);
            }
            let mut ext: Vec<char> = Vec::new();
            let mut i: usize = d + 1;
            while i < chars.len()
                invariant
                    d + 1 <= i <= chars@.len(),
                    ext@ == chars@.subrange(d + 1, i as int),
                decreases chars@.len() - i,
            {
                ext.push(chars[i]);
                proof {
                    assert(chars@.subrange(d + 1, i as int).push(chars@[i as int]) =~= chars@
                        .subrange(d + 1, i + 1));
                }
                i = i + 1;
            }
            let ext_s = string_of_chars(&ext);
            let t = if str_eq(ext_s.as_str(), "yaml") || str_eq(ext_s.as_str(), "yml") {
                Option::Some(FileType::Yaml)
            } else if str_eq(ext_s.as_str(), "json") {
                Option::Some(FileType::Json)
            } else if str_eq(ext_s.as_str(), "toml") {
                Option::Some(FileType::Toml)
            } else {
                Option::None
            };
            match t {
                Option::Some(ft) => Result::Ok(ConfigMetadata { file_type: ft, path: file_path }),
                Option::None => Result::Err(SpringError::UnsupportedFileType),
            }
        } else {
            Result::Err(SpringError::NoFileExtension)
        }
    }
}

// ---------------------------------------------------------------------------
// The global application configuration on disk
// ---------------------------------------------------------------------------

/// What a global configuration document holds: the download directory,
/// written as the format writes any other single field.
pub open spec fn parse_global_model(t: FileType, doc: Seq<char>) -> Option<Seq<char>> {
    match t {
        FileType::Yaml => match crate::codec::parse_field(doc, "dir: "@, crate::codec::emp()) {
            Option::Some(f) => if f.rest.len() == 0 {
                Option::Some(crate::codec::yaml_unescape(f.value))
            } else {
                Option::None
            },
            Option::None => Option::None,
        },
        FileType::Json => if doc.len() >= 2 && doc[0] == '{' && doc[1] == '\n' {
            match crate::codec::parse_field(doc.skip(2), "  \"dir\": \""@, "\""@) {
                Option::Some(f) => if f.rest == seq!['}'] {
                    Option::Some(f.value)
                } else {
                    Option::None
                },
                Option::None => Option::None,
            }
        } else {
            Option::None
        },
        FileType::Toml => match crate::codec::parse_field(doc, "dir = \""@, "\""@) {
            Option::Some(f) => if f.rest.len() == 0 {
                Option::Some(f.value)
            } else {
                Option::None
            },
            Option::None => Option::None,
        },
    }
}

/// Reads the download directory out of a global configuration document.
#[verifier::rlimit(50)]
fn parse_global(content: &str, t: FileType) -> (r: Option<String>)
    ensures
        match parse_global_model(t, content@) {
            Option::Some(d) => r is Some && r.unwrap()@ == d,
            Option::None => r is None,
        },
{
    let doc = crate::codec::chars_vec(content);
    proof {
        reveal_strlit("");
        assert(""@ =~= crate::codec::emp());
        assert(doc@.skip(0) =~= doc@);
    }
    match t {
        FileType::Yaml => {
            let f = match crate::codec::parse_field_at(&doc, 0, "dir: ", "") {
                Option::Some(x) => x,
                Option::None => {
                    return Option::None;
                },
            };
            if f.1 != doc.len() {
                proof {
                    assert(doc@.skip(f.1 as int).len() > 0);
                }
                return Option::None;
            }
            proof {
                assert(doc@.skip(f.1 as int).len() == 0);
            }
            Option::Some(crate::codec::unescape_yaml(f.0))
        },
        FileType::Json => {
            if doc.len() < 2 {
                return Option::None;
            }
            if !(doc[0] == '{' && doc[1] == '\n') {
                return Option::None;
            }
            let f = match crate::codec::parse_field_at(&doc, 2, "  \"dir\": \"", "\"") {
                Option::Some(x) => x,
                Option::None => {
                    return Option::None;
                },
            };
            if !(doc.len() - f.1 == 1 && doc[f.1] == '}') {
                proof {
                    assert(doc@.skip(f.1 as int) != seq!['}']) by {
                        let rest = doc@.skip(f.1 as int);
                        if rest.len() == 1 {
                            assert(rest[0] == doc@[f.1 as int]);
                        }
                    }
                }
                return Option::None;
            }
            proof {
                assert(doc@.skip(f.1 as int) =~= seq!['}']);
            }
            Option::Some(f.0)
        },
        FileType::Toml => {
            let f = match crate::codec::parse_field_at(&doc, 0, "dir = \"", "\"") {
                Option::Some(x) => x,
                Option::None => {
                    return Option::None;
                },
            };
            if f.1 != doc.len() {
                proof {
                    assert(doc@.skip(f.1 as int).len() > 0);
                }
                return Option::None;
            }
            proof {
                assert(doc@.skip(f.1 as int).len() == 0);
            }
            Option::Some(f.0)
        },
    }
}

/// Reads the global configuration: `path` is where the application's
/// configuration file was found, if anywhere, and `content` what it
/// holds.  Without a path there is no configuration to read.
pub fn get_config(path: Option<String>, content: &str) -> (r: Result<GlobalConfig, SpringError>)
    ensures
        match path {
            Option::None => r == Result::<GlobalConfig, SpringError>::Err(
                SpringError::GlobalConfigMissing,
            ),
            Option::Some(p) => match path_extension(p@) {
                Option::None => r == Result::<GlobalConfig, SpringError>::Err(
                    SpringError::NoFileExtension,
                ),
                Option::Some(e) => match file_type_of_extension(e) {
                    Option::None => r == Result::<GlobalConfig, SpringError>::Err(
                        SpringError::UnsupportedFileType,
                    ),
                    Option::Some(t) => match parse_global_model(t, content@) {
                        Option::Some(d) => r is Ok && r->Ok_0.dir@ == d,
                        Option::None => r == Result::<GlobalConfig, SpringError>::Err(
                            SpringError::ConfigParse,
                        ),
                    },
                },
            },
        },
{
    let p = match path {
        Option::Some(p) => p,
        Option::None => {
            return Result::Err(SpringError::GlobalConfigMissing);
        },
    };
    let meta = match ConfigMetadata::from_path(p) {
        Result::Ok(m) => m,
        Result::Err(e) => {
            return Result::Err(e);
        },
    };
    match parse_global(content, meta.file_type) {
        Option::Some(dir) => Result::Ok(GlobalConfig { dir }),
        Option::None => Result::Err(SpringError::ConfigParse),
    }
}

/// Accepts a global configuration to store.  The original storage
/// backend never materialised; accepting the value is all there is to
/// do.
pub fn set(config: &GlobalConfig) {
}

/// The global configuration updated to download into `path`.  Writing it
/// back to disk is the caller's concern.
pub fn modify_global_config(path: &str) -> (r: GlobalConfig)
    ensures
        r.dir@ == path@,
{
    GlobalConfig::new(path)
}

} // verus!
