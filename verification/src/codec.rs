//! The declarative configuration documents: writing a configuration out
//! in YAML, JSON or TOML, and reading those documents back.  Each format
//! is a fixed sequence of `prefix value suffix` lines; writing and then
//! reading recovers the configuration exactly.

use vstd::prelude::*;

use crate::SpringError;
use crate::config::{ConfigMetadata, FileType, file_type_of_extension, path_extension};
use crate::config_state::{ConfigModel, SprintInitConfig};
use crate::text::{
    dec_str, i32_to_string, lemma_dec_str_round_trip, no_newline, parse_i32, parse_i32_spec,
    str_eq, string_of_chars,
};

verus! {

/// One parsed line: the value between the line's fixed prefix and
/// suffix, and everything after the line's newline.
pub ghost struct FieldParse {
    pub value: Seq<char>,
    pub rest: Seq<char>,
}

/// The position of the first newline, if any.
pub open spec fn first_newline(s: Seq<char>) -> Option<int>
    decreases s.len(),
{
    if s.len() == 0 {
        Option::None
    } else if s[0] == '\n' {
        Option::Some(0int)
    } else {
        match first_newline(s.drop_first()) {
            Option::Some(i) => Option::Some(i + 1),
            Option::None => Option::None,
        }
    }
}

/// Takes one line off the document: the line must begin with `prefix`
/// and end with `suffix`; what stands between them is the value.
pub open spec fn parse_field(doc: Seq<char>, prefix: Seq<char>, suffix: Seq<char>) -> Option<
    FieldParse,
> {
    match first_newline(doc) {
        Option::None => Option::None,
        Option::Some(n) => {
            let line = doc.take(n);
            let rest = doc.skip(n + 1);
            if line.len() >= prefix.len() + suffix.len() && line.take(prefix.len() as int)
                == prefix && line.skip(line.len() - suffix.len()) == suffix {
                Option::Some(
                    FieldParse {
                        value: line.subrange(prefix.len() as int, line.len() - suffix.len()),
                        rest,
                    },
                )
            } else {
                Option::None
            }
        },
    }
}

/// The first newline of `a + '\n' + b` is the one written in the middle,
/// provided `a` holds none.
proof fn lemma_first_newline_at(a: Seq<char>, b: Seq<char>)
    requires
        no_newline(a),
    ensures
        first_newline(a + seq!['\n'] + b) == Option::Some(a.len() as int),
    decreases a.len(),
{
    let s = a + seq!['\n'] + b;
    if a.len() == 0 {
        assert(s[0] == '\n');
    } else {
        assert(s[0] == a[0]);
        assert(s[0] != '\n');
        assert(s.drop_first() =~= a.drop_first() + seq!['\n'] + b);
        assert(no_newline(a.drop_first())) by {
            assert(forall|i: int|
                0 <= i < a.len() - 1 ==> a.drop_first()[i] == #[trigger] a[i + 1]);
        }
        lemma_first_newline_at(a.drop_first(), b);
    }
}

/// A sequence without a newline parses back out of the line built around
/// it: the round trip of one line.
pub proof fn lemma_parse_field_round(
    prefix: Seq<char>,
    v: Seq<char>,
    suffix: Seq<char>,
    rest: Seq<char>,
)
    requires
        no_newline(prefix),
        no_newline(v),
        no_newline(suffix),
    ensures
        parse_field(prefix + v + suffix + seq!['\n'] + rest, prefix, suffix) == Option::Some(
            FieldParse { value: v, rest },
        ),
{
    let a = prefix + v + suffix;
    let doc = prefix + v + suffix + seq!['\n'] + rest;
    assert(doc =~= a + seq!['\n'] + rest);
    assert(no_newline(a));
    lemma_first_newline_at(a, rest);
    assert(first_newline(doc) == Option::Some(a.len() as int));
    let n = a.len() as int;
    assert(doc.take(n) =~= a);
    assert(doc.skip(n + 1) =~= rest);
    assert(a.take(prefix.len() as int) =~= prefix);
    assert(a.skip(a.len() - suffix.len()) =~= suffix);
    assert(a.subrange(prefix.len() as int, a.len() - suffix.len()) =~= v);
}

/// If no character of `s` is a newline, `first_newline` finds none.
proof fn lemma_first_newline_none(s: Seq<char>)
    requires
        no_newline(s),
    ensures
        first_newline(s) is None,
    decreases s.len(),
{
    if s.len() > 0 {
        assert(no_newline(s.drop_first())) by {
            assert(forall|i: int|
                0 <= i < s.len() - 1 ==> s.drop_first()[i] == #[trigger] s[i + 1]);
        }
        lemma_first_newline_none(s.drop_first());
    }
}

/// The first newline is where the first `'\n'` character stands.
proof fn lemma_first_newline_found(s: Seq<char>, k: int)
    requires
        0 <= k < s.len(),
        s[k] == '\n',
        forall|j: int| 0 <= j < k ==> #[trigger] s[j] != '\n',
    ensures
        first_newline(s) == Option::Some(k),
    decreases k,
{
    if k > 0 {
        assert(s[0] != '\n');
        let t = s.drop_first();
        assert(t[k - 1] == '\n');
        assert(forall|j: int| 0 <= j < k - 1 ==> #[trigger] t[j] == s[j + 1]);
        lemma_first_newline_found(t, k - 1);
    }
}

/// Takes one line off the document at `pos`, holding it to the given
/// prefix and suffix; hands back the value and the position after the
/// line.
#[verifier::loop_isolation(false)]
pub(crate) fn parse_field_at(doc: &Vec<char>, pos: usize, prefix: &str, suffix: &str) -> (r: Option<
    (String, usize),
>)
    requires
        pos <= doc@.len(),
    ensures
        match r {
            Option::Some(p) => {
                &&& p.1 <= doc@.len()
                &&& pos < p.1
                &&& parse_field(doc@.skip(pos as int), prefix@, suffix@) == Option::Some(
                    FieldParse { value: p.0@, rest: doc@.skip(p.1 as int) },
                )
            },
            Option::None => parse_field(doc@.skip(pos as int), prefix@, suffix@) is None,
        },
{
    let ghost tail = doc@.skip(pos as int);
    // Find the end of the line.
    let mut e: usize = pos;
    while e < doc.len() && doc[e] != '\n'
        invariant
            pos <= e <= doc@.len(),
            forall|j: int| pos <= j < e ==> #[trigger] doc@[j] != '\n',
        decreases doc@.len() - e,
    {
        e = e + 1;
    }
    proof {
        assert(forall|j: int| 0 <= j < e - pos ==> tail[j] == #[trigger] doc@[j + pos]);
    }
    if e == doc.len() {
        proof {
            assert(no_newline(tail));
            lemma_first_newline_none(tail);
        }
        return Option::None;
    }
    proof {
        assert(tail[e - pos] == '\n');
        lemma_first_newline_found(tail, e - pos);
    }
    let ghost n = e - pos;
    let ghost line = tail.take(n as int);
    proof {
        assert(forall|j: int| 0 <= j < n ==> line[j] == #[trigger] doc@[j + pos]);
        assert(tail.skip(n + 1) =~= doc@.skip(e + 1));
    }
    let plen = prefix.unicode_len();
    let slen = suffix.unicode_len();
    let linelen = e - pos;
    if linelen < plen || linelen - plen < slen {
        return Option::None;
    }
    // The prefix.
    let mut j: usize = 0;
    while j < plen
        invariant
            j <= plen,
            forall|k: int| 0 <= k < j ==> #[trigger] line[k] == prefix@[k],
        decreases plen - j,
    {
        if doc[pos + j] != prefix.get_char(j) {
            proof {
                assert(line.take(plen as int)[j as int] != prefix@[j as int]);
            }
            return Option::None;
        }
        j = j + 1;
    }
    proof {
        assert(line.take(plen as int) =~= prefix@);
    }
    // The suffix.
    let mut j2: usize = 0;
    while j2 < slen
        invariant
            j2 <= slen,
            forall|k: int| 0 <= k < j2 ==> #[trigger] line[n - slen + k] == suffix@[k],
        decreases slen - j2,
    {
        if doc[e - slen + j2] != suffix.get_char(j2) {
            proof {
                assert(line.skip(n - slen as int)[j2 as int] != suffix@[j2 as int]);
            }
            return Option::None;
        }
        j2 = j2 + 1;
    }
    proof {
        assert forall|k: int| 0 <= k < slen implies line.skip(n - slen as int)[k] == suffix@[k] by {
            assert(line[n - slen + k] == suffix@[k]);
        }
        assert(line.skip(n - slen as int) =~= suffix@);
    }
    // The value.
    let mut value: Vec<char> = Vec::new();
    let mut i: usize = pos + plen;
    while i < e - slen
        invariant
            pos + plen <= i <= e - slen,
            value@ == doc@.subrange(pos + plen, i as int),
        decreases e - slen - i,
    {
        value.push(doc[i]);
        proof {
            assert(doc@.subrange(pos + plen, i as int).push(doc@[i as int]) =~= doc@.subrange(
                pos + plen,
                i + 1,
            ));
        }
        i = i + 1;
    }
    proof {
        assert(value@ =~= line.subrange(plen as int, n - slen as int));
    }
    Option::Some((string_of_chars(&value), e + 1))
}

// ---------------------------------------------------------------------------
// Lines and documents
// ---------------------------------------------------------------------------

/// One line of a document.
pub open spec fn line_of(prefix: Seq<char>, v: Seq<char>, suffix: Seq<char>) -> Seq<char> {
    prefix + v + suffix + seq!['\n']
}

/// The empty suffix.
pub open spec fn emp() -> Seq<char> {
    Seq::empty()
}

/// How YAML writes a string value: an empty string becomes a pair of
/// apostrophes, anything else stands as it is.
pub open spec fn yaml_escape(v: Seq<char>) -> Seq<char> {
    if v.len() == 0 {
        "''"@
    } else {
        v
    }
}

/// The reverse reading.
pub open spec fn yaml_unescape(v: Seq<char>) -> Seq<char> {
    if v == "''"@ {
        Seq::empty()
    } else {
        v
    }
}

/// The YAML document for a configuration: one `key: value` line per
/// field, in the configuration's field order.
pub open spec fn yaml_doc(c: ConfigModel) -> Seq<char> {
    line_of("projectType: "@, yaml_escape(c.project_type), emp()) + (line_of(
        "language: "@,
        yaml_escape(c.language),
        emp(),
    ) + (line_of("platformVersion: "@, yaml_escape(c.platform_version), emp()) + (line_of(
        "packaging: "@,
        yaml_escape(c.packaging),
        emp(),
    ) + (line_of("configurationFileFormat: "@, yaml_escape(c.configuration_file_format), emp()) + (
    line_of("javaVersion: "@, dec_str(c.java_version), emp()) + (line_of(
        "groupId: "@,
        yaml_escape(c.group_id),
        emp(),
    ) + (line_of("artifactId: "@, yaml_escape(c.artifact_id), emp()) + (line_of(
        "name: "@,
        yaml_escape(c.name),
        emp(),
    ) + (line_of("description: "@, yaml_escape(c.description), emp()) + (line_of(
        "packageName: "@,
        yaml_escape(c.package_name),
        emp(),
    ) + (line_of("dependencies: "@, yaml_escape(c.dependencies), emp()) + (line_of(
        "bootVersion: "@,
        yaml_escape(c.boot_version),
        emp(),
    ) + line_of("version: "@, yaml_escape(c.version), emp())))))))))))))
}

/// Reads a YAML document of exactly that shape back into a
/// configuration.
pub open spec fn parse_yaml_model(doc: Seq<char>) -> Option<ConfigModel> {
    match parse_field(doc, "projectType: "@, emp()) {
        Option::None => Option::None,
        Option::Some(f1) => match parse_field(f1.rest, "language: "@, emp()) {
            Option::None => Option::None,
            Option::Some(f2) => match parse_field(f2.rest, "platformVersion: "@, emp()) {
                Option::None => Option::None,
                Option::Some(f3) => match parse_field(f3.rest, "packaging: "@, emp()) {
                    Option::None => Option::None,
                    Option::Some(f4) => match parse_field(
                        f4.rest,
                        "configurationFileFormat: "@,
                        emp(),
                    ) {
                        Option::None => Option::None,
                        Option::Some(f5) => match parse_field(f5.rest, "javaVersion: "@, emp()) {
                            Option::None => Option::None,
                            Option::Some(f6) => match parse_i32_spec(f6.value) {
                                Option::None => Option::None,
                                Option::Some(jv) => match parse_field(
                                    f6.rest,
                                    "groupId: "@,
                                    emp(),
                                ) {
                                    Option::None => Option::None,
                                    Option::Some(f7) => match parse_field(
                                        f7.rest,
                                        "artifactId: "@,
                                        emp(),
                                    ) {
                                        Option::None => Option::None,
                                        Option::Some(f8) => match parse_field(
                                            f8.rest,
                                            "name: "@,
                                            emp(),
                                        ) {
                                            Option::None => Option::None,
                                            Option::Some(f9) => match parse_field(
                                                f9.rest,
                                                "description: "@,
                                                emp(),
                                            ) {
                                                Option::None => Option::None,
                                                Option::Some(f10) => match parse_field(
                                                    f10.rest,
                                                    "packageName: "@,
                                                    emp(),
                                                ) {
                                                    Option::None => Option::None,
                                                    Option::Some(f11) => match parse_field(
                                                        f11.rest,
                                                        "dependencies: "@,
                                                        emp(),
                                                    ) {
                                                        Option::None => Option::None,
                                                        Option::Some(f12) => match parse_field(
                                                            f12.rest,
                                                            "bootVersion: "@,
                                                            emp(),
                                                        ) {
                                                            Option::None => Option::None,
                                                            Option::Some(f13) => match parse_field(
                                                                f13.rest,
                                                                "version: "@,
                                                                emp(),
                                                            ) {
                                                                Option::None => Option::None,
                                                                Option::Some(f14) => if f14.rest.len() == 0 {
                                                                    Option::Some(
                                                                        ConfigModel {
                                                                            project_type: yaml_unescape(f1.value),
                                                                            language: yaml_unescape(f2.value),
                                                                            platform_version: yaml_unescape(f3.value),
                                                                            packaging: yaml_unescape(f4.value),
                                                                            configuration_file_format: yaml_unescape(f5.value),
                                                                            java_version: jv as int,
                                                                            group_id: yaml_unescape(f7.value),
                                                                            artifact_id: yaml_unescape(f8.value),
                                                                            name: yaml_unescape(f9.value),
                                                                            description: yaml_unescape(f10.value),
                                                                            package_name: yaml_unescape(f11.value),
                                                                            dependencies: yaml_unescape(f12.value),
                                                                            boot_version: yaml_unescape(f13.value),
                                                                            version: yaml_unescape(f14.value),
                                                                        },
                                                                    )
                                                                } else {
                                                                    Option::None
                                                                },
                                                            },
                                                        },
                                                    },
                                                },
                                            },
                                        },
                                    },
                                },
                            },
                        },
                    },
                },
            },
        },
    }
}

/// One line as a string: the prefix, the value, the suffix, a newline.
fn make_line(prefix: &str, value: &str, suffix: &str) -> (r: String)
    ensures
        r@ == line_of(prefix@, value@, suffix@),
{
    let r = String::from_str(prefix).concat(value).concat(suffix).concat("\n");
    proof {
        reveal_strlit("\n");
        assert("\n"@ =~= seq!['\n']);
        assert(r@ =~= line_of(prefix@, value@, suffix@));
    }
    r
}

/// One YAML line, writing an empty value as a pair of apostrophes.
fn make_yaml_line(prefix: &str, value: &str) -> (r: String)
    ensures
        r@ == line_of(prefix@, yaml_escape(value@), emp()),
{
    proof {
        reveal_strlit("");
        assert(""@ =~= emp());
    }
    if value.unicode_len() == 0 {
        let r = make_line(prefix, "''", "");
        proof {
            assert(yaml_escape(value@) == "''"@);
        }
        r
    } else {
        make_line(prefix, value, "")
    }
}

/// Writes the configuration as a YAML document.
pub fn emit_yaml(config: &SprintInitConfig) -> (r: String)
    ensures
        r@ == yaml_doc(config.model()),
{
    proof {
        reveal_strlit("");
        assert(""@ =~= emp());
    }
    let jv = i32_to_string(config.java_version);
    let l1 = make_yaml_line("projectType: ", config.project_type.as_str());
    let l2 = make_yaml_line("language: ", config.language.as_str());
    let l3 = make_yaml_line("platformVersion: ", config.platform_version.as_str());
    let l4 = make_yaml_line("packaging: ", config.packaging.as_str());
    let l5 = make_yaml_line("configurationFileFormat: ", config.configuration_file_format.as_str());
    let l6 = make_line("javaVersion: ", jv.as_str(), "");
    let l7 = make_yaml_line("groupId: ", config.group_id.as_str());
    let l8 = make_yaml_line("artifactId: ", config.artifact_id.as_str());
    let l9 = make_yaml_line("name: ", config.name.as_str());
    let l10 = make_yaml_line("description: ", config.description.as_str());
    let l11 = make_yaml_line("packageName: ", config.package_name.as_str());
    let l12 = make_yaml_line("dependencies: ", config.dependencies.as_str());
    let l13 = make_yaml_line("bootVersion: ", config.boot_version.as_str());
    let l14 = make_yaml_line("version: ", config.version.as_str());
    let mut acc = l14;
    acc = l13.concat(acc.as_str());
    acc = l12.concat(acc.as_str());
    acc = l11.concat(acc.as_str());
    acc = l10.concat(acc.as_str());
    acc = l9.concat(acc.as_str());
    acc = l8.concat(acc.as_str());
    acc = l7.concat(acc.as_str());
    acc = l6.concat(acc.as_str());
    acc = l5.concat(acc.as_str());
    acc = l4.concat(acc.as_str());
    acc = l3.concat(acc.as_str());
    acc = l2.concat(acc.as_str());
    acc = l1.concat(acc.as_str());
    acc
}

/// Undoes the YAML writing of a value.
pub(crate) fn unescape_yaml(v: String) -> (r: String)
    ensures
        r@ == yaml_unescape(v@),
{
    if str_eq(v.as_str(), "''") {
        let e = String::new();
        proof {
            assert(e@ =~= Seq::<char>::empty());
        }
        e
    } else {
        v
    }
}

/// Reads a configuration out of a YAML document of the canonical shape.
#[verifier::rlimit(100)]
pub fn parse_yaml(content: &str) -> (r: Option<SprintInitConfig>)
    ensures
        match parse_yaml_model(content@) {
            Option::Some(c) => r is Some && r.unwrap().model() == c,
            Option::None => r is None,
        },
{
    let doc = chars_vec(content);
    proof {
        reveal_strlit("");
        assert(""@ =~= emp());
        assert(doc@.skip(0) =~= doc@);
    }
    let f1 = match parse_field_at(&doc, 0, "projectType: ", "") {
        Option::Some(x) => x,
        Option::None => {
            return Option::None;
        },
    };
    let f2 = match parse_field_at(&doc, f1.1, "language: ", "") {
        Option::Some(x) => x,
        Option::None => {
            return Option::None;
        },
    };
    let f3 = match parse_field_at(&doc, f2.1, "platformVersion: ", "") {
        Option::Some(x) => x,
        Option::None => {
            return Option::None;
        },
    };
    let f4 = match parse_field_at(&doc, f3.1, "packaging: ", "") {
        Option::Some(x) => x,
        Option::None => {
            return Option::None;
        },
    };
    let f5 = match parse_field_at(&doc, f4.1, "configurationFileFormat: ", "") {
        Option::Some(x) => x,
        Option::None => {
            return Option::None;
        },
    };
    let f6 = match parse_field_at(&doc, f5.1, "javaVersion: ", "") {
        Option::Some(x) => x,
        Option::None => {
            return Option::None;
        },
    };
    let jv = match parse_i32(f6.0.as_str()) {
        Option::Some(j) => j,
        Option::None => {
            return Option::None;
        },
    };
    let f7 = match parse_field_at(&doc, f6.1, "groupId: ", "") {
        Option::Some(x) => x,
        Option::None => {
            return Option::None;
        },
    };
    let f8 = match parse_field_at(&doc, f7.1, "artifactId: ", "") {
        Option::Some(x) => x,
        Option::None => {
            return Option::None;
        },
    };
    let f9 = match parse_field_at(&doc, f8.1, "name: ", "") {
        Option::Some(x) => x,
        Option::None => {
            return Option::None;
        },
    };
    let f10 = match parse_field_at(&doc, f9.1, "description: ", "") {
        Option::Some(x) => x,
        Option::None => {
            return Option::None;
        },
    };
    let f11 = match parse_field_at(&doc, f10.1, "packageName: ", "") {
        Option::Some(x) => x,
        Option::None => {
            return Option::None;
        },
    };
    let f12 = match parse_field_at(&doc, f11.1, "dependencies: ", "") {
        Option::Some(x) => x,
        Option::None => {
            return Option::None;
        },
    };
    let f13 = match parse_field_at(&doc, f12.1, "bootVersion: ", "") {
        Option::Some(x) => x,
        Option::None => {
            return Option::None;
        },
    };
    let f14 = match parse_field_at(&doc, f13.1, "version: ", "") {
        Option::Some(x) => x,
        Option::None => {
            return Option::None;
        },
    };
    if f14.1 != doc.len() {
        proof {
            assert(doc@.skip(f14.1 as int).len() > 0);
        }
        return Option::None;
    }
    proof {
        assert(doc@.skip(f14.1 as int).len() == 0);
    }
    Option::Some(
        SprintInitConfig {
            project_type: unescape_yaml(f1.0),
            language: unescape_yaml(f2.0),
            platform_version: unescape_yaml(f3.0),
            packaging: unescape_yaml(f4.0),
            configuration_file_format: unescape_yaml(f5.0),
            java_version: jv,
            group_id: unescape_yaml(f7.0),
            artifact_id: unescape_yaml(f8.0),
            name: unescape_yaml(f9.0),
            description: unescape_yaml(f10.0),
            package_name: unescape_yaml(f11.0),
            dependencies: unescape_yaml(f12.0),
            boot_version: unescape_yaml(f13.0),
            version: unescape_yaml(f14.0),
        },
    )
}

/// The characters of a string slice.
pub(crate) fn chars_vec(s: &str) -> (r: Vec<char>)
    ensures
        r@ == s@,
{
    crate::text::chars_of_str(s)
}

// ---------------------------------------------------------------------------
// The round trip
// ---------------------------------------------------------------------------

/// A value every format writes and reads back unchanged: no newline, and
/// not itself the pair of apostrophes YAML writes for an empty string.
pub open spec fn plain_value(v: Seq<char>) -> bool {
    no_newline(v) && v != "''"@
}

/// A configuration whose export any of the three formats reads back
/// exactly.
pub open spec fn plain_config(c: ConfigModel) -> bool {
    &&& plain_value(c.project_type)
    &&& plain_value(c.language)
    &&& plain_value(c.platform_version)
    &&& plain_value(c.packaging)
    &&& plain_value(c.configuration_file_format)
    &&& plain_value(c.group_id)
    &&& plain_value(c.artifact_id)
    &&& plain_value(c.name)
    &&& plain_value(c.description)
    &&& plain_value(c.package_name)
    &&& plain_value(c.dependencies)
    &&& plain_value(c.boot_version)
    &&& plain_value(c.version)
    &&& -0x8000_0000 <= c.java_version <= 0x7fff_ffff
}

/// The keys of the documents hold no newline.
proof fn lemma_yaml_literals()
    ensures
        no_newline("projectType: "@),
        no_newline("language: "@),
        no_newline("platformVersion: "@),
        no_newline("packaging: "@),
        no_newline("configurationFileFormat: "@),
        no_newline("javaVersion: "@),
        no_newline("groupId: "@),
        no_newline("artifactId: "@),
        no_newline("name: "@),
        no_newline("description: "@),
        no_newline("packageName: "@),
        no_newline("dependencies: "@),
        no_newline("bootVersion: "@),
        no_newline("version: "@),
        no_newline("''"@),
        no_newline(emp()),
{
    reveal_strlit("projectType: ");
    reveal_strlit("language: ");
    reveal_strlit("platformVersion: ");
    reveal_strlit("packaging: ");
    reveal_strlit("configurationFileFormat: ");
    reveal_strlit("javaVersion: ");
    reveal_strlit("groupId: ");
    reveal_strlit("artifactId: ");
    reveal_strlit("name: ");
    reveal_strlit("description: ");
    reveal_strlit("packageName: ");
    reveal_strlit("dependencies: ");
    reveal_strlit("bootVersion: ");
    reveal_strlit("version: ");
    reveal_strlit("''");
}

/// An escaped plain value has no newline, and unescaping recovers it.
proof fn lemma_yaml_escape_plain(v: Seq<char>)
    requires
        plain_value(v),
    ensures
        no_newline(yaml_escape(v)),
        yaml_unescape(yaml_escape(v)) == v,
{
    lemma_yaml_literals();
    if v.len() == 0 {
        assert(v =~= Seq::<char>::empty());
        assert(yaml_unescape("''"@) =~= v);
    }
}

/// Writing a configuration as YAML and reading the document back yields
/// the configuration unchanged: the export round trip.
#[verifier::rlimit(100)]
pub proof fn lemma_yaml_round_trip(c: ConfigModel)
    requires
        plain_config(c),
    ensures
        parse_yaml_model(yaml_doc(c)) == Option::Some(c),
{
    lemma_yaml_literals();
    lemma_yaml_escape_plain(c.project_type);
    lemma_yaml_escape_plain(c.language);
    lemma_yaml_escape_plain(c.platform_version);
    lemma_yaml_escape_plain(c.packaging);
    lemma_yaml_escape_plain(c.configuration_file_format);
    lemma_yaml_escape_plain(c.group_id);
    lemma_yaml_escape_plain(c.artifact_id);
    lemma_yaml_escape_plain(c.name);
    lemma_yaml_escape_plain(c.description);
    lemma_yaml_escape_plain(c.package_name);
    lemma_yaml_escape_plain(c.dependencies);
    lemma_yaml_escape_plain(c.boot_version);
    lemma_yaml_escape_plain(c.version);
    lemma_dec_str_round_trip(c.java_version);
    let l14 = line_of("version: "@, yaml_escape(c.version), emp());
    let l13 = line_of("bootVersion: "@, yaml_escape(c.boot_version), emp());
    let l12 = line_of("dependencies: "@, yaml_escape(c.dependencies), emp());
    let l11 = line_of("packageName: "@, yaml_escape(c.package_name), emp());
    let l10 = line_of("description: "@, yaml_escape(c.description), emp());
    let l9 = line_of("name: "@, yaml_escape(c.name), emp());
    let l8 = line_of("artifactId: "@, yaml_escape(c.artifact_id), emp());
    let l7 = line_of("groupId: "@, yaml_escape(c.group_id), emp());
    let l6 = line_of("javaVersion: "@, dec_str(c.java_version), emp());
    let l5 = line_of("configurationFileFormat: "@, yaml_escape(c.configuration_file_format), emp());
    let l4 = line_of("packaging: "@, yaml_escape(c.packaging), emp());
    let l3 = line_of("platformVersion: "@, yaml_escape(c.platform_version), emp());
    let l2 = line_of("language: "@, yaml_escape(c.language), emp());
    let l1 = line_of("projectType: "@, yaml_escape(c.project_type), emp());
    let d15 = Seq::<char>::empty();
    let d14 = l14;
    let d13 = l13 + d14;
    let d12 = l12 + d13;
    let d11 = l11 + d12;
    let d10 = l10 + d11;
    let d9 = l9 + d10;
    let d8 = l8 + d9;
    let d7 = l7 + d8;
    let d6 = l6 + d7;
    let d5 = l5 + d6;
    let d4 = l4 + d5;
    let d3 = l3 + d4;
    let d2 = l2 + d3;
    let d1 = l1 + d2;
    assert(yaml_doc(c) == d1);
    assert(l14 + d15 =~= d14);
    lemma_parse_field_round("projectType: "@, yaml_escape(c.project_type), emp(), d2);
    lemma_parse_field_round("language: "@, yaml_escape(c.language), emp(), d3);
    lemma_parse_field_round("platformVersion: "@, yaml_escape(c.platform_version), emp(), d4);
    lemma_parse_field_round("packaging: "@, yaml_escape(c.packaging), emp(), d5);
    lemma_parse_field_round(
        "configurationFileFormat: "@,
        yaml_escape(c.configuration_file_format),
        emp(),
        d6,
    );
    lemma_parse_field_round("javaVersion: "@, dec_str(c.java_version), emp(), d7);
    lemma_parse_field_round("groupId: "@, yaml_escape(c.group_id), emp(), d8);
    lemma_parse_field_round("artifactId: "@, yaml_escape(c.artifact_id), emp(), d9);
    lemma_parse_field_round("name: "@, yaml_escape(c.name), emp(), d10);
    lemma_parse_field_round("description: "@, yaml_escape(c.description), emp(), d11);
    lemma_parse_field_round("packageName: "@, yaml_escape(c.package_name), emp(), d12);
    lemma_parse_field_round("dependencies: "@, yaml_escape(c.dependencies), emp(), d13);
    lemma_parse_field_round("bootVersion: "@, yaml_escape(c.boot_version), emp(), d14);
    lemma_parse_field_round("version: "@, yaml_escape(c.version), emp(), d15);
    assert(parse_yaml_model(d1) is Some);
    assert(parse_yaml_model(d1).unwrap() =~= c);
}

// ---------------------------------------------------------------------------
// TOML
// ---------------------------------------------------------------------------

/// The TOML document for a configuration: `key = "value"` lines, the
/// Java version bare.
pub open spec fn toml_doc(c: ConfigModel) -> Seq<char> {
    line_of("projectType = \""@, c.project_type, "\""@) + (line_of(
        "language = \""@,
        c.language,
        "\""@,
    ) + (line_of("platformVersion = \""@, c.platform_version, "\""@) + (line_of(
        "packaging = \""@,
        c.packaging,
        "\""@,
    ) + (line_of("configurationFileFormat = \""@, c.configuration_file_format, "\""@) + (line_of(
        "javaVersion = "@,
        dec_str(c.java_version),
        emp(),
    ) + (line_of("groupId = \""@, c.group_id, "\""@) + (line_of(
        "artifactId = \""@,
        c.artifact_id,
        "\""@,
    ) + (line_of("name = \""@, c.name, "\""@) + (line_of(
        "description = \""@,
        c.description,
        "\""@,
    ) + (line_of("packageName = \""@, c.package_name, "\""@) + (line_of(
        "dependencies = \""@,
        c.dependencies,
        "\""@,
    ) + (line_of("bootVersion = \""@, c.boot_version, "\""@) + line_of(
        "version = \""@,
        c.version,
        "\""@,
    )))))))))))))
}

/// Reads a TOML document of exactly that shape back.
pub open spec fn parse_toml_model(doc: Seq<char>) -> Option<ConfigModel> {
    match parse_field(doc, "projectType = \""@, "\""@) {
        Option::None => Option::None,
        Option::Some(f1) => match parse_field(f1.rest, "language = \""@, "\""@) {
            Option::None => Option::None,
            Option::Some(f2) => match parse_field(f2.rest, "platformVersion = \""@, "\""@) {
                Option::None => Option::None,
                Option::Some(f3) => match parse_field(f3.rest, "packaging = \""@, "\""@) {
                    Option::None => Option::None,
                    Option::Some(f4) => match parse_field(
                        f4.rest,
                        "configurationFileFormat = \""@,
                        "\""@,
                    ) {
                        Option::None => Option::None,
                        Option::Some(f5) => match parse_field(f5.rest, "javaVersion = "@, emp()) {
                            Option::None => Option::None,
                            Option::Some(f6) => match parse_i32_spec(f6.value) {
                                Option::None => Option::None,
                                Option::Some(jv) => match parse_field(
                                    f6.rest,
                                    "groupId = \""@,
                                    "\""@,
                                ) {
                                    Option::None => Option::None,
                                    Option::Some(f7) => match parse_field(
                                        f7.rest,
                                        "artifactId = \""@,
                                        "\""@,
                                    ) {
                                        Option::None => Option::None,
                                        Option::Some(f8) => match parse_field(
                                            f8.rest,
                                            "name = \""@,
                                            "\""@,
                                        ) {
                                            Option::None => Option::None,
                                            Option::Some(f9) => match parse_field(
                                                f9.rest,
                                                "description = \""@,
                                                "\""@,
                                            ) {
                                                Option::None => Option::None,
                                                Option::Some(f10) => match parse_field(
                                                    f10.rest,
                                                    "packageName = \""@,
                                                    "\""@,
                                                ) {
                                                    Option::None => Option::None,
                                                    Option::Some(f11) => match parse_field(
                                                        f11.rest,
                                                        "dependencies = \""@,
                                                        "\""@,
                                                    ) {
                                                        Option::None => Option::None,
                                                        Option::Some(f12) => match parse_field(
                                                            f12.rest,
                                                            "bootVersion = \""@,
                                                            "\""@,
                                                        ) {
                                                            Option::None => Option::None,
                                                            Option::Some(f13) => match parse_field(
                                                                f13.rest,
                                                                "version = \""@,
                                                                "\""@,
                                                            ) {
                                                                Option::None => Option::None,
                                                                Option::Some(f14) => if f14.rest.len() == 0 {
                                                                    Option::Some(
                                                                        ConfigModel {
                                                                            project_type: f1.value,
                                                                            language: f2.value,
                                                                            platform_version: f3.value,
                                                                            packaging: f4.value,
                                                                            configuration_file_format: f5.value,
                                                                            java_version: jv as int,
                                                                            group_id: f7.value,
                                                                            artifact_id: f8.value,
                                                                            name: f9.value,
                                                                            description: f10.value,
                                                                            package_name: f11.value,
                                                                            dependencies: f12.value,
                                                                            boot_version: f13.value,
                                                                            version: f14.value,
                                                                        },
                                                                    )
                                                                } else {
                                                                    Option::None
                                                                },
                                                            },
                                                        },
                                                    },
                                                },
                                            },
                                        },
                                    },
                                },
                            },
                        },
                    },
                },
            },
        },
    }
}

/// Writes the configuration as a TOML document.
pub fn emit_toml(config: &SprintInitConfig) -> (r: String)
    ensures
        r@ == toml_doc(config.model()),
{
    proof {
        reveal_strlit("");
        assert(""@ =~= emp());
    }
    let jv = i32_to_string(config.java_version);
    let l1 = make_line("projectType = \"", config.project_type.as_str(), "\"");
    let l2 = make_line("language = \"", config.language.as_str(), "\"");
    let l3 = make_line("platformVersion = \"", config.platform_version.as_str(), "\"");
    let l4 = make_line("packaging = \"", config.packaging.as_str(), "\"");
    let l5 = make_line(
        "configurationFileFormat = \"",
        config.configuration_file_format.as_str(),
        "\"",
    );
    let l6 = make_line("javaVersion = ", jv.as_str(), "");
    let l7 = make_line("groupId = \"", config.group_id.as_str(), "\"");
    let l8 = make_line("artifactId = \"", config.artifact_id.as_str(), "\"");
    let l9 = make_line("name = \"", config.name.as_str(), "\"");
    let l10 = make_line("description = \"", config.description.as_str(), "\"");
    let l11 = make_line("packageName = \"", config.package_name.as_str(), "\"");
    let l12 = make_line("dependencies = \"", config.dependencies.as_str(), "\"");
    let l13 = make_line("bootVersion = \"", config.boot_version.as_str(), "\"");
    let l14 = make_line("version = \"", config.version.as_str(), "\"");
    let mut acc = l14;
    acc = l13.concat(acc.as_str());
    acc = l12.concat(acc.as_str());
    acc = l11.concat(acc.as_str());
    acc = l10.concat(acc.as_str());
    acc = l9.concat(acc.as_str());
    acc = l8.concat(acc.as_str());
    acc = l7.concat(acc.as_str());
    acc = l6.concat(acc.as_str());
    acc = l5.concat(acc.as_str());
    acc = l4.concat(acc.as_str());
    acc = l3.concat(acc.as_str());
    acc = l2.concat(acc.as_str());
    acc = l1.concat(acc.as_str());
    acc
}

/// Reads a configuration out of a TOML document of the canonical shape.
#[verifier::rlimit(100)]
pub fn parse_toml(content: &str) -> (r: Option<SprintInitConfig>)
    ensures
        match parse_toml_model(content@) {
            Option::Some(c) => r is Some && r.unwrap().model() == c,
            Option::None => r is None,
        },
{
    let doc = chars_vec(content);
    proof {
        reveal_strlit("");
        assert(""@ =~= emp());
        assert(doc@.skip(0) =~= doc@);
    }
    let f1 = match parse_field_at(&doc, 0, "projectType = \"", "\"") {
        Option::Some(x) => x,
        Option::None => {
            return Option::None;
        },
    };
    let f2 = match parse_field_at(&doc, f1.1, "language = \"", "\"") {
        Option::Some(x) => x,
        Option::None => {
            return Option::None;
        },
    };
    let f3 = match parse_field_at(&doc, f2.1, "platformVersion = \"", "\"") {
        Option::Some(x) => x,
        Option::None => {
            return Option::None;
        },
    };
    let f4 = match parse_field_at(&doc, f3.1, "packaging = \"", "\"") {
        Option::Some(x) => x,
        Option::None => {
            return Option::None;
        },
    };
    let f5 = match parse_field_at(&doc, f4.1, "configurationFileFormat = \"", "\"") {
        Option::Some(x) => x,
        Option::None => {
            return Option::None;
        },
    };
    let f6 = match parse_field_at(&doc, f5.1, "javaVersion = ", "") {
        Option::Some(x) => x,
        Option::None => {
            return Option::None;
        },
    };
    let jv = match parse_i32(f6.0.as_str()) {
        Option::Some(j) => j,
        Option::None => {
            return Option::None;
        },
    };
    let f7 = match parse_field_at(&doc, f6.1, "groupId = \"", "\"") {
        Option::Some(x) => x,
        Option::None => {
            return Option::None;
        },
    };
    let f8 = match parse_field_at(&doc, f7.1, "artifactId = \"", "\"") {
        Option::Some(x) => x,
        Option::None => {
            return Option::None;
        },
    };
    let f9 = match parse_field_at(&doc, f8.1, "name = \"", "\"") {
        Option::Some(x) => x,
        Option::None => {
            return Option::None;
        },
    };
    let f10 = match parse_field_at(&doc, f9.1, "description = \"", "\"") {
        Option::Some(x) => x,
        Option::None => {
            return Option::None;
        },
    };
    let f11 = match parse_field_at(&doc, f10.1, "packageName = \"", "\"") {
        Option::Some(x) => x,
        Option::None => {
            return Option::None;
        },
    };
    let f12 = match parse_field_at(&doc, f11.1, "dependencies = \"", "\"") {
        Option::Some(x) => x,
        Option::None => {
            return Option::None;
        },
    };
    let f13 = match parse_field_at(&doc, f12.1, "bootVersion = \"", "\"") {
        Option::Some(x) => x,
        Option::None => {
            return Option::None;
        },
    };
    let f14 = match parse_field_at(&doc, f13.1, "version = \"", "\"") {
        Option::Some(x) => x,
        Option::None => {
            return Option::None;
        },
    };
    if f14.1 != doc.len() {
        proof {
            assert(doc@.skip(f14.1 as int).len() > 0);
        }
        return Option::None;
    }
    proof {
        assert(doc@.skip(f14.1 as int).len() == 0);
    }
    Option::Some(
        SprintInitConfig {
            project_type: f1.0,
            language: f2.0,
            platform_version: f3.0,
            packaging: f4.0,
            configuration_file_format: f5.0,
            java_version: jv,
            group_id: f7.0,
            artifact_id: f8.0,
            name: f9.0,
            description: f10.0,
            package_name: f11.0,
            dependencies: f12.0,
            boot_version: f13.0,
            version: f14.0,
        },
    )
}

/// The TOML keys and quotes hold no newline.
proof fn lemma_toml_literals()
    ensures
        no_newline("projectType = \""@),
        no_newline("language = \""@),
        no_newline("platformVersion = \""@),
        no_newline("packaging = \""@),
        no_newline("configurationFileFormat = \""@),
        no_newline("javaVersion = "@),
        no_newline("groupId = \""@),
        no_newline("artifactId = \""@),
        no_newline("name = \""@),
        no_newline("description = \""@),
        no_newline("packageName = \""@),
        no_newline("dependencies = \""@),
        no_newline("bootVersion = \""@),
        no_newline("version = \""@),
        no_newline("\""@),
        no_newline(emp()),
{
    reveal_strlit("projectType = \"");
    reveal_strlit("language = \"");
    reveal_strlit("platformVersion = \"");
    reveal_strlit("packaging = \"");
    reveal_strlit("configurationFileFormat = \"");
    reveal_strlit("javaVersion = ");
    reveal_strlit("groupId = \"");
    reveal_strlit("artifactId = \"");
    reveal_strlit("name = \"");
    reveal_strlit("description = \"");
    reveal_strlit("packageName = \"");
    reveal_strlit("dependencies = \"");
    reveal_strlit("bootVersion = \"");
    reveal_strlit("version = \"");
    reveal_strlit("\"");
}

/// Writing a configuration as TOML and reading the document back yields
/// the configuration unchanged.
#[verifier::rlimit(100)]
pub proof fn lemma_toml_round_trip(c: ConfigModel)
    requires
        plain_config(c),
    ensures
        parse_toml_model(toml_doc(c)) == Option::Some(c),
{
    lemma_toml_literals();
    lemma_dec_str_round_trip(c.java_version);
    let l14 = line_of("version = \""@, c.version, "\""@);
    let l13 = line_of("bootVersion = \""@, c.boot_version, "\""@);
    let l12 = line_of("dependencies = \""@, c.dependencies, "\""@);
    let l11 = line_of("packageName = \""@, c.package_name, "\""@);
    let l10 = line_of("description = \""@, c.description, "\""@);
    let l9 = line_of("name = \""@, c.name, "\""@);
    let l8 = line_of("artifactId = \""@, c.artifact_id, "\""@);
    let l7 = line_of("groupId = \""@, c.group_id, "\""@);
    let l6 = line_of("javaVersion = "@, dec_str(c.java_version), emp());
    let l5 = line_of("configurationFileFormat = \""@, c.configuration_file_format, "\""@);
    let l4 = line_of("packaging = \""@, c.packaging, "\""@);
    let l3 = line_of("platformVersion = \""@, c.platform_version, "\""@);
    let l2 = line_of("language = \""@, c.language, "\""@);
    let l1 = line_of("projectType = \""@, c.project_type, "\""@);
    let d15 = Seq::<char>::empty();
    let d14 = l14;
    let d13 = l13 + d14;
    let d12 = l12 + d13;
    let d11 = l11 + d12;
    let d10 = l10 + d11;
    let d9 = l9 + d10;
    let d8 = l8 + d9;
    let d7 = l7 + d8;
    let d6 = l6 + d7;
    let d5 = l5 + d6;
    let d4 = l4 + d5;
    let d3 = l3 + d4;
    let d2 = l2 + d3;
    let d1 = l1 + d2;
    assert(toml_doc(c) == d1);
    assert(l14 + d15 =~= d14);
    lemma_parse_field_round("projectType = \""@, c.project_type, "\""@, d2);
    lemma_parse_field_round("language = \""@, c.language, "\""@, d3);
    lemma_parse_field_round("platformVersion = \""@, c.platform_version, "\""@, d4);
    lemma_parse_field_round("packaging = \""@, c.packaging, "\""@, d5);
    lemma_parse_field_round(
        "configurationFileFormat = \""@,
        c.configuration_file_format,
        "\""@,
        d6,
    );
    lemma_parse_field_round("javaVersion = "@, dec_str(c.java_version), emp(), d7);
    lemma_parse_field_round("groupId = \""@, c.group_id, "\""@, d8);
    lemma_parse_field_round("artifactId = \""@, c.artifact_id, "\""@, d9);
    lemma_parse_field_round("name = \""@, c.name, "\""@, d10);
    lemma_parse_field_round("description = \""@, c.description, "\""@, d11);
    lemma_parse_field_round("packageName = \""@, c.package_name, "\""@, d12);
    lemma_parse_field_round("dependencies = \""@, c.dependencies, "\""@, d13);
    lemma_parse_field_round("bootVersion = \""@, c.boot_version, "\""@, d14);
    lemma_parse_field_round("version = \""@, c.version, "\""@, d15);
    assert(parse_toml_model(d1) is Some);
    assert(parse_toml_model(d1).unwrap() =~= c);
}

// ---------------------------------------------------------------------------
// JSON
// ---------------------------------------------------------------------------

/// The JSON document for a configuration: an object with one `"key":
/// "value"` line per field, the Java version bare, the last line without
/// a comma.
pub open spec fn json_doc(c: ConfigModel) -> Seq<char> {
    seq!['{', '\n'] + (line_of("  \"projectType\": \""@, c.project_type, "\","@) + (line_of(
        "  \"language\": \""@,
        c.language,
        "\","@,
    ) + (line_of("  \"platformVersion\": \""@, c.platform_version, "\","@) + (line_of(
        "  \"packaging\": \""@,
        c.packaging,
        "\","@,
    ) + (line_of("  \"configurationFileFormat\": \""@, c.configuration_file_format, "\","@) + (
    line_of("  \"javaVersion\": "@, dec_str(c.java_version), ","@) + (line_of(
        "  \"groupId\": \""@,
        c.group_id,
        "\","@,
    ) + (line_of("  \"artifactId\": \""@, c.artifact_id, "\","@) + (line_of(
        "  \"name\": \""@,
        c.name,
        "\","@,
    ) + (line_of("  \"description\": \""@, c.description, "\","@) + (line_of(
        "  \"packageName\": \""@,
        c.package_name,
        "\","@,
    ) + (line_of("  \"dependencies\": \""@, c.dependencies, "\","@) + (line_of(
        "  \"bootVersion\": \""@,
        c.boot_version,
        "\","@,
    ) + (line_of("  \"version\": \""@, c.version, "\""@) + seq!['}']))))))))))))))
}

/// Reads a JSON document of exactly that shape back.
pub open spec fn parse_json_model(doc: Seq<char>) -> Option<ConfigModel> {
    if doc.len() >= 2 && doc[0] == '{' && doc[1] == '\n' {
        parse_json_fields(doc.skip(2))
    } else {
        Option::None
    }
}

/// The field lines of the JSON object, after its opening brace.
pub open spec fn parse_json_fields(doc: Seq<char>) -> Option<ConfigModel> {
    match parse_field(doc, "  \"projectType\": \""@, "\","@) {
        Option::None => Option::None,
        Option::Some(f1) => match parse_field(f1.rest, "  \"language\": \""@, "\","@) {
            Option::None => Option::None,
            Option::Some(f2) => match parse_field(f2.rest, "  \"platformVersion\": \""@, "\","@) {
                Option::None => Option::None,
                Option::Some(f3) => match parse_field(f3.rest, "  \"packaging\": \""@, "\","@) {
                    Option::None => Option::None,
                    Option::Some(f4) => match parse_field(
                        f4.rest,
                        "  \"configurationFileFormat\": \""@,
                        "\","@,
                    ) {
                        Option::None => Option::None,
                        Option::Some(f5) => match parse_field(
                            f5.rest,
                            "  \"javaVersion\": "@,
                            ","@,
                        ) {
                            Option::None => Option::None,
                            Option::Some(f6) => match parse_i32_spec(f6.value) {
                                Option::None => Option::None,
                                Option::Some(jv) => match parse_field(
                                    f6.rest,
                                    "  \"groupId\": \""@,
                                    "\","@,
                                ) {
                                    Option::None => Option::None,
                                    Option::Some(f7) => match parse_field(
                                        f7.rest,
                                        "  \"artifactId\": \""@,
                                        "\","@,
                                    ) {
                                        Option::None => Option::None,
                                        Option::Some(f8) => match parse_field(
                                            f8.rest,
                                            "  \"name\": \""@,
                                            "\","@,
                                        ) {
                                            Option::None => Option::None,
                                            Option::Some(f9) => match parse_field(
                                                f9.rest,
                                                "  \"description\": \""@,
                                                "\","@,
                                            ) {
                                                Option::None => Option::None,
                                                Option::Some(f10) => match parse_field(
                                                    f10.rest,
                                                    "  \"packageName\": \""@,
                                                    "\","@,
                                                ) {
                                                    Option::None => Option::None,
                                                    Option::Some(f11) => match parse_field(
                                                        f11.rest,
                                                        "  \"dependencies\": \""@,
                                                        "\","@,
                                                    ) {
                                                        Option::None => Option::None,
                                                        Option::Some(f12) => match parse_field(
                                                            f12.rest,
                                                            "  \"bootVersion\": \""@,
                                                            "\","@,
                                                        ) {
                                                            Option::None => Option::None,
                                                            Option::Some(f13) => match parse_field(
                                                                f13.rest,
                                                                "  \"version\": \""@,
                                                                "\""@,
                                                            ) {
                                                                Option::None => Option::None,
                                                                Option::Some(f14) => if f14.rest
                                                                    == seq!['}'] {
                                                                    Option::Some(
                                                                        ConfigModel {
                                                                            project_type: f1.value,
                                                                            language: f2.value,
                                                                            platform_version: f3.value,
                                                                            packaging: f4.value,
                                                                            configuration_file_format: f5.value,
                                                                            java_version: jv as int,
                                                                            group_id: f7.value,
                                                                            artifact_id: f8.value,
                                                                            name: f9.value,
                                                                            description: f10.value,
                                                                            package_name: f11.value,
                                                                            dependencies: f12.value,
                                                                            boot_version: f13.value,
                                                                            version: f14.value,
                                                                        },
                                                                    )
                                                                } else {
                                                                    Option::None
                                                                },
                                                            },
                                                        },
                                                    },
                                                },
                                            },
                                        },
                                    },
                                },
                            },
                        },
                    },
                },
            },
        },
    }
}

/// Writes the configuration as a JSON document.
pub fn emit_json(config: &SprintInitConfig) -> (r: String)
    ensures
        r@ == json_doc(config.model()),
{
    proof {
        reveal_strlit("{\n");
        reveal_strlit("}");
        assert("{\n"@ =~= seq!['{', '\n']);
        assert("}"@ =~= seq!['}']);
    }
    let jv = i32_to_string(config.java_version);
    let l1 = make_line("  \"projectType\": \"", config.project_type.as_str(), "\",");
    let l2 = make_line("  \"language\": \"", config.language.as_str(), "\",");
    let l3 = make_line("  \"platformVersion\": \"", config.platform_version.as_str(), "\",");
    let l4 = make_line("  \"packaging\": \"", config.packaging.as_str(), "\",");
    let l5 = make_line(
        "  \"configurationFileFormat\": \"",
        config.configuration_file_format.as_str(),
        "\",",
    );
    let l6 = make_line("  \"javaVersion\": ", jv.as_str(), ",");
    let l7 = make_line("  \"groupId\": \"", config.group_id.as_str(), "\",");
    let l8 = make_line("  \"artifactId\": \"", config.artifact_id.as_str(), "\",");
    let l9 = make_line("  \"name\": \"", config.name.as_str(), "\",");
    let l10 = make_line("  \"description\": \"", config.description.as_str(), "\",");
    let l11 = make_line("  \"packageName\": \"", config.package_name.as_str(), "\",");
    let l12 = make_line("  \"dependencies\": \"", config.dependencies.as_str(), "\",");
    let l13 = make_line("  \"bootVersion\": \"", config.boot_version.as_str(), "\",");
    let l14 = make_line("  \"version\": \"", config.version.as_str(), "\"");
    let mut acc = l14.concat("}");
    acc = l13.concat(acc.as_str());
    acc = l12.concat(acc.as_str());
    acc = l11.concat(acc.as_str());
    acc = l10.concat(acc.as_str());
    acc = l9.concat(acc.as_str());
    acc = l8.concat(acc.as_str());
    acc = l7.concat(acc.as_str());
    acc = l6.concat(acc.as_str());
    acc = l5.concat(acc.as_str());
    acc = l4.concat(acc.as_str());
    acc = l3.concat(acc.as_str());
    acc = l2.concat(acc.as_str());
    acc = l1.concat(acc.as_str());
    let r = String::from_str("{\n").concat(acc.as_str());
    r
}

/// Reads a configuration out of a JSON document of the canonical shape.
#[verifier::rlimit(100)]
pub fn parse_json(content: &str) -> (r: Option<SprintInitConfig>)
    ensures
        match parse_json_model(content@) {
            Option::Some(c) => r is Some && r.unwrap().model() == c,
            Option::None => r is None,
        },
{
    let doc = chars_vec(content);
    if doc.len() < 2 {
        return Option::None;
    }
    if !(doc[0] == '{' && doc[1] == '\n') {
        return Option::None;
    }
    let ghost body = doc@.skip(2);
    proof {
        assert(doc@.skip(2) == body);
    }
    let f1 = match parse_field_at(&doc, 2, "  \"projectType\": \"", "\",") {
        Option::Some(x) => x,
        Option::None => {
            return Option::None;
        },
    };
    let f2 = match parse_field_at(&doc, f1.1, "  \"language\": \"", "\",") {
        Option::Some(x) => x,
        Option::None => {
            return Option::None;
        },
    };
    let f3 = match parse_field_at(&doc, f2.1, "  \"platformVersion\": \"", "\",") {
        Option::Some(x) => x,
        Option::None => {
            return Option::None;
        },
    };
    let f4 = match parse_field_at(&doc, f3.1, "  \"packaging\": \"", "\",") {
        Option::Some(x) => x,
        Option::None => {
            return Option::None;
        },
    };
    let f5 = match parse_field_at(&doc, f4.1, "  \"configurationFileFormat\": \"", "\",") {
        Option::Some(x) => x,
        Option::None => {
            return Option::None;
        },
    };
    let f6 = match parse_field_at(&doc, f5.1, "  \"javaVersion\": ", ",") {
        Option::Some(x) => x,
        Option::None => {
            return Option::None;
        },
    };
    let jv = match parse_i32(f6.0.as_str()) {
        Option::Some(j) => j,
        Option::None => {
            return Option::None;
        },
    };
    let f7 = match parse_field_at(&doc, f6.1, "  \"groupId\": \"", "\",") {
        Option::Some(x) => x,
        Option::None => {
            return Option::None;
        },
    };
    let f8 = match parse_field_at(&doc, f7.1, "  \"artifactId\": \"", "\",") {
        Option::Some(x) => x,
        Option::None => {
            return Option::None;
        },
    };
    let f9 = match parse_field_at(&doc, f8.1, "  \"name\": \"", "\",") {
        Option::Some(x) => x,
        Option::None => {
            return Option::None;
        },
    };
    let f10 = match parse_field_at(&doc, f9.1, "  \"description\": \"", "\",") {
        Option::Some(x) => x,
        Option::None => {
            return Option::None;
        },
    };
    let f11 = match parse_field_at(&doc, f10.1, "  \"packageName\": \"", "\",") {
        Option::Some(x) => x,
        Option::None => {
            return Option::None;
        },
    };
    let f12 = match parse_field_at(&doc, f11.1, "  \"dependencies\": \"", "\",") {
        Option::Some(x) => x,
        Option::None => {
            return Option::None;
        },
    };
    let f13 = match parse_field_at(&doc, f12.1, "  \"bootVersion\": \"", "\",") {
        Option::Some(x) => x,
        Option::None => {
            return Option::None;
        },
    };
    let f14 = match parse_field_at(&doc, f13.1, "  \"version\": \"", "\"") {
        Option::Some(x) => x,
        Option::None => {
            return Option::None;
        },
    };
    if !(doc.len() - f14.1 == 1 && doc[f14.1] == '}') {
        proof {
            assert(doc@.skip(f14.1 as int) != seq!['}']) by {
                let rest = doc@.skip(f14.1 as int);
                if rest.len() == 1 {
                    assert(rest[0] == doc@[f14.1 as int]);
                }
            }
        }
        return Option::None;
    }
    proof {
        assert(doc@.skip(f14.1 as int) =~= seq!['}']);
    }
    Option::Some(
        SprintInitConfig {
            project_type: f1.0,
            language: f2.0,
            platform_version: f3.0,
            packaging: f4.0,
            configuration_file_format: f5.0,
            java_version: jv,
            group_id: f7.0,
            artifact_id: f8.0,
            name: f9.0,
            description: f10.0,
            package_name: f11.0,
            dependencies: f12.0,
            boot_version: f13.0,
            version: f14.0,
        },
    )
}

/// The JSON keys and punctuation hold no newline.
proof fn lemma_json_literals()
    ensures
        no_newline("  \"projectType\": \""@),
        no_newline("  \"language\": \""@),
        no_newline("  \"platformVersion\": \""@),
        no_newline("  \"packaging\": \""@),
        no_newline("  \"configurationFileFormat\": \""@),
        no_newline("  \"javaVersion\": "@),
        no_newline("  \"groupId\": \""@),
        no_newline("  \"artifactId\": \""@),
        no_newline("  \"name\": \""@),
        no_newline("  \"description\": \""@),
        no_newline("  \"packageName\": \""@),
        no_newline("  \"dependencies\": \""@),
        no_newline("  \"bootVersion\": \""@),
        no_newline("  \"version\": \""@),
        no_newline("\","@),
        no_newline(","@),
        no_newline("\""@),
{
    reveal_strlit("  \"projectType\": \"");
    reveal_strlit("  \"language\": \"");
    reveal_strlit("  \"platformVersion\": \"");
    reveal_strlit("  \"packaging\": \"");
    reveal_strlit("  \"configurationFileFormat\": \"");
    reveal_strlit("  \"javaVersion\": ");
    reveal_strlit("  \"groupId\": \"");
    reveal_strlit("  \"artifactId\": \"");
    reveal_strlit("  \"name\": \"");
    reveal_strlit("  \"description\": \"");
    reveal_strlit("  \"packageName\": \"");
    reveal_strlit("  \"dependencies\": \"");
    reveal_strlit("  \"bootVersion\": \"");
    reveal_strlit("  \"version\": \"");
    reveal_strlit("\",");
    reveal_strlit(",");
    reveal_strlit("\"");
}

/// Writing a configuration as JSON and reading the document back yields
/// the configuration unchanged.
#[verifier::rlimit(100)]
pub proof fn lemma_json_round_trip(c: ConfigModel)
    requires
        plain_config(c),
    ensures
        parse_json_model(json_doc(c)) == Option::Some(c),
{
    lemma_json_literals();
    lemma_dec_str_round_trip(c.java_version);
    let l14 = line_of("  \"version\": \""@, c.version, "\""@);
    let l13 = line_of("  \"bootVersion\": \""@, c.boot_version, "\","@);
    let l12 = line_of("  \"dependencies\": \""@, c.dependencies, "\","@);
    let l11 = line_of("  \"packageName\": \""@, c.package_name, "\","@);
    let l10 = line_of("  \"description\": \""@, c.description, "\","@);
    let l9 = line_of("  \"name\": \""@, c.name, "\","@);
    let l8 = line_of("  \"artifactId\": \""@, c.artifact_id, "\","@);
    let l7 = line_of("  \"groupId\": \""@, c.group_id, "\","@);
    let l6 = line_of("  \"javaVersion\": "@, dec_str(c.java_version), ","@);
    let l5 = line_of("  \"configurationFileFormat\": \""@, c.configuration_file_format, "\","@);
    let l4 = line_of("  \"packaging\": \""@, c.packaging, "\","@);
    let l3 = line_of("  \"platformVersion\": \""@, c.platform_version, "\","@);
    let l2 = line_of("  \"language\": \""@, c.language, "\","@);
    let l1 = line_of("  \"projectType\": \""@, c.project_type, "\","@);
    let d15 = seq!['}'];
    let d14 = l14 + d15;
    let d13 = l13 + d14;
    let d12 = l12 + d13;
    let d11 = l11 + d12;
    let d10 = l10 + d11;
    let d9 = l9 + d10;
    let d8 = l8 + d9;
    let d7 = l7 + d8;
    let d6 = l6 + d7;
    let d5 = l5 + d6;
    let d4 = l4 + d5;
    let d3 = l3 + d4;
    let d2 = l2 + d3;
    let d1 = l1 + d2;
    let doc = seq!['{', '\n'] + d1;
    assert(json_doc(c) == doc);
    assert(doc.len() >= 2 && doc[0] == '{' && doc[1] == '\n');
    assert(doc.skip(2) =~= d1);
    lemma_parse_field_round("  \"projectType\": \""@, c.project_type, "\","@, d2);
    lemma_parse_field_round("  \"language\": \""@, c.language, "\","@, d3);
    lemma_parse_field_round("  \"platformVersion\": \""@, c.platform_version, "\","@, d4);
    lemma_parse_field_round("  \"packaging\": \""@, c.packaging, "\","@, d5);
    lemma_parse_field_round(
        "  \"configurationFileFormat\": \""@,
        c.configuration_file_format,
        "\","@,
        d6,
    );
    lemma_parse_field_round("  \"javaVersion\": "@, dec_str(c.java_version), ","@, d7);
    lemma_parse_field_round("  \"groupId\": \""@, c.group_id, "\","@, d8);
    lemma_parse_field_round("  \"artifactId\": \""@, c.artifact_id, "\","@, d9);
    lemma_parse_field_round("  \"name\": \""@, c.name, "\","@, d10);
    lemma_parse_field_round("  \"description\": \""@, c.description, "\","@, d11);
    lemma_parse_field_round("  \"packageName\": \""@, c.package_name, "\","@, d12);
    lemma_parse_field_round("  \"dependencies\": \""@, c.dependencies, "\","@, d13);
    lemma_parse_field_round("  \"bootVersion\": \""@, c.boot_version, "\","@, d14);
    lemma_parse_field_round("  \"version\": \""@, c.version, "\""@, d15);
    assert(parse_json_fields(d1) is Some);
    assert(parse_json_fields(d1).unwrap() =~= c);
}

// ---------------------------------------------------------------------------
// Dispatch over the three formats
// ---------------------------------------------------------------------------

/// The document a format writes for a configuration.
pub open spec fn doc_for(t: FileType, c: ConfigModel) -> Seq<char> {
    match t {
        FileType::Yaml => yaml_doc(c),
        FileType::Json => json_doc(c),
        FileType::Toml => toml_doc(c),
    }
}

/// What a format reads out of a document.
pub open spec fn parse_model_for(t: FileType, doc: Seq<char>) -> Option<ConfigModel> {
    match t {
        FileType::Yaml => parse_yaml_model(doc),
        FileType::Json => parse_json_model(doc),
        FileType::Toml => parse_toml_model(doc),
    }
}

/// Writes the configuration in the given format.
pub fn emit_config(config: &SprintInitConfig, t: FileType) -> (r: String)
    ensures
        r@ == doc_for(t, config.model()),
{
    match t {
        FileType::Yaml => emit_yaml(config),
        FileType::Json => emit_json(config),
        FileType::Toml => emit_toml(config),
    }
}

/// Reads a configuration in the given format.
pub fn parse_content(content: &str, t: FileType) -> (r: Option<SprintInitConfig>)
    ensures
        match parse_model_for(t, content@) {
            Option::Some(c) => r is Some && r.unwrap().model() == c,
            Option::None => r is None,
        },
{
    match t {
        FileType::Yaml => parse_yaml(content),
        FileType::Json => parse_json(content),
        FileType::Toml => parse_toml(content),
    }
}

/// Writing in any of the three formats and reading the document back
/// yields the configuration unchanged, for every plain configuration.
pub proof fn lemma_round_trip(t: FileType, c: ConfigModel)
    requires
        plain_config(c),
    ensures
        parse_model_for(t, doc_for(t, c)) == Option::Some(c),
{
    match t {
        FileType::Yaml => lemma_yaml_round_trip(c),
        FileType::Json => lemma_json_round_trip(c),
        FileType::Toml => lemma_toml_round_trip(c),
    }
}

/// Reads a configuration from a file's content, in the format the file's
/// extension selects.
pub fn parse_config(path: String, content: &str) -> (r: Result<SprintInitConfig, SpringError>)
    ensures
        match path_extension(path@) {
            Option::None => r == Result::<SprintInitConfig, SpringError>::Err(
                SpringError::NoFileExtension,
            ),
            Option::Some(e) => match file_type_of_extension(e) {
                Option::None => r == Result::<SprintInitConfig, SpringError>::Err(
                    SpringError::UnsupportedFileType,
                ),
                Option::Some(t) => match parse_model_for(t, content@) {
                    Option::Some(c) => r is Ok && r->Ok_0.model() == c,
                    Option::None => r == Result::<SprintInitConfig, SpringError>::Err(
                        SpringError::ConfigParse,
                    ),
                },
            },
        },
{
    let meta = match ConfigMetadata::from_path(path) {
        Result::Ok(m) => m,
        Result::Err(e) => {
            return Result::Err(e);
        },
    };
    match parse_content(content, meta.file_type) {
        Option::Some(c) => Result::Ok(c),
        Option::None => Result::Err(SpringError::ConfigParse),
    }
}

} // verus!
