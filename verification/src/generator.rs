//! The request assembler: from a finished configuration and the
//! capability schema to the fully qualified download URL, and from a
//! configuration to the file name and content of its export.

use vstd::prelude::*;

use crate::SpringError;
use crate::codec::{doc_for, emit_config};
use crate::config::FileType;
use crate::config_state::{ConfigModel, SprintInitConfig};
use crate::schema::{InitializrCapabilities, link_href_for};
use crate::text::{dec_str, i32_to_string};

verus! {

/// The query parameters of a download request, in their fixed order:
/// dependencies, packaging, javaVersion, language, bootVersion, groupId,
/// artifactId, version, name, description, packageName,
/// configurationFileFormat.
pub open spec fn url_query(c: ConfigModel) -> Seq<char> {
    "&dependencies="@ + c.dependencies + "&packaging="@ + c.packaging + "&javaVersion="@ + dec_str(
        c.java_version,
    ) + "&language="@ + c.language + "&bootVersion="@ + c.boot_version + "&groupId="@ + c.group_id
        + "&artifactId="@ + c.artifact_id + "&version="@ + c.version + "&name="@ + c.name
        + "&description="@ + c.description + "&packageName="@ + c.package_name
        + "&configurationFileFormat="@ + c.configuration_file_format
}

/// The whole download URL: the base with the query appended.
pub open spec fn download_url_spec(c: ConfigModel, base: Seq<char>) -> Seq<char> {
    base + url_query(c)
}

/// The URL is a function of the configuration and the base alone: the
/// same inputs always assemble the identical URL, whatever order the
/// fields were filled in.
pub proof fn lemma_download_url_deterministic(
    c1: ConfigModel,
    c2: ConfigModel,
    b1: Seq<char>,
    b2: Seq<char>,
)
    requires
        c1 == c2,
        b1 == b2,
    ensures
        download_url_spec(c1, b1) == download_url_spec(c2, b2),
{
}

/// Appends the configuration's query parameters to the base URL, in the
/// fixed order.
pub fn download_url(config: &SprintInitConfig, base_url: &str) -> (r: String)
    ensures
        r@ == download_url_spec(config.model(), base_url@),
{
    let jv = i32_to_string(config.java_version);
    let query = String::from_str("&dependencies=").concat(config.dependencies.as_str()).concat(
        "&packaging=",
    ).concat(config.packaging.as_str()).concat("&javaVersion=").concat(jv.as_str()).concat(
        "&language=",
    ).concat(config.language.as_str()).concat("&bootVersion=").concat(
        config.boot_version.as_str(),
    ).concat("&groupId=").concat(config.group_id.as_str()).concat("&artifactId=").concat(
        config.artifact_id.as_str(),
    ).concat("&version=").concat(config.version.as_str()).concat("&name=").concat(
        config.name.as_str(),
    ).concat("&description=").concat(config.description.as_str()).concat("&packageName=").concat(
        config.package_name.as_str(),
    ).concat("&configurationFileFormat=").concat(config.configuration_file_format.as_str());
    String::from_str(base_url).concat(query.as_str())
}

/// Where a URL template's placeholder begins: the position of the first
/// opening brace, or the end where there is none.
pub open spec fn first_brace(h: Seq<char>) -> int
    decreases h.len(),
{
    if h.len() == 0 {
        0
    } else if h[0] == '{' {
        0
    } else {
        1 + first_brace(h.drop_first())
    }
}

/// A template's base URL: everything before its first opening brace.
pub open spec fn base_of(h: Seq<char>) -> Seq<char> {
    h.take(first_brace(h))
}

proof fn lemma_first_brace_at(h: Seq<char>, k: int)
    requires
        0 <= k <= h.len(),
        forall|j: int| 0 <= j < k ==> #[trigger] h[j] != '{',
        k < h.len() ==> h[k] == '{',
    ensures
        first_brace(h) == k,
    decreases k,
{
    if h.len() == 0 {
    } else if k == 0 {
    } else {
        let t = h.drop_first();
        assert(forall|j: int| 0 <= j < k - 1 ==> #[trigger] t[j] == h[j + 1]);
        assert(k - 1 < t.len() ==> t[k - 1] == h[k]);
        lemma_first_brace_at(t, k - 1);
    }
}

/// Looks up the download template for the configured project type, cuts
/// it at its placeholder, and appends the query parameters.  A project
/// type the schema advertises no link for is rejected, and the
/// configuration is left untouched either way.
pub fn build_download_url(config: &SprintInitConfig, caps: &InitializrCapabilities) -> (r: Result<
    String,
    SpringError,
>)
    ensures
        match link_href_for(caps.links@, config.model().project_type) {
            Option::None => r == Result::<String, SpringError>::Err(
                SpringError::UnsupportedProjectType,
            ),
            Option::Some(href) => r is Ok && r->Ok_0@ == download_url_spec(
                config.model(),
                base_of(href),
            ),
        },
{
    let href = match caps.href_for(config.project_type.as_str()) {
        Option::Some(h) => h,
        Option::None => {
            return Result::Err(SpringError::UnsupportedProjectType);
        },
    };
    let chars = crate::codec::chars_vec(href.as_str());
    let mut i: usize = 0;
    while i < chars.len() && chars[i] != '{'
        invariant
            0 <= i <= chars@.len(),
            forall|j: int| 0 <= j < i ==> #[trigger] chars@[j] != '{',
        decreases chars@.len() - i,
    {
        i = i + 1;
    }
    proof {
        lemma_first_brace_at(chars@, i as int);
    }
    let mut base: Vec<char> = Vec::new();
    let mut k: usize = 0;
    while k < i
        invariant
            0 <= k <= i <= chars@.len(),
            base@ == chars@.subrange(0, k as int),
        decreases i - k,
    {
        base.push(chars[k]);
        proof {
            assert(chars@.subrange(0, k as int).push(chars@[k as int]) =~= chars@.subrange(
                0,
                k + 1,
            ));
        }
        k = k + 1;
    }
    let base_s = crate::text::string_of_chars(&base);
    proof {
        assert(base@ =~= base_of(href@));
    }
    Result::Ok(download_url(config, base_s.as_str()))
}

// ---------------------------------------------------------------------------
// Exporting
// ---------------------------------------------------------------------------

/// The canonical file extension of each format, with its dot.
pub open spec fn dot_ext(t: FileType) -> Seq<char> {
    match t {
        FileType::Yaml => ".yaml"@,
        FileType::Json => ".json"@,
        FileType::Toml => ".toml"@,
    }
}

/// Whether `s` ends with `suffix`.
pub open spec fn ends_with(s: Seq<char>, suffix: Seq<char>) -> bool {
    s.len() >= suffix.len() && s.skip(s.len() - suffix.len()) == suffix
}

/// The file an export is written to: the chosen name, with the format's
/// extension appended unless it is already there, and `config` where no
/// name was chosen.
pub open spec fn config_file_name_spec(t: FileType, custom: Option<Seq<char>>) -> Seq<char> {
    match custom {
        Option::None => "config"@ + dot_ext(t),
        Option::Some(name) => if ends_with(name, dot_ext(t)) {
            name
        } else {
            name + dot_ext(t)
        },
    }
}

/// Whether the string ends with the given suffix.
fn str_ends_with(s: &str, suffix: &str) -> (r: bool)
    ensures
        r == ends_with(s@, suffix@),
{
    let n = s.unicode_len();
    let m = suffix.unicode_len();
    if n < m {
        return false;
    }
    let mut j: usize = 0;
    while j < m
        invariant
            j <= m,
            m <= n,
            n == s@.len(),
            m == suffix@.len(),
            forall|k: int| 0 <= k < j ==> #[trigger] s@[n - m + k] == suffix@[k],
        decreases m - j,
    {
        if s.get_char(n - m + j) != suffix.get_char(j) {
            proof {
                assert(s@.skip(n - m as int)[j as int] != suffix@[j as int]);
            }
            return false;
        }
        j = j + 1;
    }
    proof {
        assert forall|k: int| 0 <= k < m implies s@.skip(n - m as int)[k] == suffix@[k] by {
            assert(s@[n - m + k] == suffix@[k]);
        }
        assert(s@.skip(n - m as int) =~= suffix@);
    }
    true
}

fn ext_of(t: FileType) -> (r: &'static str)
    ensures
        r@ == dot_ext(t),
{
    match t {
        FileType::Yaml => ".yaml",
        FileType::Json => ".json",
        FileType::Toml => ".toml",
    }
}

/// Chooses the export file name.
pub fn config_file_name(t: FileType, custom: Option<String>) -> (r: String)
    ensures
        r@ == config_file_name_spec(
            t,
            match custom {
                Option::Some(n) => Option::Some(n@),
                Option::None => Option::<Seq<char>>::None,
            },
        ),
{
    let ext = ext_of(t);
    match custom {
        Option::None => String::from_str("config").concat(ext),
        Option::Some(name) => {
            if str_ends_with(name.as_str(), ext) {
                name
            } else {
                name.concat(ext)
            }
        },
    }
}

/// Serializes the configuration for export: the file name the export
/// goes to, and the document to write there.
pub fn export_config(config: &SprintInitConfig, extension: FileType, custom_filename: Option<
    String,
>) -> (r: (String, String))
    ensures
        r.0@ == config_file_name_spec(
            extension,
            match custom_filename {
                Option::Some(n) => Option::Some(n@),
                Option::None => Option::<Seq<char>>::None,
            },
        ),
        r.1@ == doc_for(extension, config.model()),
{
    let name = config_file_name(extension, custom_filename);
    let content = emit_config(config, extension);
    (name, content)
}

} // verus!
