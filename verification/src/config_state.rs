//! The in-progress project configuration: created from the schema's
//! defaults, mutated field by field during a session, and read whole by the
//! request assembler and the exporter.

use vstd::prelude::*;

use crate::SpringError;
use crate::schema::{CapabilityGroup, InitializrCapabilities, TextCapability, ids_of_values};
use crate::text::{parse_i32, parse_i32_spec, remove_hyphens, strip_hyphens, str_eq};

verus! {

/// The navigable fields of a session, in their fixed cyclic order, with the
/// two action buttons at the end of the cycle.
#[derive(Clone, Copy, PartialEq, Eq, Structural)]
pub enum Field {
    ProjectType,
    Language,
    BootVersion,
    Packaging,
    JavaVersion,
    GroupId,
    ArtifactId,
    Name,
    Description,
    PackageName,
    ConfigurationFormat,
    Generate,
    Export,
}

/// The mathematical content of a configuration: every field as a plain
/// sequence, the Java version as an integer.
#[verifier::ext_equal]
pub ghost struct ConfigModel {
    pub project_type: Seq<char>,
    pub language: Seq<char>,
    pub platform_version: Seq<char>,
    pub packaging: Seq<char>,
    pub configuration_file_format: Seq<char>,
    pub java_version: int,
    pub group_id: Seq<char>,
    pub artifact_id: Seq<char>,
    pub name: Seq<char>,
    pub description: Seq<char>,
    pub package_name: Seq<char>,
    pub dependencies: Seq<char>,
    pub boot_version: Seq<char>,
    pub version: Seq<char>,
}

/// The complete descriptor of the project to be generated.
#[derive(Debug)]
pub struct SprintInitConfig {
    pub project_type: String,
    pub language: String,
    pub platform_version: String,
    pub packaging: String,
    pub configuration_file_format: String,
    pub java_version: i32,
    pub group_id: String,
    pub artifact_id: String,
    pub name: String,
    pub description: String,
    pub package_name: String,
    pub dependencies: String,
    pub boot_version: String,
    pub version: String,
}

impl SprintInitConfig {
    /// The configuration's mathematical content.
    pub open spec fn model(&self) -> ConfigModel {
        ConfigModel {
            project_type: self.project_type@,
            language: self.language@,
            platform_version: self.platform_version@,
            packaging: self.packaging@,
            configuration_file_format: self.configuration_file_format@,
            java_version: self.java_version as int,
            group_id: self.group_id@,
            artifact_id: self.artifact_id@,
            name: self.name@,
            description: self.description@,
            package_name: self.package_name@,
            dependencies: self.dependencies@,
            boot_version: self.boot_version@,
            version: self.version@,
        }
    }

    /// An independent copy, taken before an export or a download so that a
    /// later mutation cannot touch an operation already in flight.
    pub fn snapshot(&self) -> (r: Self)
        ensures
            r.model() == self.model(),
    {
        SprintInitConfig {
            project_type: self.project_type.clone(),
            language: self.language.clone(),
            platform_version: self.platform_version.clone(),
            packaging: self.packaging.clone(),
            configuration_file_format: self.configuration_file_format.clone(),
            java_version: self.java_version,
            group_id: self.group_id.clone(),
            artifact_id: self.artifact_id.clone(),
            name: self.name.clone(),
            description: self.description.clone(),
            package_name: self.package_name.clone(),
            dependencies: self.dependencies.clone(),
            boot_version: self.boot_version.clone(),
            version: self.version.clone(),
        }
    }
}

// ---------------------------------------------------------------------------
// Defaults
// ---------------------------------------------------------------------------

/// The default id an enumerated capability advertises, or the fallback
/// where the schema omits the group or the default.
pub open spec fn group_default(g: Option<CapabilityGroup>, fallback: Seq<char>) -> Seq<char> {
    match g {
        Option::Some(gr) => match gr.default {
            Option::Some(d) => d@,
            Option::None => fallback,
        },
        Option::None => fallback,
    }
}

/// The default a free-text capability advertises, or the fallback.
pub open spec fn text_default(t: Option<TextCapability>, fallback: Seq<char>) -> Seq<char> {
    match t {
        Option::Some(tc) => tc.default@,
        Option::None => fallback,
    }
}

/// The Java version the schema advertises, where it parses as a number, and
/// the fallback everywhere else.
pub open spec fn java_default(g: Option<CapabilityGroup>, fallback: int) -> int {
    match g {
        Option::Some(gr) => match gr.default {
            Option::Some(d) => match parse_i32_spec(d@) {
                Option::Some(v) => v as int,
                Option::None => fallback,
            },
            Option::None => fallback,
        },
        Option::None => fallback,
    }
}

fn pick_group_default(g: &Option<CapabilityGroup>, fallback: &str) -> (r: String)
    ensures
        r@ == group_default(*g, fallback@),
{
    match g {
        Option::Some(gr) => match &gr.default {
            Option::Some(d) => d.clone(),
            Option::None => fallback.to_owned(),
        },
        Option::None => fallback.to_owned(),
    }
}

fn pick_text_default(t: &Option<TextCapability>, fallback: &str) -> (r: String)
    ensures
        r@ == text_default(*t, fallback@),
{
    match t {
        Option::Some(tc) => tc.default.clone(),
        Option::None => fallback.to_owned(),
    }
}

fn pick_java_default(g: &Option<CapabilityGroup>, fallback: i32) -> (r: i32)
    ensures
        r as int == java_default(*g, fallback as int),
{
    match g {
        Option::Some(gr) => match &gr.default {
            Option::Some(d) => match parse_i32(d.as_str()) {
                Option::Some(v) => v,
                Option::None => fallback,
            },
            Option::None => fallback,
        },
        Option::None => fallback,
    }
}

/// What a fresh configuration holds: every default the schema advertises,
/// and a fixed fallback wherever it omits one.
pub open spec fn default_config_model(caps: InitializrCapabilities) -> ConfigModel {
    ConfigModel {
        project_type: group_default(caps.project_type, "maven-project"@),
        language: group_default(caps.language, "java"@),
        platform_version: ""@,
        packaging: group_default(caps.packaging, "jar"@),
        configuration_file_format: "properties"@,
        java_version: java_default(caps.java_version, 17),
        group_id: text_default(caps.group_id, "com.example"@),
        artifact_id: text_default(caps.artifact_id, "demo"@),
        name: text_default(caps.name, "demo"@),
        description: text_default(caps.description, "Demo project for Spring Boot"@),
        package_name: text_default(caps.package_name, "com.example.demo"@),
        dependencies: ""@,
        boot_version: group_default(caps.boot_version, "3.2.0"@),
        version: text_default(caps.version, "0.0.1-SNAPSHOT"@),
    }
}

impl SprintInitConfig {
    /// A fresh configuration populated with every default the schema
    /// advertises, and with a fixed fallback wherever it omits one.
    pub fn from_capabilities(caps: &InitializrCapabilities) -> (r: Self)
        ensures
            r.model() == default_config_model(*caps),
    {
        let r = SprintInitConfig {
            project_type: pick_group_default(&caps.project_type, "maven-project"),
            language: pick_group_default(&caps.language, "java"),
            platform_version: String::new(),
            packaging: pick_group_default(&caps.packaging, "jar"),
            configuration_file_format: "properties".to_owned(),
            java_version: pick_java_default(&caps.java_version, 17),
            group_id: pick_text_default(&caps.group_id, "com.example"),
            artifact_id: pick_text_default(&caps.artifact_id, "demo"),
            name: pick_text_default(&caps.name, "demo"),
            description: pick_text_default(&caps.description, "Demo project for Spring Boot"),
            package_name: pick_text_default(&caps.package_name, "com.example.demo"),
            dependencies: String::new(),
            boot_version: pick_group_default(&caps.boot_version, "3.2.0"),
            version: pick_text_default(&caps.version, "0.0.1-SNAPSHOT"),
        };
        proof {
            reveal_strlit("");
            assert(r.platform_version@ =~= ""@);
            assert(r.dependencies@ =~= ""@);
        }
        r
    }
}

// ---------------------------------------------------------------------------
// Field mutation
// ---------------------------------------------------------------------------

/// Whether a field's valid values are an enumerated schema list.
pub open spec fn is_enumerated(field: Field) -> bool {
    match field {
        Field::ProjectType | Field::Language | Field::BootVersion | Field::Packaging
            | Field::JavaVersion | Field::ConfigurationFormat => true,
        _ => false,
    }
}

/// Whether a field holds free text.
pub open spec fn is_free_text(field: Field) -> bool {
    match field {
        Field::GroupId | Field::ArtifactId | Field::Name | Field::Description
            | Field::PackageName => true,
        _ => false,
    }
}

/// The ids the schema admits for an enumerated field.  A group the schema
/// omits admits nothing; the configuration file format is a fixed pair.
pub open spec fn schema_ids(caps: InitializrCapabilities, field: Field) -> Seq<Seq<char>> {
    match field {
        Field::ProjectType => opt_group_ids(caps.project_type),
        Field::Language => opt_group_ids(caps.language),
        Field::BootVersion => opt_group_ids(caps.boot_version),
        Field::Packaging => opt_group_ids(caps.packaging),
        Field::JavaVersion => opt_group_ids(caps.java_version),
        Field::ConfigurationFormat => seq!["properties"@, "yaml"@],
        _ => Seq::empty(),
    }
}

/// The ids of a group the schema may omit.
pub open spec fn opt_group_ids(g: Option<CapabilityGroup>) -> Seq<Seq<char>> {
    match g {
        Option::Some(gr) => ids_of_values(gr.values@),
        Option::None => Seq::empty(),
    }
}

/// Whether `value` may be written into an enumerated `field`.
pub open spec fn field_allows(caps: InitializrCapabilities, field: Field, value: Seq<char>) -> bool {
    schema_ids(caps, field).contains(value)
}

/// What `set_field` leaves in the configuration when it accepts `value`
/// for `field`: the one field replaced, every other field kept.  The two
/// action buttons hold no value and change nothing.
pub open spec fn model_with_field(m: ConfigModel, field: Field, value: Seq<char>) -> ConfigModel {
    match field {
        Field::ProjectType => ConfigModel { project_type: value, ..m },
        Field::Language => ConfigModel { language: value, ..m },
        Field::BootVersion => ConfigModel { boot_version: value, ..m },
        Field::Packaging => ConfigModel { packaging: value, ..m },
        Field::JavaVersion => ConfigModel {
            java_version: parse_i32_spec(value)->Some_0 as int,
            ..m
        },
        Field::ConfigurationFormat => ConfigModel { configuration_file_format: value, ..m },
        Field::GroupId => ConfigModel { group_id: value, ..m },
        Field::ArtifactId => ConfigModel { artifact_id: value, ..m },
        Field::Name => ConfigModel { name: value, ..m },
        Field::Description => ConfigModel { description: value, ..m },
        Field::PackageName => ConfigModel { package_name: value, ..m },
        Field::Generate | Field::Export => m,
    }
}

impl SprintInitConfig {
    /// Writes `value` into `field`.  A value outside an enumerated field's
    /// schema list is rejected, a Java version that is not a number is
    /// rejected, and free text is accepted as it is; a rejected write
    /// leaves the configuration untouched.
    pub fn set_field(
        &mut self,
        caps: &InitializrCapabilities,
        field: Field,
        value: &str,
    ) -> (r: Result<(), SpringError>)
        ensures
            is_enumerated(field) && !field_allows(*caps, field, value@) ==> r
                == Result::<(), SpringError>::Err(SpringError::InvalidFieldValue) && final(self)
                .model() == old(self).model(),
            is_enumerated(field) && field_allows(*caps, field, value@) && field
                == Field::JavaVersion && parse_i32_spec(value@) is None ==> r == Result::<
                (),
                SpringError,
            >::Err(SpringError::InvalidFieldValue) && final(self).model() == old(self).model(),
            is_enumerated(field) && field_allows(*caps, field, value@) && (field
                != Field::JavaVersion || parse_i32_spec(value@) is Some) ==> r == Result::<
                (),
                SpringError,
            >::Ok(()) && final(self).model() == model_with_field(old(self).model(), field, value@),
            is_free_text(field) ==> r == Result::<(), SpringError>::Ok(()) && final(self).model()
                == model_with_field(old(self).model(), field, value@),
            field == Field::Generate || field == Field::Export ==> r == Result::<
                (),
                SpringError,
            >::Ok(()) && final(self).model() == old(self).model(),
    {
        if matches!(field, Field::Generate | Field::Export) {
            return Result::Ok(());
        }
        let enumerated = matches!(
            field,
            Field::ProjectType | Field::Language | Field::BootVersion | Field::Packaging
                | Field::JavaVersion | Field::ConfigurationFormat
        );
        if enumerated {
            let allowed = match field {
                Field::ProjectType => opt_group_has(&caps.project_type, value),
                Field::Language => opt_group_has(&caps.language, value),
                Field::BootVersion => opt_group_has(&caps.boot_version, value),
                Field::Packaging => opt_group_has(&caps.packaging, value),
                Field::JavaVersion => opt_group_has(&caps.java_version, value),
                _ => {
                    let fixed = str_eq(value, "properties") || str_eq(value, "yaml");
                    proof {
                        let ids = schema_ids(*caps, field);
                        assert(ids[0] == "properties"@ && ids[1] == "yaml"@);
                        if !fixed && ids.contains(value@) {
                            let j = choose|j: int| 0 <= j < ids.len() && ids[j] == value@;
                        }
                    }
                    fixed
                },
            };
            if !allowed {
                return Result::Err(SpringError::InvalidFieldValue);
            }
        }
        match field {
            Field::ProjectType => self.project_type = value.to_owned(),
            Field::Language => self.language = value.to_owned(),
            Field::BootVersion => self.boot_version = value.to_owned(),
            Field::Packaging => self.packaging = value.to_owned(),
            Field::JavaVersion => {
                match parse_i32(value) {
                    Option::Some(v) => self.java_version = v,
                    Option::None => {
                        return Result::Err(SpringError::InvalidFieldValue);
                    },
                }
            },
            Field::ConfigurationFormat => self.configuration_file_format = value.to_owned(),
            Field::GroupId => self.group_id = value.to_owned(),
            Field::ArtifactId => self.artifact_id = value.to_owned(),
            Field::Name => self.name = value.to_owned(),
            Field::Description => self.description = value.to_owned(),
            Field::PackageName => self.package_name = value.to_owned(),
            Field::Generate | Field::Export => {},
        }
        Result::Ok(())
    }
}

/// Whether an optional group's id list holds `value`.
fn opt_group_has(g: &Option<CapabilityGroup>, value: &str) -> (r: bool)
    ensures
        r == opt_group_ids(*g).contains(value@),
{
    match g {
        Option::Some(gr) => gr.has_id(value),
        Option::None => {
            proof {
                if opt_group_ids(*g).contains(value@) {
                    let j = choose|j: int|
                        0 <= j < opt_group_ids(*g).len() && opt_group_ids(*g)[j] == value@;
                }
            }
            false
        },
    }
}

// ---------------------------------------------------------------------------
// The derived package name
// ---------------------------------------------------------------------------

/// The package name derived from the group and artifact ids: their
/// concatenation with every hyphen removed.
pub open spec fn derived_package_name(group_id: Seq<char>, artifact_id: Seq<char>) -> Seq<char> {
    strip_hyphens(group_id + artifact_id)
}

impl SprintInitConfig {
    /// Recomputes `package_name` from the group and artifact ids.
    pub fn derive_package_name(&mut self)
        ensures
            final(self).model() == (ConfigModel {
                package_name: derived_package_name(
                    old(self).model().group_id,
                    old(self).model().artifact_id,
                ),
                ..old(self).model()
            }),
    {
        let mut joined = self.group_id.clone();
        joined.append(self.artifact_id.as_str());
        self.package_name = remove_hyphens(joined.as_str());
    }
}

} // verus!
