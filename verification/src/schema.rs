//! The capability schema and the dependency catalog: the server-advertised
//! valid values per field, the download URL templates, and the dependency
//! metadata used for search.  Both are fetched once before a session and
//! read-only afterwards.

use vstd::prelude::*;

use crate::text::str_eq;

verus! {

/// One selectable value of an enumerated capability.
pub struct CapabilityValue {
    pub id: String,
    pub name: String,
    pub description: Option<String>,
    pub action: Option<String>,
    pub tags: Vec<(String, String)>,
}

/// An enumerated capability: a list of valid values and a default id.
pub struct CapabilityGroup {
    pub capability_type: String,
    pub default: Option<String>,
    pub values: Vec<CapabilityValue>,
}

/// A free-text capability: only a default.
pub struct TextCapability {
    pub capability_type: String,
    pub default: String,
}

/// A download URL template for one project type.
pub struct Link {
    pub href: String,
    pub templated: Option<bool>,
}

/// The whole capability schema.
pub struct InitializrCapabilities {
    pub links: Vec<(String, Link)>,
    pub packaging: Option<CapabilityGroup>,
    pub java_version: Option<CapabilityGroup>,
    pub language: Option<CapabilityGroup>,
    pub boot_version: Option<CapabilityGroup>,
    pub project_type: Option<CapabilityGroup>,
    pub group_id: Option<TextCapability>,
    pub artifact_id: Option<TextCapability>,
    pub version: Option<TextCapability>,
    pub name: Option<TextCapability>,
    pub description: Option<TextCapability>,
    pub package_name: Option<TextCapability>,
}

/// Metadata of one dependency in the catalog.
pub struct Dependency {
    pub group_id: String,
    pub artifact_id: String,
    pub scope: String,
    pub bom: Option<String>,
}

/// The dependency catalog: dependency id to metadata.
pub struct InitializrDependencies {
    pub boot_version: String,
    pub dependencies: Vec<(String, Dependency)>,
}

// ---------------------------------------------------------------------------
// Lookup
// ---------------------------------------------------------------------------

/// The ids of a list of capability values, in order.
pub open spec fn ids_of_values(vs: Seq<CapabilityValue>) -> Seq<Seq<char>> {
    vs.map_values(|v: CapabilityValue| v.id@)
}

/// The href of the first link stored under `key`, if any.
pub open spec fn link_href_for(links: Seq<(String, Link)>, key: Seq<char>) -> Option<Seq<char>>
    decreases links.len(),
{
    if links.len() == 0 {
        Option::None
    } else if links[0].0@ == key {
        Option::Some(links[0].1.href@)
    } else {
        link_href_for(links.drop_first(), key)
    }
}

impl InitializrCapabilities {
    /// Finds the download template for a project type.
    #[verifier::loop_isolation(false)]
    pub fn href_for(&self, key: &str) -> (r: Option<String>)
        ensures
            match r {
                Option::Some(h) => link_href_for(self.links@, key@) == Option::Some(h@),
                Option::None => link_href_for(self.links@, key@) is None,
            },
    {
        let mut i: usize = 0;
        proof {
            assert(self.links@.skip(0) =~= self.links@);
        }
        while i < self.links.len()
            invariant
                i <= self.links@.len(),
                link_href_for(self.links@, key@) == link_href_for(
                    self.links@.skip(i as int),
                    key@,
                ),
            decreases self.links@.len() - i,
        {
            if str_eq(self.links[i].0.as_str(), key) {
                return Option::Some(self.links[i].1.href.clone());
            }
            proof {
                assert(self.links@.skip(i as int).drop_first() =~= self.links@.skip(i + 1));
            }
            i = i + 1;
        }
        Option::None
    }
}

impl CapabilityGroup {
    /// Whether `id` is one of the group's valid ids.
    #[verifier::loop_isolation(false)]
    pub fn has_id(&self, id: &str) -> (r: bool)
        ensures
            r == ids_of_values(self.values@).contains(id@),
    {
        let ghost ids = ids_of_values(self.values@);
        let mut i: usize = 0;
        while i < self.values.len()
            invariant
                i <= self.values@.len(),
                forall|j: int| 0 <= j < i ==> ids_of_values(self.values@)[j] != id@,
            decreases self.values@.len() - i,
        {
            if str_eq(self.values[i].id.as_str(), id) {
                proof {
                    assert(ids[i as int] == id@);
                }
                return true;
            }
            i = i + 1;
        }
        proof {
            if ids.contains(id@) {
                let j = choose|j: int| 0 <= j < ids.len() && ids[j] == id@;
                assert(ids[j] != id@);
            }
        }
        false
    }

    /// The ids of the group's values, in the order the schema lists them.
    #[verifier::loop_isolation(false)]
    pub fn value_ids(&self) -> (r: Vec<String>)
        ensures
            r@.map_values(|s: String| s@) == ids_of_values(self.values@),
    {
        let mut r: Vec<String> = Vec::new();
        let mut i: usize = 0;
        while i < self.values.len()
            invariant
                i <= self.values@.len(),
                r@.map_values(|s: String| s@) =~= ids_of_values(self.values@).subrange(
                    0,
                    i as int,
                ),
            decreases self.values@.len() - i,
        {
            r.push(self.values[i].id.clone());
            proof {
                assert(r@.map_values(|s: String| s@) =~= ids_of_values(self.values@).subrange(
                    0,
                    i + 1,
                ));
            }
            i = i + 1;
        }
        proof {
            assert(ids_of_values(self.values@).subrange(0, self.values@.len() as int)
                =~= ids_of_values(self.values@));
        }
        r
    }
}

/// The position of `value` in `options`, if it occurs; the picker uses the
/// first occurrence.
pub open spec fn index_of_id(options: Seq<Seq<char>>, value: Seq<char>) -> Option<int>
    decreases options.len(),
{
    if options.len() == 0 {
        Option::None
    } else if options[0] == value {
        Option::Some(0int)
    } else {
        match index_of_id(options.drop_first(), value) {
            Option::Some(i) => Option::Some(i + 1),
            Option::None => Option::None,
        }
    }
}

/// Finds the first position of `value` in `options`.
#[verifier::loop_isolation(false)]
pub fn find_index(options: &Vec<String>, value: &str) -> (r: Option<usize>)
    ensures
        match r {
            Option::Some(i) => index_of_id(options@.map_values(|s: String| s@), value@)
                == Option::Some(i as int) && i < options@.len(),
            Option::None => index_of_id(options@.map_values(|s: String| s@), value@) is None,
        },
{
    let ghost ids = options@.map_values(|s: String| s@);
    let mut i: usize = 0;
    proof {
        lemma_index_of_id_skip(ids, value@, 0);
    }
    while i < options.len()
        invariant
            i <= ids.len(),
            forall|j: int| 0 <= j < i ==> ids[j] != value@,
        decreases ids.len() - i,
    {
        if str_eq(options[i].as_str(), value) {
            proof {
                lemma_index_of_id_at(ids, value@, i as int);
            }
            return Option::Some(i);
        }
        i = i + 1;
    }
    proof {
        lemma_index_of_id_none(ids, value@);
    }
    Option::None
}

/// If every element before `i` differs from `value` and `options[i]` is
/// `value`, the first occurrence is at `i`.
proof fn lemma_index_of_id_at(options: Seq<Seq<char>>, value: Seq<char>, i: int)
    requires
        0 <= i < options.len(),
        options[i] == value,
        forall|j: int| 0 <= j < i ==> options[j] != value,
    ensures
        index_of_id(options, value) == Option::Some(i),
    decreases options.len(),
{
    if i > 0 {
        lemma_index_of_id_at(options.drop_first(), value, i - 1);
    }
}

/// If no element equals `value` there is no occurrence.
proof fn lemma_index_of_id_none(options: Seq<Seq<char>>, value: Seq<char>)
    requires
        forall|j: int| 0 <= j < options.len() ==> options[j] != value,
    ensures
        index_of_id(options, value) is None,
    decreases options.len(),
{
    if options.len() > 0 {
        lemma_index_of_id_none(options.drop_first(), value);
    }
}

proof fn lemma_index_of_id_skip(options: Seq<Seq<char>>, value: Seq<char>, i: int)
    requires
        0 <= i <= options.len(),
    ensures
        options.skip(i) =~= options.subrange(i, options.len() as int),
{
}

} // verus!
