//! The interactive session controller: the navigable field cycle, the
//! mutually exclusive modal overlays, the searchable dependency list, and
//! the dispatch of input events to state transitions.  The terminal shell
//! around the library reads events and draws; every decision is made here.

use vstd::prelude::*;

use crate::config::FileType;
use crate::config_state::{
    ConfigModel, Field, SprintInitConfig, default_config_model, derived_package_name,
    is_free_text, model_with_field, schema_ids,
};
use crate::deps::{options_of, seq_ids, spec_toggle, strictly_sorted, toggle_id};
use crate::schema::{InitializrCapabilities, InitializrDependencies, index_of_id};
use crate::text::{
    char_is_control, dec_str, i32_to_string, is_control_char, join_commas, join_with_commas,
    parse_i32_spec,
};

verus! {

/// Which of the two panes input is directed at.
#[derive(Clone, Copy, PartialEq, Eq, Structural)]
pub enum ActivePane {
    Config,
    Dependencies,
}

/// The modal overlays.  At most one is ever active: the variant carried
/// here is the whole modal state.
pub enum Modal {
    /// No overlay; navigation input reaches the panes.
    Normal,
    /// The option picker over the current field's schema list.
    OptionPicker { index: usize },
    /// The inline editor over a free-text field.
    TextEditor { buffer: String },
    /// The export dialog; the filename and format it edits persist on the
    /// session between openings.
    ExportDialog { focus_filename: bool },
    /// The settings overlay toggling extraction.
    SettingsDialog,
    /// A message the user must acknowledge.
    MessageDialog { title: String, text: String, is_error: bool },
}

/// The modal state as mathematics.
pub ghost enum ModalModel {
    Normal,
    OptionPicker { index: int },
    TextEditor { buffer: Seq<char> },
    ExportDialog { focus_filename: bool },
    SettingsDialog,
    MessageDialog { title: Seq<char>, text: Seq<char>, is_error: bool },
}

impl Modal {
    pub open spec fn model(&self) -> ModalModel {
        match self {
            Modal::Normal => ModalModel::Normal,
            Modal::OptionPicker { index } => ModalModel::OptionPicker { index: *index as int },
            Modal::TextEditor { buffer } => ModalModel::TextEditor { buffer: buffer@ },
            Modal::ExportDialog { focus_filename } => ModalModel::ExportDialog {
                focus_filename: *focus_filename,
            },
            Modal::SettingsDialog => ModalModel::SettingsDialog,
            Modal::MessageDialog { title, text, is_error } => ModalModel::MessageDialog {
                title: title@,
                text: text@,
                is_error: *is_error,
            },
        }
    }
}

/// One input event, as the shell hands it over.
#[derive(Clone, Copy, PartialEq, Eq, Structural)]
pub enum InputEvent {
    Char(char),
    Enter,
    Esc,
    Tab,
    Backspace,
    Up,
    Down,
    Left,
    Right,
    Other,
}

/// What the shell must do after a transition.  Everything but these two
/// outward actions is already done by the time an event handler returns.
pub enum Action {
    /// Nothing outward; redraw and read the next event.
    Stay,
    /// Leave the session.
    Quit,
    /// Download the configured project, then report through
    /// `report_generate_result`.
    Generate,
    /// Write the configuration to a file of the given format and name,
    /// then report through `report_export_result`.
    Export { file_type: FileType, filename: Option<String> },
}

/// The whole session state.
pub struct App {
    pub capabilities: InitializrCapabilities,
    pub dependencies: InitializrDependencies,
    pub config: SprintInitConfig,
    pub current_field: Field,
    pub active_pane: ActivePane,
    pub modal: Modal,
    pub deps_cursor: usize,
    pub deps_search: String,
    pub selected_deps: Vec<String>,
    pub export_filename: String,
    pub export_format_idx: usize,
    pub extract_project: bool,
    pub status_message: String,
}

/// The session state as mathematics; the immutable schema and catalog
/// stand beside it, not in it.
#[verifier::ext_equal]
pub ghost struct AppModel {
    pub config: ConfigModel,
    pub current_field: Field,
    pub active_pane: ActivePane,
    pub modal: ModalModel,
    pub deps_cursor: int,
    pub deps_search: Seq<char>,
    pub selected_deps: Seq<Seq<char>>,
    pub export_filename: Seq<char>,
    pub export_format_idx: int,
    pub extract_project: bool,
    pub status_message: Seq<char>,
}

impl App {
    pub open spec fn model(&self) -> AppModel {
        AppModel {
            config: self.config.model(),
            current_field: self.current_field,
            active_pane: self.active_pane,
            modal: self.modal.model(),
            deps_cursor: self.deps_cursor as int,
            deps_search: self.deps_search@,
            selected_deps: seq_ids(self.selected_deps@),
            export_filename: self.export_filename@,
            export_format_idx: self.export_format_idx as int,
            extract_project: self.extract_project,
            status_message: self.status_message@,
        }
    }

    /// The session invariant: the selected set is sorted and duplicate
    /// free, the configuration's dependency string is its comma join, and
    /// the export format index stays on one of the three formats.
    pub open spec fn wf(&self) -> bool {
        &&& strictly_sorted(self.model().selected_deps)
        &&& self.model().config.dependencies == join_commas(self.model().selected_deps)
        &&& self.model().export_format_idx <= 2
    }

    /// The ids of the dependency catalog, in catalog order.
    pub open spec fn catalog_ids(&self) -> Seq<Seq<char>> {
        self.dependencies.dependencies@.map_values(|p: (String, crate::schema::Dependency)| p.0@)
    }

    /// The filtered, sorted dependency list the dependencies pane shows.
    pub open spec fn options_model(&self) -> Seq<Seq<char>> {
        options_of(self.catalog_ids(), self.deps_search@)
    }
}

/// The schema and catalog are fetched once and never written again.
pub open spec fn data_unchanged(a: &App, b: &App) -> bool {
    a.capabilities == b.capabilities && a.dependencies == b.dependencies
}

// ---------------------------------------------------------------------------
// The field cycle
// ---------------------------------------------------------------------------

/// The field after `f` in the fixed cyclic order the layout follows.
pub open spec fn next_field_of(f: Field) -> Field {
    match f {
        Field::ProjectType => Field::Language,
        Field::Language => Field::BootVersion,
        Field::BootVersion => Field::GroupId,
        Field::GroupId => Field::ArtifactId,
        Field::ArtifactId => Field::Name,
        Field::Name => Field::Description,
        Field::Description => Field::PackageName,
        Field::PackageName => Field::Packaging,
        Field::Packaging => Field::JavaVersion,
        Field::JavaVersion => Field::ConfigurationFormat,
        Field::ConfigurationFormat => Field::Export,
        Field::Export => Field::Generate,
        Field::Generate => Field::ProjectType,
    }
}

/// The field before `f`: the inverse of `next_field_of`.
pub open spec fn prev_field_of(f: Field) -> Field {
    match f {
        Field::ProjectType => Field::Generate,
        Field::Language => Field::ProjectType,
        Field::BootVersion => Field::Language,
        Field::GroupId => Field::BootVersion,
        Field::ArtifactId => Field::GroupId,
        Field::Name => Field::ArtifactId,
        Field::Description => Field::Name,
        Field::PackageName => Field::Description,
        Field::Packaging => Field::PackageName,
        Field::JavaVersion => Field::Packaging,
        Field::ConfigurationFormat => Field::JavaVersion,
        Field::Export => Field::ConfigurationFormat,
        Field::Generate => Field::Export,
    }
}

/// Going forward and back lands on the starting field, all the way around
/// the cycle.
pub proof fn lemma_field_cycle(f: Field)
    ensures
        prev_field_of(next_field_of(f)) == f,
        next_field_of(prev_field_of(f)) == f,
{
}

// ---------------------------------------------------------------------------
// Construction
// ---------------------------------------------------------------------------

impl App {
    /// A fresh session over a just-fetched schema and catalog: the
    /// configuration holds the schema's defaults, focus rests on the first
    /// field of the cycle, no overlay is open and nothing is selected.
    pub fn new(capabilities: InitializrCapabilities, dependencies: InitializrDependencies) -> (r:
        Self)
        ensures
            r.capabilities == capabilities,
            r.dependencies == dependencies,
            r.model() == (AppModel {
                config: default_config_model(capabilities),
                current_field: Field::ProjectType,
                active_pane: ActivePane::Config,
                modal: ModalModel::Normal,
                deps_cursor: 0,
                deps_search: Seq::empty(),
                selected_deps: Seq::empty(),
                export_filename: "config"@,
                export_format_idx: 0,
                extract_project: false,
                status_message:
                    "<Tab> Switch Pane  <> Navigate  <Enter> Select/Edit  <Shift+c> Config Menu"@,
            }),
            r.wf(),
    {
        let config = SprintInitConfig::from_capabilities(&capabilities);
        let r = App {
            capabilities,
            dependencies,
            config,
            current_field: Field::ProjectType,
            active_pane: ActivePane::Config,
            modal: Modal::Normal,
            deps_cursor: 0,
            deps_search: String::new(),
            selected_deps: Vec::new(),
            export_filename: "config".to_owned(),
            export_format_idx: 0,
            extract_project: false,
            status_message:
                "<Tab> Switch Pane  <> Navigate  <Enter> Select/Edit  <Shift+c> Config Menu".to_owned(),
        };
        proof {
            reveal_strlit("");
            assert(r.deps_search@ =~= Seq::<char>::empty());
            assert(seq_ids(r.selected_deps@) =~= Seq::<Seq<char>>::empty());
            assert(r.model().config.dependencies =~= join_commas(r.model().selected_deps));
        }
        r
    }
}

// ---------------------------------------------------------------------------
// Pane and field navigation
// ---------------------------------------------------------------------------

impl App {
    /// Moves input focus to the other pane.
    pub fn toggle_pane(&mut self)
        ensures
            data_unchanged(old(self), final(self)),
            final(self).model() == (AppModel {
                active_pane: if old(self).active_pane == ActivePane::Config {
                    ActivePane::Dependencies
                } else {
                    ActivePane::Config
                },
                ..old(self).model()
            }),
    {
        self.active_pane = match self.active_pane {
            ActivePane::Config => ActivePane::Dependencies,
            ActivePane::Dependencies => ActivePane::Config,
        };
    }

    /// Moves focus to the next field of the cycle.
    pub fn next_field(&mut self)
        ensures
            data_unchanged(old(self), final(self)),
            final(self).model() == (AppModel {
                current_field: next_field_of(old(self).current_field),
                ..old(self).model()
            }),
    {
        self.current_field = match self.current_field {
            Field::ProjectType => Field::Language,
            Field::Language => Field::BootVersion,
            Field::BootVersion => Field::GroupId,
            Field::GroupId => Field::ArtifactId,
            Field::ArtifactId => Field::Name,
            Field::Name => Field::Description,
            Field::Description => Field::PackageName,
            Field::PackageName => Field::Packaging,
            Field::Packaging => Field::JavaVersion,
            Field::JavaVersion => Field::ConfigurationFormat,
            Field::ConfigurationFormat => Field::Export,
            Field::Export => Field::Generate,
            Field::Generate => Field::ProjectType,
        };
    }

    /// Moves focus to the previous field of the cycle.
    pub fn previous_field(&mut self)
        ensures
            data_unchanged(old(self), final(self)),
            final(self).model() == (AppModel {
                current_field: prev_field_of(old(self).current_field),
                ..old(self).model()
            }),
    {
        self.current_field = match self.current_field {
            Field::ProjectType => Field::Generate,
            Field::Language => Field::ProjectType,
            Field::BootVersion => Field::Language,
            Field::GroupId => Field::BootVersion,
            Field::ArtifactId => Field::GroupId,
            Field::Name => Field::ArtifactId,
            Field::Description => Field::Name,
            Field::PackageName => Field::Description,
            Field::Packaging => Field::PackageName,
            Field::JavaVersion => Field::Packaging,
            Field::ConfigurationFormat => Field::JavaVersion,
            Field::Export => Field::ConfigurationFormat,
            Field::Generate => Field::Export,
        };
    }
}

// ---------------------------------------------------------------------------
// The dependency list
// ---------------------------------------------------------------------------

/// The cursor after a step down a list of `len` entries, wrapping at the
/// end; an empty list leaves it alone.
pub open spec fn bumped_cursor(cur: int, len: int) -> int {
    if len > 0 {
        if cur >= len - 1 {
            0
        } else {
            cur + 1
        }
    } else {
        cur
    }
}

/// The cursor after a step up, wrapping at the start.
pub open spec fn dropped_cursor(cur: int, len: int) -> int {
    if len > 0 {
        if cur == 0 {
            len - 1
        } else {
            cur - 1
        }
    } else {
        cur
    }
}

/// The session after the dependency under the cursor is toggled: the
/// selected set with that id added or removed, and the dependency string
/// rewritten as its comma join.  A cursor outside the filtered list does
/// nothing.
pub open spec fn toggled_model(m: AppModel, opts: Seq<Seq<char>>) -> AppModel {
    if 0 <= m.deps_cursor < opts.len() {
        let sel = spec_toggle(m.selected_deps, opts[m.deps_cursor]);
        AppModel {
            selected_deps: sel,
            config: ConfigModel { dependencies: join_commas(sel), ..m.config },
            ..m
        }
    } else {
        m
    }
}

impl App {
    /// The dependency ids that pass the current search, sorted and
    /// duplicate free.
    pub fn dependency_options(&self) -> (r: Vec<String>)
        ensures
            seq_ids(r@) == self.options_model(),
    {
        crate::deps::filter_sorted_ids(&self.dependencies.dependencies, self.deps_search.as_str())
    }

    /// Moves the dependency cursor down, wrapping at the end of the
    /// filtered list; an empty list leaves it alone.
    pub fn next_dependency(&mut self)
        ensures
            data_unchanged(old(self), final(self)),
            final(self).model() == (AppModel {
                deps_cursor: bumped_cursor(
                    old(self).model().deps_cursor,
                    old(self).options_model().len() as int,
                ),
                ..old(self).model()
            }),
    {
        let len = self.dependency_options().len();
        if len > 0 {
            self.deps_cursor = if self.deps_cursor >= len - 1 {
                0
            } else {
                self.deps_cursor + 1
            };
        }
    }

    /// Moves the dependency cursor up, wrapping at the start of the
    /// filtered list; an empty list leaves it alone.
    pub fn previous_dependency(&mut self)
        ensures
            data_unchanged(old(self), final(self)),
            final(self).model() == (AppModel {
                deps_cursor: dropped_cursor(
                    old(self).model().deps_cursor,
                    old(self).options_model().len() as int,
                ),
                ..old(self).model()
            }),
    {
        let len = self.dependency_options().len();
        if len > 0 {
            self.deps_cursor = if self.deps_cursor == 0 {
                len - 1
            } else {
                self.deps_cursor - 1
            };
        }
    }

    /// Toggles the dependency under the cursor in or out of the selected
    /// set and rewrites the serialized dependency string, which is always
    /// the comma join of the sorted, duplicate-free selection.
    pub fn toggle_dependency(&mut self)
        requires
            old(self).wf(),
        ensures
            final(self).wf(),
            data_unchanged(old(self), final(self)),
            final(self).model() == toggled_model(old(self).model(), old(self).options_model()),
    {
        let options = self.dependency_options();
        if self.deps_cursor < options.len() {
            let id = options[self.deps_cursor].clone();
            proof {
                assert(id@ == self.options_model()[self.deps_cursor as int]);
            }
            toggle_id(&mut self.selected_deps, id.as_str());
            self.config.dependencies = join_with_commas(&self.selected_deps);
        }
    }
}

// ---------------------------------------------------------------------------
// The option picker
// ---------------------------------------------------------------------------

/// What confirming a picker entry leaves in the configuration: the value
/// written into the field, except that a Java version that is not a
/// number is discarded, and the package name re-derived afterwards.
pub open spec fn applied_option(c: ConfigModel, field: Field, value: Seq<char>) -> ConfigModel {
    let c1 = if field == Field::JavaVersion && parse_i32_spec(value) is None {
        c
    } else {
        model_with_field(c, field, value)
    };
    if field == Field::PackageName {
        c1
    } else {
        ConfigModel { package_name: derived_package_name(c1.group_id, c1.artifact_id), ..c1 }
    }
}

/// The value an enumerated field currently shows, as the picker compares
/// it against the schema's ids.
pub open spec fn current_enum_value(c: ConfigModel, field: Field) -> Seq<char> {
    match field {
        Field::ProjectType => c.project_type,
        Field::Language => c.language,
        Field::BootVersion => c.boot_version,
        Field::Packaging => c.packaging,
        Field::JavaVersion => dec_str(c.java_version),
        Field::ConfigurationFormat => c.configuration_file_format,
        _ => Seq::empty(),
    }
}

/// Where an opening picker puts its cursor: on the current value, or on
/// the first entry when the current value is not in the list.
pub open spec fn picker_seed(opts: Seq<Seq<char>>, value: Seq<char>) -> int {
    match index_of_id(opts, value) {
        Option::Some(i) => i,
        Option::None => 0,
    }
}

fn opt_value_ids(g: &Option<crate::schema::CapabilityGroup>) -> (r: Vec<String>)
    ensures
        r@.map_values(|s: String| s@) == crate::config_state::opt_group_ids(*g),
{
    match g {
        Option::Some(gr) => gr.value_ids(),
        Option::None => {
            let v: Vec<String> = Vec::new();
            proof {
                assert(v@.map_values(|s: String| s@) =~= Seq::<Seq<char>>::empty());
            }
            v
        },
    }
}

impl App {
    /// The schema's ids for the focused field: the enumerated lists, the
    /// fixed pair for the configuration file format, nothing for free
    /// text and the action buttons.
    pub fn get_current_options(&self) -> (r: Vec<String>)
        ensures
            r@.map_values(|s: String| s@) == schema_ids(self.capabilities, self.current_field),
    {
        match self.current_field {
            Field::ProjectType => opt_value_ids(&self.capabilities.project_type),
            Field::Language => opt_value_ids(&self.capabilities.language),
            Field::BootVersion => opt_value_ids(&self.capabilities.boot_version),
            Field::Packaging => opt_value_ids(&self.capabilities.packaging),
            Field::JavaVersion => opt_value_ids(&self.capabilities.java_version),
            Field::ConfigurationFormat => {
                let mut v: Vec<String> = Vec::new();
                v.push("properties".to_owned());
                v.push("yaml".to_owned());
                proof {
                    assert(v@.map_values(|s: String| s@) =~= seq!["properties"@, "yaml"@]);
                }
                v
            },
            _ => {
                let v: Vec<String> = Vec::new();
                proof {
                    assert(v@.map_values(|s: String| s@) =~= Seq::<Seq<char>>::empty());
                }
                v
            },
        }
    }

    /// Writes the highlighted picker entry into the focused field through
    /// `set_field`, closes the picker and re-derives the package name.  A
    /// cursor outside the list does nothing.
    pub fn select_option(&mut self)
        requires
            old(self).wf(),
        ensures
            final(self).wf(),
            data_unchanged(old(self), final(self)),
            final(self).model() == (match old(self).model().modal {
                ModalModel::OptionPicker { index } => {
                    let opts = schema_ids(old(self).capabilities, old(self).current_field);
                    if 0 <= index < opts.len() {
                        AppModel {
                            config: applied_option(
                                old(self).model().config,
                                old(self).current_field,
                                opts[index],
                            ),
                            modal: ModalModel::Normal,
                            ..old(self).model()
                        }
                    } else {
                        old(self).model()
                    }
                },
                _ => old(self).model(),
            }),
    {
        let idx_opt = match &self.modal {
            Modal::OptionPicker { index } => Option::Some(*index),
            _ => Option::None,
        };
        if let Option::Some(idx) = idx_opt {
            let options = self.get_current_options();
            if idx < options.len() {
                let value = options[idx].clone();
                proof {
                    let opts = schema_ids(self.capabilities, self.current_field);
                    assert(value@ == opts[idx as int]);
                    assert(opts.contains(value@));
                }
                let _ = self.config.set_field(&self.capabilities, self.current_field, value.as_str());
                self.refresh_package_name();
                self.modal = Modal::Normal;
            }
        }
    }
}

// ---------------------------------------------------------------------------
// Text editing
// ---------------------------------------------------------------------------

/// The text a free-text field currently holds.
pub open spec fn text_field_value(c: ConfigModel, field: Field) -> Seq<char> {
    match field {
        Field::GroupId => c.group_id,
        Field::ArtifactId => c.artifact_id,
        Field::Name => c.name,
        Field::Description => c.description,
        Field::PackageName => c.package_name,
        _ => Seq::empty(),
    }
}

/// What committing an edit buffer leaves in the configuration: the buffer
/// written into the field, and the package name re-derived after a group
/// or artifact edit — never after a direct package-name edit.
pub open spec fn finished_config(c: ConfigModel, field: Field, buffer: Seq<char>) -> ConfigModel {
    let c1 = if is_free_text(field) {
        model_with_field(c, field, buffer)
    } else {
        c
    };
    if field == Field::GroupId || field == Field::ArtifactId {
        ConfigModel { package_name: derived_package_name(c1.group_id, c1.artifact_id), ..c1 }
    } else {
        c1
    }
}

impl App {
    /// Opens the inline editor over the focused field, seeded with its
    /// current text; fields that are not free text have no editor.
    pub fn start_edit(&mut self)
        ensures
            data_unchanged(old(self), final(self)),
            final(self).model() == (if is_free_text(old(self).current_field) {
                AppModel {
                    modal: ModalModel::TextEditor {
                        buffer: text_field_value(old(self).model().config, old(self).current_field),
                    },
                    ..old(self).model()
                }
            } else {
                old(self).model()
            }),
    {
        match self.current_field {
            Field::GroupId => {
                self.modal = Modal::TextEditor { buffer: self.config.group_id.clone() };
            },
            Field::ArtifactId => {
                self.modal = Modal::TextEditor { buffer: self.config.artifact_id.clone() };
            },
            Field::Name => {
                self.modal = Modal::TextEditor { buffer: self.config.name.clone() };
            },
            Field::Description => {
                self.modal = Modal::TextEditor { buffer: self.config.description.clone() };
            },
            Field::PackageName => {
                self.modal = Modal::TextEditor { buffer: self.config.package_name.clone() };
            },
            _ => {},
        }
    }

    /// Commits the edit buffer into the focused field and closes the
    /// editor; outside the editor nothing happens.
    pub fn finish_edit(&mut self)
        requires
            old(self).wf(),
        ensures
            final(self).wf(),
            data_unchanged(old(self), final(self)),
            final(self).model() == (match old(self).model().modal {
                ModalModel::TextEditor { buffer } => AppModel {
                    config: finished_config(
                        old(self).model().config,
                        old(self).current_field,
                        buffer,
                    ),
                    modal: ModalModel::Normal,
                    ..old(self).model()
                },
                _ => old(self).model(),
            }),
    {
        let buf = match &self.modal {
            Modal::TextEditor { buffer } => Option::Some(buffer.clone()),
            _ => Option::None,
        };
        if let Option::Some(b) = buf {
            let free = matches!(
                self.current_field,
                Field::GroupId | Field::ArtifactId | Field::Name | Field::Description
                    | Field::PackageName
            );
            if free {
                let _ = self.config.set_field(&self.capabilities, self.current_field, b.as_str());
            }
            if matches!(self.current_field, Field::GroupId | Field::ArtifactId) {
                self.refresh_package_name();
            }
            self.modal = Modal::Normal;
        }
    }

    /// Re-derives the package name from the group and artifact ids,
    /// except while the package name itself has focus: a value the user
    /// is editing directly is never overwritten.
    pub fn refresh_package_name(&mut self)
        ensures
            data_unchanged(old(self), final(self)),
            final(self).model() == (if old(self).current_field == Field::PackageName {
                old(self).model()
            } else {
                AppModel {
                    config: ConfigModel {
                        package_name: derived_package_name(
                            old(self).model().config.group_id,
                            old(self).model().config.artifact_id,
                        ),
                        ..old(self).model().config
                    },
                    ..old(self).model()
                }
            }),
    {
        if !matches!(self.current_field, Field::PackageName) {
            self.config.derive_package_name();
        }
    }
}

// ---------------------------------------------------------------------------
// Reporting action outcomes
// ---------------------------------------------------------------------------

impl App {
    /// Records the outcome of a generate action: the status line is
    /// rewritten and a message dialog opens, which the user must
    /// acknowledge before anything else happens.
    pub fn report_generate_result(&mut self, ok: bool, detail: String)
        ensures
            data_unchanged(old(self), final(self)),
            final(self).model() == (AppModel {
                status_message: if ok {
                    "Success! Saved."@
                } else {
                    "Error: "@ + detail@
                },
                modal: ModalModel::MessageDialog {
                    title: if ok {
                        "Success"@
                    } else {
                        "Generation Failed"@
                    },
                    text: if ok {
                        "Project '"@ + old(self).model().config.artifact_id
                            + "' generated successfully!"@
                    } else {
                        detail@
                    },
                    is_error: !ok,
                },
                ..old(self).model()
            }),
    {
        if ok {
            self.status_message = "Success! Saved.".to_owned();
            let text = String::from_str("Project '").concat(self.config.artifact_id.as_str())
                .concat("' generated successfully!");
            self.modal = Modal::MessageDialog {
                title: "Success".to_owned(),
                text,
                is_error: false,
            };
        } else {
            self.status_message = String::from_str("Error: ").concat(detail.as_str());
            self.modal = Modal::MessageDialog {
                title: "Generation Failed".to_owned(),
                text: detail,
                is_error: true,
            };
        }
    }

    /// Records the outcome of an export action, the same way.
    pub fn report_export_result(&mut self, ok: bool, detail: String)
        ensures
            data_unchanged(old(self), final(self)),
            final(self).model() == (AppModel {
                status_message: if ok {
                    "Config Exported!"@
                } else {
                    "Export Error: "@ + detail@
                },
                modal: ModalModel::MessageDialog {
                    title: if ok {
                        "Success"@
                    } else {
                        "Export Failed"@
                    },
                    text: if ok {
                        "Configuration file exported successfully."@
                    } else {
                        detail@
                    },
                    is_error: !ok,
                },
                ..old(self).model()
            }),
    {
        if ok {
            self.status_message = "Config Exported!".to_owned();
            self.modal = Modal::MessageDialog {
                title: "Success".to_owned(),
                text: "Configuration file exported successfully.".to_owned(),
                is_error: false,
            };
        } else {
            self.status_message = String::from_str("Export Error: ").concat(detail.as_str());
            self.modal = Modal::MessageDialog {
                title: "Export Failed".to_owned(),
                text: detail,
                is_error: true,
            };
        }
    }
}

// ---------------------------------------------------------------------------
// The transition relation, one step function per modal layer
// ---------------------------------------------------------------------------

/// A step of the inline text editor.
pub open spec fn editor_step(m: AppModel, ev: InputEvent) -> AppModel {
    match m.modal {
        ModalModel::TextEditor { buffer } => match ev {
            InputEvent::Enter => AppModel {
                config: finished_config(m.config, m.current_field, buffer),
                modal: ModalModel::Normal,
                ..m
            },
            InputEvent::Esc => AppModel { modal: ModalModel::Normal, ..m },
            InputEvent::Char(c) => AppModel {
                modal: ModalModel::TextEditor { buffer: buffer.push(c) },
                ..m
            },
            InputEvent::Backspace => AppModel {
                modal: ModalModel::TextEditor {
                    buffer: if buffer.len() > 0 {
                        buffer.drop_last()
                    } else {
                        buffer
                    },
                },
                ..m
            },
            _ => m,
        },
        _ => m,
    }
}

/// A step of the option picker: circular navigation, confirmation, or
/// cancellation.
pub open spec fn picker_step(caps: InitializrCapabilities, m: AppModel, ev: InputEvent) -> AppModel {
    match m.modal {
        ModalModel::OptionPicker { index } => {
            let opts = schema_ids(caps, m.current_field);
            match ev {
                InputEvent::Esc => AppModel { modal: ModalModel::Normal, ..m },
                InputEvent::Down => AppModel {
                    modal: ModalModel::OptionPicker {
                        index: bumped_cursor(index, opts.len() as int),
                    },
                    ..m
                },
                InputEvent::Up => AppModel {
                    modal: ModalModel::OptionPicker {
                        index: dropped_cursor(index, opts.len() as int),
                    },
                    ..m
                },
                InputEvent::Char(c) => if c == 'j' {
                    AppModel {
                        modal: ModalModel::OptionPicker {
                            index: bumped_cursor(index, opts.len() as int),
                        },
                        ..m
                    }
                } else if c == 'k' {
                    AppModel {
                        modal: ModalModel::OptionPicker {
                            index: dropped_cursor(index, opts.len() as int),
                        },
                        ..m
                    }
                } else {
                    m
                },
                InputEvent::Enter => if 0 <= index < opts.len() {
                    AppModel {
                        config: applied_option(m.config, m.current_field, opts[index]),
                        modal: ModalModel::Normal,
                        ..m
                    }
                } else {
                    m
                },
                _ => m,
            }
        },
        _ => m,
    }
}

/// A step of the export dialog.  Confirmation closes it; the export
/// itself is the returned action.
pub open spec fn export_step(m: AppModel, ev: InputEvent) -> AppModel {
    match m.modal {
        ModalModel::ExportDialog { focus_filename } => match ev {
            InputEvent::Esc => AppModel { modal: ModalModel::Normal, ..m },
            InputEvent::Tab => AppModel {
                modal: ModalModel::ExportDialog { focus_filename: !focus_filename },
                ..m
            },
            InputEvent::Left => if !focus_filename && m.export_format_idx > 0 {
                AppModel { export_format_idx: m.export_format_idx - 1, ..m }
            } else {
                m
            },
            InputEvent::Right => if !focus_filename && m.export_format_idx < 2 {
                AppModel { export_format_idx: m.export_format_idx + 1, ..m }
            } else {
                m
            },
            InputEvent::Char(c) => if c == 'h' {
                if !focus_filename && m.export_format_idx > 0 {
                    AppModel { export_format_idx: m.export_format_idx - 1, ..m }
                } else {
                    m
                }
            } else if c == 'l' {
                if !focus_filename && m.export_format_idx < 2 {
                    AppModel { export_format_idx: m.export_format_idx + 1, ..m }
                } else {
                    m
                }
            } else if focus_filename {
                AppModel { export_filename: m.export_filename.push(c), ..m }
            } else {
                m
            },
            InputEvent::Backspace => if focus_filename {
                AppModel {
                    export_filename: if m.export_filename.len() > 0 {
                        m.export_filename.drop_last()
                    } else {
                        m.export_filename
                    },
                    ..m
                }
            } else {
                m
            },
            InputEvent::Enter => AppModel { modal: ModalModel::Normal, ..m },
            _ => m,
        },
        _ => m,
    }
}

/// A step of the settings overlay.
pub open spec fn settings_step(m: AppModel, ev: InputEvent) -> AppModel {
    match m.modal {
        ModalModel::SettingsDialog => match ev {
            InputEvent::Esc => AppModel { modal: ModalModel::Normal, ..m },
            InputEvent::Enter => AppModel { extract_project: !m.extract_project, ..m },
            InputEvent::Char(c) => if c == 'C' {
                AppModel { modal: ModalModel::Normal, ..m }
            } else if c == ' ' {
                AppModel { extract_project: !m.extract_project, ..m }
            } else {
                m
            },
            _ => m,
        },
        _ => m,
    }
}

/// A step of the message dialog: any dismissing key closes it.
pub open spec fn message_step(m: AppModel, ev: InputEvent) -> AppModel {
    match m.modal {
        ModalModel::MessageDialog { .. } => match ev {
            InputEvent::Esc | InputEvent::Enter => AppModel { modal: ModalModel::Normal, ..m },
            InputEvent::Char(c) => if c == ' ' {
                AppModel { modal: ModalModel::Normal, ..m }
            } else {
                m
            },
            _ => m,
        },
        _ => m,
    }
}

/// Moving down from the base state: the next field, or the next entry of
/// the filtered dependency list.
pub open spec fn nav_down(m: AppModel, opts_len: int) -> AppModel {
    if m.active_pane == ActivePane::Config {
        AppModel { current_field: next_field_of(m.current_field), ..m }
    } else {
        AppModel { deps_cursor: bumped_cursor(m.deps_cursor, opts_len), ..m }
    }
}

/// Moving up from the base state.
pub open spec fn nav_up(m: AppModel, opts_len: int) -> AppModel {
    if m.active_pane == ActivePane::Config {
        AppModel { current_field: prev_field_of(m.current_field), ..m }
    } else {
        AppModel { deps_cursor: dropped_cursor(m.deps_cursor, opts_len), ..m }
    }
}

/// A step of the base state: pane and field navigation, the dependency
/// list, and the keys that open overlays or trigger actions.  `opts` is
/// the filtered dependency list.
pub open spec fn normal_step(
    caps: InitializrCapabilities,
    opts: Seq<Seq<char>>,
    m: AppModel,
    ev: InputEvent,
) -> AppModel {
    match ev {
        InputEvent::Tab => AppModel {
            active_pane: if m.active_pane == ActivePane::Config {
                ActivePane::Dependencies
            } else {
                ActivePane::Config
            },
            ..m
        },
        InputEvent::Down => nav_down(m, opts.len() as int),
        InputEvent::Up => nav_up(m, opts.len() as int),
        InputEvent::Enter => if m.active_pane == ActivePane::Config {
            if m.current_field == Field::Generate {
                AppModel { status_message: "Generating..."@, ..m }
            } else if m.current_field == Field::Export {
                AppModel { modal: ModalModel::ExportDialog { focus_filename: true }, ..m }
            } else {
                let sopts = schema_ids(caps, m.current_field);
                if sopts.len() > 0 {
                    AppModel {
                        modal: ModalModel::OptionPicker {
                            index: picker_seed(sopts, current_enum_value(m.config, m.current_field)),
                        },
                        ..m
                    }
                } else if is_free_text(m.current_field) {
                    AppModel {
                        modal: ModalModel::TextEditor {
                            buffer: text_field_value(m.config, m.current_field),
                        },
                        ..m
                    }
                } else {
                    m
                }
            }
        } else {
            toggled_model(m, opts)
        },
        InputEvent::Backspace => if m.active_pane == ActivePane::Dependencies && m.deps_search.len()
            > 0 {
            AppModel { deps_search: m.deps_search.drop_last(), deps_cursor: 0, ..m }
        } else {
            m
        },
        InputEvent::Char(c) => if c == 'q' || c == 'Q' {
            m
        } else if c == 'C' {
            AppModel { modal: ModalModel::SettingsDialog, ..m }
        } else if c == 'j' {
            nav_down(m, opts.len() as int)
        } else if c == 'k' {
            nav_up(m, opts.len() as int)
        } else if c == ' ' {
            if m.active_pane == ActivePane::Dependencies {
                toggled_model(m, opts)
            } else {
                m
            }
        } else if !is_control_char(c) {
            if m.active_pane == ActivePane::Dependencies {
                AppModel { deps_search: m.deps_search.push(c), deps_cursor: 0, ..m }
            } else if c == 'g' || c == 'G' {
                AppModel { current_field: Field::Generate, ..m }
            } else {
                m
            }
        } else {
            m
        },
        _ => m,
    }
}

/// After a committed edit of the group or the artifact id, the package
/// name equals the two joined with every hyphen removed; a committed
/// edit of the package name itself keeps exactly what was typed.
pub proof fn lemma_package_name_follows_edit(c: ConfigModel, field: Field, buffer: Seq<char>)
    ensures
        field == Field::GroupId || field == Field::ArtifactId ==> finished_config(
            c,
            field,
            buffer,
        ).package_name == derived_package_name(
            finished_config(c, field, buffer).group_id,
            finished_config(c, field, buffer).artifact_id,
        ),
        field == Field::PackageName ==> finished_config(c, field, buffer).package_name == buffer,
{
}

/// The format each index of the export dialog's format row selects.
pub open spec fn export_type_of(i: int) -> FileType {
    if i == 0 {
        FileType::Yaml
    } else if i == 1 {
        FileType::Json
    } else {
        FileType::Toml
    }
}

// ---------------------------------------------------------------------------
// The event handlers
// ---------------------------------------------------------------------------

impl App {
    /// The value the focused enumerated field currently shows.
    fn current_value_string(&self) -> (r: String)
        ensures
            r@ == current_enum_value(self.model().config, self.current_field),
    {
        let r = match self.current_field {
            Field::ProjectType => self.config.project_type.clone(),
            Field::Language => self.config.language.clone(),
            Field::BootVersion => self.config.boot_version.clone(),
            Field::Packaging => self.config.packaging.clone(),
            Field::JavaVersion => i32_to_string(self.config.java_version),
            Field::ConfigurationFormat => self.config.configuration_file_format.clone(),
            _ => String::new(),
        };
        proof {
            if !crate::config_state::is_enumerated(self.current_field) {
                assert(r@ =~= Seq::<char>::empty());
            }
        }
        r
    }

    /// Input while the inline editor is open.
    pub fn handle_editor_event(&mut self, ev: InputEvent) -> (act: Action)
        requires
            old(self).wf(),
            old(self).modal is TextEditor,
        ensures
            final(self).wf(),
            data_unchanged(old(self), final(self)),
            final(self).model() == editor_step(old(self).model(), ev),
            act is Stay,
    {
        match ev {
            InputEvent::Enter => {
                self.finish_edit();
            },
            InputEvent::Esc => {
                self.modal = Modal::Normal;
            },
            InputEvent::Char(c) => {
                let mut b = match &self.modal {
                    Modal::TextEditor { buffer } => buffer.clone(),
                    _ => String::new(),
                };
                b.push(c);
                self.modal = Modal::TextEditor { buffer: b };
            },
            InputEvent::Backspace => {
                let mut b = match &self.modal {
                    Modal::TextEditor { buffer } => buffer.clone(),
                    _ => String::new(),
                };
                let _ = b.pop();
                self.modal = Modal::TextEditor { buffer: b };
            },
            _ => {},
        }
        Action::Stay
    }

    /// Input while the option picker is open.
    pub fn handle_picker_event(&mut self, ev: InputEvent) -> (act: Action)
        requires
            old(self).wf(),
            old(self).modal is OptionPicker,
        ensures
            final(self).wf(),
            data_unchanged(old(self), final(self)),
            final(self).model() == picker_step(old(self).capabilities, old(self).model(), ev),
            act is Stay,
    {
        match ev {
            InputEvent::Esc => {
                self.modal = Modal::Normal;
            },
            InputEvent::Down => {
                self.move_picker_down();
            },
            InputEvent::Up => {
                self.move_picker_up();
            },
            InputEvent::Char(c) => {
                if c == 'j' {
                    self.move_picker_down();
                } else if c == 'k' {
                    self.move_picker_up();
                }
            },
            InputEvent::Enter => {
                self.select_option();
            },
            _ => {},
        }
        Action::Stay
    }

    fn move_picker_down(&mut self)
        requires
            old(self).modal is OptionPicker,
        ensures
            data_unchanged(old(self), final(self)),
            final(self).model() == (match old(self).model().modal {
                ModalModel::OptionPicker { index } => AppModel {
                    modal: ModalModel::OptionPicker {
                        index: bumped_cursor(
                            index,
                            schema_ids(old(self).capabilities, old(self).current_field).len()
                                as int,
                        ),
                    },
                    ..old(self).model()
                },
                _ => old(self).model(),
            }),
    {
        let len = self.get_current_options().len();
        let idx = match &self.modal {
            Modal::OptionPicker { index } => *index,
            _ => 0,
        };
        if len > 0 {
            self.modal = Modal::OptionPicker {
                index: if idx >= len - 1 {
                    0
                } else {
                    idx + 1
                },
            };
        }
    }

    fn move_picker_up(&mut self)
        requires
            old(self).modal is OptionPicker,
        ensures
            data_unchanged(old(self), final(self)),
            final(self).model() == (match old(self).model().modal {
                ModalModel::OptionPicker { index } => AppModel {
                    modal: ModalModel::OptionPicker {
                        index: dropped_cursor(
                            index,
                            schema_ids(old(self).capabilities, old(self).current_field).len()
                                as int,
                        ),
                    },
                    ..old(self).model()
                },
                _ => old(self).model(),
            }),
    {
        let len = self.get_current_options().len();
        let idx = match &self.modal {
            Modal::OptionPicker { index } => *index,
            _ => 0,
        };
        if len > 0 {
            self.modal = Modal::OptionPicker {
                index: if idx == 0 {
                    len - 1
                } else {
                    idx - 1
                },
            };
        }
    }

    /// Input while the export dialog is open.  Confirming asks the shell
    /// to write the file; every other key edits the dialog.
    pub fn handle_export_event(&mut self, ev: InputEvent) -> (act: Action)
        requires
            old(self).wf(),
            old(self).modal is ExportDialog,
        ensures
            final(self).wf(),
            data_unchanged(old(self), final(self)),
            final(self).model() == export_step(old(self).model(), ev),
            ev != InputEvent::Enter ==> act is Stay,
            ev == InputEvent::Enter ==> (act matches Action::Export { file_type, filename }
                && file_type == export_type_of(old(self).model().export_format_idx) && (
            match filename {
                Option::Some(f) => f@ == old(self).model().export_filename && old(
                    self,
                ).model().export_filename.len() > 0,
                Option::None => old(self).model().export_filename.len() == 0,
            })),
    {
        let focus = match &self.modal {
            Modal::ExportDialog { focus_filename } => *focus_filename,
            _ => true,
        };
        match ev {
            InputEvent::Esc => {
                self.modal = Modal::Normal;
                Action::Stay
            },
            InputEvent::Tab => {
                self.modal = Modal::ExportDialog { focus_filename: !focus };
                Action::Stay
            },
            InputEvent::Left => {
                if !focus && self.export_format_idx > 0 {
                    self.export_format_idx = self.export_format_idx - 1;
                }
                Action::Stay
            },
            InputEvent::Right => {
                if !focus && self.export_format_idx < 2 {
                    self.export_format_idx = self.export_format_idx + 1;
                }
                Action::Stay
            },
            InputEvent::Char(c) => {
                if c == 'h' {
                    if !focus && self.export_format_idx > 0 {
                        self.export_format_idx = self.export_format_idx - 1;
                    }
                } else if c == 'l' {
                    if !focus && self.export_format_idx < 2 {
                        self.export_format_idx = self.export_format_idx + 1;
                    }
                } else if focus {
                    self.export_filename.push(c);
                }
                Action::Stay
            },
            InputEvent::Backspace => {
                if focus {
                    let _ = self.export_filename.pop();
                }
                Action::Stay
            },
            InputEvent::Enter => {
                let file_type = if self.export_format_idx == 0 {
                    FileType::Yaml
                } else if self.export_format_idx == 1 {
                    FileType::Json
                } else {
                    FileType::Toml
                };
                let filename = if self.export_filename.as_str().unicode_len() == 0 {
                    Option::None
                } else {
                    Option::Some(self.export_filename.clone())
                };
                self.modal = Modal::Normal;
                Action::Export { file_type, filename }
            },
            _ => Action::Stay,
        }
    }

    /// Input while the settings overlay is open.
    pub fn handle_settings_event(&mut self, ev: InputEvent) -> (act: Action)
        requires
            old(self).wf(),
            old(self).modal is SettingsDialog,
        ensures
            final(self).wf(),
            data_unchanged(old(self), final(self)),
            final(self).model() == settings_step(old(self).model(), ev),
            act is Stay,
    {
        match ev {
            InputEvent::Esc => {
                self.modal = Modal::Normal;
            },
            InputEvent::Enter => {
                self.extract_project = !self.extract_project;
            },
            InputEvent::Char(c) => {
                if c == 'C' {
                    self.modal = Modal::Normal;
                } else if c == ' ' {
                    self.extract_project = !self.extract_project;
                }
            },
            _ => {},
        }
        Action::Stay
    }

    /// Input while a message dialog is open: any dismissing key closes
    /// it, everything else is swallowed.
    pub fn handle_message_event(&mut self, ev: InputEvent) -> (act: Action)
        requires
            old(self).wf(),
            old(self).modal is MessageDialog,
        ensures
            final(self).wf(),
            data_unchanged(old(self), final(self)),
            final(self).model() == message_step(old(self).model(), ev),
            act is Stay,
    {
        match ev {
            InputEvent::Esc | InputEvent::Enter => {
                self.modal = Modal::Normal;
            },
            InputEvent::Char(c) => {
                if c == ' ' {
                    self.modal = Modal::Normal;
                }
            },
            _ => {},
        }
        Action::Stay
    }

    /// Input in the base state: navigation, the dependency list, the
    /// overlay-opening keys, quitting, and the generate action.
    pub fn handle_normal_event(&mut self, ev: InputEvent) -> (act: Action)
        requires
            old(self).wf(),
            old(self).modal is Normal,
        ensures
            final(self).wf(),
            data_unchanged(old(self), final(self)),
            final(self).model() == normal_step(
                old(self).capabilities,
                old(self).options_model(),
                old(self).model(),
                ev,
            ),
            act is Quit <==> (ev == InputEvent::Char('q') || ev == InputEvent::Char('Q')),
            act is Generate <==> (ev == InputEvent::Enter && old(self).current_field
                == Field::Generate && old(self).active_pane == ActivePane::Config),
            !(act is Export),
    {
        match ev {
            InputEvent::Tab => {
                self.toggle_pane();
                Action::Stay
            },
            InputEvent::Down => {
                if matches!(self.active_pane, ActivePane::Config) {
                    self.next_field();
                } else {
                    self.next_dependency();
                }
                Action::Stay
            },
            InputEvent::Up => {
                if matches!(self.active_pane, ActivePane::Config) {
                    self.previous_field();
                } else {
                    self.previous_dependency();
                }
                Action::Stay
            },
            InputEvent::Enter => {
                if matches!(self.active_pane, ActivePane::Config) {
                    if matches!(self.current_field, Field::Generate) {
                        self.status_message = "Generating...".to_owned();
                        Action::Generate
                    } else if matches!(self.current_field, Field::Export) {
                        self.modal = Modal::ExportDialog { focus_filename: true };
                        Action::Stay
                    } else {
                        let options = self.get_current_options();
                        if options.len() > 0 {
                            let cur = self.current_value_string();
                            let seed = match crate::schema::find_index(&options, cur.as_str()) {
                                Option::Some(i) => i,
                                Option::None => 0,
                            };
                            self.modal = Modal::OptionPicker { index: seed };
                        } else {
                            self.start_edit();
                        }
                        Action::Stay
                    }
                } else {
                    self.toggle_dependency();
                    Action::Stay
                }
            },
            InputEvent::Backspace => {
                if matches!(self.active_pane, ActivePane::Dependencies)
                    && self.deps_search.as_str().unicode_len() > 0 {
                    let _ = self.deps_search.pop();
                    self.deps_cursor = 0;
                }
                Action::Stay
            },
            InputEvent::Char(c) => {
                if c == 'q' || c == 'Q' {
                    Action::Quit
                } else if c == 'C' {
                    self.modal = Modal::SettingsDialog;
                    Action::Stay
                } else if c == 'j' {
                    if matches!(self.active_pane, ActivePane::Config) {
                        self.next_field();
                    } else {
                        self.next_dependency();
                    }
                    Action::Stay
                } else if c == 'k' {
                    if matches!(self.active_pane, ActivePane::Config) {
                        self.previous_field();
                    } else {
                        self.previous_dependency();
                    }
                    Action::Stay
                } else if c == ' ' {
                    if matches!(self.active_pane, ActivePane::Dependencies) {
                        self.toggle_dependency();
                    }
                    Action::Stay
                } else if !char_is_control(c) {
                    if matches!(self.active_pane, ActivePane::Dependencies) {
                        self.deps_search.push(c);
                        self.deps_cursor = 0;
                    } else if c == 'g' || c == 'G' {
                        self.current_field = Field::Generate;
                    }
                    Action::Stay
                } else {
                    Action::Stay
                }
            },
            _ => Action::Stay,
        }
    }

    /// One step of the session: the event goes to whichever modal layer
    /// is active, and the returned action is what the shell must now do.
    /// Only the base state can quit or generate; only the export dialog
    /// can ask for a file to be written.
    pub fn handle_event(&mut self, ev: InputEvent) -> (act: Action)
        requires
            old(self).wf(),
        ensures
            final(self).wf(),
            data_unchanged(old(self), final(self)),
            final(self).model() == (match old(self).model().modal {
                ModalModel::Normal => normal_step(
                    old(self).capabilities,
                    old(self).options_model(),
                    old(self).model(),
                    ev,
                ),
                ModalModel::TextEditor { .. } => editor_step(old(self).model(), ev),
                ModalModel::OptionPicker { .. } => picker_step(
                    old(self).capabilities,
                    old(self).model(),
                    ev,
                ),
                ModalModel::ExportDialog { .. } => export_step(old(self).model(), ev),
                ModalModel::SettingsDialog => settings_step(old(self).model(), ev),
                ModalModel::MessageDialog { .. } => message_step(old(self).model(), ev),
            }),
            act is Quit <==> (old(self).modal is Normal && (ev == InputEvent::Char('q') || ev
                == InputEvent::Char('Q'))),
            act is Generate <==> (old(self).modal is Normal && ev == InputEvent::Enter && old(
                self,
            ).current_field == Field::Generate && old(self).active_pane == ActivePane::Config),
            act is Export ==> old(self).modal is ExportDialog && ev == InputEvent::Enter,
            (old(self).modal is ExportDialog && ev == InputEvent::Enter) ==> (act matches
            Action::Export { file_type, filename } && file_type == export_type_of(
                old(self).model().export_format_idx,
            ) && (match filename {
                Option::Some(f) => f@ == old(self).model().export_filename && old(
                    self,
                ).model().export_filename.len() > 0,
                Option::None => old(self).model().export_filename.len() == 0,
            })),
    {
        match &self.modal {
            Modal::Normal => self.handle_normal_event(ev),
            Modal::TextEditor { .. } => self.handle_editor_event(ev),
            Modal::OptionPicker { .. } => self.handle_picker_event(ev),
            Modal::ExportDialog { .. } => self.handle_export_event(ev),
            Modal::SettingsDialog => self.handle_settings_event(ev),
            Modal::MessageDialog { .. } => self.handle_message_event(ev),
        }
    }
}

} // verus!
