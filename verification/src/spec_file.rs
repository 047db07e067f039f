//! Configuration files, from reading over validation to the pack.

use vstd::prelude::*;
use crate::config_parser::{self, DomainPackConfig, DomainPackConfigView};
use crate::domain_pack::DomainPack;
use crate::domain_spec;
use crate::duplicate::Duplicate;
use crate::validator::{self, DomainPackValidator, ValidationResult, ValidationResultView};

verus! {

/// A configuration of a pack, and the file that it comes from.
#[derive(Debug, PartialEq)]
pub struct DomainPackSpecFile {
    /// The configuration.
    pub config: DomainPackConfig,
    /// The path of the file, where there is one.
    pub source_path: Option<String>,
}

/// The contents of a [`DomainPackSpecFile`].
#[verifier::ext_equal]
pub struct DomainPackSpecFileView {
    pub config: DomainPackConfigView,
    pub source_path: Option<Seq<char>>,
}

impl DeepView for DomainPackSpecFile {
    type V = DomainPackSpecFileView;

    open spec fn deep_view(&self) -> DomainPackSpecFileView {
        DomainPackSpecFileView {
            config: self.config.deep_view(),
            source_path: self.source_path.deep_view(),
        }
    }
}

impl Duplicate for DomainPackSpecFile {
    fn duplicate(&self) -> (copy: Self) {
        DomainPackSpecFile {
            config: self.config.duplicate(),
            source_path: self.source_path.duplicate(),
        }
    }
}

impl Clone for DomainPackSpecFile {
    fn clone(&self) -> (copy: Self)
        ensures
            copy.deep_view() == self.deep_view(),
    {
        self.duplicate()
    }
}

/// What is amiss with a configuration.
pub open spec fn result_of(config: DomainPackConfigView) -> ValidationResultView {
    ValidationResultView { issues: validator::issues_of(config) }
}

/// The first that there is.
pub open spec fn first_loaded(found: Seq<Option<DomainPackSpecFileView>>) -> Option<
    DomainPackSpecFileView,
>
    decreases found.len(),
{
    if found.len() == 0 {
        None
    } else if found[0].is_some() {
        found[0]
    } else {
        first_loaded(found.drop_first())
    }
}

impl DomainPackSpecFile {
    /// The file at a path, given its extension and what it was read as.
    ///
    /// A file of another extension is refused, whatever it was read as; one that
    /// could not be read is refused with what was said of it.
    pub fn load(path: &str, extension: &str, parsed: &Result<DomainPackConfig, String>) -> (r: Result<
        Self,
        String,
    >)
        ensures
            r.is_ok() == (config_parser::format_of(extension@).is_some() && parsed.is_ok()),
            r matches Ok(file) ==> file.deep_view() == (DomainPackSpecFileView {
                config: parsed->Ok_0.deep_view(),
                source_path: Some(path@),
            }),
            r matches Err(error) ==> error@ == if config_parser::format_of(extension@).is_none() {
                config_parser::unknown_extension("spec"@, extension@)
            } else {
                parsed->Err_0@
            },
    {
        match config_parser::config_format(extension) {
            None => Err(config_parser::unknown_extension_message("spec", extension)),
            Some(_) => match parsed {
                Ok(config) => Ok(
                    DomainPackSpecFile {
                        config: config.clone(),
                        source_path: Some(path.to_string()),
                    },
                ),
                Err(error) => Err(error.clone()),
            },
        }
    }

    /// A configuration that comes from no file.
    pub fn from_config(config: DomainPackConfig) -> (r: Self)
        ensures
            r.deep_view() == (DomainPackSpecFileView {
                config: config.deep_view(),
                source_path: None,
            }),
    {
        DomainPackSpecFile { config, source_path: None }
    }

    /// What is amiss with the configuration.
    pub fn validate(&self) -> (r: ValidationResult)
        ensures
            r.deep_view() == result_of(self.deep_view().config),
    {
        DomainPackValidator::validate(&self.config)
    }

    /// The pack of the configuration, valid or not.
    pub fn build(&self, project_dir: &str) -> (r: DomainPack)
        ensures
            r.deep_view() == config_parser::resolved(self.deep_view().config, project_dir@),
    {
        config_parser::resolve_config(&self.config, project_dir)
    }

    /// The pack of the configuration where it is valid, and what is amiss where
    /// it is not.
    pub fn validate_and_build(&self, project_dir: &str) -> (r: Result<DomainPack, ValidationResult>)
        ensures
            r.is_ok() == result_of(self.deep_view().config).valid(),
            r matches Ok(pack) ==> pack.deep_view() == config_parser::resolved(
                self.deep_view().config,
                project_dir@,
            ),
            r matches Err(result) ==> result.deep_view() == result_of(self.deep_view().config),
    {
        let result = self.validate();
        if result.is_valid() {
            Ok(self.build(project_dir))
        } else {
            Err(result)
        }
    }

    /// The file of a project, given for each name of a configuration file, in the
    /// order in which they are looked for, the file where it is there and can be
    /// loaded.
    pub fn search_dir(found: &Vec<Option<DomainPackSpecFile>>) -> (r: Option<Self>)
        ensures
            r.deep_view() == first_loaded(found.deep_view()),
    {
        let ghost all = found.deep_view();
        let mut i: usize = 0;
        assert(all.skip(0) =~= all);
        while i < found.len()
            invariant
                i <= found.len(),
                all == found.deep_view(),
                first_loaded(all) == first_loaded(all.skip(i as int)),
            decreases found.len() - i,
        {
            assert(all.skip(i as int)[0] == found@[i as int].deep_view());
            assert(all.skip(i as int).drop_first() =~= all.skip(i + 1));
            match &found[i] {
                Some(file) => {
                    return Some(file.clone());
                },
                None => {},
            }
            i = i + 1;
        }
        None
    }
}

// ─── Laws ───────────────────────────────────────────────────────────────────

/// A file that comes first in the search wins over the later ones.
pub proof fn law_first_file_wins(found: Seq<Option<DomainPackSpecFileView>>, i: int)
    requires
        0 <= i < found.len(),
        found[i].is_some(),
        forall|k: int| 0 <= k < i ==> (#[trigger] found[k]).is_none(),
    ensures
        first_loaded(found) == found[i],
    decreases i,
{
    if i > 0 {
        let rest = found.drop_first();
        assert(found[0].is_none());
        assert forall|k: int| 0 <= k < i - 1 implies (#[trigger] rest[k]).is_none() by {
            assert(rest[k] == found[k + 1]);
        }
        assert(rest[i - 1] == found[i]);
        law_first_file_wins(rest, i - 1);
    }
}

/// What is found amiss with a file is what is amiss with its configuration: it is valid only
/// with a name, with tools and sources that are known and stand there once, and with
/// strategies that are complete; and it is found amiss for each tool that is not known.
pub proof fn law_file_is_held_to_the_rules(config: DomainPackConfigView, i: int)
    ensures
        result_of(config).valid() ==> {
            &&& 0 < config.name.len() <= 64
            &&& validator::known_and_distinct(config.tools, domain_spec::known_tools())
            &&& validator::known_and_distinct(config.context_sources, domain_spec::known_sources())
            &&& 0 <= i < config.paradigm_strategies.len() ==> validator::sound_strategy(
                config.paradigm_strategies[i],
            )
        },
        0 <= i < config.tools.len() && !domain_spec::known_tools().contains(config.tools[i])
            ==> !result_of(config).valid(),
{
    validator::law_valid_exactly_when(config);
    if 0 <= i < config.tools.len() && result_of(config).valid() {
        assert(validator::known_and_distinct(config.tools, domain_spec::known_tools()));
        assert(domain_spec::known_tools().contains(config.tools[i]));
    }
}

} // verus!
