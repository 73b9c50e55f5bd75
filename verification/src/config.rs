//! The transformer's configuration and the options of one compilation pass.

use crate::resolve::{resolve_all, resolved_jobs};
use vstd::prelude::*;

verus! {

/// Settings handed unchanged to every transformation of a run.
#[derive(Debug)]
pub struct CompilerConfig {
    pub target: String,
    pub module: String,
    pub strict: bool,
    pub emit_decorators_metadata: bool,
}

/// The mathematical content of a `CompilerConfig`.
pub struct ConfigView {
    pub target: Seq<char>,
    pub module: Seq<char>,
    pub strict: bool,
    pub emit_decorators_metadata: bool,
}

impl View for CompilerConfig {
    type V = ConfigView;

    open spec fn view(&self) -> ConfigView {
        ConfigView {
            target: self.target@,
            module: self.module@,
            strict: self.strict,
            emit_decorators_metadata: self.emit_decorators_metadata,
        }
    }
}

/// The configuration used when none is supplied.
pub open spec fn default_config() -> ConfigView {
    ConfigView {
        target: "es2022"@,
        module: "commonjs"@,
        strict: true,
        emit_decorators_metadata: true,
    }
}

impl Default for CompilerConfig {
    fn default() -> (config: Self)
        ensures
            config@ == default_config(),
    {
        CompilerConfig {
            target: "es2022".to_owned(),
            module: "commonjs".to_owned(),
            strict: true,
            emit_decorators_metadata: true,
        }
    }
}

impl Clone for CompilerConfig {
    fn clone(&self) -> (copy: Self)
        ensures
            copy == *self,
    {
        CompilerConfig {
            target: self.target.clone(),
            module: self.module.clone(),
            strict: self.strict,
            emit_decorators_metadata: self.emit_decorators_metadata,
        }
    }
}

impl CompilerConfig {
    /// A configuration with the given settings.
    pub fn new(target: String, module: String, strict: bool, emit_decorators_metadata: bool) -> (config:
        Self)
        ensures
            config.target == target,
            config.module == module,
            config.strict == strict,
            config.emit_decorators_metadata == emit_decorators_metadata,
    {
        CompilerConfig { target, module, strict, emit_decorators_metadata }
    }
}

/// What one compilation pass works on: the candidate entries, how their
/// components are joined, which entries are selected, and the configuration.
#[derive(Debug, Clone)]
pub struct Option {
    pub entry: Vec<Vec<String>>,
    pub separator: char,
    pub pattern: String,
    pub config: CompilerConfig,
}

/// The mathematical content of an `Option`.
pub struct OptionsView {
    pub entry: Seq<Seq<Seq<char>>>,
    pub separator: char,
    pub pattern: Seq<char>,
    pub config: ConfigView,
}

impl View for Option {
    type V = OptionsView;

    open spec fn view(&self) -> OptionsView {
        OptionsView {
            entry: self.entry.deep_view(),
            separator: self.separator,
            pattern: self.pattern@,
            config: self.config@,
        }
    }
}

/// The options whose only entry is the single component `path`.
pub open spec fn single_entry(
    path: Seq<char>,
    separator: char,
    pattern: Seq<char>,
    config: ConfigView,
) -> OptionsView {
    OptionsView { entry: seq![seq![path]], separator, pattern, config }
}

/// The jobs that a pass over these options works on.
pub open spec fn jobs_of(options: OptionsView) -> Seq<Seq<char>> {
    resolved_jobs(options.entry, options.pattern, options.separator)
}

/// The one entry `[path]`.
fn entry_of(path: String) -> (entry: Vec<Vec<String>>)
    ensures
        entry.deep_view() == seq![seq![path@]],
{
    let mut components: Vec<String> = Vec::new();
    components.push(path);
    let mut entry: Vec<Vec<String>> = Vec::new();
    entry.push(components);
    proof {
        assert(entry[0].deep_view() =~= seq![path@]);
        assert(entry.deep_view() =~= seq![seq![path@]]);
    }
    entry
}

impl Option {
    /// Options that select TypeScript sources: no entries yet, and the
    /// pattern `.ts`.
    pub fn typescript(separator: char, config: CompilerConfig) -> (options: Self)
        ensures
            options@ == (OptionsView {
                entry: Seq::empty(),
                separator,
                pattern: ".ts"@,
                config: config@,
            }),
    {
        let entry: Vec<Vec<String>> = Vec::new();
        proof {
            assert(entry.deep_view() =~= Seq::<Seq<Seq<char>>>::empty());
        }
        Option { entry, separator, pattern: ".ts".to_owned(), config }
    }

    /// The options of a pass over one changed file: that file as the only
    /// entry, everything else as in `self`.
    pub fn for_file(&self, path: String) -> (options: Self)
        ensures
            options@ == single_entry(path@, self.separator, self.pattern@, self.config@),
    {
        Option {
            entry: entry_of(path),
            separator: self.separator,
            pattern: self.pattern.clone(),
            config: self.config.clone(),
        }
    }

    /// The paths of the jobs of this pass, in the order of their entries.
    pub fn resolve(&self) -> (jobs: Vec<String>)
        ensures
            jobs.deep_view() == jobs_of(self@),
    {
        resolve_all(&self.entry, self.pattern.as_str(), self.separator)
    }
}

} // verus!
