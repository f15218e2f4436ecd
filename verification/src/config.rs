//! Build configuration: the five text fields that drive one container
//! image build, their validity invariant, and the error taxonomy shared
//! by the whole library.

use vstd::prelude::*;
use vstd::string::*;

verus! {

/// Configuration for one container image build. All five fields are
/// plain text; `target_image` and `base_image` must be non-empty, and
/// no field may contain a template-control or shell metacharacter
/// (see [`safe_char`]). The invariant is captured by [`config_wf`] and
/// enforced by [`validate`] before any rendering or invocation.
#[derive(Debug, Clone)]
pub struct ContainerBuildConfig {
    /// Fully qualified output image reference.
    pub target_image: String,
    /// Base image reference for both the build and the run stage.
    pub base_image: String,
    /// Space-joined package names installed only in the build stage.
    pub build_deps: String,
    /// Space-joined package names installed only in the run stage.
    pub runtime_deps: String,
    /// Name of the produced binary; copied out of the build stage and
    /// installed as the runtime image's entrypoint.
    pub artifact: String,
}

/// Identifies the configuration field that a `ConfigError` rejects.
#[derive(Debug, Clone, Copy, PartialEq, Eq, Structural)]
pub enum ConfigField {
    TargetImage,
    BaseImage,
    BuildDeps,
    RuntimeDeps,
    Artifact,
}

/// Everything that can go wrong while preparing or running a build:
/// a rejected configuration field, a rendering failure (defensive:
/// the typed fields make it unreachable here), a working-directory or
/// file-write failure, a build engine that could not be launched, and
/// a build engine that exited with the carried non-zero status.
#[derive(Debug, Clone, Copy, PartialEq, Eq, Structural)]
pub enum BuildError {
    ConfigError(ConfigField),
    TemplateError,
    IOError,
    ProcessSpawnError,
    ProcessExitError(i32),
}

/// A character acceptable inside a configuration field: anything but
/// the template braces, line breaks, and shell metacharacters, so that
/// a substituted value can neither open a new description instruction
/// nor escape into the shell.
pub open spec fn safe_char(c: char) -> bool {
    &&& c != '{'
    &&& c != '}'
    &&& c != '\n'
    &&& c != '\r'
    &&& c != '$'
    &&& c != '`'
    &&& c != ';'
    &&& c != '&'
    &&& c != '|'
    &&& c != '<'
    &&& c != '>'
    &&& c != '"'
    &&& c != '\''
    &&& c != '\\'
}

/// A text value is safe when every one of its characters is.
pub open spec fn safe_text(s: Seq<char>) -> bool {
    forall|i: int| 0 <= i < s.len() ==> safe_char(s[i])
}

/// The configuration invariant: the two image references are non-empty
/// and all five fields are safe text.
pub open spec fn config_wf(c: &ContainerBuildConfig) -> bool {
    &&& c.target_image@.len() > 0
    &&& c.base_image@.len() > 0
    &&& safe_text(c.target_image@)
    &&& safe_text(c.base_image@)
    &&& safe_text(c.build_deps@)
    &&& safe_text(c.runtime_deps@)
    &&& safe_text(c.artifact@)
}

/// The exact result of validation: fields are checked in declaration
/// order and the first violation is reported.
pub open spec fn validate_spec(c: &ContainerBuildConfig) -> Result<(), BuildError> {
    if c.target_image@.len() == 0 || !safe_text(c.target_image@) {
        Err(BuildError::ConfigError(ConfigField::TargetImage))
    } else if c.base_image@.len() == 0 || !safe_text(c.base_image@) {
        Err(BuildError::ConfigError(ConfigField::BaseImage))
    } else if !safe_text(c.build_deps@) {
        Err(BuildError::ConfigError(ConfigField::BuildDeps))
    } else if !safe_text(c.runtime_deps@) {
        Err(BuildError::ConfigError(ConfigField::RuntimeDeps))
    } else if !safe_text(c.artifact@) {
        Err(BuildError::ConfigError(ConfigField::Artifact))
    } else {
        Ok(())
    }
}

fn char_is_safe(c: char) -> (r: bool)
    ensures
        r == safe_char(c),
{
    c != '{' && c != '}' && c != '\n' && c != '\r' && c != '$' && c != '`' && c != ';'
        && c != '&' && c != '|' && c != '<' && c != '>' && c != '"' && c != '\'' && c != '\\'
}

/// Whether every character of `s` is acceptable inside a
/// configuration field.
pub fn text_is_safe(s: &str) -> (r: bool)
    ensures
        r == safe_text(s@),
{
    let n = s.unicode_len();
    let mut i: usize = 0;
    while i < n
        invariant
            0 <= i <= n,
            n == s@.len(),
            forall|j: int| 0 <= j < i ==> safe_char(s@[j]),
        decreases n - i,
    {
        let c = s.get_char(i);
        if !char_is_safe(c) {
            return false;
        }
        i = i + 1;
    }
    true
}

/// Checks the configuration invariant, reporting the first field (in
/// declaration order) that is empty where it may not be or that holds
/// an unsafe character. Returns `Ok` exactly on well-formed
/// configurations.
pub fn validate(c: &ContainerBuildConfig) -> (r: Result<(), BuildError>)
    ensures
        r == validate_spec(c),
        r is Ok <==> config_wf(c),
{
    if c.target_image.as_str().is_empty() || !text_is_safe(c.target_image.as_str()) {
        Err(BuildError::ConfigError(ConfigField::TargetImage))
    } else if c.base_image.as_str().is_empty() || !text_is_safe(c.base_image.as_str()) {
        Err(BuildError::ConfigError(ConfigField::BaseImage))
    } else if !text_is_safe(c.build_deps.as_str()) {
        Err(BuildError::ConfigError(ConfigField::BuildDeps))
    } else if !text_is_safe(c.runtime_deps.as_str()) {
        Err(BuildError::ConfigError(ConfigField::RuntimeDeps))
    } else if !text_is_safe(c.artifact.as_str()) {
        Err(BuildError::ConfigError(ConfigField::Artifact))
    } else {
        Ok(())
    }
}

/// The human-readable message that goes with each error.
pub open spec fn message_spec(e: BuildError) -> Seq<char> {
    match e {
        BuildError::ConfigError(f) => match f {
            ConfigField::TargetImage => "invalid configuration: target image"@,
            ConfigField::BaseImage => "invalid configuration: base image"@,
            ConfigField::BuildDeps => "invalid configuration: build dependencies"@,
            ConfigField::RuntimeDeps => "invalid configuration: runtime dependencies"@,
            ConfigField::Artifact => "invalid configuration: artifact name"@,
        },
        BuildError::TemplateError => "template rendering failed"@,
        BuildError::IOError => "working directory or description file not writable"@,
        BuildError::ProcessSpawnError => "could not launch the container build engine"@,
        BuildError::ProcessExitError(_) => "container build engine exited with a failure status"@,
    }
}

impl BuildError {
    /// A short human-readable description of the failure; the numeric
    /// exit status, where there is one, travels in the variant itself.
    pub fn message(&self) -> (r: String)
        ensures
            r@ == message_spec(*self),
    {
        match *self {
            BuildError::ConfigError(f) => match f {
                ConfigField::TargetImage => String::from_str("invalid configuration: target image"),
                ConfigField::BaseImage => String::from_str("invalid configuration: base image"),
                ConfigField::BuildDeps => String::from_str("invalid configuration: build dependencies"),
                ConfigField::RuntimeDeps => String::from_str("invalid configuration: runtime dependencies"),
                ConfigField::Artifact => String::from_str("invalid configuration: artifact name"),
            },
            BuildError::TemplateError => String::from_str("template rendering failed"),
            BuildError::IOError => String::from_str("working directory or description file not writable"),
            BuildError::ProcessSpawnError => String::from_str("could not launch the container build engine"),
            BuildError::ProcessExitError(_) => String::from_str("container build engine exited with a failure status"),
        }
    }
}

} // verus!
