use cargo_stow::config::validate;
use cargo_stow::config::BuildError;
use cargo_stow::config::ConfigField;
use cargo_stow::config::ContainerBuildConfig;
use cargo_stow::template::render;
use cargo_stow::template::render_checked;

fn sample_config() -> ContainerBuildConfig {
    ContainerBuildConfig {
        target_image: String::from("registry/app:v1"),
        base_image: String::from("ubuntu:22.04"),
        build_deps: String::from("libssl-dev"),
        runtime_deps: String::from("ca-certificates"),
        artifact: String::from("app"),
    }
}

#[test]
fn render_is_deterministic() {
    let c = sample_config();
    let first = render(&c);
    let second = render(&c);
    assert_eq!(first, second);
    let third = render(&c.clone());
    assert_eq!(first, third);
}

#[test]
fn render_exact_text() {
    let c = sample_config();
    let expected = "# target-image: registry/app:v1\n\
FROM ubuntu:22.04 AS builder\n\
\n\
RUN apt update\n\
RUN apt install -yq wget lld\n\
RUN wget https://sh.rustup.rs -O install-rustup.sh\n\
RUN sh install-rustup.sh -y\n\
ENV PATH=$PATH:/root/.cargo/bin\n\
RUN rustup toolchain install stable\n\
RUN apt install -yq libssl-dev\n\
RUN apt install -yq clang\n\
\n\
RUN mkdir /work /artifacts\n\
WORKDIR /work\n\
COPY target /work/target\n\
COPY Cargo.* /work/\n\
RUN --mount=type=bind,source=src,target=src \\\n    \
--mount=type=cache,target=/usr/local/cargo/registry/ \\\n    \
cargo build && cp /work/target/debug/app /artifacts/\n\
\n\
FROM ubuntu:22.04 AS runner\n\
RUN apt update\n\
RUN apt install -yq ca-certificates\n\
COPY --from=builder /artifacts/app /usr/bin/app\n\
\n\
ENTRYPOINT [\"/usr/bin/app\"]\n";
    assert_eq!(render(&c), expected);
}

#[test]
fn example_scenario_slots() {
    let c = sample_config();
    let text = render(&c);
    assert!(text.contains("FROM ubuntu:22.04 AS builder"));
    assert!(text.contains("RUN apt install -yq libssl-dev\n"));
    assert!(text.contains("cp /work/target/debug/app /artifacts/"));
    assert!(text.contains("FROM ubuntu:22.04 AS runner"));
    assert!(text.contains("RUN apt install -yq ca-certificates\n"));
    assert!(text.contains("COPY --from=builder /artifacts/app /usr/bin/app"));
    assert!(text.contains("ENTRYPOINT [\"/usr/bin/app\"]"));
}

#[test]
fn marker_appears_only_in_its_slot() {
    let c = ContainerBuildConfig {
        target_image: String::from("MARKER_TARGET"),
        base_image: String::from("MARKER_BASE"),
        build_deps: String::from("MARKER_BUILD_DEPS"),
        runtime_deps: String::from("MARKER_RUNTIME_DEPS"),
        artifact: String::from("MARKER_ARTIFACT"),
    };
    let text = render(&c);
    // One slot per field, except the base image (both stage headers)
    // and the artifact (compile copy, stage copy with two sides, and
    // the entrypoint).
    assert_eq!(text.matches("MARKER_TARGET").count(), 1);
    assert_eq!(text.matches("MARKER_BASE").count(), 2);
    assert_eq!(text.matches("MARKER_BUILD_DEPS").count(), 1);
    assert_eq!(text.matches("MARKER_RUNTIME_DEPS").count(), 1);
    assert_eq!(text.matches("MARKER_ARTIFACT").count(), 4);
    assert!(text.starts_with("# target-image: MARKER_TARGET\n"));
    assert!(text.contains("RUN apt install -yq MARKER_BUILD_DEPS\n"));
    assert!(text.contains("RUN apt install -yq MARKER_RUNTIME_DEPS\n"));
}

#[test]
fn empty_deps_omit_install_instruction() {
    let mut c = sample_config();
    c.build_deps = String::new();
    c.runtime_deps = String::new();
    let text = render(&c);
    assert!(!text.contains("RUN apt install -yq \n"));
    assert!(!text.contains("RUN apt install -yq\n"));
    // The fixed toolchain installs are still there.
    assert!(text.contains("RUN apt install -yq wget lld\n"));
    assert!(text.contains("RUN apt install -yq clang\n"));
}

#[test]
fn deps_round_trip_changes_only_install_line() {
    let full = sample_config();
    let mut no_build_deps = sample_config();
    no_build_deps.build_deps = String::new();
    let mut no_runtime_deps = sample_config();
    no_runtime_deps.runtime_deps = String::new();

    let text_full = render(&full);
    let text_no_bd = render(&no_build_deps);
    let text_no_rd = render(&no_runtime_deps);

    // Dropping the one install line of the full rendering gives the
    // empty-deps rendering back, byte for byte: nothing else moved.
    assert_eq!(text_full.replacen("RUN apt install -yq libssl-dev\n", "", 1), text_no_bd);
    assert_eq!(text_full.replacen("RUN apt install -yq ca-certificates\n", "", 1), text_no_rd);
}

#[test]
fn validate_accepts_sample() {
    assert_eq!(validate(&sample_config()), Ok(()));
}

#[test]
fn validate_rejects_empty_target_image() {
    let mut c = sample_config();
    c.target_image = String::new();
    assert_eq!(validate(&c), Err(BuildError::ConfigError(ConfigField::TargetImage)));
}

#[test]
fn validate_rejects_empty_base_image() {
    let mut c = sample_config();
    c.base_image = String::new();
    assert_eq!(validate(&c), Err(BuildError::ConfigError(ConfigField::BaseImage)));
}

#[test]
fn validate_rejects_metacharacters() {
    let mut c = sample_config();
    c.target_image = String::from("registry/app:v1\nFROM scratch");
    assert_eq!(validate(&c), Err(BuildError::ConfigError(ConfigField::TargetImage)));

    let mut c = sample_config();
    c.base_image = String::from("ubuntu:{tag}");
    assert_eq!(validate(&c), Err(BuildError::ConfigError(ConfigField::BaseImage)));

    let mut c = sample_config();
    c.build_deps = String::from("libssl-dev; rm -rf /");
    assert_eq!(validate(&c), Err(BuildError::ConfigError(ConfigField::BuildDeps)));

    let mut c = sample_config();
    c.runtime_deps = String::from("ca-certificates | tee");
    assert_eq!(validate(&c), Err(BuildError::ConfigError(ConfigField::RuntimeDeps)));

    let mut c = sample_config();
    c.artifact = String::from("app\"");
    assert_eq!(validate(&c), Err(BuildError::ConfigError(ConfigField::Artifact)));
}

#[test]
fn validate_allows_spaces_in_dependency_lists() {
    let mut c = sample_config();
    c.build_deps = String::from("libssl-dev pkg-config cmake");
    assert_eq!(validate(&c), Ok(()));
}

#[test]
fn render_checked_rejects_bad_config() {
    let mut c = sample_config();
    c.artifact = String::from("app`whoami`");
    assert_eq!(render_checked(&c), Err(BuildError::ConfigError(ConfigField::Artifact)));
}

#[test]
fn render_checked_matches_render() {
    let c = sample_config();
    assert_eq!(render_checked(&c), Ok(render(&c)));
}

#[test]
fn error_messages() {
    assert_eq!(
        BuildError::ConfigError(ConfigField::TargetImage).message(),
        "invalid configuration: target image"
    );
    assert_eq!(
        BuildError::ProcessSpawnError.message(),
        "could not launch the container build engine"
    );
    assert_eq!(
        BuildError::ProcessExitError(42).message(),
        "container build engine exited with a failure status"
    );
    assert_eq!(
        BuildError::IOError.message(),
        "working directory or description file not writable"
    );
    assert_eq!(BuildError::TemplateError.message(), "template rendering failed");
}
