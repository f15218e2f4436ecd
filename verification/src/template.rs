//! Rendering of the two-stage image-build description.
//!
//! The template is fixed and owned by this module; rendering is a pure
//! literal substitution of the five configuration fields into their
//! slots. The spec [`rendered_spec`] pins every byte of the output, so
//! rendering is deterministic by contract. When a dependency list is
//! empty its install instruction is omitted entirely rather than
//! emitted with an empty argument list.

use crate::config::config_wf;
use crate::config::validate;
use crate::config::validate_spec;
use crate::config::BuildError;
use crate::config::ContainerBuildConfig;
use vstd::prelude::*;
use vstd::string::*;

verus! {

/// The install instruction for a space-joined dependency list, or
/// nothing at all when the list is empty.
pub open spec fn install_line(deps: Seq<char>) -> Seq<char> {
    if deps.len() == 0 {
        Seq::<char>::empty()
    } else {
        "RUN apt install -yq "@ + deps + "\n"@
    }
}

/// Everything before the build-dependency install slot: the leading
/// target-image comment, the builder stage header, and the fixed
/// toolchain setup.
pub open spec fn builder_head(target: Seq<char>, base: Seq<char>) -> Seq<char> {
    "# target-image: "@ + target + "\nFROM "@ + base
        + " AS builder\n\nRUN apt update\nRUN apt install -yq wget lld\nRUN wget https://sh.rustup.rs -O install-rustup.sh\nRUN sh install-rustup.sh -y\nENV PATH=$PATH:/root/.cargo/bin\nRUN rustup toolchain install stable\n"@
}

/// From after the build-dependency slot through the runner stage
/// header: compile, stage the artifact, and start the run stage fresh
/// from the base image.
pub open spec fn builder_tail(base: Seq<char>, artifact: Seq<char>) -> Seq<char> {
    "RUN apt install -yq clang\n\nRUN mkdir /work /artifacts\nWORKDIR /work\nCOPY target /work/target\nCOPY Cargo.* /work/\nRUN --mount=type=bind,source=src,target=src \\\n    --mount=type=cache,target=/usr/local/cargo/registry/ \\\n    cargo build && cp /work/target/debug/"@
        + artifact + " /artifacts/\n\nFROM "@ + base + " AS runner\nRUN apt update\n"@
}

/// Everything after the runtime-dependency slot: copy the artifact out
/// of the builder stage and install it as the entrypoint.
pub open spec fn runner_tail(artifact: Seq<char>) -> Seq<char> {
    "COPY --from=builder /artifacts/"@ + artifact + " /usr/bin/"@ + artifact
        + "\n\nENTRYPOINT [\"/usr/bin/"@ + artifact + "\"]\n"@
}

/// The full rendered description: a function of the five field views
/// alone, assembled from the fixed literal parts and the five slots.
pub open spec fn rendered_spec(c: &ContainerBuildConfig) -> Seq<char> {
    builder_head(c.target_image@, c.base_image@) + install_line(c.build_deps@)
        + builder_tail(c.base_image@, c.artifact@) + install_line(c.runtime_deps@)
        + runner_tail(c.artifact@)
}

fn append_install(out: &mut String, deps: &str)
    ensures
        final(out)@ == old(out)@ + install_line(deps@),
{
    if !deps.is_empty() {
        out.append("RUN apt install -yq ");
        out.append(deps);
        out.append("\n");
        assert(out@ =~= old(out)@ + install_line(deps@));
    } else {
        assert(out@ =~= old(out)@ + install_line(deps@));
    }
}

/// Renders the image-build description for a well-formed
/// configuration. Pure: the result is exactly [`rendered_spec`], a
/// function of the field values alone, so two calls on equal
/// configurations give byte-identical text.
pub fn render(c: &ContainerBuildConfig) -> (r: String)
    requires
        config_wf(c),
    ensures
        r@ == rendered_spec(c),
{
    let mut out = String::from_str("# target-image: ");
    out.append(c.target_image.as_str());
    out.append("\nFROM ");
    out.append(c.base_image.as_str());
    out.append(
        " AS builder\n\nRUN apt update\nRUN apt install -yq wget lld\nRUN wget https://sh.rustup.rs -O install-rustup.sh\nRUN sh install-rustup.sh -y\nENV PATH=$PATH:/root/.cargo/bin\nRUN rustup toolchain install stable\n",
    );
    append_install(&mut out, c.build_deps.as_str());
    out.append(
        "RUN apt install -yq clang\n\nRUN mkdir /work /artifacts\nWORKDIR /work\nCOPY target /work/target\nCOPY Cargo.* /work/\nRUN --mount=type=bind,source=src,target=src \\\n    --mount=type=cache,target=/usr/local/cargo/registry/ \\\n    cargo build && cp /work/target/debug/",
    );
    out.append(c.artifact.as_str());
    out.append(" /artifacts/\n\nFROM ");
    out.append(c.base_image.as_str());
    out.append(" AS runner\nRUN apt update\n");
    append_install(&mut out, c.runtime_deps.as_str());
    out.append("COPY --from=builder /artifacts/");
    out.append(c.artifact.as_str());
    out.append(" /usr/bin/");
    out.append(c.artifact.as_str());
    out.append("\n\nENTRYPOINT [\"/usr/bin/");
    out.append(c.artifact.as_str());
    out.append("\"]\n");
    assert(out@ =~= rendered_spec(c));
    out
}

/// Validates, then renders: succeeds with the exact rendered text on
/// every well-formed configuration and returns the validation error on
/// every other one.
pub fn render_checked(c: &ContainerBuildConfig) -> (r: Result<String, BuildError>)
    ensures
        config_wf(c) ==> (r matches Ok(s) && s@ == rendered_spec(c)),
        !config_wf(c) ==> (r matches Err(e) && Err::<(), BuildError>(e) == validate_spec(c)),
{
    match validate(c) {
        Ok(()) => Ok(render(c)),
        Err(e) => Err(e),
    }
}

/// Rendering is deterministic: the description depends on the five
/// field values alone, so any two configurations that agree on them
/// render to identical text.
pub proof fn lemma_render_deterministic(c1: &ContainerBuildConfig, c2: &ContainerBuildConfig)
    requires
        c1.target_image@ == c2.target_image@,
        c1.base_image@ == c2.base_image@,
        c1.build_deps@ == c2.build_deps@,
        c1.runtime_deps@ == c2.runtime_deps@,
        c1.artifact@ == c2.artifact@,
    ensures
        rendered_spec(c1) == rendered_spec(c2),
{
}

/// The empty-dependency policy: an empty list contributes no install
/// instruction at all, and a non-empty one contributes exactly one.
pub proof fn lemma_install_policy(deps: Seq<char>)
    ensures
        deps.len() == 0 ==> install_line(deps) == Seq::<char>::empty(),
        deps.len() > 0 ==> install_line(deps) == "RUN apt install -yq "@ + deps + "\n"@,
{
}

/// Changing `build_deps` alone changes only the build-stage install
/// slot: both renderings share the same head and the same tail around
/// that one slot.
pub proof fn lemma_build_deps_localized(c1: &ContainerBuildConfig, c2: &ContainerBuildConfig)
    requires
        c1.target_image@ == c2.target_image@,
        c1.base_image@ == c2.base_image@,
        c1.runtime_deps@ == c2.runtime_deps@,
        c1.artifact@ == c2.artifact@,
    ensures
        rendered_spec(c1) == builder_head(c1.target_image@, c1.base_image@) + install_line(
            c1.build_deps@,
        ) + (builder_tail(c1.base_image@, c1.artifact@) + install_line(c1.runtime_deps@)
            + runner_tail(c1.artifact@)),
        rendered_spec(c2) == builder_head(c1.target_image@, c1.base_image@) + install_line(
            c2.build_deps@,
        ) + (builder_tail(c1.base_image@, c1.artifact@) + install_line(c1.runtime_deps@)
            + runner_tail(c1.artifact@)),
{
    assert(rendered_spec(c1) =~= builder_head(c1.target_image@, c1.base_image@) + install_line(
        c1.build_deps@,
    ) + (builder_tail(c1.base_image@, c1.artifact@) + install_line(c1.runtime_deps@)
        + runner_tail(c1.artifact@)));
    assert(rendered_spec(c2) =~= builder_head(c1.target_image@, c1.base_image@) + install_line(
        c2.build_deps@,
    ) + (builder_tail(c1.base_image@, c1.artifact@) + install_line(c1.runtime_deps@)
        + runner_tail(c1.artifact@)));
}

/// Changing `runtime_deps` alone changes only the run-stage install
/// slot: both renderings share the same head and the same tail around
/// that one slot.
pub proof fn lemma_runtime_deps_localized(c1: &ContainerBuildConfig, c2: &ContainerBuildConfig)
    requires
        c1.target_image@ == c2.target_image@,
        c1.base_image@ == c2.base_image@,
        c1.build_deps@ == c2.build_deps@,
        c1.artifact@ == c2.artifact@,
    ensures
        rendered_spec(c1) == (builder_head(c1.target_image@, c1.base_image@) + install_line(
            c1.build_deps@,
        ) + builder_tail(c1.base_image@, c1.artifact@)) + install_line(c1.runtime_deps@)
            + runner_tail(c1.artifact@),
        rendered_spec(c2) == (builder_head(c1.target_image@, c1.base_image@) + install_line(
            c1.build_deps@,
        ) + builder_tail(c1.base_image@, c1.artifact@)) + install_line(c2.runtime_deps@)
            + runner_tail(c1.artifact@),
{
}

} // verus!
