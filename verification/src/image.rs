//! The container file of a component, and the command lines that build and
//! push its image.
use vstd::prelude::*;
use vstd::string::StringExecFns;
use crate::layout::texts;

verus! {

/// A container file under construction: its layers, in their order.
pub struct ContainerFile {
    image_layers: Vec<String>,
}

/// The texts `parts`, joined by `separator`.
pub open spec fn joined(parts: Seq<Seq<char>>, separator: Seq<char>) -> Seq<char>
    decreases parts.len(),
{
    if parts.len() == 0 {
        Seq::empty()
    } else if parts.len() == 1 {
        parts[0]
    } else {
        joined(parts.drop_last(), separator) + separator + parts.last()
    }
}

/// The layer that starts the build stage from `image`.
pub open spec fn build_image_layer(image: Seq<char>) -> Seq<char> {
    "FROM "@ + image + " as builder"@
}

/// The layer that installs cmake.
pub open spec fn cmake_layer() -> Seq<char> {
    "RUN apt-get update && apt-get install -y cmake && rm -rf /var/lib/apt/lists/*"@
}

/// The layer that sets the working directory.
pub open spec fn workdir_layer(workdir: Seq<char>) -> Seq<char> {
    "WORKDIR "@ + workdir
}

/// The layer that sets an environment variable.
pub open spec fn env_layer(key: Seq<char>, val: Seq<char>) -> Seq<char> {
    "ENV "@ + key + "="@ + val
}

/// The layer that copies `src` to `dst`.
pub open spec fn copy_layer(src: Seq<char>, dst: Seq<char>) -> Seq<char> {
    "COPY "@ + src + " "@ + dst
}

/// The layer that sets the package of `component` up with an empty main
/// file, so that its dependencies can be built alone.
pub open spec fn dependency_layer(component: Seq<char>) -> Seq<char> {
    "\n            COPY "@ + component + "/Cargo.toml Cargo.lock /usr/src/"@ + component
        + "/\n            RUN \\\n                mkdir /usr/src/"@ + component
        + "/src && \\\n                echo 'fn main() {}' > /usr/src/"@ + component
        + "/src/main.rs"@
}

/// The layer that builds `component`.
pub open spec fn cargo_build_layer(component: Seq<char>) -> Seq<char> {
    "RUN cargo build --release --bin "@ + component
}

/// The layer that copies the sources of `component`.
pub open spec fn sources_layer(component: Seq<char>) -> Seq<char> {
    "COPY "@ + component + "/src /usr/src/"@ + component + "/src/"@
}

/// The layer that touches the main file of `component`.
pub open spec fn touch_layer(component: Seq<char>) -> Seq<char> {
    "RUN touch /usr/src/"@ + component + "/src/main.rs"@
}

/// The layer that keeps the binary of `component`.
pub open spec fn artifact_layer(component: Seq<char>) -> Seq<char> {
    "RUN cp /usr/src/"@ + component + "/target/release/"@ + component + " /"@
}

/// The layer that starts the runtime stage from `image`.
pub open spec fn runtime_image_layer(image: Seq<char>) -> Seq<char> {
    "FROM "@ + image + " as runtime"@
}

/// The layer that copies the binary of `component` into the runtime stage.
pub open spec fn runtime_artifact_layer(component: Seq<char>) -> Seq<char> {
    "COPY --from=builder /"@ + component + " /"@
}

/// The layer that sets the command of the container.
pub open spec fn cmd_layer(cmd: Seq<char>) -> Seq<char> {
    "CMD [\"/"@ + cmd + "\"]"@
}

/// The layers of the container file of `component`.
pub open spec fn container_layers(component: Seq<char>) -> Seq<Seq<char>> {
    seq![
        build_image_layer("docker.io/rust:1.68-bullseye"@),
        cmake_layer(),
        workdir_layer("/usr/src"@),
        env_layer("CARGO_REGISTRIES_CRATES_IO_PROTOCOL"@, "sparse"@),
        copy_layer("proto_rs"@, "/usr/src/proto_rs"@),
        dependency_layer(component),
        workdir_layer("/usr/src/"@ + component),
        cargo_build_layer(component),
        sources_layer(component),
        touch_layer(component),
        cargo_build_layer(component),
        artifact_layer(component),
        runtime_image_layer("docker.io/debian:bullseye-slim"@),
        runtime_artifact_layer(component),
        cmd_layer(component),
    ]
}

impl ContainerFile {
    /// The layers of the file, in their order.
    pub closed spec fn layers(&self) -> Seq<Seq<char>> {
        texts(self.image_layers@)
    }

    pub fn new() -> (r: ContainerFile)
        ensures
            r.layers() == Seq::<Seq<char>>::empty(),
    {
        let file = ContainerFile { image_layers: Vec::new() };
        assert(file.layers() =~= Seq::<Seq<char>>::empty());
        file
    }

    pub fn layer(&mut self, add: &str)
        ensures
            final(self).layers() == old(self).layers().push(add@),
    {
        self.layer_string(add.to_owned());
    }

    pub fn layer_string(&mut self, add: String)
        ensures
            final(self).layers() == old(self).layers().push(add@),
    {
        self.image_layers.push(add);
        assert(self.layers() =~= old(self).layers().push(add@));
    }

    /// The text of the file: its layers, each parted from the next by an
    /// empty line.
    pub fn render(self) -> (r: String)
        ensures
            r@ == joined(self.layers(), "\n\n"@),
    {
        let mut out = String::new();
        let mut i: usize = 0;
        let ghost layers = self.layers();
        assert(layers.subrange(0, 0) =~= Seq::<Seq<char>>::empty());
        while i < self.image_layers.len()
            invariant
                i <= self.image_layers@.len(),
                layers == texts(self.image_layers@),
                out@ == joined(layers.subrange(0, i as int), "\n\n"@),
            decreases self.image_layers@.len() - i,
        {
            let ghost before = layers.subrange(0, i as int);
            let ghost now = layers.subrange(0, i + 1);
            assert(now.drop_last() =~= before);
            assert(now.last() == self.image_layers@[i as int]@);
            if i > 0 {
                out.append("\n\n");
            } else {
                assert(out@ =~= Seq::<char>::empty());
                assert(Seq::<char>::empty() + now[0] =~= now[0]);
            }
            out.append(self.image_layers[i].as_str());
            i += 1;
        }
        assert(layers.subrange(0, i as int) =~= layers);
        out
    }

    pub fn use_build_image(&mut self, image: &str)
        ensures
            final(self).layers() == old(self).layers().push(build_image_layer(image@)),
    {
        let mut layer = "FROM ".to_owned();
        layer.append(image);
        layer.append(" as builder");
        self.layer(layer.as_str());
    }

    pub fn install_cmake(&mut self)
        ensures
            final(self).layers() == old(self).layers().push(cmake_layer()),
    {
        self.layer("RUN apt-get update && apt-get install -y cmake && rm -rf /var/lib/apt/lists/*");
    }

    pub fn set_workdir(&mut self, workdir: &str)
        ensures
            final(self).layers() == old(self).layers().push(workdir_layer(workdir@)),
    {
        let mut layer = "WORKDIR ".to_owned();
        layer.append(workdir);
        self.layer(layer.as_str());
    }

    pub fn set_env(&mut self, key: &str, val: &str)
        ensures
            final(self).layers() == old(self).layers().push(env_layer(key@, val@)),
    {
        let mut layer = "ENV ".to_owned();
        layer.append(key);
        layer.append("=");
        layer.append(val);
        self.layer_string(layer);
    }

    pub fn copy(&mut self, src: &str, dst: &str)
        ensures
            final(self).layers() == old(self).layers().push(copy_layer(src@, dst@)),
    {
        let mut layer = "COPY ".to_owned();
        layer.append(src);
        layer.append(" ");
        layer.append(dst);
        self.layer(layer.as_str());
    }

    pub fn prepare_dependency_build(&mut self, component: &str)
        ensures
            final(self).layers() == old(self).layers().push(dependency_layer(component@)),
    {
        let mut layer = "\n            COPY ".to_owned();
        layer.append(component);
        layer.append("/Cargo.toml Cargo.lock /usr/src/");
        layer.append(component);
        layer.append("/\n            RUN \\\n                mkdir /usr/src/");
        layer.append(component);
        layer.append("/src && \\\n                echo 'fn main() {}' > /usr/src/");
        layer.append(component);
        layer.append("/src/main.rs");
        self.layer_string(layer);
    }

    pub fn run_cargo_build(&mut self, component: &str)
        ensures
            final(self).layers() == old(self).layers().push(cargo_build_layer(component@)),
    {
        let mut layer = "RUN cargo build --release --bin ".to_owned();
        layer.append(component);
        self.layer_string(layer);
    }

    pub fn copy_sources(&mut self, component: &str)
        ensures
            final(self).layers() == old(self).layers().push(sources_layer(component@)),
    {
        let mut layer = "COPY ".to_owned();
        layer.append(component);
        layer.append("/src /usr/src/");
        layer.append(component);
        layer.append("/src/");
        self.layer_string(layer);
    }

    pub fn touch_main_file(&mut self, component: &str)
        ensures
            final(self).layers() == old(self).layers().push(touch_layer(component@)),
    {
        let mut layer = "RUN touch /usr/src/".to_owned();
        layer.append(component);
        layer.append("/src/main.rs");
        self.layer_string(layer);
    }

    pub fn persist_build_artifact(&mut self, component: &str)
        ensures
            final(self).layers() == old(self).layers().push(artifact_layer(component@)),
    {
        let mut layer = "RUN cp /usr/src/".to_owned();
        layer.append(component);
        layer.append("/target/release/");
        layer.append(component);
        layer.append(" /");
        self.layer_string(layer);
    }

    pub fn use_runtime_image(&mut self, image: &str)
        ensures
            final(self).layers() == old(self).layers().push(runtime_image_layer(image@)),
    {
        let mut layer = "FROM ".to_owned();
        layer.append(image);
        layer.append(" as runtime");
        self.layer(layer.as_str());
    }

    pub fn copy_build_artifact_to_runtime(&mut self, component: &str)
        ensures
            final(self).layers() == old(self).layers().push(runtime_artifact_layer(component@)),
    {
        let mut layer = "COPY --from=builder /".to_owned();
        layer.append(component);
        layer.append(" /");
        self.layer_string(layer);
    }

    pub fn set_cmd(&mut self, cmd: &str)
        ensures
            final(self).layers() == old(self).layers().push(cmd_layer(cmd@)),
    {
        let mut layer = "CMD [\"/".to_owned();
        layer.append(cmd);
        layer.append("\"]");
        self.layer_string(layer);
    }
}

/// The text of the container file of `component`: a build stage that
/// builds the dependencies first and the binary after them, and a runtime
/// stage that holds the binary alone.
pub fn container_file(component: &str) -> (r: String)
    ensures
        r@ == joined(container_layers(component@), "\n\n"@),
{
    let mut image = ContainerFile::new();
    let build_image = "docker.io/rust:1.68-bullseye";
    let runtime_image = "docker.io/debian:bullseye-slim";
    image.use_build_image(build_image);
    image.install_cmake();
    let workdir = "/usr/src";
    image.set_workdir(workdir);
    image.set_env("CARGO_REGISTRIES_CRATES_IO_PROTOCOL", "sparse");
    image.copy("proto_rs", "/usr/src/proto_rs");
    image.prepare_dependency_build(component);
    let mut workdir = "/usr/src/".to_owned();
    workdir.append(component);
    image.set_workdir(workdir.as_str());
    image.run_cargo_build(component);
    image.copy_sources(component);
    image.touch_main_file(component);
    image.run_cargo_build(component);
    image.persist_build_artifact(component);
    image.use_runtime_image(runtime_image);
    image.copy_build_artifact_to_runtime(component);
    image.set_cmd(component);
    assert(image.layers() =~= container_layers(component@));
    image.render()
}

/// The name of an image with its tag.
pub open spec fn tagged(image_name: Seq<char>, image_tag: Seq<char>) -> Seq<char> {
    image_name + ":"@ + image_tag
}

/// The arguments to `buildah` that build an image.
pub open spec fn build_arguments(
    container_file_path: Seq<char>,
    image_name: Seq<char>,
    image_tag: Seq<char>,
    cargo_registry_cache: Option<Seq<char>>,
    target_cache: Option<Seq<char>>,
) -> Seq<Seq<char>> {
    seq!["build"@, "--file="@ + container_file_path] + match cargo_registry_cache {
        Some(cache) => seq!["--volume="@ + cache + ":/usr/local/cargo/registry:O"@],
        None => seq![],
    } + match target_cache {
        Some(cache) => seq!["--volume="@ + cache + ":/usr/src/discord_bot/target:U,Z"@],
        None => seq![],
    } + seq!["--tag="@ + tagged(image_name, image_tag), "--layers"@, "."@]
}

/// The view of a string that may be missing.
pub open spec fn optional_text(text: Option<String>) -> Option<Seq<char>> {
    match text {
        Some(text) => Some(text@),
        None => None,
    }
}

/// The arguments to `buildah` that build the image `image_name` with the
/// tag `image_tag` from the container file at `container_file_path`. Each
/// cache that is named is mounted into the build.
pub fn build_image(
    container_file_path: &str,
    image_name: &str,
    image_tag: &str,
    cargo_registry_cache: Option<String>,
    target_cache: Option<String>,
) -> (r: Vec<String>)
    ensures
        texts(r@) == build_arguments(
            container_file_path@,
            image_name@,
            image_tag@,
            optional_text(cargo_registry_cache),
            optional_text(target_cache),
        ),
{
    let mut arguments: Vec<String> = Vec::new();
    arguments.push("build".to_owned());
    let mut file = "--file=".to_owned();
    file.append(container_file_path);
    arguments.push(file);
    assert(texts(arguments@) =~= seq!["build"@, "--file="@ + container_file_path@]);
    let ghost first = texts(arguments@);
    match &cargo_registry_cache {
        Some(cache) => {
            let mut volume = "--volume=".to_owned();
            volume.append(cache.as_str());
            volume.append(":/usr/local/cargo/registry:O");
            arguments.push(volume);
            assert(texts(arguments@) =~= first + seq![
                "--volume="@ + cache@ + ":/usr/local/cargo/registry:O"@,
            ]);
        },
        None => {
            assert(texts(arguments@) =~= first + Seq::<Seq<char>>::empty());
        },
    }
    let ghost second = texts(arguments@);
    match &target_cache {
        Some(cache) => {
            let mut volume = "--volume=".to_owned();
            volume.append(cache.as_str());
            volume.append(":/usr/src/discord_bot/target:U,Z");
            arguments.push(volume);
            assert(texts(arguments@) =~= second + seq![
                "--volume="@ + cache@ + ":/usr/src/discord_bot/target:U,Z"@,
            ]);
        },
        None => {
            assert(texts(arguments@) =~= second + Seq::<Seq<char>>::empty());
        },
    }
    let ghost third = texts(arguments@);
    let mut tag = "--tag=".to_owned();
    let ghost prefix = tag@;
    tag.append(image_name);
    tag.append(":");
    tag.append(image_tag);
    assert(tag@ =~= "--tag="@ + tagged(image_name@, image_tag@));
    arguments.push(tag);
    arguments.push("--layers".to_owned());
    arguments.push(".".to_owned());
    assert(texts(arguments@) =~= third + seq![
        "--tag="@ + tagged(image_name@, image_tag@),
        "--layers"@,
        "."@,
    ]);
    arguments
}

/// The arguments to `buildah` that push the image `image_name` with the
/// tag `image_tag`.
pub fn push_image(image_name: &str, image_tag: &str) -> (r: Vec<String>)
    ensures
        texts(r@) == seq!["push"@, tagged(image_name@, image_tag@)],
{
    let mut arguments: Vec<String> = Vec::new();
    arguments.push("push".to_owned());
    let mut image = image_name.to_owned();
    image.append(":");
    image.append(image_tag);
    arguments.push(image);
    assert(texts(arguments@) =~= seq!["push"@, tagged(image_name@, image_tag@)]);
    arguments
}

} // verus!
