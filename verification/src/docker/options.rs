//! The command lines that stand for the runtime's build, run and exec calls.
//!
//! Each set of options is built fresh for one call and turned into the
//! argument vector of one invocation of the runtime's command-line tool:
//! `build -t <tag> -f <dockerfile> --label <key>=<value> <context>`,
//! `run --name <name> [-d] [-v <host>:<container>]* <image> <args...>` and
//! `exec -it <name> <args...>`. Running the invocation is the caller's part.
use crate::docker::client::PROJECT_KEY;
use crate::docker::image::{image_tag, tag_of};
use crate::text::{lemma_texts_push, same_text, texts};
use vstd::prelude::*;

verus! {

/// The text of one pair, its two halves joined by `link`.
pub open spec fn paired(pair: (Seq<char>, Seq<char>), link: Seq<char>) -> Seq<char> {
    pair.0 + link + pair.1
}

/// The views of a list of pairs of string slices.
pub open spec fn pairs_view(pairs: Seq<(&str, &str)>) -> Seq<(Seq<char>, Seq<char>)> {
    pairs.map_values(|pair: (&str, &str)| (pair.0@, pair.1@))
}

/// Whether no two pairs of a list have the same first half. A list of pairs
/// stands for a map here, in the order in which its entries were declared.
pub open spec fn distinct_keys(pairs: Seq<(Seq<char>, Seq<char>)>) -> bool {
    forall|i: int, j: int| 0 <= i < j < pairs.len() ==> pairs[i].0 != pairs[j].0
}

/// Whether a list of pairs has an entry under `key`.
pub open spec fn holds_key(pairs: Seq<(Seq<char>, Seq<char>)>, key: Seq<char>) -> bool {
    exists|i: int| 0 <= i < pairs.len() && (#[trigger] pairs[i]).0 == key
}

/// Where the entry under `key` stands in a list that has one.
pub open spec fn key_position(pairs: Seq<(Seq<char>, Seq<char>)>, key: Seq<char>) -> int {
    choose|i: int| 0 <= i < pairs.len() && (#[trigger] pairs[i]).0 == key
}

/// A list of pairs with `value` entered under `key`: in the place of the
/// entry that was there under that key, or else at the end.
pub open spec fn with_entry(
    pairs: Seq<(Seq<char>, Seq<char>)>,
    key: Seq<char>,
    value: Seq<char>,
) -> Seq<(Seq<char>, Seq<char>)> {
    if holds_key(pairs, key) {
        pairs.update(key_position(pairs, key), (key, value))
    } else {
        pairs.push((key, value))
    }
}

/// Enters `value` under `key` in a list of pairs without a repeated key, and
/// leaves it without one.
fn enter<'a>(pairs: &mut Vec<(&'a str, &'a str)>, key: &'a str, value: &'a str)
    requires
        distinct_keys(pairs_view(old(pairs)@)),
    ensures
        pairs_view(final(pairs)@) == with_entry(pairs_view(old(pairs)@), key@, value@),
        distinct_keys(pairs_view(final(pairs)@)),
{
    let ghost before = pairs_view(pairs@);
    let mut i: usize = 0;
    while i < pairs.len()
        invariant
            i <= pairs.len(),
            before == pairs_view(old(pairs)@),
            pairs_view(pairs@) == before,
            distinct_keys(before),
            forall|j: int| 0 <= j < i ==> (#[trigger] before[j]).0 != key@,
        decreases pairs.len() - i,
    {
        if same_text(pairs[i].0, key) {
            let ghost at = key_position(before, key@);
            proof {
                assert(before[i as int].0 == key@);
                assert(holds_key(before, key@));
                assert(0 <= at < before.len() && before[at].0 == key@);
                if at < i {
                    assert(before[at].0 != key@);
                }
                if at > i {
                    assert(before[i as int].0 != before[at].0);
                }
                assert(at == i);
            }
            pairs[i] = (key, value);
            proof {
                let after = before.update(i as int, (key@, value@));
                assert(pairs_view(pairs@) =~= after);
                assert forall|a: int, b: int| 0 <= a < b < after.len() implies after[a].0
                    != after[b].0 by {
                    assert(after[a].0 == before[a].0);
                    assert(after[b].0 == before[b].0);
                }
            }
            return;
        }
        i = i + 1;
    }
    assert(!holds_key(before, key@));
    pairs.push((key, value));
    assert(pairs_view(pairs@) =~= before.push((key@, value@)));
}

/// The label that files an image or a container under a project:
/// [`PROJECT_KEY`], an equals sign, and the project's name.
pub open spec fn project_label(project_name: Seq<char>) -> Seq<char> {
    paired((PROJECT_KEY@, project_name), "="@)
}

/// The label filter for the queries about a project. The runtime matches a
/// label filter by equality, so only what carries exactly this label under
/// exactly this name is listed.
pub fn label_filter(project_name: &str) -> (label: String)
    ensures
        label@ == project_label(project_name@),
{
    String::from_str(PROJECT_KEY).concat("=").concat(project_name)
}

/// One invocation of a program: what to run, and with which arguments.
#[derive(Debug, Clone, PartialEq, Eq)]
pub struct Invocation {
    pub program: String,
    pub args: Vec<String>,
}

/// Options of an image build. The labels stand for a map: no key occurs
/// twice among them.
#[derive(Debug)]
pub struct BuildOptions<'a> {
    cmd: &'static str,
    tag: &'a str,
    dockerfile: &'a str,
    labels: Vec<(&'a str, &'a str)>,
    path: &'a str,
}

/// [`BuildOptions`] as plain sequences.
pub struct BuildOptionsView {
    /// The tag to file the image under.
    pub tag: Seq<char>,
    /// The path of the build recipe.
    pub dockerfile: Seq<char>,
    /// The labels to attach to the image.
    pub labels: Seq<(Seq<char>, Seq<char>)>,
    /// The build context.
    pub path: Seq<char>,
}

impl<'a> View for BuildOptions<'a> {
    type V = BuildOptionsView;

    closed spec fn view(&self) -> BuildOptionsView {
        BuildOptionsView {
            tag: self.tag@,
            dockerfile: self.dockerfile@,
            labels: pairs_view(self.labels@),
            path: self.path@,
        }
    }
}

impl BuildOptionsView {
    /// The argument vector of the build.
    pub open spec fn arguments(self) -> Seq<Seq<char>> {
        seq!["build"@, "-t"@, self.tag, "-f"@, self.dockerfile, "--label"@]
            + self.labels.map_values(|label: (Seq<char>, Seq<char>)| paired(label, "="@))
            + seq![self.path]
    }
}

impl<'a> BuildOptions<'a> {
    #[verifier::type_invariant]
    spec fn well_formed(&self) -> bool {
        &&& self.cmd@ == "build"@
        &&& distinct_keys(pairs_view(self.labels@))
    }

    /// The options of a project's build: the image is filed under `tag`,
    /// built from `dockerfile` in the current directory, and labelled with the
    /// project's name.
    pub fn for_project(project_name: &'a str, tag: &'a str, dockerfile: &'a str) -> (options: Self)
        ensures
            options@ == (BuildOptionsView {
                tag: tag@,
                dockerfile: dockerfile@,
                labels: seq![(PROJECT_KEY@, project_name@)],
                path: "."@,
            }),
    {
        let mut labels: Vec<(&'a str, &'a str)> = Vec::new();
        labels.push((PROJECT_KEY, project_name));
        assert(pairs_view(labels@) =~= seq![(PROJECT_KEY@, project_name@)]);
        BuildOptions { cmd: "build", tag, dockerfile, labels, path: "." }
    }

    /// Attaches the label `key` with `value`, in the place of the label that
    /// was there under that key, or else after the others.
    pub fn label(&mut self, key: &'a str, value: &'a str)
        ensures
            final(self)@ == (BuildOptionsView {
                labels: with_entry(old(self)@.labels, key@, value@),
                ..old(self)@
            }),
            distinct_keys(old(self)@.labels),
            distinct_keys(final(self)@.labels),
    {
        proof {
            use_type_invariant(&*self);
        }
        let mut labels: Vec<(&'a str, &'a str)> = Vec::new();
        assert(pairs_view(labels@) =~= Seq::empty());
        core::mem::swap(&mut self.labels, &mut labels);
        enter(&mut labels, key, value);
        self.labels = labels;
    }

    /// The labels to attach to the image; no key occurs twice among them.
    pub fn labels(&self) -> (labels: &Vec<(&'a str, &'a str)>)
        ensures
            pairs_view(labels@) == self@.labels,
            distinct_keys(self@.labels),
    {
        proof {
            use_type_invariant(self);
        }
        &self.labels
    }

    /// The argument vector of the build: `build`, the tag, the recipe, the
    /// labels, the context.
    pub fn build(&self) -> (args: Vec<String>)
        ensures
            texts(args@) == self@.arguments(),
            distinct_keys(self@.labels),
    {
        proof {
            use_type_invariant(self);
        }
        let mut args: Vec<String> = Vec::new();
        args.push(String::from_str(self.cmd));
        args.push(String::from_str("-t"));
        args.push(String::from_str(self.tag));
        args.push(String::from_str("-f"));
        args.push(String::from_str(self.dockerfile));
        args.push(String::from_str("--label"));
        let ghost head = seq!["build"@, "-t"@, self.tag@, "-f"@, self.dockerfile@, "--label"@];
        let ghost labelled = self@.labels.map_values(
            |label: (Seq<char>, Seq<char>)| paired(label, "="@),
        );
        assert(texts(args@) =~= head);
        assert(head + labelled.take(0) =~= head);
        let mut i: usize = 0;
        while i < self.labels.len()
            invariant
                i <= self.labels.len(),
                labelled == self@.labels.map_values(
                    |label: (Seq<char>, Seq<char>)| paired(label, "="@),
                ),
                self@.labels == pairs_view(self.labels@),
                texts(args@) == head + labelled.take(i as int),
            decreases self.labels.len() - i,
        {
            let (key, value) = self.labels[i];
            let label = String::from_str(key).concat("=").concat(value);
            proof {
                lemma_texts_push(args@, label);
                assert(label@ == labelled[i as int]);
                assert(labelled.take(i + 1) =~= labelled.take(i as int).push(labelled[i as int]));
                assert((head + labelled.take(i as int)).push(label@) =~= head + labelled.take(
                    i + 1,
                ));
            }
            args.push(label);
            i = i + 1;
        }
        let context = String::from_str(self.path);
        proof {
            lemma_texts_push(args@, context);
            assert(labelled.take(i as int) =~= labelled);
            assert((head + labelled).push(context@) =~= head + labelled + seq![self.path@]);
        }
        args.push(context);
        args
    }
}

impl<'a> Default for BuildOptions<'a> {
    /// A build of the declaration directory's `Dockerfile` in the current
    /// directory, with no tag and no label.
    fn default() -> (options: Self)
        ensures
            options@ == (BuildOptionsView {
                tag: ""@,
                dockerfile: ".devcontainer/Dockerfile"@,
                labels: Seq::empty(),
                path: "."@,
            }),
    {
        let labels: Vec<(&'a str, &'a str)> = Vec::new();
        assert(pairs_view(labels@) =~= Seq::empty());
        BuildOptions {
            cmd: "build",
            tag: "",
            dockerfile: ".devcontainer/Dockerfile",
            labels,
            path: ".",
        }
    }
}

/// Options of a container's creation. The mounts stand for a map: no path
/// on the host occurs twice among them.
#[derive(Debug)]
pub struct RunOptions<'a> {
    cmd: &'static str,
    name: &'a str,
    deattach: bool,
    image: &'a str,
    volume: Vec<(&'a str, &'a str)>,
    args: Vec<&'a str>,
}

/// [`RunOptions`] as plain sequences.
pub struct RunOptionsView {
    /// The container's name.
    pub name: Seq<char>,
    /// Whether the container runs in the background.
    pub deattach: bool,
    /// The image to create the container from.
    pub image: Seq<char>,
    /// The mounts: a path on the host, and the path it appears under in the
    /// container.
    pub volume: Seq<(Seq<char>, Seq<char>)>,
    /// The container's initial command.
    pub args: Seq<Seq<char>>,
}

impl<'a> View for RunOptions<'a> {
    type V = RunOptionsView;

    closed spec fn view(&self) -> RunOptionsView {
        RunOptionsView {
            name: self.name@,
            deattach: self.deattach,
            image: self.image@,
            volume: pairs_view(self.volume@),
            args: self.args.deep_view(),
        }
    }
}

/// The arguments that declare the mounts: `-v` and `<host>:<container>` for
/// each, in order.
pub open spec fn volume_arguments(volume: Seq<(Seq<char>, Seq<char>)>) -> Seq<Seq<char>>
    decreases volume.len(),
{
    if volume.len() == 0 {
        Seq::empty()
    } else {
        volume_arguments(volume.drop_last()) + seq!["-v"@, paired(volume.last(), ":"@)]
    }
}

/// Each mount takes two arguments.
pub proof fn lemma_volume_arguments_len(volume: Seq<(Seq<char>, Seq<char>)>)
    ensures
        volume_arguments(volume).len() == 2 * volume.len(),
    decreases volume.len(),
{
    if volume.len() > 0 {
        lemma_volume_arguments_len(volume.drop_last());
    }
}

impl RunOptionsView {
    /// The argument vector of the creation: the options first, then the
    /// image, then the initial command.
    pub open spec fn arguments(self) -> Seq<Seq<char>> {
        seq!["run"@, "--name"@, self.name] + (if self.deattach {
            seq!["-d"@]
        } else {
            Seq::empty()
        }) + volume_arguments(self.volume) + seq![self.image] + self.args
    }
}

impl<'a> RunOptions<'a> {
    #[verifier::type_invariant]
    spec fn well_formed(&self) -> bool {
        &&& self.cmd@ == "run"@
        &&& distinct_keys(pairs_view(self.volume@))
    }

    /// The options of a container `name` from `image`, with `args` as its
    /// initial command and without mounts.
    pub fn new(name: &'a str, image: &'a str, deattach: bool, args: Vec<&'a str>) -> (options: Self)
        ensures
            options@ == (RunOptionsView {
                name: name@,
                deattach,
                image: image@,
                volume: Seq::empty(),
                args: args.deep_view(),
            }),
    {
        let volume: Vec<(&'a str, &'a str)> = Vec::new();
        assert(pairs_view(volume@) =~= Seq::empty());
        RunOptions { cmd: "run", name, deattach, image, volume, args }
    }

    /// Mounts the path `host` under `inside` in the container, in the place
    /// of the mount that was there for that path on the host, or else after
    /// the others.
    pub fn mount(&mut self, host: &'a str, inside: &'a str)
        ensures
            final(self)@ == (RunOptionsView {
                volume: with_entry(old(self)@.volume, host@, inside@),
                ..old(self)@
            }),
            distinct_keys(old(self)@.volume),
            distinct_keys(final(self)@.volume),
    {
        proof {
            use_type_invariant(&*self);
        }
        let mut volume: Vec<(&'a str, &'a str)> = Vec::new();
        assert(pairs_view(volume@) =~= Seq::empty());
        core::mem::swap(&mut self.volume, &mut volume);
        enter(&mut volume, host, inside);
        self.volume = volume;
    }

    /// The mounts; no path on the host occurs twice among them.
    pub fn volume(&self) -> (volume: &Vec<(&'a str, &'a str)>)
        ensures
            pairs_view(volume@) == self@.volume,
            distinct_keys(self@.volume),
    {
        proof {
            use_type_invariant(self);
        }
        &self.volume
    }

    /// The argument vector of the creation: `run`, the name, `-d` exactly
    /// where the container is detached, the mounts, the image, and the
    /// initial command last, in its order.
    pub fn build(&self) -> (args: Vec<String>)
        ensures
            texts(args@) == self@.arguments(),
            distinct_keys(self@.volume),
            args@.len() == 4 + (if self@.deattach {
                1nat
            } else {
                0nat
            }) + 2 * self@.volume.len() + self@.args.len(),
    {
        proof {
            use_type_invariant(self);
            lemma_volume_arguments_len(self@.volume);
        }
        let mut args: Vec<String> = Vec::new();
        args.push(String::from_str(self.cmd));
        args.push(String::from_str("--name"));
        args.push(String::from_str(self.name));
        if self.deattach {
            args.push(String::from_str("-d"));
        }
        let ghost head = seq!["run"@, "--name"@, self.name@] + (if self.deattach {
            seq!["-d"@]
        } else {
            Seq::empty()
        });
        assert(texts(args@) =~= head);
        assert(self@.volume.take(0) =~= Seq::empty());
        assert(head + volume_arguments(self@.volume.take(0)) =~= head);
        let mut i: usize = 0;
        while i < self.volume.len()
            invariant
                i <= self.volume.len(),
                self@.volume == pairs_view(self.volume@),
                texts(args@) == head + volume_arguments(self@.volume.take(i as int)),
            decreases self.volume.len() - i,
        {
            let (host, inside) = self.volume[i];
            let flag = String::from_str("-v");
            let mount = String::from_str(host).concat(":").concat(inside);
            proof {
                let before = self@.volume.take(i as int);
                let upto = self@.volume.take(i + 1);
                assert(upto.drop_last() =~= before);
                assert(upto.last() == (host@, inside@));
                lemma_texts_push(args@, flag);
                lemma_texts_push(args@.push(flag), mount);
                assert((head + volume_arguments(before)).push(flag@).push(mount@) =~= head
                    + volume_arguments(upto));
            }
            args.push(flag);
            args.push(mount);
            i = i + 1;
        }
        let image = String::from_str(self.image);
        proof {
            assert(self@.volume.take(i as int) =~= self@.volume);
            lemma_texts_push(args@, image);
        }
        args.push(image);
        let ghost body = head + volume_arguments(self@.volume) + seq![self.image@];
        assert(texts(args@) =~= body);
        assert(body + self@.args.take(0) =~= body);
        let mut j: usize = 0;
        while j < self.args.len()
            invariant
                j <= self.args.len(),
                self@.args == self.args.deep_view(),
                texts(args@) == body + self@.args.take(j as int),
            decreases self.args.len() - j,
        {
            let token = String::from_str(self.args[j]);
            proof {
                lemma_texts_push(args@, token);
                assert(token@ == self@.args[j as int]);
                assert((body + self@.args.take(j as int)).push(token@) =~= body
                    + self@.args.take(j + 1));
            }
            args.push(token);
            j = j + 1;
        }
        assert(self@.args.take(j as int) =~= self@.args);
        assert(texts(args@).len() == args@.len());
        args
    }
}

impl<'a> Default for RunOptions<'a> {
    /// A container without a name, an image, mounts or a command, in the
    /// foreground.
    fn default() -> (options: Self)
        ensures
            options@ == (RunOptionsView {
                name: ""@,
                deattach: false,
                image: ""@,
                volume: Seq::empty(),
                args: Seq::empty(),
            }),
    {
        let volume: Vec<(&'a str, &'a str)> = Vec::new();
        let args: Vec<&'a str> = Vec::new();
        assert(pairs_view(volume@) =~= Seq::empty());
        assert(args.deep_view() =~= Seq::empty());
        RunOptions { cmd: "run", name: "", deattach: false, image: "", volume, args }
    }
}

/// Options of a command run in a container, attached to the terminal.
#[derive(Debug)]
pub struct ExecOptions<'a> {
    cmd: &'static str,
    container: &'a str,
    args: Vec<&'a str>,
}

/// [`ExecOptions`] as plain sequences.
pub struct ExecOptionsView {
    /// The container's name.
    pub container: Seq<char>,
    /// The command and its arguments.
    pub args: Seq<Seq<char>>,
}

impl<'a> View for ExecOptions<'a> {
    type V = ExecOptionsView;

    closed spec fn view(&self) -> ExecOptionsView {
        ExecOptionsView { container: self.container@, args: self.args.deep_view() }
    }
}

impl ExecOptionsView {
    /// The argument vector of the command: with `-it`, so that a terminal is
    /// allotted and the caller's input reaches the command.
    pub open spec fn arguments(self) -> Seq<Seq<char>> {
        seq!["exec"@, "-it"@, self.container] + self.args
    }
}

impl<'a> ExecOptions<'a> {
    #[verifier::type_invariant]
    spec fn well_formed(&self) -> bool {
        self.cmd@ == "exec"@
    }

    /// The options of `args` run in `container`.
    pub fn new(container: &'a str, args: Vec<&'a str>) -> (options: Self)
        ensures
            options@ == (ExecOptionsView { container: container@, args: args.deep_view() }),
    {
        ExecOptions { cmd: "exec", container, args }
    }

    /// The container's name.
    pub fn container(&self) -> (container: &'a str)
        ensures
            container@ == self@.container,
    {
        self.container
    }

    /// The command and its arguments.
    pub fn args(&self) -> (args: &Vec<&'a str>)
        ensures
            args.deep_view() == self@.args,
    {
        &self.args
    }

    /// The argument vector of the command: `exec`, `-it`, the container, and
    /// the command with its arguments, in their order.
    pub fn build(&self) -> (args: Vec<String>)
        ensures
            texts(args@) == self@.arguments(),
    {
        proof {
            use_type_invariant(self);
        }
        let mut args: Vec<String> = Vec::new();
        args.push(String::from_str(self.cmd));
        args.push(String::from_str("-it"));
        args.push(String::from_str(self.container));
        let ghost head = seq!["exec"@, "-it"@, self.container@];
        assert(texts(args@) =~= head);
        assert(head + self@.args.take(0) =~= head);
        let mut j: usize = 0;
        while j < self.args.len()
            invariant
                j <= self.args.len(),
                self@.args == self.args.deep_view(),
                texts(args@) == head + self@.args.take(j as int),
            decreases self.args.len() - j,
        {
            let token = String::from_str(self.args[j]);
            proof {
                lemma_texts_push(args@, token);
                assert(token@ == self@.args[j as int]);
                assert((head + self@.args.take(j as int)).push(token@) =~= head
                    + self@.args.take(j + 1));
            }
            args.push(token);
            j = j + 1;
        }
        assert(self@.args.take(j as int) =~= self@.args);
        args
    }
}

impl<'a> Default for ExecOptions<'a> {
    /// No command, in a container without a name.
    fn default() -> (options: Self)
        ensures
            options@ == (ExecOptionsView { container: ""@, args: Seq::empty() }),
    {
        let args: Vec<&'a str> = Vec::new();
        assert(args.deep_view() =~= Seq::empty());
        ExecOptions { cmd: "exec", container: "", args }
    }
}

/// The runtime's command-line tool, by the path of its executable.
#[derive(Debug, Clone, PartialEq, Eq)]
pub struct DockerCli {
    command: String,
}

impl DockerCli {
    /// The tool whose executable lies at `command`.
    pub fn new(command: String) -> (cli: Self)
        ensures
            cli.program() == command@,
    {
        DockerCli { command }
    }

    /// The path of the tool's executable.
    pub closed spec fn program(&self) -> Seq<char> {
        self.command@
    }

    /// The invocation that builds an image.
    pub fn build(&self, options: &BuildOptions) -> (invocation: Invocation)
        ensures
            invocation.program@ == self.program(),
            texts(invocation.args@) == options@.arguments(),
    {
        Invocation { program: self.command.clone(), args: options.build() }
    }

    /// The invocation that creates a container.
    pub fn run(&self, options: &RunOptions) -> (invocation: Invocation)
        ensures
            invocation.program@ == self.program(),
            texts(invocation.args@) == options@.arguments(),
    {
        Invocation { program: self.command.clone(), args: options.build() }
    }

    /// The invocation that runs a command in a container.
    pub fn exec(&self, options: &ExecOptions) -> (invocation: Invocation)
        ensures
            invocation.program@ == self.program(),
            texts(invocation.args@) == options@.arguments(),
    {
        Invocation { program: self.command.clone(), args: options.build() }
    }

    /// The invocation that builds a project's image from `dockerfile`: tagged
    /// `{project_name}:latest`, labelled with the project's name, with the
    /// current directory as its context.
    pub fn build_image(&self, project_name: &str, dockerfile: &str) -> (invocation: Invocation)
        ensures
            invocation.program@ == self.program(),
            texts(invocation.args@) == seq![
                "build"@,
                "-t"@,
                image_tag(project_name@),
                "-f"@,
                dockerfile@,
                "--label"@,
                project_label(project_name@),
                "."@,
            ],
    {
        let tag = tag_of(project_name);
        let options = BuildOptions::for_project(project_name, tag.as_str(), dockerfile);
        let invocation = self.build(&options);
        assert(options@.arguments() =~= seq![
            "build"@,
            "-t"@,
            image_tag(project_name@),
            "-f"@,
            dockerfile@,
            "--label"@,
            project_label(project_name@),
            "."@,
        ]);
        invocation
    }
}

} // verus!
