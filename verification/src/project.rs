//! A project and its declared development container.
use crate::text::{opt_text, opt_texts};
use vstd::prelude::*;

verus! {

/// Directory, below a project's root, that holds the container's declaration.
pub const CONFIG_DIR: &'static str = ".devcontainer";

/// Name of the declaration file inside [`CONFIG_DIR`].
pub const CONFIG_FILE: &'static str = "devcontainer.json";

/// A parsed JSON value, passed through unread.
#[verifier::external_type_specification]
#[verifier::external_body]
pub struct ExJsonValue(serde_json::Value);

/// Where and why a declaration could not be parsed, passed through unread.
#[verifier::external_type_specification]
#[verifier::external_body]
pub struct ExJsoncParseError(jsonc_parser::errors::ParseError);

/// Why a project cannot be made from what was found on disk.
#[derive(Debug)]
pub enum ConfigError {
    /// The declaration is not JSON, even with comments and trailing commas
    /// allowed.
    ParseFailed(jsonc_parser::errors::ParseError),
    /// The declaration opens more arrays and objects than [`MAX_NESTING`],
    /// and is not handed to the parser.
    TooDeeplyNested,
    /// The declaration holds no value at all.
    EmptyDocument,
    /// The declaration names neither an image nor a build recipe.
    MissingImageSource,
    /// The project's root has no last component to name the project after.
    InvalidPath,
}

impl ConfigError {
    /// The failure in words.
    pub fn message(&self) -> (m: &'static str)
        ensures
            m@ == match *self {
                ConfigError::ParseFailed(_) => "config parse failed"@,
                ConfigError::TooDeeplyNested => "config nested too deeply"@,
                ConfigError::EmptyDocument => "invalid config"@,
                ConfigError::MissingImageSource =>
                    "invalid config, dockerfile or image not specified"@,
                ConfigError::InvalidPath => "invalid path"@,
            },
    {
        match self {
            ConfigError::ParseFailed(_) => "config parse failed",
            ConfigError::TooDeeplyNested => "config nested too deeply",
            ConfigError::EmptyDocument => "invalid config",
            ConfigError::MissingImageSource => "invalid config, dockerfile or image not specified",
            ConfigError::InvalidPath => "invalid path",
        }
    }
}

/// Where a project's image comes from.
#[derive(Debug, Clone, PartialEq, Eq)]
pub enum ImageSource {
    /// A pre-built image, by its reference.
    Image(String),
    /// A build recipe, by its path.
    Dockerfile(String),
}

/// [`ImageSource`] with its text as sequences of characters.
pub enum ImageSourceView {
    Image(Seq<char>),
    Dockerfile(Seq<char>),
}

impl View for ImageSource {
    type V = ImageSourceView;

    open spec fn view(&self) -> ImageSourceView {
        match *self {
            ImageSource::Image(reference) => ImageSourceView::Image(reference@),
            ImageSource::Dockerfile(path) => ImageSourceView::Dockerfile(path@),
        }
    }
}

impl Default for ImageSource {
    /// A pre-built image with an empty reference.
    fn default() -> (source: Self)
        ensures
            source@ == ImageSourceView::Image(Seq::<char>::empty()),
    {
        ImageSource::Image(String::new())
    }
}

/// A container's declaration: what the declaration file says, and the image
/// source chosen from it.
#[derive(Debug, Clone, Default, PartialEq, Eq)]
pub struct Config {
    /// The project's name, where the file gives one.
    pub name: Option<String>,
    /// Reference of a pre-built image.
    pub image: Option<String>,
    /// Path of a build recipe, relative to [`CONFIG_DIR`].
    pub dockerfile: Option<String>,
    /// The source chosen from `image` and `dockerfile`; set by
    /// [`normalize_config`].
    pub image_source: ImageSource,
    /// Command to run once in a freshly created container.
    pub post_create_command: Option<Vec<String>>,
}

/// [`Config`] as plain sequences.
pub struct ConfigView {
    pub name: Option<Seq<char>>,
    pub image: Option<Seq<char>>,
    pub dockerfile: Option<Seq<char>>,
    pub image_source: ImageSourceView,
    pub post_create_command: Option<Seq<Seq<char>>>,
}

impl View for Config {
    type V = ConfigView;

    open spec fn view(&self) -> ConfigView {
        ConfigView {
            name: opt_text(self.name),
            image: opt_text(self.image),
            dockerfile: opt_text(self.dockerfile),
            image_source: self.image_source@,
            post_create_command: opt_texts(self.post_create_command),
        }
    }
}

/// What a text holds when read as JSON with comments.
pub enum Document {
    /// One JSON value.
    Value,
    /// Nothing but blanks and comments.
    Nothing,
    /// Something that is not JSON with comments.
    Malformed,
}

/// What `jsonc_parser` makes of a text, with comments, loose property names
/// and trailing commas allowed.
pub uninterp spec fn jsonc_document(text: Seq<char>) -> Document;

/// The most opening brackets and braces a declaration may hold. The parser
/// descends one level for each array or object it enters, so this bounds how
/// deep it can go. Each level takes a few kilobytes of stack in an
/// unoptimised build; the limit keeps the whole descent well inside the
/// stack of a thread, and far above what a declaration needs.
pub const MAX_NESTING: usize = 128;

/// Whether a character opens an array or an object.
pub open spec fn opens(c: char) -> bool {
    c == '[' || c == '{'
}

/// How many characters of a text open an array or an object. Those inside
/// strings and comments count too, so that no text nests deeper than this.
pub open spec fn openings(text: Seq<char>) -> nat
    decreases text.len(),
{
    if text.len() == 0 {
        0
    } else if opens(text.last()) {
        openings(text.drop_last()) + 1
    } else {
        openings(text.drop_last())
    }
}

/// Whether a text opens no more arrays and objects than [`MAX_NESTING`].
pub fn within_nesting(text: &str) -> (within: bool)
    ensures
        within == (openings(text@) <= MAX_NESTING),
{
    broadcast use vstd::string::group_string_axioms;

    // The count stops growing one past the limit: beyond that it decides nothing.
    let mut count: usize = 0;
    for c in letters: text.chars()
        invariant
            letters.seq() == text@,
            count <= MAX_NESTING + 1,
            count == if openings(text@.take(letters.index() as int)) <= MAX_NESTING {
                openings(text@.take(letters.index() as int))
            } else {
                (MAX_NESTING + 1) as nat
            },
    {
        proof {
            let upto = text@.take(letters.index() + 1);
            assert(upto.drop_last() =~= text@.take(letters.index() as int));
            assert(upto.last() == c);
        }
        if (c == '[' || c == '{') && count <= MAX_NESTING {
            count = count + 1;
        }
    }
    assert(text@.take(text@.len() as int) =~= text@);
    count <= MAX_NESTING
}

/// `jsonc_parser::parse_to_serde_value` with the parser's default options.
/// Believed, not proved: the parser returns a value, nothing or an error as
/// [`jsonc_document`] names it for the text. The parser and the conversion
/// of what it parsed descend once for every array or object they enter, and
/// a text can open none without a bracket or a brace; texts with more of
/// those than [`MAX_NESTING`] are left out, as the parser has no limit of
/// its own.
#[verifier::external_body]
fn parse_jsonc(text: &str) -> (parsed: Result<
    Option<serde_json::Value>,
    jsonc_parser::errors::ParseError,
>)
    requires
        openings(text@) <= MAX_NESTING,
    ensures
        match jsonc_document(text@) {
            Document::Value => parsed matches Ok(Some(_)),
            Document::Nothing => parsed matches Ok(None),
            Document::Malformed => parsed is Err,
        },
{
    jsonc_parser::parse_to_serde_value(text, &Default::default())
}

/// Decides what a parsed declaration is worth: a value is passed on, no value
/// at all is an empty document, and a parse error is kept as the cause.
pub fn document_of(
    parsed: Result<Option<serde_json::Value>, jsonc_parser::errors::ParseError>,
) -> (res: Result<serde_json::Value, ConfigError>)
    ensures
        match parsed {
            Ok(Some(value)) => res matches Ok(passed) && passed == value,
            Ok(None) => res matches Err(ConfigError::EmptyDocument),
            Err(cause) => res matches Err(ConfigError::ParseFailed(kept)) && kept == cause,
        },
{
    match parsed {
        Ok(Some(value)) => Ok(value),
        Ok(None) => Err(ConfigError::EmptyDocument),
        Err(cause) => Err(ConfigError::ParseFailed(cause)),
    }
}

/// Parses the text of a declaration file. Comments and trailing commas are
/// allowed. A text that opens more arrays and objects than [`MAX_NESTING`]
/// is refused unparsed. The value comes back as parsed; reading a [`Config`]
/// out of it is the caller's part.
pub fn parse_config_document(content: &str) -> (res: Result<serde_json::Value, ConfigError>)
    ensures
        if openings(content@) > MAX_NESTING {
            res matches Err(ConfigError::TooDeeplyNested)
        } else {
            match jsonc_document(content@) {
                Document::Value => res is Ok,
                Document::Nothing => res matches Err(ConfigError::EmptyDocument),
                Document::Malformed => res matches Err(ConfigError::ParseFailed(_)),
            }
        },
{
    if !within_nesting(content) {
        return Err(ConfigError::TooDeeplyNested);
    }
    document_of(parse_jsonc(content))
}

/// `base` with `path` adjoined, as `std::path` adjoins paths on the platform
/// the crate is built for.
pub uninterp spec fn joined_path(base: Seq<char>, path: Seq<char>) -> Seq<char>;

/// `std::path::Path::join`, on paths given and returned as text. Believed, not
/// proved: the result is [`joined_path`] of the two.
#[verifier::external_body]
fn join_path(base: &str, path: &str) -> (joined: String)
    ensures
        joined@ == joined_path(base@, path@),
{
    std::path::Path::new(base).join(path).display().to_string()
}

/// The last component of `path`, as `std::path` takes paths apart on the
/// platform the crate is built for; none where the path ends in `..` or has no
/// component at all.
pub uninterp spec fn path_file_name(path: Seq<char>) -> Option<Seq<char>>;

/// `std::path::Path::file_name`, on a path given as text. Believed, not
/// proved: the result is [`path_file_name`] of the path.
#[verifier::external_body]
fn file_name(path: &str) -> (name: Option<String>)
    ensures
        opt_text(name) == path_file_name(path@),
{
    std::path::Path::new(path).file_name().map(|name| name.to_string_lossy().into_owned())
}

/// `String::push` appends one character.
pub assume_specification[ String::push ](s: &mut String, c: char)
    ensures
        final(s)@ == old(s)@.push(c),
;

/// A name with every space replaced by an underscore.
pub open spec fn sanitized(name: Seq<char>) -> Seq<char> {
    name.map_values(
        |c: char|
            if c == ' ' {
                '_'
            } else {
                c
            },
    )
}

/// Makes a name fit for the runtime: every space becomes an underscore, and
/// every other character stays.
pub fn sanitize(name: &str) -> (clean: String)
    ensures
        clean@ == sanitized(name@),
{
    broadcast use vstd::string::group_string_axioms;

    let mut clean = String::new();
    for c in letters: name.chars()
        invariant
            letters.seq() == name@,
            clean@ == sanitized(name@).take(letters.index() as int),
    {
        assert(c == name@[letters.index() as int]);
        if c == ' ' {
            clean.push('_');
        } else {
            clean.push(c);
        }
    }
    clean
}

/// The image source a declaration amounts to: a pre-built image wins over a
/// build recipe, and one of the two must be there.
pub open spec fn image_source_of(
    image: Option<Seq<char>>,
    dockerfile_path: Option<Seq<char>>,
) -> Option<ImageSourceView> {
    match image {
        Some(reference) => Some(ImageSourceView::Image(reference)),
        None => match dockerfile_path {
            Some(path) => Some(ImageSourceView::Dockerfile(path)),
            None => None,
        },
    }
}

/// Chooses the image source from the declared image and from the full path of
/// the declared build recipe. A pre-built image wins if both are given; with
/// neither, the declaration is refused.
pub fn choose_image_source(image: &Option<String>, dockerfile_path: Option<String>) -> (res: Result<
    ImageSource,
    ConfigError,
>)
    ensures
        match image_source_of(opt_text(*image), opt_text(dockerfile_path)) {
            Some(source) => res matches Ok(chosen) && chosen@ == source,
            None => res matches Err(ConfigError::MissingImageSource),
        },
{
    match image {
        Some(reference) => Ok(ImageSource::Image(reference.clone())),
        None => match dockerfile_path {
            Some(path) => Ok(ImageSource::Dockerfile(path)),
            None => Err(ConfigError::MissingImageSource),
        },
    }
}

/// The full path of a declared build recipe: the recipe's path adjoined to
/// [`CONFIG_DIR`].
pub open spec fn recipe_path(dockerfile: Option<Seq<char>>) -> Option<Seq<char>> {
    match dockerfile {
        Some(path) => Some(joined_path(CONFIG_DIR@, path)),
        None => None,
    }
}

/// Settles a declaration's image source and leaves the rest as it is: the
/// declared image if there is one, else the declared build recipe below
/// [`CONFIG_DIR`]; with neither, the declaration is refused.
pub fn normalize_config(config: Config) -> (res: Result<Config, ConfigError>)
    ensures
        match image_source_of(config@.image, recipe_path(config@.dockerfile)) {
            Some(source) => res matches Ok(normal) && normal@ == (ConfigView {
                image_source: source,
                ..config@
            }),
            None => res matches Err(ConfigError::MissingImageSource),
        },
{
    let mut config = config;
    let path = match &config.dockerfile {
        Some(dockerfile) => Some(join_path(CONFIG_DIR, dockerfile.as_str())),
        None => None,
    };
    match choose_image_source(&config.image, path) {
        Ok(source) => {
            config.image_source = source;
            Ok(config)
        },
        Err(e) => Err(e),
    }
}

/// The name a project goes by in the runtime: the declared name, or else the
/// name of the project's directory, with spaces replaced; none where neither
/// is there.
pub open spec fn project_name_of(
    declared: Option<Seq<char>>,
    directory: Option<Seq<char>>,
) -> Option<Seq<char>> {
    match declared {
        Some(name) => Some(sanitized(name)),
        None => match directory {
            Some(name) => Some(sanitized(name)),
            None => None,
        },
    }
}

/// The name of the project's directory: the last component of its root.
pub fn get_project_name(root: &str) -> (res: Result<String, ConfigError>)
    ensures
        match path_file_name(root@) {
            Some(name) => res matches Ok(found) && found@ == name,
            None => res matches Err(ConfigError::InvalidPath),
        },
{
    match file_name(root) {
        Some(name) => Ok(name),
        None => Err(ConfigError::InvalidPath),
    }
}

/// A project: where it lies, what it is called, and the container it declares.
#[derive(Debug, Clone, Default, PartialEq, Eq)]
pub struct Project {
    /// The project's root directory.
    pub root: String,
    /// The directory that holds the container's declaration.
    pub config_dir: String,
    /// The declaration file.
    pub config_file: String,
    /// The project's name: the key of its image and container in the runtime.
    pub name: String,
    /// The container's declaration.
    pub config: Config,
}

/// [`Project`] as plain sequences.
pub struct ProjectView {
    pub root: Seq<char>,
    pub config_dir: Seq<char>,
    pub config_file: Seq<char>,
    pub name: Seq<char>,
    pub config: ConfigView,
}

impl View for Project {
    type V = ProjectView;

    open spec fn view(&self) -> ProjectView {
        ProjectView {
            root: self.root@,
            config_dir: self.config_dir@,
            config_file: self.config_file@,
            name: self.name@,
            config: self.config@,
        }
    }
}

impl Project {
    /// Puts a project together from its paths, the name of its directory and
    /// its declaration. The project is called by the declared name or, where
    /// none is declared, by the name of its directory, in either case with
    /// spaces replaced by underscores; it is refused where neither is there.
    pub fn from_parts(
        root: String,
        config_dir: String,
        config_file: String,
        directory: Option<String>,
        config: Config,
    ) -> (res: Result<Project, ConfigError>)
        ensures
            match project_name_of(config@.name, opt_text(directory)) {
                Some(name) => res matches Ok(project) && project@ == (ProjectView {
                    root: root@,
                    config_dir: config_dir@,
                    config_file: config_file@,
                    name,
                    config: config@,
                }),
                None => res matches Err(ConfigError::InvalidPath),
            },
    {
        let name = match &config.name {
            Some(declared) => sanitize(declared.as_str()),
            None => match &directory {
                Some(found) => sanitize(found.as_str()),
                None => {
                    return Err(ConfigError::InvalidPath);
                },
            },
        };
        Ok(Project { root, config_dir, config_file, name, config })
    }

    /// The project rooted at `root` with the declaration `config`. The
    /// declaration lies in [`CONFIG_DIR`] below the root, in the file
    /// [`CONFIG_FILE`]. The root's last component is looked at only where the
    /// declaration gives no name.
    pub fn new(root: &str, config: Config) -> (res: Result<Project, ConfigError>)
        ensures
            match project_name_of(config@.name, path_file_name(root@)) {
                Some(name) => res matches Ok(project) && project@ == (ProjectView {
                    root: root@,
                    config_dir: joined_path(root@, CONFIG_DIR@),
                    config_file: joined_path(joined_path(root@, CONFIG_DIR@), CONFIG_FILE@),
                    name,
                    config: config@,
                }),
                None => res matches Err(ConfigError::InvalidPath),
            },
    {
        let directory = file_name(root);
        let config_dir = join_path(root, CONFIG_DIR);
        let config_file = join_path(config_dir.as_str(), CONFIG_FILE);
        Project::from_parts(String::from_str(root), config_dir, config_file, directory, config)
    }
}

} // verus!
