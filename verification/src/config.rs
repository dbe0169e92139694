//! Which command shows which kind of content, and how its arguments are
//! filled in.

use crate::text::{strings_view, to_chars};
use vstd::prelude::*;
use vstd::string::StringExecFns;

verus! {

/// The kinds of content that a viewer is started for.
#[derive(Debug, Clone, Copy, PartialEq, Eq, Structural)]
pub enum ContentKind {
    Audio,
    Collection,
    Image,
    Pdf,
    Text,
    Video,
}

/// The command line for each kind of content.
#[derive(Debug)]
struct Argv {
    audio: Vec<String>,
    image: Vec<String>,
    pdf: Vec<String>,
    text: Vec<String>,
    video: Vec<String>,
}

/// The configuration: the command line to run for each kind of content.
///
/// An element of a command line that is a percent sign and one letter is
/// replaced when the command is run: `%u` by the address of audio or video,
/// `%f` by the name of the file that holds an image, a document or text,
/// and `%p` by the pager for text.
#[derive(Debug)]
pub struct Config {
    argv: Argv,
}

/// The command line for audio unless the configuration names another.
pub open spec fn default_audio() -> Seq<Seq<char>> {
    seq!["mpv"@, "--profile=builtin-pseudo-gui"@, "--"@, "%u"@]
}

/// The command line for images and documents unless the configuration
/// names another.
pub open spec fn default_document() -> Seq<Seq<char>> {
    seq!["mupdf"@, "--"@, "%f"@]
}

/// The command line for text unless the configuration names another.
pub open spec fn default_text() -> Seq<Seq<char>> {
    seq!["xterm"@, "-e"@, "%p"@, "--"@, "%f"@]
}

/// The command line for video unless the configuration names another.
pub open spec fn default_video() -> Seq<Seq<char>> {
    seq!["mpv"@, "--"@, "%u"@]
}

fn document_viewer() -> (argv: Vec<String>)
    ensures
        strings_view(argv@) == default_document(),
{
    let mut argv: Vec<String> = Vec::new();
    argv.push(String::from_str("mupdf"));
    argv.push(String::from_str("--"));
    argv.push(String::from_str("%f"));
    assert(strings_view(argv@) =~= default_document());
    argv
}

impl Config {
    /// The command line for `kind`. A collection is shown as text is.
    pub closed spec fn argv(self, kind: ContentKind) -> Seq<Seq<char>> {
        match kind {
            ContentKind::Audio => strings_view(self.argv.audio@),
            ContentKind::Image => strings_view(self.argv.image@),
            ContentKind::Pdf => strings_view(self.argv.pdf@),
            ContentKind::Collection | ContentKind::Text => strings_view(self.argv.text@),
            ContentKind::Video => strings_view(self.argv.video@),
        }
    }

    /// A configuration with these command lines.
    pub fn new(
        audio: Vec<String>,
        image: Vec<String>,
        pdf: Vec<String>,
        text: Vec<String>,
        video: Vec<String>,
    ) -> (config: Config)
        ensures
            config.argv(ContentKind::Audio) == strings_view(audio@),
            config.argv(ContentKind::Image) == strings_view(image@),
            config.argv(ContentKind::Pdf) == strings_view(pdf@),
            config.argv(ContentKind::Text) == strings_view(text@),
            config.argv(ContentKind::Collection) == strings_view(text@),
            config.argv(ContentKind::Video) == strings_view(video@),
    {
        Config { argv: Argv { audio, image, pdf, text, video } }
    }

    /// The command line to run for content of this kind.
    pub fn get_argv(&self, kind: ContentKind) -> (argv: &Vec<String>)
        ensures
            strings_view(argv@) == self.argv(kind),
    {
        match kind {
            ContentKind::Audio => &self.argv.audio,
            ContentKind::Image => &self.argv.image,
            ContentKind::Pdf => &self.argv.pdf,
            ContentKind::Collection | ContentKind::Text => &self.argv.text,
            ContentKind::Video => &self.argv.video,
        }
    }
}

impl Default for Config {
    fn default() -> (config: Config)
        ensures
            config.argv(ContentKind::Audio) == default_audio(),
            config.argv(ContentKind::Image) == default_document(),
            config.argv(ContentKind::Pdf) == default_document(),
            config.argv(ContentKind::Text) == default_text(),
            config.argv(ContentKind::Collection) == default_text(),
            config.argv(ContentKind::Video) == default_video(),
    {
        let mut audio: Vec<String> = Vec::new();
        audio.push(String::from_str("mpv"));
        audio.push(String::from_str("--profile=builtin-pseudo-gui"));
        audio.push(String::from_str("--"));
        audio.push(String::from_str("%u"));
        assert(strings_view(audio@) =~= default_audio());
        let mut text: Vec<String> = Vec::new();
        text.push(String::from_str("xterm"));
        text.push(String::from_str("-e"));
        text.push(String::from_str("%p"));
        text.push(String::from_str("--"));
        text.push(String::from_str("%f"));
        assert(strings_view(text@) =~= default_text());
        let mut video: Vec<String> = Vec::new();
        video.push(String::from_str("mpv"));
        video.push(String::from_str("--"));
        video.push(String::from_str("%u"));
        assert(strings_view(video@) =~= default_video());
        Config::new(audio, document_viewer(), document_viewer(), text, video)
    }
}

/// What the placeholders of a command line stand for. One that is missing
/// has no meaning for the content at hand.
#[derive(Debug)]
pub struct Replacements {
    /// For `%u`: the address of the content.
    pub url: Option<String>,
    /// For `%f`: the name of the file that holds the content.
    pub file: Option<String>,
    /// For `%p`: the pager.
    pub pager: Option<String>,
}

/// An element of a command line holds a placeholder that means nothing for
/// the content at hand.
#[derive(Debug, Clone, Copy, PartialEq, Eq, Structural)]
pub struct InvalidPlaceholder(pub char);

impl Replacements {
    /// What `%` and `letter` stand for.
    pub open spec fn of(self, letter: char) -> Option<String> {
        if letter == 'u' {
            self.url
        } else if letter == 'f' {
            self.file
        } else if letter == 'p' {
            self.pager
        } else {
            None
        }
    }

    /// The replacements for content of this kind: the address for audio
    /// and video, the file for everything that is written to one, and the
    /// pager for text.
    pub fn new(kind: ContentKind, url: String, file: String, pager: String) -> (made: Replacements)
        ensures
            made.url == (if kind == ContentKind::Audio || kind == ContentKind::Video {
                Some(url)
            } else {
                None
            }),
            made.file == (if kind == ContentKind::Audio || kind == ContentKind::Video {
                None
            } else {
                Some(file)
            }),
            made.pager == (if kind == ContentKind::Collection || kind == ContentKind::Text {
                Some(pager)
            } else {
                None
            }),
    {
        match kind {
            ContentKind::Audio | ContentKind::Video => Replacements {
                url: Some(url),
                file: None,
                pager: None,
            },
            ContentKind::Collection | ContentKind::Text => Replacements {
                url: None,
                file: Some(file),
                pager: Some(pager),
            },
            ContentKind::Image | ContentKind::Pdf => Replacements {
                url: None,
                file: Some(file),
                pager: None,
            },
        }
    }

    fn get(&self, letter: char) -> (found: &Option<String>)
        ensures
            *found == self.of(letter),
    {
        if letter == 'u' {
            &self.url
        } else if letter == 'f' {
            &self.file
        } else if letter == 'p' {
            &self.pager
        } else {
            &None
        }
    }
}

/// Whether `argument` is a placeholder: a percent sign and one more
/// character.
pub open spec fn placeholder(argument: Seq<char>) -> bool {
    argument.len() == 2 && argument[0] == '%'
}

/// The first of the first `k` arguments that holds a placeholder without a
/// meaning, if there is one.
pub open spec fn first_invalid(arguments: Seq<String>, replacements: Replacements, k: nat) -> Option<
    char,
>
    decreases k,
{
    if k == 0 || k > arguments.len() {
        None
    } else {
        match first_invalid(arguments, replacements, (k - 1) as nat) {
            Some(letter) => Some(letter),
            None => {
                let argument = arguments[k - 1]@;
                if placeholder(argument) && replacements.of(argument[1]) is None {
                    Some(argument[1])
                } else {
                    None
                }
            },
        }
    }
}

/// The argument with its placeholder filled in, or as it is where it holds
/// none.
pub open spec fn expanded(argument: Seq<char>, replacements: Replacements) -> Seq<char> {
    if placeholder(argument) {
        match replacements.of(argument[1]) {
            Some(replacement) => replacement@,
            None => argument,
        }
    } else {
        argument
    }
}

/// Fills in the placeholders of the arguments of a command, or names the
/// first placeholder that means nothing for the content at hand.
pub fn expand_arguments(arguments: &Vec<String>, replacements: &Replacements) -> (out: Result<
    Vec<String>,
    InvalidPlaceholder,
>)
    ensures
        match out {
            Ok(filled) => {
                &&& first_invalid(arguments@, *replacements, arguments@.len()) is None
                &&& filled@.len() == arguments@.len()
                &&& forall|i: int|
                    0 <= i < filled@.len() ==> (#[trigger] filled@[i])@ == expanded(
                        arguments@[i]@,
                        *replacements,
                    )
            },
            Err(invalid) => first_invalid(arguments@, *replacements, arguments@.len()) == Some(
                invalid.0,
            ),
        },
{
    let mut filled: Vec<String> = Vec::new();
    let mut k: usize = 0;
    while k < arguments.len()
        invariant
            k <= arguments.len(),
            first_invalid(arguments@, *replacements, k as nat) is None,
            filled@.len() == k,
            forall|i: int|
                0 <= i < k ==> (#[trigger] filled@[i])@ == expanded(arguments@[i]@, *replacements),
        decreases arguments.len() - k,
    {
        let argument = to_chars(arguments[k].as_str());
        if argument.len() == 2 && argument[0] == '%' {
            match replacements.get(argument[1]) {
                Some(replacement) => filled.push(replacement.clone()),
                None => {
                    proof {
                        lemma_first_invalid(arguments@, *replacements, (k + 1) as nat);
                    }
                    return Err(InvalidPlaceholder(argument[1]));
                },
            }
        } else {
            filled.push(arguments[k].clone());
        }
        k += 1;
    }
    Ok(filled)
}

/// Once a placeholder without a meaning is found, it stays the first.
proof fn lemma_first_invalid(arguments: Seq<String>, replacements: Replacements, k: nat)
    requires
        k <= arguments.len(),
        first_invalid(arguments, replacements, k) is Some,
    ensures
        first_invalid(arguments, replacements, arguments.len()) == first_invalid(
            arguments,
            replacements,
            k,
        ),
    decreases arguments.len() - k,
{
    if k < arguments.len() {
        assert(first_invalid(arguments, replacements, k + 1) == first_invalid(
            arguments,
            replacements,
            k,
        ));
        lemma_first_invalid(arguments, replacements, k + 1);
    }
}

} // verus!
