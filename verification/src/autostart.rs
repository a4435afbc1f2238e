//! User-session XDG autostart entries: where they live and what they hold.

use vstd::prelude::*;

use crate::text::{chars_of, join_path, owned, path_join, push_char};

verus! {

/// The desktop-file name owned by Kestrel in the current user's autostart directory.
pub const DESKTOP_FILE_NAME: &'static str = "io.github.kamleshkc2002.Kestrel.desktop";

/// The application name written to the desktop entry.
pub const APPLICATION_NAME: &'static str = "Kestrel";

/// A failure while resolving or changing Kestrel's user autostart entry.
#[derive(Debug, Clone, PartialEq, Eq)]
pub enum AutostartError {
    /// Neither a non-empty `XDG_CONFIG_HOME` nor a non-empty `HOME` was available.
    MissingConfigHome,
    /// An XDG configuration directory must be absolute.
    ConfigHomeNotAbsolute { path: String },
    /// The resolved autostart path could not have a parent directory.
    InvalidAutostartPath { path: String },
    /// The selected executable path must be absolute before it can be persisted.
    ExecutableNotAbsolute { path: String },
    /// Desktop entry values are UTF-8; this executable path cannot be represented safely.
    ExecutableNotUtf8 { path: String },
    /// A control character would make the desktop Exec value invalid or ambiguous.
    ExecutableContainsControlCharacter { path: String },
    /// Resolving the running executable failed.
    CurrentExecutable { source: String },
    /// Creating the user autostart directory failed.
    CreateDirectory { path: String, source: String },
    /// Creating the temporary desktop file failed.
    CreateTemporaryFile { path: String, source: String },
    /// Writing or syncing the temporary desktop file failed.
    WriteTemporaryFile { path: String, source: String },
    /// The temporary desktop file could not be atomically renamed into place.
    Install { from: String, to: String, source: String },
    /// Removing Kestrel's desktop file failed.
    Remove { path: String, source: String },
    /// Too many stale temporary names prevented a new atomic write.
    TemporaryFileNameExhausted { directory: String },
}

/// The user-facing description of an autostart failure.
pub open spec fn error_text(error: AutostartError) -> Seq<char> {
    match error {
        AutostartError::MissingConfigHome => "cannot resolve the user configuration directory: set XDG_CONFIG_HOME or HOME"@,
        AutostartError::ConfigHomeNotAbsolute { path } => "user configuration directory must be absolute: "@ + path@,
        AutostartError::InvalidAutostartPath { path } => "autostart path has no parent directory: "@ + path@,
        AutostartError::ExecutableNotAbsolute { path } => "Kestrel executable path must be absolute: "@ + path@,
        AutostartError::ExecutableNotUtf8 { path } => "Kestrel executable path is not valid UTF-8: "@ + path@,
        AutostartError::ExecutableContainsControlCharacter { path } => "Kestrel executable path contains a control character: "@ + path@,
        AutostartError::CurrentExecutable { source } => "cannot resolve the current Kestrel executable: "@ + source@,
        AutostartError::CreateDirectory { path, source } => "cannot create user autostart directory "@ + path@ + ": "@ + source@,
        AutostartError::CreateTemporaryFile { path, source } => "cannot create temporary autostart file "@ + path@ + ": "@ + source@,
        AutostartError::WriteTemporaryFile { path, source } => "cannot write temporary autostart file "@ + path@ + ": "@ + source@,
        AutostartError::Install { from, to, source } => "cannot atomically install autostart file "@ + from@ + " as "@ + to@ + ": "@ + source@,
        AutostartError::Remove { path, source } => "cannot remove Kestrel autostart file "@ + path@ + ": "@ + source@,
        AutostartError::TemporaryFileNameExhausted { directory } => "cannot allocate a temporary autostart filename in "@ + directory@,
    }
}

fn with_detail(prefix: &str, detail: &String) -> (text: String)
    ensures
        text@ == prefix@ + detail@,
{
    let mut text = owned(prefix);
    text.append(detail.as_str());
    text
}

fn with_path_and_source(prefix: &str, path: &String, source: &String) -> (text: String)
    ensures
        text@ == prefix@ + path@ + ": "@ + source@,
{
    let mut text = owned(prefix);
    text.append(path.as_str());
    text.append(": ");
    text.append(source.as_str());
    text
}

impl AutostartError {
    /// The user-facing description of this failure.
    pub fn describe(&self) -> (text: String)
        ensures
            text@ == error_text(*self),
    {
        match self {
            AutostartError::MissingConfigHome => owned("cannot resolve the user configuration directory: set XDG_CONFIG_HOME or HOME"),
            AutostartError::ConfigHomeNotAbsolute { path } => with_detail("user configuration directory must be absolute: ", path),
            AutostartError::InvalidAutostartPath { path } => with_detail("autostart path has no parent directory: ", path),
            AutostartError::ExecutableNotAbsolute { path } => with_detail("Kestrel executable path must be absolute: ", path),
            AutostartError::ExecutableNotUtf8 { path } => with_detail("Kestrel executable path is not valid UTF-8: ", path),
            AutostartError::ExecutableContainsControlCharacter { path } => with_detail("Kestrel executable path contains a control character: ", path),
            AutostartError::CurrentExecutable { source } => with_detail("cannot resolve the current Kestrel executable: ", source),
            AutostartError::CreateDirectory { path, source } => with_path_and_source("cannot create user autostart directory ", path, source),
            AutostartError::CreateTemporaryFile { path, source } => with_path_and_source("cannot create temporary autostart file ", path, source),
            AutostartError::WriteTemporaryFile { path, source } => with_path_and_source("cannot write temporary autostart file ", path, source),
            AutostartError::Install { from, to, source } => {
                let mut text = owned("cannot atomically install autostart file ");
                text.append(from.as_str());
                text.append(" as ");
                text.append(to.as_str());
                text.append(": ");
                text.append(source.as_str());
                text
            },
            AutostartError::Remove { path, source } => with_path_and_source("cannot remove Kestrel autostart file ", path, source),
            AutostartError::TemporaryFileNameExhausted { directory } => with_detail("cannot allocate a temporary autostart filename in ", directory),
        }
    }
}

/// A path is absolute when it starts at the root.
pub open spec fn is_absolute(path: Seq<char>) -> bool {
    path.len() > 0 && path[0] == '/'
}

/// Where Kestrel's desktop entry lives below a configuration directory.
pub open spec fn entry_path(config_home: Seq<char>) -> Seq<char> {
    path_join(path_join(config_home, "autostart"@), DESKTOP_FILE_NAME@)
}

/// Resolves the desktop-file path below an explicit XDG configuration
/// directory, which must be absolute.
pub fn autostart_path_in(config_home: &str) -> (result: Result<String, AutostartError>)
    ensures
        is_absolute(config_home@) ==> (result matches Ok(path) && path@ == entry_path(config_home@)),
        !is_absolute(config_home@) ==> (result matches Err(AutostartError::ConfigHomeNotAbsolute { path }) && path@ == config_home@),
{
    let characters = chars_of(config_home);
    if characters.len() == 0 || characters[0] != '/' {
        return Err(AutostartError::ConfigHomeNotAbsolute { path: owned(config_home) });
    }
    let directory = join_path(config_home, "autostart");
    Ok(join_path(directory.as_str(), DESKTOP_FILE_NAME))
}

/// A Unicode control character (general category `Cc`).
pub open spec fn is_control(character: char) -> bool {
    character <= '\u{1f}' || ('\u{7f}' <= character && character <= '\u{9f}')
}

/// Checks that an executable path can be written to a desktop entry: it must
/// be absolute and free of control characters.
pub fn validate_executable_path(path: &str) -> (result: Result<(), AutostartError>)
    ensures
        !is_absolute(path@) ==> (result matches Err(AutostartError::ExecutableNotAbsolute { path: shown }) && shown@ == path@),
        is_absolute(path@) && (exists|i: int| 0 <= i < path@.len() && is_control(#[trigger] path@[i])) ==> (result matches Err(
            AutostartError::ExecutableContainsControlCharacter { path: shown },
        ) && shown@ == path@),
        is_absolute(path@) && (forall|i: int| 0 <= i < path@.len() ==> !is_control(#[trigger] path@[i])) ==> result is Ok,
{
    let characters = chars_of(path);
    if characters.len() == 0 || characters[0] != '/' {
        return Err(AutostartError::ExecutableNotAbsolute { path: owned(path) });
    }
    let mut index: usize = 0;
    while index < characters.len()
        invariant
            characters@ == path@,
            is_absolute(path@),
            index <= characters@.len(),
            forall|i: int| 0 <= i < index ==> !is_control(#[trigger] path@[i]),
        decreases characters@.len() - index,
    {
        let character = characters[index];
        if (character <= '\u{1f}') || ('\u{7f}' <= character && character <= '\u{9f}') {
            assert(is_control(path@[index as int]));
            return Err(AutostartError::ExecutableContainsControlCharacter { path: owned(path) });
        }
        index += 1;
    }
    Ok(())
}

/// How one character is written inside a quoted desktop Exec argument.
pub open spec fn exec_escape(character: char) -> Seq<char> {
    if character == '%' {
        seq!['%', '%']
    } else if character == '"' || character == '\\' || character == '`' || character == '$' {
        seq!['\\', character]
    } else {
        seq![character]
    }
}

/// The escaped characters of a text.
pub open spec fn exec_escaped(text: Seq<char>) -> Seq<char>
    decreases text.len(),
{
    if text.len() == 0 {
        seq![]
    } else {
        exec_escaped(text.drop_last()) + exec_escape(text.last())
    }
}

/// Quotes one desktop Exec argument according to the Desktop Entry specification.
pub fn encode_exec_argument(value: &str) -> (encoded: String)
    ensures
        encoded@ == seq!['"'] + exec_escaped(value@) + seq!['"'],
{
    let characters = chars_of(value);
    let mut encoded = String::new();
    push_char(&mut encoded, '"');
    let mut index: usize = 0;
    while index < characters.len()
        invariant
            characters@ == value@,
            index <= characters@.len(),
            encoded@ == seq!['"'] + exec_escaped(value@.subrange(0, index as int)),
        decreases characters@.len() - index,
    {
        let character = characters[index];
        let ghost before = encoded@;
        if character == '%' {
            push_char(&mut encoded, '%');
            push_char(&mut encoded, '%');
        } else if character == '"' || character == '\\' || character == '`' || character == '$' {
            push_char(&mut encoded, '\\');
            push_char(&mut encoded, character);
        } else {
            push_char(&mut encoded, character);
        }
        proof {
            let prefix = value@.subrange(0, index + 1);
            assert(prefix.drop_last() =~= value@.subrange(0, index as int));
            assert(prefix.last() == character);
            assert(encoded@ =~= before + exec_escape(character));
            assert(seq!['"'] + exec_escaped(prefix) =~= seq!['"'] + exec_escaped(value@.subrange(0, index as int)) + exec_escape(character));
        }
        index += 1;
    }
    push_char(&mut encoded, '"');
    assert(value@.subrange(0, value@.len() as int) =~= value@);
    encoded
}

/// The desktop entry that starts Kestrel with `executable`.
pub open spec fn entry_text(executable: Seq<char>) -> Seq<char> {
    "[Desktop Entry]\nType=Application\nName=Kestrel\nExec="@ + seq!['"'] + exec_escaped(executable) + seq!['"'] + "\n"@
}

/// Builds the desktop entry that starts Kestrel with `executable`.
pub fn desktop_entry(executable: &str) -> (entry: String)
    ensures
        entry@ == entry_text(executable@),
{
    let encoded = encode_exec_argument(executable);
    let mut entry = owned("[Desktop Entry]\nType=Application\nName=");
    entry.append(APPLICATION_NAME);
    entry.append("\nExec=");
    entry.append(encoded.as_str());
    entry.append("\n");
    proof {
        reveal_strlit("[Desktop Entry]\nType=Application\nName=");
        reveal_strlit("Kestrel");
        reveal_strlit("\nExec=");
        reveal_strlit("[Desktop Entry]\nType=Application\nName=Kestrel\nExec=");
        assert(entry@ =~= entry_text(executable@));
    }
    entry
}

/// Whether a text holds a control character.
pub open spec fn has_control(text: Seq<char>) -> bool {
    exists|i: int| 0 <= i < text.len() && is_control(#[trigger] text[i])
}

/// What enabling autostart writes: the entry's path below `config_home` and
/// its contents, once both the directory and the executable are valid.
pub fn enable_plan(config_home: &str, executable: &str) -> (result: Result<(String, String), AutostartError>)
    ensures
        !is_absolute(config_home@) ==> (result matches Err(AutostartError::ConfigHomeNotAbsolute { path }) && path@ == config_home@),
        is_absolute(config_home@) && !is_absolute(executable@) ==> (result matches Err(AutostartError::ExecutableNotAbsolute { path }) && path@ == executable@),
        is_absolute(config_home@) && is_absolute(executable@) && has_control(executable@) ==> (result matches Err(
            AutostartError::ExecutableContainsControlCharacter { path },
        ) && path@ == executable@),
        is_absolute(config_home@) && is_absolute(executable@) && !has_control(executable@) ==> (result matches Ok((path, entry))
            && path@ == entry_path(config_home@) && entry@ == entry_text(executable@)),
{
    let path = match autostart_path_in(config_home) {
        Ok(path) => path,
        Err(error) => {
            return Err(error);
        },
    };
    match validate_executable_path(executable) {
        Ok(()) => {},
        Err(error) => {
            return Err(error);
        },
    }
    Ok((path, desktop_entry(executable)))
}

} // verus!
