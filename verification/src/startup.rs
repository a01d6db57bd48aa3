use vstd::prelude::*;

verus! {

/// What stands at the path that the program was started with.
#[derive(Clone, Copy, Debug, PartialEq, Eq, Structural)]
pub enum RootKind {
    File,
    Directory,
    Missing,
}

/// How the playlist is made.
pub enum Startup {
    /// It is the one file.
    LoadFile,
    /// It is what is found in the directory.
    ScanDirectory,
    /// There is none; the reason is printed.
    Refuse { reason: String },
}

/// The path to start with: the argument, or else the current directory.
pub fn root_argument(argument: Option<String>) -> (root: String)
    ensures
        root@ == match argument {
            Some(path) => path@,
            None => "."@,
        },
{
    match argument {
        Some(path) => path,
        None => ".".to_owned(),
    }
}

/// Decides how the playlist is made. `root` is the path as it is shown.
pub fn plan_startup(root: &str, kind: RootKind) -> (startup: Startup)
    ensures
        match startup {
            Startup::LoadFile => kind == RootKind::File,
            Startup::ScanDirectory => kind == RootKind::Directory,
            Startup::Refuse { reason } => kind == RootKind::Missing && reason@
                == "Path not found: "@ + root@,
        },
{
    match kind {
        RootKind::File => Startup::LoadFile,
        RootKind::Directory => Startup::ScanDirectory,
        RootKind::Missing => {
            let mut reason = "Path not found: ".to_owned();
            reason.append(root);
            Startup::Refuse { reason }
        },
    }
}

/// The reason to give up where the playlist is empty. `root` is the path as it
/// is shown.
pub fn refuse_empty(root: &str, track_count: usize) -> (reason: Option<String>)
    ensures
        reason is Some <==> track_count == 0,
        reason matches Some(text) ==> text@ == "No audio files found in \""@ + root@
            + "\" (supported: mp3, wav, flac, ogg)"@,
{
    if track_count == 0 {
        let mut reason = "No audio files found in \"".to_owned();
        reason.append(root);
        reason.append("\" (supported: mp3, wav, flac, ogg)");
        Some(reason)
    } else {
        None
    }
}

} // verus!
