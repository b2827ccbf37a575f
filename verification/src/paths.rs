use vstd::prelude::*;

verus! {

/// The base directory for configuration: on Windows `%APPDATA%\nglimit`,
/// falling back to `%USERPROFILE%`; elsewhere `$HOME`.
pub open spec fn base_dir(
    windows: bool,
    appdata: Option<Seq<char>>,
    userprofile: Option<Seq<char>>,
    home: Option<Seq<char>>,
) -> Option<Seq<Seq<char>>> {
    if windows {
        match appdata {
            Some(a) => Some(seq![a, "nglimit"@]),
            None => match userprofile {
                Some(u) => Some(seq![u]),
                None => None,
            },
        }
    } else {
        match home {
            Some(h) => Some(seq![h]),
            None => None,
        }
    }
}

/// The text views of the components of a path.
pub open spec fn parts_view(parts: Seq<String>) -> Seq<Seq<char>> {
    parts.map_values(|s: String| s@)
}

/// Path components of the configuration base directory, from the values
/// of `APPDATA`, `USERPROFILE` and `HOME` (when set).
pub fn config_base_dir(
    windows: bool,
    appdata: Option<String>,
    userprofile: Option<String>,
    home: Option<String>,
) -> (dir: Option<Vec<String>>)
    ensures
        match dir {
            Some(d) => base_dir(
                windows,
                crate::accounts::opt_text(appdata),
                crate::accounts::opt_text(userprofile),
                crate::accounts::opt_text(home),
            ) == Some(parts_view(d@)),
            None => base_dir(
                windows,
                crate::accounts::opt_text(appdata),
                crate::accounts::opt_text(userprofile),
                crate::accounts::opt_text(home),
            ) is None,
        },
{
    let mut parts: Vec<String> = Vec::new();
    if windows {
        match appdata {
            Some(a) => {
                parts.push(a);
                parts.push("nglimit".to_owned());
            },
            None => match userprofile {
                Some(u) => parts.push(u),
                None => return None,
            },
        }
    } else {
        match home {
            Some(h) => parts.push(h),
            None => return None,
        }
    }
    assert(parts_view(parts@) =~= base_dir(
        windows,
        crate::accounts::opt_text(appdata),
        crate::accounts::opt_text(userprofile),
        crate::accounts::opt_text(home),
    )->Some_0);
    Some(parts)
}

/// The components of an application file under a base directory: on
/// Windows `<base>/<app>/<file>`, elsewhere `<base>/.config/<app>/<file>`.
pub open spec fn app_file(base: Seq<Seq<char>>, windows: bool, app: Seq<char>, file: Seq<char>) -> Seq<Seq<char>> {
    if windows {
        base + seq![app, file]
    } else {
        base + seq![".config"@, app, file]
    }
}

/// The path components of an application file under `base`.
pub fn app_file_path(base: &Vec<String>, windows: bool, app: &str, file: &str) -> (path: Vec<
    String,
>)
    ensures
        parts_view(path@) == app_file(parts_view(base@), windows, app@, file@),
{
    let mut path = base.clone();
    if !windows {
        path.push(".config".to_owned());
    }
    path.push(app.to_owned());
    path.push(file.to_owned());
    assert(parts_view(path@) =~= app_file(parts_view(base@), windows, app@, file@));
    path
}

/// Where the `.env` file is taken from.
#[derive(Debug, Clone, Copy, PartialEq, Eq, Structural)]
pub enum DotenvSource {
    /// The file given on the command line.
    Explicit,
    /// `.env` in the working directory.
    WorkingDir,
    /// `.env` next to the executable.
    ExeDir,
}

/// The `.env` file chosen, given whether each candidate is an existing file
/// (`None` for a candidate that cannot be formed): an explicit file is used
/// when it exists and nothing else is tried; otherwise the working
/// directory and then the executable's directory are tried.
pub open spec fn dotenv_choice(explicit: Option<bool>, cwd: bool, exe_dir: Option<bool>) -> Option<
    DotenvSource,
> {
    match explicit {
        Some(found) => if found {
            Some(DotenvSource::Explicit)
        } else {
            None
        },
        None => if cwd {
            Some(DotenvSource::WorkingDir)
        } else if exe_dir == Some(true) {
            Some(DotenvSource::ExeDir)
        } else {
            None
        },
    }
}

/// Picks the `.env` file from the answers on which candidates exist.
pub fn choose_dotenv(explicit: Option<bool>, cwd: bool, exe_dir: Option<bool>) -> (res: Option<
    DotenvSource,
>)
    ensures
        res == dotenv_choice(explicit, cwd, exe_dir),
{
    match explicit {
        Some(found) => if found {
            Some(DotenvSource::Explicit)
        } else {
            None
        },
        None => if cwd {
            Some(DotenvSource::WorkingDir)
        } else if exe_dir == Some(true) {
            Some(DotenvSource::ExeDir)
        } else {
            None
        },
    }
}

} // verus!
