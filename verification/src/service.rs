//! The decisions behind running the browser driver as a local service:
//! where its files live, which executable is used, what a PID file says,
//! and where the tail of the log starts. Touching files and processes is
//! left to the caller.

use crate::error::AppError;
use crate::text::texts;
use vstd::prelude::*;

verus! {

/// The files of the driver service.
#[derive(Debug)]
pub struct ServicePaths {
    /// The driver executable installed for this user.
    pub driver_path: String,
    /// The file that holds the PID of the running driver.
    pub pid_file: String,
    /// The file that the driver logs to.
    pub log_file: String,
}

/// The home directory that the service files live under: the current
/// directory where none is known.
pub open spec fn home_or_here(home: Option<Seq<char>>) -> Seq<char> {
    match home {
        Some(dir) => dir,
        None => "."@,
    }
}

/// The text of an optional string slice.
pub open spec fn slice_text(text: Option<&str>) -> Option<Seq<char>> {
    match text {
        Some(t) => Some(t@),
        None => None,
    }
}

/// The files of the driver service under the given home directory.
pub fn default_paths(home: Option<&str>) -> (paths: ServicePaths)
    ensures
        paths.driver_path@ == home_or_here(slice_text(home))
            + "/.email-sleuth/drivers/chromedriver"@,
        paths.pid_file@ == home_or_here(slice_text(home))
            + "/.email-sleuth/service/chromedriver.pid"@,
        paths.log_file@ == home_or_here(slice_text(home))
            + "/.email-sleuth/service/chromedriver.log"@,
{
    let base: &str = match home {
        Some(dir) => dir,
        None => ".",
    };
    ServicePaths {
        driver_path: base.to_owned().concat("/.email-sleuth/drivers/chromedriver"),
        pid_file: base.to_owned().concat("/.email-sleuth/service/chromedriver.pid"),
        log_file: base.to_owned().concat("/.email-sleuth/service/chromedriver.log"),
    }
}

/// The kind of system the service runs on.
#[derive(Debug, Clone, Copy, PartialEq, Eq, Structural)]
pub enum Platform {
    /// Linux and other Unix systems.
    Unix,
    /// macOS.
    MacOs,
    /// Windows.
    Windows,
}

/// The path under a directory, where the directory is known.
pub open spec fn path_under(dir: Option<Seq<char>>, rest: Seq<char>) -> Seq<Seq<char>> {
    match dir {
        Some(d) => seq![d + rest],
        None => Seq::<Seq<char>>::empty(),
    }
}

/// The places where a system has the driver installed: on Unix the two
/// usual directories for programs; on macOS these, the browser's bundle,
/// the two Homebrew places and the user's applications; on Windows the
/// browser's two program directories and the one of the user's profile.
pub open spec fn system_paths(
    platform: Platform,
    home: Option<Seq<char>>,
    user_profile: Option<Seq<char>>,
) -> Seq<Seq<char>> {
    match platform {
        Platform::Unix => seq!["/usr/local/bin/chromedriver"@, "/usr/bin/chromedriver"@],
        Platform::MacOs => seq![
            "/usr/local/bin/chromedriver"@,
            "/usr/bin/chromedriver"@,
            "/Applications/Google Chrome.app/Contents/MacOS/chromedriver"@,
            "/usr/local/Cellar/chromedriver/latest/bin/chromedriver"@,
            "/opt/homebrew/bin/chromedriver"@,
        ] + path_under(home, "/Applications/chromedriver"@),
        Platform::Windows => seq![
            "C:\\Program Files\\Google\\Chrome\\Application\\chromedriver.exe"@,
            "C:\\Program Files (x86)\\Google\\Chrome\\Application\\chromedriver.exe"@,
        ] + path_under(
            user_profile,
            "\\AppData\\Local\\Google\\Chrome\\Application\\chromedriver.exe"@,
        ),
    }
}

/// The places where the driver executable is looked for, in order: the
/// configured path where one is given and not empty, the path under the
/// home directory, then the places of the system.
pub open spec fn driver_candidates_spec(
    configured: Option<Seq<char>>,
    home: Option<Seq<char>>,
    platform: Platform,
    user_profile: Option<Seq<char>>,
) -> Seq<Seq<char>> {
    let own = seq![home_or_here(home) + "/.email-sleuth/drivers/chromedriver"@];
    let first = match configured {
        Some(path) => if path.len() > 0 {
            seq![path]
        } else {
            Seq::<Seq<char>>::empty()
        },
        None => Seq::<Seq<char>>::empty(),
    };
    first + own + system_paths(platform, home, user_profile)
}

/// Lists the places where the driver executable is looked for.
pub fn driver_candidates(
    configured: Option<&str>,
    home: Option<&str>,
    platform: Platform,
    user_profile: Option<&str>,
) -> (list: Vec<String>)
    ensures
        texts(list@) == driver_candidates_spec(
            slice_text(configured),
            slice_text(home),
            platform,
            slice_text(user_profile),
        ),
{
    let mut list: Vec<String> = Vec::new();
    match configured {
        Some(path) => {
            if !path.is_empty() {
                list.push(path.to_owned());
            }
        },
        None => {},
    }
    list.push(default_paths(home).driver_path);
    match platform {
        Platform::Unix => {
            list.push("/usr/local/bin/chromedriver".to_owned());
            list.push("/usr/bin/chromedriver".to_owned());
        },
        Platform::MacOs => {
            list.push("/usr/local/bin/chromedriver".to_owned());
            list.push("/usr/bin/chromedriver".to_owned());
            list.push("/Applications/Google Chrome.app/Contents/MacOS/chromedriver".to_owned());
            list.push("/usr/local/Cellar/chromedriver/latest/bin/chromedriver".to_owned());
            list.push("/opt/homebrew/bin/chromedriver".to_owned());
            match home {
                Some(dir) => {
                    list.push(dir.to_owned().concat("/Applications/chromedriver"));
                },
                None => {},
            }
        },
        Platform::Windows => {
            list.push(
                "C:\\Program Files\\Google\\Chrome\\Application\\chromedriver.exe".to_owned(),
            );
            list.push(
                "C:\\Program Files (x86)\\Google\\Chrome\\Application\\chromedriver.exe".to_owned(),
            );
            match user_profile {
                Some(dir) => {
                    list.push(
                        dir.to_owned().concat(
                            "\\AppData\\Local\\Google\\Chrome\\Application\\chromedriver.exe",
                        ),
                    );
                },
                None => {},
            }
        },
    }
    proof {
        assert(texts(list@) =~= driver_candidates_spec(
            slice_text(configured),
            slice_text(home),
            platform,
            slice_text(user_profile),
        ));
    }
    list
}

/// Whether `i` is the first place at which a file was found.
pub open spec fn is_first_found(is_file: Seq<bool>, count: int, i: int) -> bool {
    &&& 0 <= i < count
    &&& i < is_file.len()
    &&& is_file[i]
    &&& forall|j: int| 0 <= j < i ==> !is_file[j]
}

/// Picks the driver executable: the first of `candidates` at which a file
/// was found, `is_file` saying for each place whether one was. Where none
/// was found the service cannot be set up.
pub fn detect_driver_path(candidates: &Vec<String>, is_file: &Vec<bool>) -> (r: Result<
    String,
    AppError,
>)
    ensures
        r matches Ok(path) ==> exists|i: int|
            is_first_found(is_file@, candidates@.len() as int, i) && path == candidates@[i],
        r matches Err(err) ==> err is Initialization && forall|i: int|
            0 <= i < candidates@.len() && i < is_file@.len() ==> !is_file@[i],
{
    let mut i: usize = 0;
    while i < candidates.len() && i < is_file.len()
        invariant
            i <= candidates.len(),
            i <= is_file.len(),
            forall|j: int| 0 <= j < i ==> !is_file@[j],
        decreases candidates.len() - i,
    {
        if is_file[i] {
            assert(is_first_found(is_file@, candidates@.len() as int, i as int));
            return Ok(candidates[i].clone());
        }
        i += 1;
    }
    Err(
        AppError::Initialization(
            "ChromeDriver executable not found. Please install it or specify its location.".to_owned(),
        ),
    )
}

/// The wait, in milliseconds, between stopping the service and starting it
/// again.
pub const RESTART_WAIT_MS: u64 = 1000;

} // verus!
