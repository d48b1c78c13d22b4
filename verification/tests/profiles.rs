use envvars::assets::EmbeddedImage;
use envvars::checksum::checksum;
use envvars::encoder::encode;
use envvars::envmap::EnvironmentMap;
use envvars::error::Error;
use envvars::extractor::{Action, Event, Extractor, Output};
use envvars::platform::Platform;
use envvars::profiles::unix::{self, Listing, SHELLS_FILE_PATH};
use envvars::profiles::windows::{
    self, get_envvars, get_path_buf, keys_to_lower_case, HOMEDRIVE, PROCESSOR_ARCHITEW6432,
    SYSTEM_ROOT, WINDIR,
};
use envvars::profiles::{add_profile, get, Candidate, Probe, Profile, Survey};

fn vars(pairs: &[(&str, &str)]) -> EnvironmentMap {
    let mut map = EnvironmentMap::new();
    for (key, value) in pairs {
        map.insert(key.to_string(), value.to_string());
    }
    map
}

fn found(file_name: &str) -> Probe {
    Probe::Found {
        symlink: false,
        file_name: Some(file_name.to_string()),
    }
}

fn io_error() -> std::io::Error {
    std::io::Error::new(std::io::ErrorKind::PermissionDenied, "denied")
}

fn paths(list: &[Candidate]) -> Vec<&str> {
    list.iter().map(|candidate| candidate.path.as_str()).collect()
}

fn names(list: &[Candidate]) -> Vec<&str> {
    list.iter()
        .map(|candidate| candidate.name.as_deref().unwrap_or(""))
        .collect()
}

#[test]
fn profile_takes_the_name_of_its_file() {
    let profile = Profile::new("/bin/bash", vec!["-c"], None, found("bash")).expect("a profile");
    assert_eq!(profile.name, "bash");
    assert_eq!(profile.path, "/bin/bash");
    assert_eq!(profile.args, vec!["-c".to_string()]);
    assert!(!profile.symlink);
    assert!(profile.envvars.is_none());
}

#[test]
fn profile_takes_the_given_name() {
    let probe = Probe::Found {
        symlink: true,
        file_name: Some("bash.exe".to_string()),
    };
    let profile = Profile::new(
        "C:\\Program Files\\Git\\bin\\bash.exe",
        vec!["--login", "-i", "-c"],
        Some("GitBash"),
        probe,
    )
    .expect("a profile");
    assert_eq!(profile.name, "GitBash");
    assert_eq!(profile.path, "C:\\Program Files\\Git\\bin\\bash.exe");
    assert_eq!(profile.args.len(), 3);
    assert!(profile.symlink);
    let probe = Probe::Found {
        symlink: false,
        file_name: None,
    };
    let profile = Profile::new("/", vec![], Some("root"), probe).expect("a profile");
    assert_eq!(profile.name, "root");
    assert!(profile.args.is_empty());
}

#[test]
fn profile_of_a_missing_shell_is_an_error() {
    match Profile::new("/bin/nosh", vec!["-c"], Some("nosh"), Probe::Missing) {
        Err(Error::NotFound(path)) => assert_eq!(path, "/bin/nosh"),
        _ => panic!("nothing is there"),
    }
}

#[test]
fn profile_of_an_unreadable_shell_is_an_error() {
    match Profile::new("/bin/sh", vec!["-c"], None, Probe::Unreadable(io_error())) {
        Err(Error::Io(error)) => assert_eq!(error.kind(), std::io::ErrorKind::PermissionDenied),
        _ => panic!("the path cannot be looked at"),
    }
}

#[test]
fn profile_without_a_name_is_an_error() {
    let probe = Probe::Found {
        symlink: false,
        file_name: None,
    };
    match Profile::new("/bin/..", vec!["-c"], None, probe) {
        Err(Error::Other(cause)) => {
            assert_eq!(cause, "Found \"/bin/..\", but cannot convert path")
        }
        _ => panic!("the path names no file"),
    }
}

fn extractor() -> Extractor {
    let image = EmbeddedImage::pack(vec![1, 2, 3], "c0ffee".to_string());
    Extractor::new(image, Platform::Unix, "/tmp")
}

#[test]
fn load_fills_the_variables() {
    let mut extractor = extractor();
    let mut profile =
        Profile::new("/bin/bash", vec!["-l", "-c"], None, found("bash")).expect("a profile");
    assert!(matches!(
        profile.load(&mut extractor, Event::Start),
        Action::Probe
    ));
    assert!(matches!(
        profile.load(&mut extractor, Event::Probed(true)),
        Action::Hash
    ));
    let sum = checksum(&[1, 2, 3]);
    match profile.load(&mut extractor, Event::Hashed(Ok(sum))) {
        Action::Run(command) => {
            assert_eq!(command.program, "/bin/bash");
            assert_eq!(command.args, vec!["-l", "-c", "/tmp/c0ffee"]);
        }
        _ => panic!("the copy is to be run"),
    }
    assert!(profile.envvars.is_none());
    let output = Output {
        code: Some(0),
        stdout: encode(&vars(&[("PATH", "/usr/bin"), ("LANG", "C")])).into_bytes(),
        stderr: Vec::new(),
    };
    assert!(matches!(
        profile.load(&mut extractor, Event::Ran(Ok(output))),
        Action::Done(Ok(()))
    ));
    let loaded = profile.envvars.as_ref().expect("the variables are loaded");
    assert_eq!(loaded.len(), 2);
    assert_eq!(loaded.get("PATH").unwrap(), "/usr/bin");
    assert!(loaded.contains_key("PATH"));
    assert_eq!(profile.name, "bash");
}

#[test]
fn load_that_fails_leaves_the_profile_as_it_is() {
    let mut extractor = extractor();
    let mut profile = Profile::new("/bin/bash", vec!["-c"], None, found("bash")).unwrap();
    profile.load(&mut extractor, Event::Start);
    profile.load(&mut extractor, Event::Probed(false));
    profile.load(&mut extractor, Event::Written(Ok(())));
    let output = Output {
        code: Some(2),
        stdout: b"motd".to_vec(),
        stderr: b"err".to_vec(),
    };
    match profile.load(&mut extractor, Event::Ran(Ok(output))) {
        Action::Done(Err(Error::Parsing(cause, code, stdout, stderr))) => {
            assert_eq!(cause, "No extractor output");
            assert_eq!(code, Some(2));
            assert_eq!(stdout, "motd");
            assert_eq!(stderr, "err");
        }
        _ => panic!("the output holds no markers"),
    }
    assert!(profile.envvars.is_none());
    profile.load(&mut extractor, Event::Start);
    profile.load(&mut extractor, Event::Probed(false));
    assert!(matches!(
        profile.load(&mut extractor, Event::Written(Err(io_error()))),
        Action::Done(Err(Error::Create(_)))
    ));
    assert!(profile.envvars.is_none());
}

#[test]
fn add_profile_passes_over_what_makes_none() {
    let candidate = |name: Option<&str>| Candidate {
        name: name.map(|name| name.to_string()),
        path: "/bin/zsh".to_string(),
        args: vec!["-c".to_string()],
    };
    let mut list = Vec::new();
    add_profile(&mut list, candidate(None), Probe::Missing);
    add_profile(&mut list, candidate(Some("zsh")), Probe::Missing);
    add_profile(&mut list, candidate(None), Probe::Unreadable(io_error()));
    let nameless = Probe::Found {
        symlink: false,
        file_name: None,
    };
    add_profile(&mut list, candidate(None), nameless);
    assert!(list.is_empty());
    add_profile(&mut list, candidate(None), found("zsh"));
    add_profile(&mut list, candidate(Some("Z shell")), found("zsh"));
    assert_eq!(list.len(), 2);
    assert_eq!(list[0].name, "zsh");
    assert_eq!(list[1].name, "Z shell");
    assert_eq!(list[1].path, "/bin/zsh");
    assert_eq!(list[1].args, vec!["-c"]);
}

#[test]
fn unix_lists_the_shells_of_the_file() {
    let content = "# /etc/shells: valid login shells\n/bin/sh\n\n/bin/bash\n#/bin/off\n/usr/bin/tcsh\n/bin/csh\n/bin/notcsh\n";
    let list = unix::get(Listing::Content(content.to_string()), false).expect("shells");
    assert_eq!(
        paths(&list),
        vec!["/bin/sh", "/bin/bash", "/usr/bin/tcsh", "/bin/csh", "/bin/notcsh"]
    );
    assert!(list.iter().all(|candidate| candidate.name.is_none()));
    assert_eq!(list[0].args, vec!["-i", "-l", "-c"]);
    assert_eq!(list[1].args, vec!["-i", "-l", "-c"]);
    assert_eq!(list[2].args, vec!["-ic"]);
    assert_eq!(list[3].args, vec!["-ic"]);
    assert_eq!(list[4].args, vec!["-i", "-l", "-c"]);
}

#[test]
fn unix_on_a_terminal_asks_for_no_interaction() {
    let list = unix::get(Listing::Content("/bin/zsh\ncsh\ntcsh".to_string()), true).unwrap();
    assert_eq!(paths(&list), vec!["/bin/zsh", "csh", "tcsh"]);
    assert_eq!(list[0].args, vec!["-l", "-c"]);
    assert_eq!(list[1].args, vec!["-c"]);
    assert_eq!(list[2].args, vec!["-c"]);
    assert!(unix::get(Listing::Content(String::new()), true)
        .unwrap()
        .is_empty());
}

#[test]
fn unix_without_the_file_is_an_error() {
    assert_eq!(SHELLS_FILE_PATH, "/etc/shells");
    match unix::get(Listing::Missing, false) {
        Err(Error::NotFound(path)) => assert_eq!(path, "/etc/shells"),
        _ => panic!("the file is missing"),
    }
    assert!(matches!(
        unix::get(Listing::Unreadable(io_error()), false),
        Err(Error::Io(_))
    ));
}

#[test]
fn keys_go_to_lower_case() {
    let lower = keys_to_lower_case(&vars(&[
        ("WinDir", "C:\\Windows"),
        ("PATH", "a"),
        ("\u{c4}", "umlaut"),
        ("Path", "b"),
    ]));
    assert_eq!(lower.len(), 3);
    assert_eq!(lower.get("windir").unwrap(), "C:\\Windows");
    assert_eq!(lower.get("path").unwrap(), "b");
    assert_eq!(lower.get("\u{e4}").unwrap(), "umlaut");
    assert!(lower.get("WinDir").is_none());
}

#[test]
fn larger_environment_is_taken() {
    let process = || vars(&[("A", "1"), ("B", "2")]);
    let chosen = get_envvars(Ok(vars(&[("X", "1")])), process());
    assert!(chosen.contains_key("A") && chosen.len() == 2);
    let chosen = get_envvars(Ok(vars(&[("X", "1"), ("Y", "2")])), process());
    assert!(chosen.contains_key("X") && chosen.len() == 2);
    let chosen = get_envvars(Ok(vars(&[("X", "1"), ("Y", "2"), ("Z", "3")])), process());
    assert_eq!(chosen.len(), 3);
    let chosen = get_envvars(Err(Error::NoExtractorOutput), process());
    assert!(chosen.contains_key("B") && chosen.len() == 2);
    let chosen = get_envvars(Err(Error::NoExtractorOutput), EnvironmentMap::new());
    assert!(chosen.is_empty());
}

#[test]
fn path_is_taken_as_it_is() {
    assert_eq!(get_path_buf("C:").unwrap(), "C:");
    assert_eq!(get_path_buf("").unwrap(), "");
}

fn windows_environment() -> EnvironmentMap {
    vars(&[
        ("windir", "C:\\Windows"),
        ("SystemRoot", "C:\\Windows"),
        ("HOMEDRIVE", "C:"),
        ("ProgramFiles", "C:\\Program Files"),
        ("ProgramFiles(X86)", "C:\\Program Files (x86)"),
        ("LocalAppData", "C:\\Users\\me\\AppData\\Local"),
        ("UserProfile", "C:\\Users\\me"),
    ])
}

#[test]
fn windows_looks_at_the_well_known_places() {
    assert_eq!(
        (WINDIR, SYSTEM_ROOT, PROCESSOR_ARCHITEW6432, HOMEDRIVE),
        ("windir", "systemroot", "processor_architew6432", "homedrive")
    );
    let list = windows::get(&windows_environment(), Some("C:\\Users\\me")).expect("places");
    assert_eq!(
        paths(&list),
        vec![
            "C:\\Windows\\System32\\wsl.exe",
            "C:\\Windows\\System32\\bash.exe",
            "C:\\Windows\\System32\\WindowsPowerShell\\v1.0\\powershell.exe",
            "C:\\Users\\me\\.dotnet\\tools\\pwsh.exe",
            "C:\\Windows\\System32\\cmd.exe",
            "C:cygwin64\\bin\\bash.exe",
            "C:cygwin\\bin\\bash.exe",
            "C:msys64\\usr\\bin\\bash.exe",
            "C:\\Program Files\\Git\\bin\\bash.exe",
            "C:\\Program Files\\Git\\usr\\bin\\bash.exe",
            "C:\\Program Files (x86)\\Git\\bin\\bash.exe",
            "C:\\Program Files (x86)\\Git\\usr\\bin\\bash.exe",
            "C:\\Users\\me\\AppData\\Local\\Programs\\Git\\bin\\bash.exe",
            "C:\\Users\\me\\scoop\\apps\\git-with-openssh\\current\\bin\\bash.exe",
        ]
    );
    assert_eq!(
        names(&list),
        vec![
            "WSL",
            "WSL (bash)",
            "Windows PowerShell",
            ".NET Core PowerShell Global Tool",
            "Command Prompt",
            "Cygwin x64",
            "Cygwin",
            "bash (MSYS2)",
            "GitBash",
            "GitBash",
            "GitBash",
            "GitBash",
            "GitBash",
            "GitBash",
        ]
    );
    assert_eq!(list[0].args, vec!["-c"]);
    assert_eq!(list[2].args, vec!["-c"]);
    assert!(list[4].args.is_empty());
    assert_eq!(list[5].args, vec!["--login", "-c"]);
    assert_eq!(list[7].args, vec!["--login", "-i", "-c"]);
    assert_eq!(list[13].args, vec!["--login", "-i", "-c"]);
}

#[test]
fn windows_of_a_32_bit_process_looks_under_sysnative() {
    let envvars = vars(&[
        ("WINDIR", "D:\\W"),
        ("HomeDrive", "D:\\"),
        ("PROCESSOR_ARCHITEW6432", "AMD64"),
        ("ProgramW6432", "D:\\P"),
    ]);
    let list = windows::get(&envvars, None).expect("places");
    assert_eq!(
        paths(&list),
        vec![
            "D:\\W\\Sysnative\\WindowsPowerShell\\v1.0\\powershell.exe",
            "D:\\W\\Sysnative\\cmd.exe",
            "D:\\cygwin64\\bin\\bash.exe",
            "D:\\cygwin\\bin\\bash.exe",
            "D:\\msys64\\usr\\bin\\bash.exe",
            "D:\\P\\Git\\bin\\bash.exe",
            "D:\\P\\Git\\usr\\bin\\bash.exe",
        ]
    );
}

#[test]
fn windows_needs_its_folder_and_the_home_drive() {
    match windows::get(&vars(&[("HOMEDRIVE", "C:")]), None) {
        Err(Error::NotFoundEnvVar(name)) => assert_eq!(name, "windir"),
        _ => panic!("the folder of Windows is not known"),
    }
    match windows::get(&vars(&[("windir", "C:\\Windows")]), None) {
        Err(Error::NotFoundEnvVar(name)) => assert_eq!(name, "homedrive"),
        _ => panic!("the drive of the home folder is not known"),
    }
    match windows::get(&EnvironmentMap::new(), None) {
        Err(Error::NotFoundEnvVar(name)) => assert_eq!(name, "windir"),
        _ => panic!("nothing is known"),
    }
}

fn survey(envvars: EnvironmentMap, shells: Listing) -> Survey {
    Survey {
        shells,
        is_term: false,
        envvars,
        home: None,
    }
}

#[test]
fn get_goes_by_the_platform() {
    let content = || Listing::Content("/bin/sh\n".to_string());
    let list = get(Platform::Unix, survey(EnvironmentMap::new(), content())).expect("shells");
    assert_eq!(paths(&list), vec!["/bin/sh"]);
    let list = get(Platform::Windows, survey(windows_environment(), content())).expect("places");
    assert_eq!(list.len(), 13);
    assert_eq!(list[0].path, "C:\\Windows\\System32\\wsl.exe");
    assert!(matches!(
        get(Platform::Other, survey(windows_environment(), content())),
        Err(Error::NotSupportedPlatform)
    ));
    assert!(matches!(
        get(Platform::Unix, survey(windows_environment(), Listing::Missing)),
        Err(Error::NotFound(_))
    ));
}

#[test]
fn windows_test() {
    let survey = Survey {
        shells: Listing::Missing,
        is_term: false,
        envvars: windows_environment(),
        home: Some("C:\\Users\\me".to_string()),
    };
    let mut profiles: Vec<Profile> = Vec::new();
    for candidate in get(Platform::Windows, survey).unwrap() {
        let installed = candidate.path.ends_with("cmd.exe") || candidate.path.contains("Git");
        let probe = if installed {
            found(candidate.path.rsplit('\\').next().unwrap())
        } else {
            Probe::Missing
        };
        add_profile(&mut profiles, candidate, probe);
    }
    assert_eq!(profiles.len(), 6);
    let image = EmbeddedImage::pack(vec![1, 2, 3], "c0ffee".to_string());
    let mut extractor = Extractor::new(image, Platform::Windows, "C:\\Temp");
    let mut copy: Option<Vec<u8>> = None;
    profiles.iter_mut().for_each(|p| {
        let mut event = Event::Start;
        let result = loop {
            event = match p.load(&mut extractor, event) {
                Action::Probe => Event::Probed(copy.is_some()),
                Action::Hash => Event::Hashed(Ok(checksum(copy.as_ref().unwrap()))),
                Action::Remove => {
                    copy = None;
                    Event::Removed(Ok(()))
                }
                Action::Write => {
                    copy = Some(vec![1, 2, 3]);
                    Event::Written(Ok(()))
                }
                Action::Run(command) => {
                    let stdout = if command.program.ends_with("cmd.exe") {
                        b"'C:\\\\Temp\\\\c0ffee.exe' is not recognized".to_vec()
                    } else {
                        encode(&windows_environment()).into_bytes()
                    };
                    Event::Ran(Ok(Output {
                        code: Some(0),
                        stdout,
                        stderr: Vec::new(),
                    }))
                }
                Action::Done(result) => break result,
            };
        };
        if let Err(err) = result {
            println!("{}: {:?}; fail to get envvars: {err:?}", p.name, p.path,);
        }
        println!(
            "{}: {:?}; (envvars: {})",
            p.name,
            p.path,
            if let Some(envvars) = p.envvars.as_ref() {
                envvars.len()
            } else {
                0
            }
        );
    });
    assert_eq!(copy, Some(vec![1, 2, 3]));
    assert!(profiles[0].envvars.is_none());
    assert_eq!(profiles[0].name, "Command Prompt");
    assert!(profiles[1..]
        .iter()
        .all(|p| p.name == "GitBash" && p.envvars.as_ref().unwrap().len() == 7));
}
