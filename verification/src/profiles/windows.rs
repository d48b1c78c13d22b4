use crate::envmap::{map_of, EnvironmentMap};
use crate::error::Error;
use crate::extractor::texts;
use crate::platform::{join, joined, Platform};
use crate::profiles::{candidate_views, slice_texts, Candidate, CandidateView};
use vstd::prelude::*;
use vstd::string::*;

verus! {

/// The variable that names the folder of Windows.
pub const WINDIR: &'static str = "windir";

/// The variable that names the root of the system.
pub const SYSTEM_ROOT: &'static str = "systemroot";

/// The variable that is set for a 32-bit process on a 64-bit system.
pub const PROCESSOR_ARCHITEW6432: &'static str = "processor_architew6432";

/// The variable that names the drive of the home folder.
pub const HOMEDRIVE: &'static str = "homedrive";

/// A text in lower case, as `str::to_lowercase` gives it.
pub uninterp spec fn lowercase(text: Seq<char>) -> Seq<char>;

/// `str::to_lowercase`: the text in lower case.
#[verifier::external_body]
fn to_lowercase(text: &str) -> (lower: String)
    ensures
        lower@ == lowercase(text@),
{
    text.to_lowercase()
}

/// The pairs with their keys in lower case.
pub open spec fn lowered(pairs: Seq<(Seq<char>, Seq<char>)>) -> Seq<(Seq<char>, Seq<char>)> {
    pairs.map_values(|pair: (Seq<char>, Seq<char>)| (lowercase(pair.0), pair.1))
}

/// The variables under their names in lower case. Of two names that differ in case only,
/// the one that came in later gives the value.
pub fn keys_to_lower_case(map: &EnvironmentMap) -> (result: EnvironmentMap)
    requires
        map.wf(),
    ensures
        result.wf(),
        result@ == map_of(lowered(map.pairs())),
{
    let mut result = EnvironmentMap::new();
    let count = map.len();
    let mut at: usize = 0;
    assert(lowered(map.pairs()).take(0) =~= Seq::empty());
    proof {
        result.lemma_view();
    }
    while at < count
        invariant
            at <= count == map.pairs().len(),
            result.wf(),
            result@ == map_of(lowered(map.pairs()).take(at as int)),
        decreases count - at,
    {
        let (key, value) = map.entry(at);
        result.insert(to_lowercase(key.as_str()), value.clone());
        proof {
            let taken = lowered(map.pairs()).take(at + 1);
            assert(taken.drop_last() =~= lowered(map.pairs()).take(at as int));
            assert(taken.last() == (lowercase(key@), value@));
        }
        at += 1;
    }
    assert(lowered(map.pairs()).take(at as int) =~= lowered(map.pairs()));
    result
}

/// The variables to look for the shells with: those of the process itself where they are
/// more than the extracted ones, and else the extracted ones. An extraction that failed
/// counts as one that found nothing.
pub fn get_envvars(extracted: Result<EnvironmentMap, Error>, process: EnvironmentMap) -> (result:
    EnvironmentMap)
    requires
        process.wf(),
        extracted matches Ok(vars) ==> vars.wf(),
    ensures
        result.wf(),
        match extracted {
            Ok(vars) => if process@.dom().len() > vars@.dom().len() {
                result == process
            } else {
                result == vars
            },
            Err(_) => if process@.dom().len() > 0 {
                result == process
            } else {
                result@ == Map::<Seq<char>, Seq<char>>::empty()
            },
        },
{
    let envvars = match extracted {
        Ok(vars) => vars,
        Err(_) => EnvironmentMap::new(),
    };
    proof {
        envvars.lemma_view();
    }
    if process.len() > envvars.len() {
        process
    } else {
        envvars
    }
}

/// A path as it is: no text is turned down.
pub fn get_path_buf(str_path: &str) -> (result: Result<String, Error>)
    ensures
        result matches Ok(path) && path@ == str_path@,
{
    Ok(String::from_str(str_path))
}

/// The path that lies under `base` after the folders and the file of `parts`.
pub open spec fn under(base: Seq<char>, parts: Seq<Seq<char>>) -> Seq<char>
    decreases parts.len(),
{
    if parts.len() == 0 {
        base
    } else {
        joined(Platform::Windows, under(base, parts.drop_last()), parts.last())
    }
}

/// The shell `name` at `parts` under `base`, which takes `args` before a command.
pub open spec fn shell(
    name: Seq<char>,
    base: Seq<char>,
    parts: Seq<Seq<char>>,
    args: Seq<Seq<char>>,
) -> CandidateView {
    CandidateView { name: Some(name), path: under(base, parts), args }
}

/// The folder of the 64-bit system programs: a 32-bit process has it under another name.
pub open spec fn system_folder(lower: Map<Seq<char>, Seq<char>>) -> Seq<char> {
    if lower.dom().contains(PROCESSOR_ARCHITEW6432@) {
        "Sysnative"@
    } else {
        "System32"@
    }
}

/// The Linux subsystem, under its new and its old name, where the root of the system is
/// known.
pub open spec fn subsystem_shells(lower: Map<Seq<char>, Seq<char>>) -> Seq<CandidateView> {
    if lower.dom().contains(SYSTEM_ROOT@) {
        let root = lower[SYSTEM_ROOT@];
        seq![
            shell("WSL"@, root, seq![system_folder(lower), "wsl.exe"@], seq!["-c"@]),
            shell("WSL (bash)"@, root, seq![system_folder(lower), "bash.exe"@], seq!["-c"@]),
        ]
    } else {
        Seq::empty()
    }
}

/// The PowerShell that comes with Windows.
pub open spec fn power_shell(lower: Map<Seq<char>, Seq<char>>) -> CandidateView {
    shell(
        "Windows PowerShell"@,
        lower[WINDIR@],
        seq![system_folder(lower), "WindowsPowerShell"@, "v1.0"@, "powershell.exe"@],
        seq!["-c"@],
    )
}

/// The PowerShell that is installed as a tool of .NET, where the home folder is known.
pub open spec fn tool_shells(home: Option<Seq<char>>) -> Seq<CandidateView> {
    match home {
        Some(home) => seq![
            shell(
                ".NET Core PowerShell Global Tool"@,
                home,
                seq![".dotnet"@, "tools"@, "pwsh.exe"@],
                seq!["-c"@],
            ),
        ],
        None => Seq::empty(),
    }
}

/// The command prompt.
pub open spec fn command_prompt(lower: Map<Seq<char>, Seq<char>>) -> CandidateView {
    shell(
        "Command Prompt"@,
        lower[WINDIR@],
        seq![system_folder(lower), "cmd.exe"@],
        Seq::empty(),
    )
}

/// The shells of Cygwin and MSYS2 on the drive of the home folder.
pub open spec fn drive_shells(lower: Map<Seq<char>, Seq<char>>) -> Seq<CandidateView> {
    let drive = lower[HOMEDRIVE@];
    seq![
        shell(
            "Cygwin x64"@,
            drive,
            seq!["cygwin64"@, "bin"@, "bash.exe"@],
            seq!["--login"@, "-c"@],
        ),
        shell("Cygwin"@, drive, seq!["cygwin"@, "bin"@, "bash.exe"@], seq!["--login"@, "-c"@]),
        shell(
            "bash (MSYS2)"@,
            drive,
            seq!["msys64"@, "usr"@, "bin"@, "bash.exe"@],
            seq!["--login"@, "-i"@, "-c"@],
        ),
    ]
}

/// The shell of Git at `parts` under the folder that the variable `key` names, where
/// that variable is set.
pub open spec fn git_shells(
    envvars: Map<Seq<char>, Seq<char>>,
    key: Seq<char>,
    parts: Seq<Seq<char>>,
) -> Seq<CandidateView> {
    if envvars.dom().contains(key) {
        seq![shell("GitBash"@, envvars[key], parts, seq!["--login"@, "-i"@, "-c"@])]
    } else {
        Seq::empty()
    }
}

/// The two places of the shell of Git under a folder of programs.
pub open spec fn program_shells(envvars: Map<Seq<char>, Seq<char>>, key: Seq<char>) -> Seq<
    CandidateView,
> {
    git_shells(envvars, key, seq!["Git"@, "bin"@, "bash.exe"@]) + git_shells(
        envvars,
        key,
        seq!["Git"@, "usr"@, "bin"@, "bash.exe"@],
    )
}

/// The well-known places of the shells of Windows, in the order in which they are looked
/// for. `lower` holds the variables under their names in lower case.
pub open spec fn candidates(
    envvars: Map<Seq<char>, Seq<char>>,
    lower: Map<Seq<char>, Seq<char>>,
    home: Option<Seq<char>>,
) -> Seq<CandidateView> {
    subsystem_shells(lower) + seq![power_shell(lower)] + tool_shells(home) + seq![
        command_prompt(lower),
    ] + drive_shells(lower) + program_shells(envvars, "ProgramW6432"@) + program_shells(
        envvars,
        "ProgramFiles"@,
    ) + program_shells(envvars, "ProgramFiles(X86)"@) + git_shells(
        envvars,
        "LocalAppData"@,
        seq!["Programs"@, "Git"@, "bin"@, "bash.exe"@],
    ) + git_shells(
        envvars,
        "UserProfile"@,
        seq!["scoop"@, "apps"@, "git-with-openssh"@, "current"@, "bin"@, "bash.exe"@],
    )
}

/// Adds the shell `name` at `parts` under `base` to the list.
fn push_shell(list: &mut Vec<Candidate>, name: &str, base: &str, parts: Vec<&str>, args: Vec<&str>)
    ensures
        candidate_views(final(list)@) == candidate_views(old(list)@).push(
            shell(name@, base@, slice_texts(parts@), slice_texts(args@)),
        ),
{
    let mut path = String::from_str(base);
    let mut at: usize = 0;
    assert(slice_texts(parts@).take(0) =~= Seq::empty());
    while at < parts.len()
        invariant
            at <= parts@.len(),
            path@ == under(base@, slice_texts(parts@).take(at as int)),
        decreases parts@.len() - at,
    {
        proof {
            let taken = slice_texts(parts@).take(at + 1);
            assert(taken.drop_last() =~= slice_texts(parts@).take(at as int));
            assert(taken.last() == parts@[at as int]@);
        }
        path = join(Platform::Windows, path.as_str(), parts[at]);
        at += 1;
    }
    assert(slice_texts(parts@).take(at as int) =~= slice_texts(parts@));
    let mut owned: Vec<String> = Vec::new();
    let mut at: usize = 0;
    while at < args.len()
        invariant
            at <= args@.len(),
            owned@.len() == at,
            forall|i: int| 0 <= i < at ==> owned@[i]@ == args@[i]@,
        decreases args@.len() - at,
    {
        owned.push(String::from_str(args[at]));
        at += 1;
    }
    assert(texts(owned@) =~= slice_texts(args@));
    let ghost before = list@;
    let candidate = Candidate { name: Some(String::from_str(name)), path, args: owned };
    list.push(candidate);
    assert(candidate_views(list@) =~= candidate_views(before).push(candidate@));
}

/// Adds the shell of Git at `parts` under the folder that the variable `key` names.
fn push_git_shell(
    list: &mut Vec<Candidate>,
    envvars: &EnvironmentMap,
    key: &str,
    parts: Vec<&str>,
)
    requires
        envvars.wf(),
    ensures
        candidate_views(final(list)@) == candidate_views(old(list)@) + git_shells(
            envvars@,
            key@,
            slice_texts(parts@),
        ),
{
    let ghost before = candidate_views(list@);
    match envvars.get(key) {
        Some(folder) => {
            let args = vec!["--login", "-i", "-c"];
            assert(slice_texts(args@) =~= seq!["--login"@, "-i"@, "-c"@]);
            push_shell(list, "GitBash", folder.as_str(), parts, args);
            assert(candidate_views(list@) =~= before + git_shells(
                envvars@,
                key@,
                slice_texts(parts@),
            ));
        },
        None => {
            assert(candidate_views(list@) =~= before + git_shells(
                envvars@,
                key@,
                slice_texts(parts@),
            ));
        },
    }
}

/// Adds the two places of the shell of Git under a folder of programs.
fn push_program_shells(list: &mut Vec<Candidate>, envvars: &EnvironmentMap, key: &str)
    requires
        envvars.wf(),
    ensures
        candidate_views(final(list)@) == candidate_views(old(list)@) + program_shells(
            envvars@,
            key@,
        ),
{
    let ghost before = candidate_views(list@);
    let first = vec!["Git", "bin", "bash.exe"];
    assert(slice_texts(first@) =~= seq!["Git"@, "bin"@, "bash.exe"@]);
    push_git_shell(list, envvars, key, first);
    let second = vec!["Git", "usr", "bin", "bash.exe"];
    assert(slice_texts(second@) =~= seq!["Git"@, "usr"@, "bin"@, "bash.exe"@]);
    push_git_shell(list, envvars, key, second);
    assert(candidate_views(list@) =~= before + program_shells(envvars@, key@));
}

/// What `get` gives: the folder of Windows and the drive of the home folder have to be
/// known, and then the candidates are the well-known places.
pub open spec fn got(
    envvars: EnvironmentMap,
    home: Option<Seq<char>>,
    result: Result<Vec<Candidate>, Error>,
) -> bool {
    let lower = map_of(lowered(envvars.pairs()));
    if !lower.dom().contains(WINDIR@) {
        result matches Err(Error::NotFoundEnvVar(name)) && name@ == WINDIR@
    } else if !lower.dom().contains(HOMEDRIVE@) {
        result matches Err(Error::NotFoundEnvVar(name)) && name@ == HOMEDRIVE@
    } else {
        result matches Ok(list) && candidate_views(list@) == candidates(envvars@, lower, home)
    }
}

/// The well-known places of the shells of Windows, from the variables of the environment
/// and the home folder.
pub fn get(envvars: &EnvironmentMap, home: Option<&str>) -> (result: Result<Vec<Candidate>, Error>)
    requires
        envvars.wf(),
    ensures
        got(
            *envvars,
            match home {
                Some(home) => Some(home@),
                None => None,
            },
            result,
        ),
{
    let lower_case = keys_to_lower_case(envvars);
    let ghost lower = lower_case@;
    let windir = match lower_case.get(WINDIR) {
        Some(windir) => windir,
        None => {
            return Err(Error::NotFoundEnvVar(String::from_str(WINDIR)));
        },
    };
    let homedrive = match lower_case.get(HOMEDRIVE) {
        Some(homedrive) => homedrive,
        None => {
            return Err(Error::NotFoundEnvVar(String::from_str(HOMEDRIVE)));
        },
    };
    let system = if lower_case.contains_key(PROCESSOR_ARCHITEW6432) {
        "Sysnative"
    } else {
        "System32"
    };
    let mut list: Vec<Candidate> = Vec::new();
    assert(candidate_views(list@) =~= Seq::empty());
    if let Some(root) = lower_case.get(SYSTEM_ROOT) {
        let parts = vec![system, "wsl.exe"];
        let args = vec!["-c"];
        assert(slice_texts(parts@) =~= seq![system_folder(lower), "wsl.exe"@]);
        assert(slice_texts(args@) =~= seq!["-c"@]);
        push_shell(&mut list, "WSL", root.as_str(), parts, args);
        let parts = vec![system, "bash.exe"];
        let args = vec!["-c"];
        assert(slice_texts(parts@) =~= seq![system_folder(lower), "bash.exe"@]);
        assert(slice_texts(args@) =~= seq!["-c"@]);
        push_shell(&mut list, "WSL (bash)", root.as_str(), parts, args);
    }
    assert(candidate_views(list@) =~= subsystem_shells(lower));
    let ghost mut expected = subsystem_shells(lower);

    let parts = vec![system, "WindowsPowerShell", "v1.0", "powershell.exe"];
    let args = vec!["-c"];
    assert(slice_texts(parts@) =~= seq![
        system_folder(lower),
        "WindowsPowerShell"@,
        "v1.0"@,
        "powershell.exe"@,
    ]);
    assert(slice_texts(args@) =~= seq!["-c"@]);
    push_shell(&mut list, "Windows PowerShell", windir.as_str(), parts, args);
    proof {
        expected = expected + seq![power_shell(lower)];
        assert(candidate_views(list@) =~= expected);
    }

    if let Some(home) = home {
        let parts = vec![".dotnet", "tools", "pwsh.exe"];
        let args = vec!["-c"];
        assert(slice_texts(parts@) =~= seq![".dotnet"@, "tools"@, "pwsh.exe"@]);
        assert(slice_texts(args@) =~= seq!["-c"@]);
        push_shell(&mut list, ".NET Core PowerShell Global Tool", home, parts, args);
    }
    proof {
        expected = expected + tool_shells(
            match home {
                Some(home) => Some(home@),
                None => None,
            },
        );
        assert(candidate_views(list@) =~= expected);
    }

    let parts = vec![system, "cmd.exe"];
    let args: Vec<&str> = vec![];
    assert(slice_texts(parts@) =~= seq![system_folder(lower), "cmd.exe"@]);
    assert(slice_texts(args@) =~= Seq::<Seq<char>>::empty());
    push_shell(&mut list, "Command Prompt", windir.as_str(), parts, args);
    proof {
        expected = expected + seq![command_prompt(lower)];
        assert(candidate_views(list@) =~= expected);
    }

    let parts = vec!["cygwin64", "bin", "bash.exe"];
    let args = vec!["--login", "-c"];
    assert(slice_texts(parts@) =~= seq!["cygwin64"@, "bin"@, "bash.exe"@]);
    assert(slice_texts(args@) =~= seq!["--login"@, "-c"@]);
    push_shell(&mut list, "Cygwin x64", homedrive.as_str(), parts, args);
    let parts = vec!["cygwin", "bin", "bash.exe"];
    let args = vec!["--login", "-c"];
    assert(slice_texts(parts@) =~= seq!["cygwin"@, "bin"@, "bash.exe"@]);
    assert(slice_texts(args@) =~= seq!["--login"@, "-c"@]);
    push_shell(&mut list, "Cygwin", homedrive.as_str(), parts, args);
    let parts = vec!["msys64", "usr", "bin", "bash.exe"];
    let args = vec!["--login", "-i", "-c"];
    assert(slice_texts(parts@) =~= seq!["msys64"@, "usr"@, "bin"@, "bash.exe"@]);
    assert(slice_texts(args@) =~= seq!["--login"@, "-i"@, "-c"@]);
    push_shell(&mut list, "bash (MSYS2)", homedrive.as_str(), parts, args);
    proof {
        expected = expected + drive_shells(lower);
        assert(candidate_views(list@) =~= expected);
    }

    push_program_shells(&mut list, envvars, "ProgramW6432");
    push_program_shells(&mut list, envvars, "ProgramFiles");
    push_program_shells(&mut list, envvars, "ProgramFiles(X86)");
    let parts = vec!["Programs", "Git", "bin", "bash.exe"];
    assert(slice_texts(parts@) =~= seq!["Programs"@, "Git"@, "bin"@, "bash.exe"@]);
    push_git_shell(&mut list, envvars, "LocalAppData", parts);
    let parts = vec!["scoop", "apps", "git-with-openssh", "current", "bin", "bash.exe"];
    assert(slice_texts(parts@) =~= seq![
        "scoop"@,
        "apps"@,
        "git-with-openssh"@,
        "current"@,
        "bin"@,
        "bash.exe"@,
    ]);
    push_git_shell(&mut list, envvars, "UserProfile", parts);
    Ok(list)
}

} // verus!
