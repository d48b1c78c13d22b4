use crate::envmap::EnvironmentMap;
use crate::error::Error;
use crate::extractor::{texts, Action, Event, Extractor};
use crate::platform::Platform;
use vstd::prelude::*;
use vstd::string::*;

pub mod unix;
pub mod windows;

verus! {

/// What was found at the path of a shell.
pub enum Probe {
    /// Nothing is there.
    Missing,
    /// Something is there, but it could not be looked at.
    Unreadable(std::io::Error),
    /// A file is there.
    Found {
        /// Whether the path is a link to another place.
        symlink: bool,
        /// The last part of the path, where it has one that names a file.
        file_name: Option<String>,
    },
}

/// A shell that may be installed: where it would be, and how it is to be called.
pub struct Candidate {
    /// The name to show, where the shell has one besides the name of its file.
    pub name: Option<String>,
    /// The path of the executable file.
    pub path: String,
    /// The arguments that make the shell run a command.
    pub args: Vec<String>,
}

/// A candidate as plain values.
pub struct CandidateView {
    pub name: Option<Seq<char>>,
    pub path: Seq<char>,
    pub args: Seq<Seq<char>>,
}

impl View for Candidate {
    type V = CandidateView;

    open spec fn view(&self) -> CandidateView {
        CandidateView {
            name: match self.name {
                Some(name) => Some(name@),
                None => None,
            },
            path: self.path@,
            args: texts(self.args@),
        }
    }
}

/// The candidates of a list as plain values.
pub open spec fn candidate_views(list: Seq<Candidate>) -> Seq<CandidateView> {
    list.map_values(|candidate: Candidate| candidate@)
}

/// The texts of a list of string slices.
pub open spec fn slice_texts(list: Seq<&str>) -> Seq<Seq<char>> {
    list.map_values(|text: &str| text@)
}

/// What is said of a path that names no file.
pub open spec fn cannot_convert(path: Seq<char>) -> Seq<char> {
    "Found \""@ + path + "\", but cannot convert path"@
}

/// A shell and, once they are loaded, its environment variables.
#[derive(Clone, Debug)]
pub struct Profile {
    /// The name of the shell: the one it was given, or the name of its executable file.
    pub name: String,
    /// The path of the executable file of the shell.
    pub path: String,
    /// The environment variables; none until `load` has got them.
    pub envvars: Option<EnvironmentMap>,
    /// Whether the path is a link to another place.
    pub symlink: bool,
    /// The arguments that make the shell run a command.
    pub args: Vec<String>,
}

impl Profile {
    /// The variables, where they are loaded, are a mapping in good order.
    pub open spec fn wf(&self) -> bool {
        self.envvars matches Some(vars) ==> vars.wf()
    }

    /// What `new` gives for a shell at `shell` with what was found there. A path with
    /// nothing at it and one that cannot be looked at are errors. The name is the given
    /// one, else the name of the file, and it is an error to have neither.
    pub open spec fn made(
        shell: Seq<char>,
        args: Seq<Seq<char>>,
        name: Option<Seq<char>>,
        found: Probe,
        result: Result<Profile, Error>,
    ) -> bool {
        match found {
            Probe::Missing => result matches Err(Error::NotFound(path)) && path@ == shell,
            Probe::Unreadable(error) => result == Err::<Profile, Error>(Error::Io(error)),
            Probe::Found { symlink, file_name } => {
                let chosen = match (name, file_name) {
                    (Some(name), _) => Some(name),
                    (None, Some(file_name)) => Some(file_name@),
                    (None, None) => None,
                };
                match chosen {
                    Some(chosen) => {
                        &&& result matches Ok(profile)
                        &&& profile.name@ == chosen
                        &&& profile.path@ == shell
                        &&& profile.envvars is None
                        &&& profile.symlink == symlink
                        &&& texts(profile.args@) == args
                    },
                    None => result matches Err(Error::Other(cause)) && cause@ == cannot_convert(
                        shell,
                    ),
                }
            },
        }
    }

    /// Puts a profile together from owned parts.
    fn assemble(path: String, args: Vec<String>, name: Option<String>, found: Probe) -> (result:
        Result<Profile, Error>)
        ensures
            Self::made(
                path@,
                texts(args@),
                match name {
                    Some(name) => Some(name@),
                    None => None,
                },
                found,
                result,
            ),
    {
        match found {
            Probe::Missing => Err(Error::NotFound(path)),
            Probe::Unreadable(error) => Err(Error::Io(error)),
            Probe::Found { symlink, file_name } => {
                let chosen = match (name, file_name) {
                    (Some(name), _) => Some(name),
                    (None, Some(file_name)) => Some(file_name),
                    (None, None) => None,
                };
                match chosen {
                    Some(name) => Ok(Profile { name, path, envvars: None, symlink, args }),
                    None => {
                        let mut cause = String::from_str("Found \"");
                        cause.append(path.as_str());
                        cause.append("\", but cannot convert path");
                        Err(Error::Other(cause))
                    },
                }
            },
        }
    }

    /// The profile of the shell at `shell`, which is called with `args` before a command,
    /// from what was found at its path.
    pub fn new(shell: &str, args: Vec<&str>, name: Option<&str>, found: Probe) -> (result: Result<
        Profile,
        Error,
    >)
        ensures
            Self::made(
                shell@,
                slice_texts(args@),
                match name {
                    Some(name) => Some(name@),
                    None => None,
                },
                found,
                result,
            ),
            result matches Ok(profile) ==> profile.wf(),
    {
        let mut owned: Vec<String> = Vec::new();
        let mut at: usize = 0;
        while at < args.len()
            invariant
                at <= args@.len(),
                owned@.len() == at,
                forall|i: int| 0 <= i < at ==> owned@[i]@ == args@[i]@,
            decreases args@.len() - at,
        {
            owned.push(String::from_str(args[at]));
            at += 1;
        }
        assert(texts(owned@) =~= slice_texts(args@));
        let name = match name {
            Some(name) => Some(String::from_str(name)),
            None => None,
        };
        Self::assemble(String::from_str(shell), owned, name, found)
    }

    /// The step of an extraction that a step of loading stands for, where `envvars` is
    /// what the profile holds after it.
    pub open spec fn extraction(step: Action<()>, envvars: Option<EnvironmentMap>) -> Action<
        EnvironmentMap,
    > {
        match step {
            Action::Probe => Action::Probe,
            Action::Hash => Action::Hash,
            Action::Remove => Action::Remove,
            Action::Write => Action::Write,
            Action::Run(command) => Action::Run(command),
            Action::Done(Ok(_)) => Action::Done(Ok(envvars->0)),
            Action::Done(Err(error)) => Action::Done(Err(error)),
        }
    }

    /// Takes the loading of the variables one step further: a step of an extraction
    /// through this shell, with its arguments. The extraction that ends well leaves its
    /// variables in the profile; until then, and when it fails, the profile stays as it is.
    pub fn load(&mut self, extractor: &mut Extractor, event: Event) -> (step: Action<()>)
        requires
            old(self).wf(),
        ensures
            final(self).wf(),
            Extractor::got(
                *old(extractor),
                Some(old(self).path@),
                texts(old(self).args@),
                event,
                *final(extractor),
                Self::extraction(step, final(self).envvars),
            ),
            final(self).name == old(self).name,
            final(self).path == old(self).path,
            final(self).symlink == old(self).symlink,
            final(self).args == old(self).args,
            step matches Action::Done(Ok(_)) ==> final(self).envvars is Some,
            !(step matches Action::Done(Ok(_))) ==> final(self).envvars == old(self).envvars,
    {
        match extractor.get(Some(self.path.as_str()), self.args.as_slice(), event) {
            Action::Probe => Action::Probe,
            Action::Hash => Action::Hash,
            Action::Remove => Action::Remove,
            Action::Write => Action::Write,
            Action::Run(command) => Action::Run(command),
            Action::Done(Ok(vars)) => {
                self.envvars = Some(vars);
                Action::Done(Ok(()))
            },
            Action::Done(Err(error)) => Action::Done(Err(error)),
        }
    }
}

/// Whether what was found makes a profile: a file is there, and it has a name.
pub open spec fn makes_profile(name: Option<String>, found: Probe) -> bool {
    found matches Probe::Found { file_name, .. } && (name is Some || file_name is Some)
}

/// Adds the profile of a candidate to the list, where what was found at its path makes
/// one; else the list stays as it is.
pub fn add_profile(list: &mut Vec<Profile>, candidate: Candidate, found: Probe)
    ensures
        !makes_profile(candidate.name, found) ==> final(list)@ == old(list)@,
        makes_profile(candidate.name, found) ==> {
            &&& final(list)@.len() == old(list)@.len() + 1
            &&& final(list)@.drop_last() == old(list)@
            &&& final(list)@.last().wf()
            &&& Profile::made(
                candidate.path@,
                texts(candidate.args@),
                match candidate.name {
                    Some(name) => Some(name@),
                    None => None,
                },
                found,
                Ok(final(list)@.last()),
            )
        },
{
    let ghost before = list@;
    match Profile::assemble(candidate.path, candidate.args, candidate.name, found) {
        Ok(profile) => {
            list.push(profile);
            assert(list@.drop_last() =~= before);
        },
        Err(_) => {},
    }
}

/// What was gathered to look for the shells with. Of the four, a platform reads only what
/// it needs.
pub struct Survey {
    /// What reading the file of shells gave.
    pub shells: unix::Listing,
    /// Whether the standard output is a terminal.
    pub is_term: bool,
    /// The environment variables.
    pub envvars: EnvironmentMap,
    /// The home folder of the user, where it is known.
    pub home: Option<String>,
}

/// The shells that may be installed: on Windows those at the well-known places, on a
/// POSIX-like system those that the file of shells lists. No other platform is supported.
pub fn get(platform: Platform, survey: Survey) -> (result: Result<Vec<Candidate>, Error>)
    requires
        survey.envvars.wf(),
    ensures
        match platform {
            Platform::Windows => windows::got(
                survey.envvars,
                match survey.home {
                    Some(home) => Some(home@),
                    None => None,
                },
                result,
            ),
            Platform::Unix => unix::got(survey.shells, survey.is_term, result),
            Platform::Other => result == Err::<Vec<Candidate>, Error>(Error::NotSupportedPlatform),
        },
{
    match platform {
        Platform::Windows => {
            let home = match &survey.home {
                Some(home) => Some(home.as_str()),
                None => None,
            };
            windows::get(&survey.envvars, home)
        },
        Platform::Unix => unix::get(survey.shells, survey.is_term),
        Platform::Other => Err(Error::NotSupportedPlatform),
    }
}

} // verus!
