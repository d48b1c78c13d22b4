use crate::assets::EmbeddedImage;
use crate::decoder::{decode, decoded};
use crate::envmap::{same_text, EnvironmentMap};
use crate::error::Error;
use crate::platform::{join, joined, Platform};
use crate::text::{push_char, read_utf8};
use vstd::prelude::*;
use vstd::string::*;
use vstd::utf8::*;

verus! {

/// What went wrong with the output of the extractor, as `Error::Parsing` carries it.
pub const NO_EXTRACTOR_OUTPUT: &'static str = "No extractor output";

/// What an event that the extractor did not ask for is answered with.
pub const OUT_OF_TURN: &'static str = "Event out of turn";

/// On Windows, the flag that keeps a console program from opening a window.
pub const CREATE_NO_WINDOW: u32 = 0x08000000;

/// The permissions that the delivered copy is created with on POSIX-like systems.
pub const EXECUTABLE_MODE: u32 = 0o777;

/// Where the extractor stands between two events.
#[derive(Clone, Copy, Debug, PartialEq, Eq, Structural)]
pub enum Phase {
    /// Nothing is under way.
    Idle,
    /// Asked whether the delivered copy exists.
    Probing,
    /// Asked for the checksum of the delivered copy.
    Hashing,
    /// Asked to remove the delivered copy.
    Removing,
    /// Asked to write the delivered copy.
    Writing,
    /// Asked to run the delivered copy.
    Running,
}

/// What a finished process left behind.
pub struct Output {
    /// The exit code, if the process ended with one.
    pub code: Option<i32>,
    pub stdout: Vec<u8>,
    pub stderr: Vec<u8>,
}

/// What the extractor is told: that an extraction begins, or how what it asked for went.
pub enum Event {
    /// An extraction begins.
    Start,
    /// Whether the delivered copy exists.
    Probed(bool),
    /// The checksum of the delivered copy.
    Hashed(Result<String, std::io::Error>),
    /// The delivered copy was removed.
    Removed(Result<(), std::io::Error>),
    /// The program was written to the delivered copy, made executable and flushed.
    Written(Result<(), std::io::Error>),
    /// The process was run to its end.
    Ran(Result<Output, std::io::Error>),
}

/// What a delivery asks for next, or how it ended.
pub enum Delivery {
    /// Find out whether the delivered copy exists.
    Probe,
    /// Compute the checksum of the delivered copy.
    Hash,
    /// Remove the delivered copy.
    Remove,
    /// Write the program to the delivered copy.
    Write,
    /// The delivered copy is verified and may be run.
    Ready,
    /// The delivery failed.
    Failed(std::io::Error),
    /// The event is not the answer to what was asked for.
    OutOfTurn,
}

/// A process to start.
pub struct Command {
    /// The program.
    pub program: String,
    /// Its arguments.
    pub args: Vec<String>,
    /// The flags for the creation of the process, where the platform has any.
    pub creation_flags: Option<u32>,
}

/// What an extraction asks for next, or how it ended and with what.
pub enum Action<T> {
    /// Find out whether the delivered copy exists.
    Probe,
    /// Compute the checksum of the delivered copy.
    Hash,
    /// Remove the delivered copy.
    Remove,
    /// Write the program to the delivered copy.
    Write,
    /// Run this process to its end and capture what it prints.
    Run(Command),
    /// The extraction is over.
    Done(Result<T, Error>),
}

/// The part of the extractor that changes from event to event.
pub struct State {
    pub phase: Phase,
    /// Whether the delivery that is under way, or the last one, found a copy that it could
    /// not verify.
    pub invalid_hash: bool,
}

/// The texts of a list of strings.
pub open spec fn texts(list: Seq<String>) -> Seq<Seq<char>> {
    list.map_values(|text: String| text@)
}

/// A text with each backslash doubled.
pub open spec fn escaped(text: Seq<char>) -> Seq<char>
    decreases text.len(),
{
    if text.len() == 0 {
        Seq::empty()
    } else if text.last() == '\\' {
        escaped(text.drop_last()) + seq!['\\', '\\']
    } else {
        escaped(text.drop_last()).push(text.last())
    }
}

/// One step of a delivery: where it stands after `event`, and what it asks for. A copy
/// that exists is verified before anything else; one that cannot be verified is removed
/// and written again. The copy is written at most once, and after that only its outcome
/// is awaited.
pub open spec fn next(state: State, checksum: Seq<char>, event: Event) -> (State, Delivery) {
    match (state.phase, event) {
        (Phase::Idle, Event::Start) => (
            State { phase: Phase::Probing, invalid_hash: false },
            Delivery::Probe,
        ),
        (Phase::Probing, Event::Probed(exists)) => if exists {
            (State { phase: Phase::Hashing, invalid_hash: state.invalid_hash }, Delivery::Hash)
        } else {
            (State { phase: Phase::Writing, invalid_hash: state.invalid_hash }, Delivery::Write)
        },
        (Phase::Hashing, Event::Hashed(Ok(sum))) => if sum@ == checksum {
            (State { phase: Phase::Idle, invalid_hash: state.invalid_hash }, Delivery::Ready)
        } else {
            (State { phase: Phase::Removing, invalid_hash: true }, Delivery::Remove)
        },
        (Phase::Hashing, Event::Hashed(Err(_))) => (
            State { phase: Phase::Removing, invalid_hash: true },
            Delivery::Remove,
        ),
        (Phase::Removing, Event::Removed(Ok(_))) => (
            State { phase: Phase::Writing, invalid_hash: state.invalid_hash },
            Delivery::Write,
        ),
        (Phase::Removing, Event::Removed(Err(error))) => (
            State { phase: Phase::Idle, invalid_hash: state.invalid_hash },
            Delivery::Failed(error),
        ),
        (Phase::Writing, Event::Written(Ok(_))) => (
            State { phase: Phase::Idle, invalid_hash: state.invalid_hash },
            Delivery::Ready,
        ),
        (Phase::Writing, Event::Written(Err(error))) => (
            State { phase: Phase::Idle, invalid_hash: state.invalid_hash },
            Delivery::Failed(error),
        ),
        _ => (State { phase: Phase::Idle, invalid_hash: state.invalid_hash }, Delivery::OutOfTurn),
    }
}

/// The process that runs the delivered copy at `location`: the copy itself where there
/// is no shell, and else the shell with its arguments and the copy as the last one. On
/// Windows the backslashes of that argument are doubled, and the process gets no window.
pub open spec fn commanded(
    platform: Platform,
    location: Seq<char>,
    shell: Option<Seq<char>>,
    args: Seq<Seq<char>>,
    command: Command,
) -> bool {
    match shell {
        None => {
            &&& command.program@ == location
            &&& texts(command.args@) == Seq::<Seq<char>>::empty()
            &&& command.creation_flags is None
        },
        Some(shell) => {
            &&& command.program@ == shell
            &&& texts(command.args@) == args.push(
                if platform == Platform::Windows {
                    escaped(location)
                } else {
                    location
                },
            )
            &&& command.creation_flags == if platform == Platform::Windows {
                Some(CREATE_NO_WINDOW)
            } else {
                None
            }
        },
    }
}

/// How the output of a process is read: both streams have to be valid text, and the
/// stdout has to hold the extractor's output. Otherwise the error tells which of the
/// two failed, and in the second case carries the exit code and both streams.
pub open spec fn extracted(output: Output, result: Result<EnvironmentMap, Error>) -> bool {
    if !valid_utf8(output.stdout@) || !valid_utf8(output.stderr@) {
        result matches Err(Error::Decoding(_))
    } else {
        match decoded(decode_utf8(output.stdout@)) {
            Some(vars) => result matches Ok(read) && read.wf() && read@ == vars,
            None => {
                &&& result matches Err(Error::Parsing(cause, code, stdout, stderr))
                &&& cause@ == NO_EXTRACTOR_OUTPUT@
                &&& code == output.code
                &&& stdout@ == decode_utf8(output.stdout@)
                &&& stderr@ == decode_utf8(output.stderr@)
            },
        }
    }
}

/// Reads the variables out of what the process left behind.
pub fn extract(output: &Output) -> (result: Result<EnvironmentMap, Error>)
    ensures
        extracted(*output, result),
{
    let stdout = match read_utf8(output.stdout.as_slice()) {
        Ok(text) => text,
        Err(error) => {
            return Err(Error::Decoding(error));
        },
    };
    let stderr = match read_utf8(output.stderr.as_slice()) {
        Ok(text) => text,
        Err(error) => {
            return Err(Error::Decoding(error));
        },
    };
    match decode(stdout) {
        Ok(vars) => Ok(vars),
        Err(_) => Err(
            Error::Parsing(
                String::from_str(NO_EXTRACTOR_OUTPUT),
                output.code,
                stdout.to_owned(),
                stderr.to_owned(),
            ),
        ),
    }
}

/// A copy of `text` with each backslash doubled.
pub fn escape(text: &str) -> (copy: String)
    ensures
        copy@ == escaped(text@),
{
    let mut copy = String::new();
    for c in it: text.chars()
        invariant
            copy@ == escaped(it.seq().take(it.index())),
    {
        proof {
            let taken = it.seq().take(it.index() + 1);
            assert(taken.drop_last() =~= it.seq().take(it.index()));
            assert(taken.last() == c);
        }
        if c == '\\' {
            push_char(&mut copy, '\\');
            push_char(&mut copy, '\\');
            assert(copy@ =~= escaped(it.seq().take(it.index())) + seq!['\\', '\\']);
        } else {
            push_char(&mut copy, c);
        }
    }
    assert(text@.take(text@.len() as int) =~= text@);
    copy
}

/// The extractor on disk, and what it takes to deliver and run it: the packed program,
/// the place of the delivered copy, and how far a delivery has come.
pub struct Extractor {
    image: EmbeddedImage,
    platform: Platform,
    location: String,
    phase: Phase,
    invalid_hash: bool,
}

impl Extractor {
    /// The packed program.
    pub closed spec fn spec_image(&self) -> EmbeddedImage {
        self.image
    }

    /// The platform that the extractor runs on.
    pub closed spec fn spec_platform(&self) -> Platform {
        self.platform
    }

    /// The path of the delivered copy.
    pub closed spec fn spec_location(&self) -> Seq<char> {
        self.location@
    }

    /// Where the extractor stands.
    pub closed spec fn state(&self) -> State {
        State { phase: self.phase, invalid_hash: self.invalid_hash }
    }

    /// Whether only the state differs between `self` and `before`.
    pub open spec fn same_copy(&self, before: &Self) -> bool {
        &&& self.spec_image() == before.spec_image()
        &&& self.spec_platform() == before.spec_platform()
        &&& self.spec_location() == before.spec_location()
    }

    /// An extractor whose delivered copy lies in `temp_dir` under the name of the image,
    /// with the ending that a program has on the platform.
    pub fn new(image: EmbeddedImage, platform: Platform, temp_dir: &str) -> (extractor: Self)
        ensures
            extractor.spec_image() == image,
            extractor.spec_platform() == platform,
            extractor.spec_location() == joined(
                platform,
                temp_dir@,
                image.filename@ + platform.spec_suffix(),
            ),
            extractor.state() == (State { phase: Phase::Idle, invalid_hash: false }),
    {
        let mut name = String::from_str(image.filename());
        name.append(platform.suffix());
        let location = join(platform, temp_dir, name.as_str());
        Extractor { image, platform, location, phase: Phase::Idle, invalid_hash: false }
    }

    /// The packed program.
    pub fn image(&self) -> (image: &EmbeddedImage)
        ensures
            *image == self.spec_image(),
    {
        &self.image
    }

    /// The path of the delivered copy.
    pub fn location(&self) -> (location: &str)
        ensures
            location@ == self.spec_location(),
    {
        self.location.as_str()
    }

    /// Whether the delivery that is under way, or the last one, found a copy that it could
    /// not verify.
    pub fn invalid_hash(&self) -> (flag: bool)
        ensures
            flag == self.state().invalid_hash,
    {
        self.invalid_hash
    }

    /// The permissions that the delivered copy is to be created with, where the platform
    /// has any to set.
    pub fn mode(&self) -> (mode: Option<u32>)
        ensures
            mode == if self.spec_platform() == Platform::Unix {
                Some(EXECUTABLE_MODE)
            } else {
                None
            },
    {
        match self.platform {
            Platform::Unix => Some(EXECUTABLE_MODE),
            _ => None,
        }
    }

    /// Takes the delivery one step further: see `next`.
    pub fn delivery(&mut self, event: Event) -> (asked: Delivery)
        ensures
            final(self).same_copy(old(self)),
            (final(self).state(), asked) == next(
                old(self).state(),
                old(self).spec_image().checksum@,
                event,
            ),
    {
        match (self.phase, event) {
            (Phase::Idle, Event::Start) => {
                self.phase = Phase::Probing;
                self.invalid_hash = false;
                Delivery::Probe
            },
            (Phase::Probing, Event::Probed(exists)) => {
                if exists {
                    self.phase = Phase::Hashing;
                    Delivery::Hash
                } else {
                    self.phase = Phase::Writing;
                    Delivery::Write
                }
            },
            (Phase::Hashing, Event::Hashed(Ok(sum))) => {
                if same_text(sum.as_str(), self.image.checksum()) {
                    self.phase = Phase::Idle;
                    Delivery::Ready
                } else {
                    self.phase = Phase::Removing;
                    self.invalid_hash = true;
                    Delivery::Remove
                }
            },
            (Phase::Hashing, Event::Hashed(Err(_))) => {
                self.phase = Phase::Removing;
                self.invalid_hash = true;
                Delivery::Remove
            },
            (Phase::Removing, Event::Removed(Ok(_))) => {
                self.phase = Phase::Writing;
                Delivery::Write
            },
            (Phase::Removing, Event::Removed(Err(error))) => {
                self.phase = Phase::Idle;
                Delivery::Failed(error)
            },
            (Phase::Writing, Event::Written(Ok(_))) => {
                self.phase = Phase::Idle;
                Delivery::Ready
            },
            (Phase::Writing, Event::Written(Err(error))) => {
                self.phase = Phase::Idle;
                Delivery::Failed(error)
            },
            _ => {
                self.phase = Phase::Idle;
                Delivery::OutOfTurn
            },
        }
    }

    /// The process that runs the delivered copy, directly or as a command of `shell`.
    pub fn output(&self, shell: Option<&str>, args: &[String]) -> (command: Command)
        ensures
            commanded(
                self.spec_platform(),
                self.spec_location(),
                match shell {
                    Some(shell) => Some(shell@),
                    None => None,
                },
                texts(args@),
                command,
            ),
    {
        match shell {
            None => {
                let command = Command {
                    program: self.location.clone(),
                    args: Vec::new(),
                    creation_flags: None,
                };
                assert(texts(command.args@) =~= Seq::<Seq<char>>::empty());
                command
            },
            Some(shell) => {
                let mut list: Vec<String> = Vec::new();
                let mut at: usize = 0;
                while at < args.len()
                    invariant
                        at <= args@.len(),
                        list@.len() == at,
                        texts(list@) == texts(args@).take(at as int),
                    decreases args@.len() - at,
                {
                    let ghost before = list@;
                    list.push(args[at].clone());
                    proof {
                        assert forall|i: int| 0 <= i <= at implies texts(list@)[i] == texts(
                            args@,
                        )[i] by {
                            if i < at {
                                assert(texts(before)[i] == texts(args@).take(at as int)[i]);
                            }
                        }
                        assert(texts(list@) =~= texts(args@).take(at + 1));
                    }
                    at += 1;
                }
                assert(texts(args@).take(at as int) =~= texts(args@));
                let ghost before = list@;
                match self.platform {
                    Platform::Windows => {
                        list.push(escape(self.location.as_str()));
                        assert(texts(list@) =~= texts(before).push(escaped(self.location@)));
                        Command {
                            program: String::from_str(shell),
                            args: list,
                            creation_flags: Some(CREATE_NO_WINDOW),
                        }
                    },
                    _ => {
                        list.push(self.location.clone());
                        assert(texts(list@) =~= texts(before).push(self.location@));
                        Command {
                            program: String::from_str(shell),
                            args: list,
                            creation_flags: None,
                        }
                    },
                }
            },
        }
    }

    /// One step of an extraction, from `before` to `after`. Until the delivered copy is
    /// ready the steps are those of the delivery; then the copy is run, directly or as a
    /// command of `shell`, and what it printed is read. A failed delivery ends the
    /// extraction with `Error::Create`, a process that could not be started with
    /// `Error::Executing`.
    pub open spec fn got(
        before: Extractor,
        shell: Option<Seq<char>>,
        args: Seq<Seq<char>>,
        event: Event,
        after: Extractor,
        action: Action<EnvironmentMap>,
    ) -> bool {
        &&& after.same_copy(&before)
        &&& before.state().phase == Phase::Running ==> {
            &&& after.state() == (State {
                phase: Phase::Idle,
                invalid_hash: before.state().invalid_hash,
            })
            &&& match event {
                Event::Ran(Ok(output)) => action matches Action::Done(result) && extracted(
                    output,
                    result,
                ),
                Event::Ran(Err(error)) => action == Action::<EnvironmentMap>::Done(
                    Err(Error::Executing(error)),
                ),
                _ => action matches Action::Done(Err(Error::Other(cause))) && cause@
                    == OUT_OF_TURN@,
            }
        }
        &&& before.state().phase != Phase::Running ==> {
            let (state, asked) = next(before.state(), before.spec_image().checksum@, event);
            match asked {
                Delivery::Probe => after.state() == state && action is Probe,
                Delivery::Hash => after.state() == state && action is Hash,
                Delivery::Remove => after.state() == state && action is Remove,
                Delivery::Write => after.state() == state && action is Write,
                Delivery::Ready => {
                    &&& after.state() == (State {
                        phase: Phase::Running,
                        invalid_hash: state.invalid_hash,
                    })
                    &&& action matches Action::Run(command)
                    &&& commanded(
                        before.spec_platform(),
                        before.spec_location(),
                        shell,
                        args,
                        command,
                    )
                },
                Delivery::Failed(error) => after.state() == state && action
                    == Action::<EnvironmentMap>::Done(Err(Error::Create(error))),
                Delivery::OutOfTurn => {
                    &&& after.state() == state
                    &&& action matches Action::Done(Err(Error::Other(cause)))
                    &&& cause@ == OUT_OF_TURN@
                },
            }
        }
    }

    /// Takes an extraction one step further: see `got`.
    pub fn get(&mut self, shell: Option<&str>, args: &[String], event: Event) -> (action: Action<
        EnvironmentMap,
    >)
        ensures
            Self::got(
                *old(self),
                match shell {
                    Some(shell) => Some(shell@),
                    None => None,
                },
                texts(args@),
                event,
                *final(self),
                action,
            ),
    {
        if matches!(self.phase, Phase::Running) {
            self.phase = Phase::Idle;
            match event {
                Event::Ran(Ok(output)) => Action::Done(extract(&output)),
                Event::Ran(Err(error)) => Action::Done(Err(Error::Executing(error))),
                _ => Action::Done(Err(Error::Other(String::from_str(OUT_OF_TURN)))),
            }
        } else {
            match self.delivery(event) {
                Delivery::Probe => Action::Probe,
                Delivery::Hash => Action::Hash,
                Delivery::Remove => Action::Remove,
                Delivery::Write => Action::Write,
                Delivery::Ready => {
                    self.phase = Phase::Running;
                    Action::Run(self.output(shell, args))
                },
                Delivery::Failed(error) => Action::Done(Err(Error::Create(error))),
                Delivery::OutOfTurn => Action::Done(
                    Err(Error::Other(String::from_str(OUT_OF_TURN))),
                ),
            }
        }
    }
}

} // verus!
