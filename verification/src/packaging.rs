use crate::platform::{join, joined, Platform};
use crate::text::push_char;
use vstd::prelude::*;
use vstd::string::*;

verus! {

/// What reading a folder gave.
pub enum Folder {
    /// There is no such folder.
    Missing,
    /// The folder could not be read.
    Unreadable,
    /// The paths of what the folder holds; none for an entry that could not be read.
    Entries(Vec<Option<String>>),
}

/// A path between double quotes.
pub open spec fn quoted(path: Seq<char>) -> Seq<char> {
    seq!['"'] + path + seq!['"']
}

/// The line that stands for an entry of a folder.
pub open spec fn entry_line(entry: Option<String>) -> Seq<char> {
    match entry {
        Some(path) => quoted(path@),
        None => Seq::empty(),
    }
}

/// The lines of the entries, with a line break between one and the next.
pub open spec fn entry_lines(entries: Seq<Option<String>>) -> Seq<char>
    decreases entries.len(),
{
    if entries.len() == 0 {
        Seq::empty()
    } else if entries.len() == 1 {
        entry_line(entries[0])
    } else {
        entry_lines(entries.drop_last()) + seq!['\n'] + entry_line(entries.last())
    }
}

/// What is said of the folder at `path`: what it holds, or why that is not known.
pub open spec fn listing(path: Seq<char>, folder: Folder) -> Seq<char> {
    match folder {
        Folder::Missing => quoted(path) + " doesn't exist"@,
        Folder::Unreadable => "Fail to read content of "@ + quoted(path),
        Folder::Entries(entries) => seq!['\n'] + entry_lines(entries@),
    }
}

/// Adds a path between double quotes at the end of `text`.
fn push_quoted(text: &mut String, path: &str)
    ensures
        final(text)@ == old(text)@ + quoted(path@),
{
    let ghost before = text@;
    push_char(text, '"');
    text.append(path);
    push_char(text, '"');
    assert(text@ =~= before + quoted(path@));
}

/// The name of the file of the extractor once it is built.
pub fn executable_file_name(platform: Platform) -> (name: String)
    ensures
        name@ == if platform == Platform::Windows {
            "extractor.exe"@
        } else {
            "extractor"@
        },
{
    match platform {
        Platform::Windows => String::from_str("extractor.exe"),
        _ => String::from_str("extractor"),
    }
}

/// The folder of the assets under the folder of the manifest.
pub fn assets_dir(platform: Platform, manifest_dir: &str) -> (path: String)
    ensures
        path@ == joined(platform, manifest_dir@, "assets"@),
{
    join(platform, manifest_dir, "assets")
}

/// The folder of the sources of the extractor under the folder of the manifest.
pub fn extractor_src_dir(platform: Platform, manifest_dir: &str) -> (path: String)
    ensures
        path@ == joined(platform, joined(platform, manifest_dir@, "assets"@), "extractor"@),
{
    let assets = assets_dir(platform, manifest_dir);
    join(platform, assets.as_str(), "extractor")
}

/// The built extractor under the folder `dest_dir` that its sources were copied to.
pub fn extractor_executable(platform: Platform, dest_dir: &str) -> (path: String)
    ensures
        path@ == joined(
            platform,
            joined(
                platform,
                joined(platform, joined(platform, dest_dir@, "extractor"@), "target"@),
                "release"@,
            ),
            if platform == Platform::Windows {
                "extractor.exe"@
            } else {
                "extractor"@
            },
        ),
{
    let sources = join(platform, dest_dir, "extractor");
    let target = join(platform, sources.as_str(), "target");
    let release = join(platform, target.as_str(), "release");
    let name = executable_file_name(platform);
    join(platform, release.as_str(), name.as_str())
}

/// What is said of the folder at `path`, for the log of a build.
pub fn ls(path: &str, folder: &Folder) -> (text: String)
    ensures
        text@ == listing(path@, *folder),
{
    match folder {
        Folder::Missing => {
            let mut text = String::new();
            push_quoted(&mut text, path);
            text.append(" doesn't exist");
            assert(text@ =~= listing(path@, *folder));
            text
        },
        Folder::Unreadable => {
            let mut text = String::from_str("Fail to read content of ");
            push_quoted(&mut text, path);
            text
        },
        Folder::Entries(entries) => {
            let mut text = String::new();
            push_char(&mut text, '\n');
            let mut at: usize = 0;
            assert(text@ =~= seq!['\n'] + entry_lines(entries@.take(0)));
            while at < entries.len()
                invariant
                    at <= entries@.len(),
                    text@ == seq!['\n'] + entry_lines(entries@.take(at as int)),
                decreases entries@.len() - at,
            {
                let ghost before = text@;
                if at > 0 {
                    push_char(&mut text, '\n');
                }
                match &entries[at] {
                    Some(path) => {
                        push_quoted(&mut text, path.as_str());
                    },
                    None => {},
                }
                proof {
                    let taken = entries@.take(at + 1);
                    assert(taken.drop_last() =~= entries@.take(at as int));
                    assert(taken.last() == entries@[at as int]);
                    assert(text@ =~= seq!['\n'] + entry_lines(taken));
                }
                at += 1;
            }
            assert(entries@.take(at as int) =~= entries@);
            text
        },
    }
}

/// What is said of the folder that a path lies in, where it lies in one.
pub fn ls_parent(parent: Option<&str>, folder: &Folder) -> (text: String)
    ensures
        text@ == match parent {
            Some(parent) => listing(parent@, *folder),
            None => "path doesn't have parent"@,
        },
{
    match parent {
        Some(parent) => ls(parent, folder),
        None => String::from_str("path doesn't have parent"),
    }
}

} // verus!
