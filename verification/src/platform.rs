use crate::text::push_char;
use vstd::prelude::*;
use vstd::string::*;

verus! {

/// The family of the operating system that the shells run on.
#[derive(Clone, Copy, Debug, PartialEq, Eq, Structural)]
pub enum Platform {
    /// POSIX-like systems.
    Unix,
    /// Windows, where a console program opens a window of its own.
    Windows,
    /// Anything else; no shells are looked for there.
    Other,
}

impl Platform {
    /// The character that is written between the parts of a path.
    pub open spec fn spec_separator(self) -> char {
        if self == Platform::Windows {
            '\\'
        } else {
            '/'
        }
    }

    /// Whether `c` parts a path.
    pub open spec fn spec_parts(self, c: char) -> bool {
        c == '/' || (self == Platform::Windows && c == '\\')
    }

    /// The character that is written between the parts of a path.
    #[verifier::when_used_as_spec(spec_separator)]
    pub fn separator(self) -> (c: char)
        ensures
            c == self.spec_separator(),
    {
        match self {
            Platform::Windows => '\\',
            _ => '/',
        }
    }

    /// Whether `c` parts a path.
    #[verifier::when_used_as_spec(spec_parts)]
    pub fn parts(self, c: char) -> (parts: bool)
        ensures
            parts == self.spec_parts(c),
    {
        c == '/' || (matches!(self, Platform::Windows) && c == '\\')
    }

    /// What the name of a program ends in.
    pub open spec fn spec_suffix(self) -> Seq<char> {
        if self == Platform::Windows {
            ".exe"@
        } else {
            Seq::empty()
        }
    }

    /// What the name of a program ends in.
    pub fn suffix(self) -> (suffix: &'static str)
        ensures
            suffix@ == self.spec_suffix(),
    {
        proof {
            reveal_strlit("");
            assert(""@ =~= Seq::<char>::empty());
        }
        match self {
            Platform::Windows => ".exe",
            _ => "",
        }
    }
}

/// Whether `base` is a drive of Windows and nothing more, as `C:` is.
pub open spec fn is_bare_drive(platform: Platform, base: Seq<char>) -> bool {
    &&& platform == Platform::Windows
    &&& base.len() == 2
    &&& base[1] == ':'
    &&& (('a' <= base[0] && base[0] <= 'z') || ('A' <= base[0] && base[0] <= 'Z'))
}

/// The path of `name` under `base`: the two with one separator between them, unless
/// `base` is empty, ends in a separator already, or is a drive and nothing more.
pub open spec fn joined(platform: Platform, base: Seq<char>, name: Seq<char>) -> Seq<char> {
    if base.len() == 0 || platform.spec_parts(base.last()) || is_bare_drive(platform, base) {
        base + name
    } else {
        base + seq![platform.spec_separator()] + name
    }
}

/// Whether `base` is a drive of Windows and nothing more.
fn bare_drive(platform: Platform, base: &str, length: usize) -> (bare: bool)
    requires
        length == base@.len(),
    ensures
        bare == is_bare_drive(platform, base@),
{
    if !matches!(platform, Platform::Windows) || length != 2 {
        return false;
    }
    let letter = base.get_char(0);
    base.get_char(1) == ':' && (('a' <= letter && letter <= 'z') || ('A' <= letter && letter
        <= 'Z'))
}

/// The path of `name` under `base`.
pub fn join(platform: Platform, base: &str, name: &str) -> (path: String)
    ensures
        path@ == joined(platform, base@, name@),
{
    let mut path = String::from_str(base);
    let length = base.unicode_len();
    if length > 0 && !platform.parts(base.get_char(length - 1)) && !bare_drive(
        platform,
        base,
        length,
    ) {
        push_char(&mut path, platform.separator());
    }
    path.append(name);
    path
}

} // verus!
