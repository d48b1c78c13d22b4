use crate::checksum::{blake3_hex, checksum};
use crate::literal::{push_literal, render_bytes};
use vstd::prelude::*;
use vstd::string::*;

verus! {

/// The extractor as it was packed when the library was built: the program, the checksum
/// of the program, and a name that no other build has.
pub struct EmbeddedImage {
    pub bin: Vec<u8>,
    pub checksum: String,
    pub filename: String,
}

impl EmbeddedImage {
    /// Whether the checksum is the one of the program.
    pub open spec fn consistent(&self) -> bool {
        self.checksum@ == blake3_hex(self.bin@)
    }

    /// Packs a program under a name, with the checksum that the program has.
    pub fn pack(bin: Vec<u8>, filename: String) -> (image: Self)
        ensures
            image.bin == bin,
            image.filename == filename,
            image.consistent(),
    {
        let checksum = checksum(bin.as_slice());
        EmbeddedImage { bin, checksum, filename }
    }

    /// The image as three constants of a source file.
    pub open spec fn spec_source(&self) -> Seq<char> {
        "\nstatic BIN: &[u8] = &"@ + render_bytes(self.bin@) + ";\nstatic CHECKSUM: &str = \""@
            + self.checksum@ + "\";\nstatic FILENAME: &str = \""@ + self.filename@
            + "\";\n        "@
    }

    /// The image as three constants of a source file, for a build to write down.
    pub fn source(&self) -> (text: String)
        ensures
            text@ == self.spec_source(),
    {
        let mut text = String::from_str("\nstatic BIN: &[u8] = &");
        push_literal(&mut text, self.bin.as_slice());
        text.append(";\nstatic CHECKSUM: &str = \"");
        text.append(self.checksum.as_str());
        text.append("\";\nstatic FILENAME: &str = \"");
        text.append(self.filename.as_str());
        text.append("\";\n        ");
        text
    }

    /// The checksum of the program.
    pub fn checksum(&self) -> (sum: &str)
        ensures
            sum@ == self.checksum@,
    {
        self.checksum.as_str()
    }

    /// The name under which the program is put on disk.
    pub fn filename(&self) -> (name: &str)
        ensures
            name@ == self.filename@,
    {
        self.filename.as_str()
    }

    /// The program.
    pub fn bin(&self) -> (bytes: &[u8])
        ensures
            bytes@ == self.bin@,
    {
        self.bin.as_slice()
    }
}

} // verus!
