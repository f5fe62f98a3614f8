//! Which shared library a host is to load: the operating system's name is
//! sorted into one of three families, and the family gives the library file's
//! prefix and extension.

use crate::text::{
    ascii_lowercase, contains, contains_chars, lemma_ascii_lowercase_idempotent, to_ascii_lowercase,
};
use vstd::prelude::*;

verus! {

/// The families of operating systems that name their shared libraries
/// differently.
#[derive(Clone, Copy, Debug, PartialEq, Eq, Structural)]
pub enum OsFamily {
    /// The name holds `mac`.
    Mac,
    /// The name holds `win`, and not `mac`.
    Windows,
    /// Every other name.
    Other,
}

/// The marker of the `Mac` family.
pub open spec fn mac_marker() -> Seq<char> {
    seq!['m', 'a', 'c']
}

/// The marker of the `Windows` family.
pub open spec fn windows_marker() -> Seq<char> {
    seq!['w', 'i', 'n']
}

/// The base name of the library, between prefix and extension.
pub open spec fn library_base_name() -> Seq<char> {
    seq!['m', 'y', '_', 'j', 'a', 'v', 'a', '_', 'l', 'i', 'b']
}

/// The family of the operating system called `os_name`: the name is
/// lower-cased, then searched for `mac`, and only if that is absent for `win`.
pub open spec fn family_of(os_name: Seq<char>) -> OsFamily {
    let lowered = ascii_lowercase(os_name);
    if contains(lowered, mac_marker()) {
        OsFamily::Mac
    } else if contains(lowered, windows_marker()) {
        OsFamily::Windows
    } else {
        OsFamily::Other
    }
}

/// The path of the library file for the given prefix and extension: a slash,
/// the prefix, the base name, the extension.
pub open spec fn resource_path_of(prefix: Seq<char>, extension: Seq<char>) -> Seq<char> {
    seq!['/'] + prefix + library_base_name() + extension
}

/// The path of the library file on the operating system called `os_name`.
pub open spec fn library_path_of(os_name: Seq<char>) -> Seq<char> {
    let family = family_of(os_name);
    resource_path_of(family.spec_prefix(), family.spec_extension())
}

impl OsFamily {
    /// What the family puts before a library's base name.
    pub open spec fn spec_prefix(self) -> Seq<char> {
        match self {
            OsFamily::Mac => seq!['l', 'i', 'b'],
            OsFamily::Windows => Seq::empty(),
            OsFamily::Other => seq!['l', 'i', 'b'],
        }
    }

    /// What the family puts after a library's base name.
    pub open spec fn spec_extension(self) -> Seq<char> {
        match self {
            OsFamily::Mac => seq!['.', 'd', 'y', 'l', 'i', 'b'],
            OsFamily::Windows => seq!['.', 'd', 'l', 'l'],
            OsFamily::Other => seq!['.', 's', 'o'],
        }
    }

    /// The prefix of a library file's name: `lib`, or nothing on `Windows`.
    pub fn prefix(&self) -> (prefix: &'static str)
        ensures
            prefix@ == self.spec_prefix(),
    {
        proof {
            reveal_strlit("lib");
            reveal_strlit("");
        }
        match self {
            OsFamily::Mac => "lib",
            OsFamily::Windows => "",
            OsFamily::Other => "lib",
        }
    }

    /// The extension of a library file's name: `.dylib`, `.dll` or `.so`.
    pub fn extension(&self) -> (extension: &'static str)
        ensures
            extension@ == self.spec_extension(),
    {
        proof {
            reveal_strlit(".dylib");
            reveal_strlit(".dll");
            reveal_strlit(".so");
        }
        match self {
            OsFamily::Mac => ".dylib",
            OsFamily::Windows => ".dll",
            OsFamily::Other => ".so",
        }
    }
}

/// Sorts an operating system's name into its family.
pub fn classify(os_name: &str) -> (family: OsFamily)
    ensures
        family == family_of(os_name@),
{
    let lowered = to_ascii_lowercase(os_name);
    let mac: Vec<char> = vec!['m', 'a', 'c'];
    let win: Vec<char> = vec!['w', 'i', 'n'];
    if contains_chars(lowered.as_slice(), mac.as_slice()) {
        OsFamily::Mac
    } else if contains_chars(lowered.as_slice(), win.as_slice()) {
        OsFamily::Windows
    } else {
        OsFamily::Other
    }
}

/// Builds the path of the library file from a prefix and an extension.
pub fn resource_path(prefix: &str, extension: &str) -> (path: String)
    ensures
        path@ == resource_path_of(prefix@, extension@),
{
    proof {
        reveal_strlit("/");
        reveal_strlit("my_java_lib");
    }
    let mut path = String::new();
    path.append("/");
    path.append(prefix);
    path.append("my_java_lib");
    path.append(extension);
    path
}

/// Builds the path of the library file for the operating system called
/// `os_name`.
pub fn library_path(os_name: &str) -> (path: String)
    ensures
        path@ == library_path_of(os_name@),
{
    let family = classify(os_name);
    resource_path(family.prefix(), family.extension())
}

/// The table by which a name is sorted: a name that holds `mac` gets `lib`
/// and `.dylib`; one that holds `win` and not `mac` gets no prefix and `.dll`;
/// every other name gets `lib` and `.so`. The name is searched in its
/// lower-case form.
pub proof fn lemma_family_table(os_name: Seq<char>)
    ensures
        ({
            let lowered = ascii_lowercase(os_name);
            let family = family_of(os_name);
            if contains(lowered, mac_marker()) {
                &&& family == OsFamily::Mac
                &&& family.spec_prefix() == seq!['l', 'i', 'b']
                &&& family.spec_extension() == seq!['.', 'd', 'y', 'l', 'i', 'b']
            } else if contains(lowered, windows_marker()) {
                &&& family == OsFamily::Windows
                &&& family.spec_prefix() == Seq::<char>::empty()
                &&& family.spec_extension() == seq!['.', 'd', 'l', 'l']
            } else {
                &&& family == OsFamily::Other
                &&& family.spec_prefix() == seq!['l', 'i', 'b']
                &&& family.spec_extension() == seq!['.', 's', 'o']
            }
        }),
{
}

/// The family does not depend on the case that the name is written in: a
/// name and its lower-case form are of one family.
pub proof fn lemma_family_ignores_case(os_name: Seq<char>)
    ensures
        family_of(ascii_lowercase(os_name)) == family_of(os_name),
{
    lemma_ascii_lowercase_idempotent(os_name);
}

} // verus!
