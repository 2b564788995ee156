//! The supported CPU architectures, their canonical names, and the choice of
//! a default architecture from what the platform reports.

use crate::laws::lemma_names_a_single_arch;
use crate::text::same_text;
use vstd::prelude::*;
use vstd::string::StringExecFns;

verus! {

/// A supported CPU architecture.
#[derive(Clone, Copy, Debug, PartialEq, Eq, Structural)]
pub enum Arch {
    X86,
    X64,
    Arm64,
    Armv7l,
    Ppc64le,
    Ppc64,
    S390x,
}

/// The reason why a text was not accepted as the name of an architecture.
#[derive(Debug)]
pub struct ArchError {
    details: String,
}

impl View for ArchError {
    type V = Seq<char>;

    /// The message that the error carries.
    closed spec fn view(&self) -> Seq<char> {
        self.details@
    }
}

/// Whether a text is the canonical name of an architecture, letter for
/// letter.
pub open spec fn is_canonical_name(s: Seq<char>) -> bool {
    exists|arch: Arch| #[trigger] arch.canonical() == s
}

/// The architecture that a text names, if it names one: the architecture
/// whose canonical name the text is.
pub open spec fn named_arch(s: Seq<char>) -> Option<Arch> {
    if is_canonical_name(s) {
        Some(choose|arch: Arch| #[trigger] arch.canonical() == s)
    } else {
        None
    }
}

/// The message of the error for a text that names no architecture.
pub open spec fn unknown_arch_message(s: Seq<char>) -> Seq<char> {
    "Unknown Arch: "@ + s
}

/// The default architecture name on a platform whose family is `os_family`
/// and which reports the architecture `raw_arch`: what the platform reports,
/// except that `arm64` on `darwin` is taken as `x64`.
pub open spec fn default_name(os_family: Seq<char>, raw_arch: Seq<char>) -> Seq<char> {
    if os_family == "darwin"@ && raw_arch == "arm64"@ {
        "x64"@
    } else {
        raw_arch
    }
}

impl Arch {
    /// The canonical name of the architecture.
    pub open spec fn canonical(self) -> Seq<char> {
        match self {
            Arch::X86 => "x86"@,
            Arch::X64 => "x64"@,
            Arch::Arm64 => "arm64"@,
            Arch::Armv7l => "armv7l"@,
            Arch::Ppc64le => "ppc64le"@,
            Arch::Ppc64 => "ppc64"@,
            Arch::S390x => "s390x"@,
        }
    }

    /// The canonical name of the architecture, as borrowed text.
    pub fn as_str(&self) -> (r: &'static str)
        ensures
            r@ == self.canonical(),
    {
        match self {
            Arch::X86 => "x86",
            Arch::X64 => "x64",
            Arch::Arm64 => "arm64",
            Arch::Armv7l => "armv7l",
            Arch::Ppc64le => "ppc64le",
            Arch::Ppc64 => "ppc64",
            Arch::S390x => "s390x",
        }
    }

    /// The canonical name of the architecture, as an owned string.
    pub fn to_string(&self) -> (r: String)
        ensures
            r@ == self.canonical(),
    {
        self.as_str().to_owned()
    }
}

/// Reads the name of an architecture. Only the seven canonical names are
/// accepted, exactly as they are written; any other text is refused with a
/// message that quotes it.
pub fn from_str(s: &str) -> (r: Result<Arch, ArchError>)
    ensures
        match named_arch(s@) {
            Some(arch) => r == Ok::<Arch, ArchError>(arch),
            None => r is Err && r->Err_0@ == unknown_arch_message(s@),
        },
{
    proof {
        lemma_names_a_single_arch(s@);
    }
    if same_text(s, "x86") {
        assert(s@ == Arch::X86.canonical());
        Ok(Arch::X86)
    } else if same_text(s, "x64") {
        assert(s@ == Arch::X64.canonical());
        Ok(Arch::X64)
    } else if same_text(s, "arm64") {
        assert(s@ == Arch::Arm64.canonical());
        Ok(Arch::Arm64)
    } else if same_text(s, "armv7l") {
        assert(s@ == Arch::Armv7l.canonical());
        Ok(Arch::Armv7l)
    } else if same_text(s, "ppc64le") {
        assert(s@ == Arch::Ppc64le.canonical());
        Ok(Arch::Ppc64le)
    } else if same_text(s, "ppc64") {
        assert(s@ == Arch::Ppc64.canonical());
        Ok(Arch::Ppc64)
    } else if same_text(s, "s390x") {
        assert(s@ == Arch::S390x.canonical());
        Ok(Arch::S390x)
    } else {
        let mut message: String = "Unknown Arch: ".to_owned();
        message.append(s);
        Err(ArchError::new(message.as_str()))
    }
}

impl std::str::FromStr for Arch {
    type Err = ArchError;

    /// Reads the name of an architecture, as the free function does.
    fn from_str(s: &str) -> (r: Result<Arch, ArchError>)
        ensures
            match named_arch(s@) {
                Some(arch) => r == Ok::<Arch, ArchError>(arch),
                None => r is Err && r->Err_0@ == unknown_arch_message(s@),
            },
    {
        from_str(s)
    }
}

impl ArchError {
    /// An error that carries `msg` as its message.
    pub fn new(msg: &str) -> (r: ArchError)
        ensures
            r@ == msg@,
    {
        ArchError { details: msg.to_owned() }
    }

    /// The message of the error.
    pub fn description(&self) -> (r: &str)
        ensures
            r@ == self@,
    {
        self.details.as_str()
    }

    /// The message of the error, as an owned string.
    pub fn to_string(&self) -> (r: String)
        ensures
            r@ == self@,
    {
        self.details.clone()
    }
}

/// Chooses the default architecture name from the platform's family and the
/// architecture that the platform reports. The reported architecture is
/// handed on as it is, with one exception: `arm64` on `darwin` gives `x64`.
///
/// The exception is a workaround for runtimes that have no native `arm64`
/// build for `darwin` yet, and can go once they have one.
pub fn default_str<'a>(os_family: &str, raw_arch: &'a str) -> (r: &'a str)
    ensures
        r@ == default_name(os_family@, raw_arch@),
{
    if same_text(os_family, "darwin") && same_text(raw_arch, "arm64") {
        "x64"
    } else {
        raw_arch
    }
}

/// The default architecture on a platform whose family is `os_family` and
/// which reports the architecture `raw_arch`. The default name has to be the
/// name of a supported architecture: on a platform where it is not, there is
/// no default to give and the caller cannot go on. A caller that does not
/// know the platform reads the default name with [`from_str`] first, and stops
/// with the error's message where it is refused.
pub fn get_default(os_family: &str, raw_arch: &str) -> (r: Arch)
    requires
        named_arch(default_name(os_family@, raw_arch@)) is Some,
    ensures
        Some(r) == named_arch(default_name(os_family@, raw_arch@)),
{
    from_str(default_str(os_family, raw_arch)).unwrap()
}

} // verus!
