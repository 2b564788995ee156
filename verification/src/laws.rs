//! What holds between reading an architecture's name, writing it, and
//! choosing the default.

use crate::arch::{default_name, is_canonical_name, named_arch, Arch};
use vstd::prelude::*;

verus! {

/// The seven canonical names, letter by letter. They are lower case, and no
/// two architectures share one.
pub proof fn lemma_canonical_names()
    ensures
        Arch::X86.canonical() =~= seq!['x', '8', '6'],
        Arch::X64.canonical() =~= seq!['x', '6', '4'],
        Arch::Arm64.canonical() =~= seq!['a', 'r', 'm', '6', '4'],
        Arch::Armv7l.canonical() =~= seq!['a', 'r', 'm', 'v', '7', 'l'],
        Arch::Ppc64le.canonical() =~= seq!['p', 'p', 'c', '6', '4', 'l', 'e'],
        Arch::Ppc64.canonical() =~= seq!['p', 'p', 'c', '6', '4'],
        Arch::S390x.canonical() =~= seq!['s', '3', '9', '0', 'x'],
        forall|a: Arch, b: Arch| #[trigger] a.canonical() == #[trigger] b.canonical() ==> a == b,
{
    reveal_strlit("x86");
    reveal_strlit("x64");
    reveal_strlit("arm64");
    reveal_strlit("armv7l");
    reveal_strlit("ppc64le");
    reveal_strlit("ppc64");
    reveal_strlit("s390x");
    assert forall|a: Arch, b: Arch| #[trigger] a.canonical() == #[trigger] b.canonical() implies a
        == b by {
        assert(a.canonical().len() == b.canonical().len());
        assert(a.canonical()[0] == b.canonical()[0]);
        assert(a.canonical()[1] == b.canonical()[1]);
    }
}

/// A text names at most one architecture: where it is the canonical name of
/// an architecture, that architecture is the one it names.
pub proof fn lemma_names_a_single_arch(s: Seq<char>)
    ensures
        forall|arch: Arch| #[trigger] arch.canonical() == s ==> named_arch(s) == Some(arch),
{
    lemma_canonical_names();
}

/// Reading a name is a lookup in a table of seven entries: a text names the
/// architecture whose entry it is, and any other text names none.
pub proof fn lemma_named_arch_table(s: Seq<char>)
    ensures
        named_arch(s) == if s == "x86"@ {
            Some(Arch::X86)
        } else if s == "x64"@ {
            Some(Arch::X64)
        } else if s == "arm64"@ {
            Some(Arch::Arm64)
        } else if s == "armv7l"@ {
            Some(Arch::Armv7l)
        } else if s == "ppc64le"@ {
            Some(Arch::Ppc64le)
        } else if s == "ppc64"@ {
            Some(Arch::Ppc64)
        } else if s == "s390x"@ {
            Some(Arch::S390x)
        } else {
            None
        },
{
    lemma_names_a_single_arch(s);
    assert(Arch::X86.canonical() == "x86"@);
    assert(Arch::X64.canonical() == "x64"@);
    assert(Arch::Arm64.canonical() == "arm64"@);
    assert(Arch::Armv7l.canonical() == "armv7l"@);
    assert(Arch::Ppc64le.canonical() == "ppc64le"@);
    assert(Arch::Ppc64.canonical() == "ppc64"@);
    assert(Arch::S390x.canonical() == "s390x"@);
}

/// Reading a text and writing the architecture that was read gives the text
/// back.
pub proof fn lemma_read_then_write(s: Seq<char>)
    requires
        named_arch(s) is Some,
    ensures
        named_arch(s)->Some_0.canonical() == s,
{
}

/// Writing an architecture and reading what was written gives the
/// architecture back.
pub proof fn lemma_write_then_read(arch: Arch)
    ensures
        named_arch(arch.canonical()) == Some(arch),
{
    lemma_names_a_single_arch(arch.canonical());
}

/// Two architectures are equal exactly when their canonical names are.
pub proof fn lemma_equal_iff_same_name(a: Arch, b: Arch)
    ensures
        a == b <==> a.canonical() == b.canonical(),
{
    lemma_canonical_names();
}

/// Where the platform reports an architecture that is not supported, the
/// default name is what was reported and is not supported either, whatever
/// the platform's family: the one exception to handing on what was reported is
/// made for a supported architecture. So there is no default architecture on
/// such a platform.
pub proof fn lemma_unknown_report_gives_unknown_default(os_family: Seq<char>, raw_arch: Seq<char>)
    requires
        named_arch(raw_arch) is None,
    ensures
        default_name(os_family, raw_arch) == raw_arch,
        named_arch(default_name(os_family, raw_arch)) is None,
{
    if raw_arch == "arm64"@ {
        assert(Arch::Arm64.canonical() == raw_arch);
    }
}

/// Where the platform reports a supported architecture, the default name is
/// supported too, whatever the platform's family.
pub proof fn lemma_known_report_gives_known_default(os_family: Seq<char>, raw_arch: Seq<char>)
    requires
        named_arch(raw_arch) is Some,
    ensures
        named_arch(default_name(os_family, raw_arch)) is Some,
{
    assert(Arch::X64.canonical() == "x64"@);
    assert(is_canonical_name("x64"@));
}

} // verus!
