//! The system-information report: three host fields (operating system,
//! CPU architecture, OS family), each behind a fixed label, joined with
//! ", " into one line. The caller supplies the three fields; assembling
//! the line is pure and verified here.

use vstd::prelude::*;
use vstd::string::StringExecFns;

verus! {

/// The full report for the three given fields: each field behind its fixed
/// label, the three labelled fields joined with ", ".
pub open spec fn spec_system_info(os: Seq<char>, arch: Seq<char>, family: Seq<char>) -> Seq<char> {
    "OS: "@ + os + ", "@ + "Architecture: "@ + arch + ", "@ + "OS Family: "@ + family
}

/// True when no character of `s` is a comma.
pub open spec fn comma_free(s: Seq<char>) -> bool {
    forall|i: int| 0 <= i < s.len() ==> s[i] != ','
}

/// Builds the system-information line for the three given host fields.
/// The operation cannot fail and performs no lookup of its own: the result
/// is a function of the three arguments alone.
pub fn get_system_info(os: &str, arch: &str, family: &str) -> (r: String)
    ensures
        r@ == spec_system_info(os@, arch@, family@),
{
    let mut r = String::from_str("OS: ");
    r.append(os);
    r.append(", ");
    r.append("Architecture: ");
    r.append(arch);
    r.append(", ");
    r.append("OS Family: ");
    r.append(family);
    proof {
        assert(r@ =~= spec_system_info(os@, arch@, family@));
    }
    r
}

/// The report is determined by the three fields alone: two reports built
/// from the same fields are identical, so repeated queries within one
/// process, where the fields are fixed, always return the same line.
pub proof fn lemma_system_info_stable(
    os: Seq<char>,
    arch: Seq<char>,
    family: Seq<char>,
    r1: Seq<char>,
    r2: Seq<char>,
)
    requires
        r1 == spec_system_info(os, arch, family),
        r2 == spec_system_info(os, arch, family),
    ensures
        r1 == r2,
{
}

/// The shape of the report, when the three fields themselves contain no
/// comma (as the host identifiers do): it consists of exactly three
/// comma-separated segments, each beginning with its fixed label —
/// the two separating commas stand exactly at the two joins, and the three
/// stretches between them are the three labelled fields.
pub proof fn lemma_system_info_three_segments(os: Seq<char>, arch: Seq<char>, family: Seq<char>)
    requires
        comma_free(os),
        comma_free(arch),
        comma_free(family),
    ensures
        ({
            let t = spec_system_info(os, arch, family);
            let p1 = 4 + os.len() as int;
            let p2 = p1 + 2 + 14 + arch.len() as int;
            &&& t.len() == p2 + 2 + 11 + family.len()
            &&& t[p1] == ',' && t[p1 + 1] == ' '
            &&& t[p2] == ',' && t[p2 + 1] == ' '
            &&& t.subrange(0, p1) == "OS: "@ + os
            &&& t.subrange(p1 + 2, p2) == "Architecture: "@ + arch
            &&& t.subrange(p2 + 2, t.len() as int) == "OS Family: "@ + family
            &&& forall|i: int| 0 <= i < t.len() && t[i] == ',' ==> i == p1 || i == p2
        }),
{
    reveal_strlit("OS: ");
    reveal_strlit(", ");
    reveal_strlit("Architecture: ");
    reveal_strlit("OS Family: ");
    let t = spec_system_info(os, arch, family);
    let p1 = 4 + os.len() as int;
    let p2 = p1 + 2 + 14 + arch.len() as int;
    assert(t.subrange(0, p1) =~= "OS: "@ + os);
    assert(t.subrange(p1 + 2, p2) =~= "Architecture: "@ + arch);
    assert(t.subrange(p2 + 2, t.len() as int) =~= "OS Family: "@ + family);
    assert forall|i: int| 0 <= i < t.len() && t[i] == ',' implies i == p1 || i == p2 by {
        if i < p1 {
            assert(t[i] == ("OS: "@ + os)[i]);
        } else if i < p1 + 2 {
            assert(t[i] == ", "@[i - p1]);
        } else if i < p2 {
            assert(t[i] == ("Architecture: "@ + arch)[i - (p1 + 2)]);
        } else if i < p2 + 2 {
            assert(t[i] == ", "@[i - p2]);
        } else {
            assert(t[i] == ("OS Family: "@ + family)[i - (p2 + 2)]);
        }
    }
}

} // verus!
