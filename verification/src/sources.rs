//! The apt source-list files regenerated for a Pop!_OS release: the text of
//! each `.sources` file as a function of the release codename, and the rule
//! for when regeneration applies. Writing the files is the caller's job.

use vstd::prelude::*;
use crate::pipeline::str_equal;

verus! {

/// The replacement for the deprecated `sources.list`.
pub fn sources_list_placeholder() -> (r: &'static str)
    ensures
        r@ == "## This file is deprecated in Pop!_OS.\n## See `man deb822` and /etc/apt/sources.list.d/system.sources.\n"@,
{
    "## This file is deprecated in Pop!_OS.\n## See `man deb822` and /etc/apt/sources.list.d/system.sources.\n"
}

/// The text of the system sources file for a release codename.
pub open spec fn spec_system_sources(release: Seq<char>) -> Seq<char> {
    "X-Repolib-Name: Pop_OS System Sources\nEnabled: yes\nTypes: deb deb-src\nURIs: http://us.archive.ubuntu.com/ubuntu/\nSuites: "@
        + release + " "@ + release + "-security "@ + release + "-updates "@ + release
        + "-backports\nComponents: main restricted universe multiverse\nX-Repolib-Default-Mirror: http://us.archive.ubuntu.com/ubuntu/\n"@
}

/// The text of the proprietary apps sources file for a release codename.
pub open spec fn spec_proprietary_sources(release: Seq<char>) -> Seq<char> {
    "X-Repolib-Name: Pop_OS Apps\nEnabled: yes\nTypes: deb\nURIs: http://apt.pop-os.org/proprietary\nSuites: "@
        + release + "\nComponents: main\n"@
}

/// The text of the release sources file for a release codename.
pub open spec fn spec_release_sources(release: Seq<char>) -> Seq<char> {
    "X-Repolib-Name: Pop_OS Release Sources\nEnabled: yes\nTypes: deb deb-src\nURIs: http://apt.pop-os.org/release\nSuites: "@
        + release + "\nComponents: main\n"@
}

/// Build the system sources file: the Ubuntu archive, with the release's
/// plain, security, updates and backports suites.
pub fn system_sources(release: &str) -> (r: String)
    ensures
        r@ == spec_system_sources(release@),
{
    let mut out = String::new();
    out.append(
        "X-Repolib-Name: Pop_OS System Sources\nEnabled: yes\nTypes: deb deb-src\nURIs: http://us.archive.ubuntu.com/ubuntu/\nSuites: ",
    );
    out.append(release);
    out.append(" ");
    out.append(release);
    out.append("-security ");
    out.append(release);
    out.append("-updates ");
    out.append(release);
    out.append(
        "-backports\nComponents: main restricted universe multiverse\nX-Repolib-Default-Mirror: http://us.archive.ubuntu.com/ubuntu/\n",
    );
    proof {
        assert(out@ =~= spec_system_sources(release@));
    }
    out
}

/// Build the proprietary apps sources file for a release.
pub fn proprietary_sources(release: &str) -> (r: String)
    ensures
        r@ == spec_proprietary_sources(release@),
{
    let mut out = String::new();
    out.append(
        "X-Repolib-Name: Pop_OS Apps\nEnabled: yes\nTypes: deb\nURIs: http://apt.pop-os.org/proprietary\nSuites: ",
    );
    out.append(release);
    out.append("\nComponents: main\n");
    proof {
        assert(out@ =~= spec_proprietary_sources(release@));
    }
    out
}

/// Build the release sources file for a release.
pub fn release_sources(release: &str) -> (r: String)
    ensures
        r@ == spec_release_sources(release@),
{
    let mut out = String::new();
    out.append(
        "X-Repolib-Name: Pop_OS Release Sources\nEnabled: yes\nTypes: deb deb-src\nURIs: http://apt.pop-os.org/release\nSuites: ",
    );
    out.append(release);
    out.append("\nComponents: main\n");
    proof {
        assert(out@ =~= spec_release_sources(release@));
    }
    out
}

/// Whether the source lists are regenerated for this release: only the
/// release this rule was written for.
pub fn should_regenerate(release: &str) -> (r: bool)
    ensures
        r == (release@ == "impish"@),
{
    str_equal(release, "impish")
}

} // verus!
