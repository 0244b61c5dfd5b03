//! The closed set of supported backends, and what each one determines:
//! the path template, and the credential lookup key.
use vstd::prelude::*;

use crate::Error;
use crate::strutil::{push_char, str_eq};

verus! {

/// One of the supported backends, carrying the matched domain where the
/// backend can be self-hosted.
#[derive(Debug)]
pub enum Host {
    Github,
    Gitlab(String),
    /// Also compatible with Codeberg and Forgejo instances.
    Gitea(String),
    Bugzilla(String),
    /// Useful for 4.x instances of Bugzilla.
    BugzillaJsonRpc(String),
}

/// The domains that `Host::from_domain` recognizes.
pub open spec fn is_supported_domain(d: Seq<char>) -> bool {
    ||| d == "github.com"@
    ||| d == "codeberg.org"@
    ||| d == "gitlab.com"@
    ||| d == "gitlab.freedesktop.org"@
    ||| d == "bugs.winehq.org"@
}

/// ASCII uppercasing of one character; everything outside `a..z` is kept.
pub open spec fn upper_char(c: char) -> char {
    if 97 <= c as u32 && c as u32 <= 122 {
        (((c as u32) - 32) as u8) as char
    } else {
        c
    }
}

/// The domain with every `.` removed and every ASCII letter uppercased.
pub open spec fn upper_no_dots(s: Seq<char>) -> Seq<char>
    decreases s.len(),
{
    if s.len() == 0 {
        Seq::empty()
    } else if s.last() == '.' {
        upper_no_dots(s.drop_last())
    } else {
        upper_no_dots(s.drop_last()).push(upper_char(s.last()))
    }
}

/// The credential lookup key each backend selects: a fixed name for the two
/// canonical providers, `{DOMAIN_UPPERCASE_NO_DOTS}_TOKEN` for the rest.
/// Bug trackers select no key.
pub open spec fn token_var_spec(h: Host) -> Seq<char> {
    match h {
        Host::Github => "GITHUB_TOKEN"@,
        Host::Gitlab(d) => if d@ == "gitlab.com"@ {
            "GITLAB_TOKEN"@
        } else {
            upper_no_dots(d@) + "_TOKEN"@
        },
        Host::Gitea(d) => if d@ == "codeberg.org"@ {
            "CODEBERG_TOKEN"@
        } else {
            upper_no_dots(d@) + "_TOKEN"@
        },
        Host::Bugzilla(_) => Seq::empty(),
        Host::BugzillaJsonRpc(_) => Seq::empty(),
    }
}

/// The path template each backend matches URLs against.
pub open spec fn pattern_spec(h: Host) -> Seq<char> {
    match h {
        Host::Github => "/:owner/:repo/:kind/:number"@,
        Host::Gitea(_) => "/:owner/:repo/:kind/:number"@,
        Host::Gitlab(_) => "/:owner/:repo/-/:kind/:number"@,
        Host::Bugzilla(_) => "/show_bug.cgi?id=:number"@,
        Host::BugzillaJsonRpc(_) => "/show_bug.cgi?id=:number"@,
    }
}

impl Host {
    /// Maps a domain to its backend. Exactly the fixed set of supported
    /// domains is recognized; everything else fails with `UnknownHost`.
    pub fn from_domain(domain: &str) -> (r: Result<Self, Error>)
        ensures
            domain@ == "github.com"@ ==> r == Ok::<Host, Error>(Host::Github),
            domain@ == "codeberg.org"@ ==> (r matches Ok(Host::Gitea(d)) && d@ == domain@),
            (domain@ == "gitlab.com"@ || domain@ == "gitlab.freedesktop.org"@) ==> (r matches Ok(
            Host::Gitlab(d)) && d@ == domain@),
            domain@ == "bugs.winehq.org"@ ==> (r matches Ok(Host::BugzillaJsonRpc(d)) && d@
                == domain@),
            !is_supported_domain(domain@) ==> (r matches Err(Error::UnknownHost(d)) && d@
                == domain@),
    {
        proof {
            lemma_domain_lits();
        }
        if str_eq(domain, "github.com") {
            Ok(Self::Github)
        } else if str_eq(domain, "codeberg.org") {
            Ok(Self::Gitea(domain.to_owned()))
        } else if str_eq(domain, "gitlab.com") || str_eq(domain, "gitlab.freedesktop.org") {
            Ok(Self::Gitlab(domain.to_owned()))
        } else if str_eq(domain, "bugs.winehq.org") {
            Ok(Self::BugzillaJsonRpc(domain.to_owned()))
        } else {
            Err(Error::UnknownHost(domain.to_owned()))
        }
    }

    /// The credential lookup key for this backend. Bug trackers have no
    /// credential lookup, so they are left out.
    pub fn get_token_var(&self) -> (r: String)
        requires
            !(self matches Host::Bugzilla(_)),
            !(self matches Host::BugzillaJsonRpc(_)),
        ensures
            r@ == token_var_spec(*self),
    {
        match self {
            Host::Github => "GITHUB_TOKEN".to_owned(),
            Host::Gitlab(d) => if str_eq(d.as_str(), "gitlab.com") {
                "GITLAB_TOKEN".to_owned()
            } else {
                token_from_domain(d.as_str())
            },
            Host::Gitea(d) => if str_eq(d.as_str(), "codeberg.org") {
                "CODEBERG_TOKEN".to_owned()
            } else {
                token_from_domain(d.as_str())
            },
            Host::Bugzilla(_) => vstd::pervasive::unreached(),
            Host::BugzillaJsonRpc(_) => vstd::pervasive::unreached(),
        }
    }

    /// The path template this backend matches URLs against.
    pub fn pattern(&self) -> (r: &'static str)
        ensures
            r@ == pattern_spec(*self),
    {
        match self {
            Self::Github | Self::Gitea(_) => "/:owner/:repo/:kind/:number",
            Self::Gitlab(_) => "/:owner/:repo/-/:kind/:number",
            Self::Bugzilla(_) | Self::BugzillaJsonRpc(_) => "/show_bug.cgi?id=:number",
        }
    }
}

/// Builds `{DOMAIN_UPPERCASE_NO_DOTS}_TOKEN` for a self-hosted domain.
fn token_from_domain(d: &str) -> (r: String)
    ensures
        r@ == upper_no_dots(d@) + "_TOKEN"@,
{
    let len = d.unicode_len();
    let mut out = String::new();
    let mut i: usize = 0;
    while i < len
        invariant
            len == d@.len(),
            i <= len,
            out@ == upper_no_dots(d@.subrange(0, i as int)),
        decreases len - i,
    {
        let c = d.get_char(i);
        if c != '.' {
            let u: u32 = c as u32;
            if 97 <= u && u <= 122 {
                let up: char = ((u - 32) as u8) as char;
                push_char(&mut out, up);
            } else {
                push_char(&mut out, c);
            }
        }
        proof {
            assert(d@.subrange(0, i + 1 as int).drop_last() =~= d@.subrange(0, i as int));
            assert(d@.subrange(0, i + 1 as int).last() == d@[i as int]);
        }
        i += 1;
    }
    proof {
        assert(d@.subrange(0, len as int) =~= d@);
    }
    out.append("_TOKEN");
    out
}

/// The five supported domains are pairwise distinct strings.
proof fn lemma_domain_lits()
    ensures
        "github.com"@ != "codeberg.org"@,
        "github.com"@ != "gitlab.com"@,
        "github.com"@ != "gitlab.freedesktop.org"@,
        "github.com"@ != "bugs.winehq.org"@,
        "codeberg.org"@ != "gitlab.com"@,
        "codeberg.org"@ != "gitlab.freedesktop.org"@,
        "codeberg.org"@ != "bugs.winehq.org"@,
        "gitlab.com"@ != "gitlab.freedesktop.org"@,
        "gitlab.com"@ != "bugs.winehq.org"@,
        "gitlab.freedesktop.org"@ != "bugs.winehq.org"@,
{
    reveal_strlit("github.com");
    reveal_strlit("codeberg.org");
    reveal_strlit("gitlab.com");
    reveal_strlit("gitlab.freedesktop.org");
    reveal_strlit("bugs.winehq.org");
    assert("github.com"@.len() == 10);
    assert("codeberg.org"@.len() == 12);
    assert("gitlab.com"@.len() == 10);
    assert("gitlab.freedesktop.org"@.len() == 22);
    assert("bugs.winehq.org"@.len() == 15);
    assert("github.com"@[3] == 'h');
    assert("gitlab.com"@[3] == 'l');
}

} // verus!
