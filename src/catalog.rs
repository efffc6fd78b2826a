//! The component catalog as the engine sees it: its base URL, the iframe URL
//! of each story, and the rewrite of a loopback host for a remote browser.
use vstd::prelude::*;

use crate::story::Story;
use crate::text::{chars_of, push_char, string_of};

verus! {

/// `s` without trailing slashes.
pub open spec fn trim_slashes(s: Seq<char>) -> Seq<char>
    decreases s.len(),
{
    if s.len() > 0 && s.last() == '/' {
        trim_slashes(s.drop_last())
    } else {
        s
    }
}

/// The first position at or after `i` where `pat` occurs in `s`.
pub open spec fn find_from(s: Seq<char>, pat: Seq<char>, i: int) -> Option<int>
    decreases s.len() - i,
{
    if i < 0 || i >= s.len() || i + pat.len() > s.len() {
        None
    } else if s.subrange(i, i + pat.len()) == pat {
        Some(i)
    } else {
        find_from(s, pat, i + 1)
    }
}

/// The scheme separator `://`.
pub open spec fn scheme_sep() -> Seq<char> {
    seq![':', '/', '/']
}

/// The leading characters of `s` up to the first `/` or `:`.
pub open spec fn host_part(s: Seq<char>) -> Seq<char>
    decreases s.len(),
{
    if s.len() == 0 || s[0] == '/' || s[0] == ':' {
        Seq::empty()
    } else {
        seq![s[0]] + host_part(s.drop_first())
    }
}

/// The host name of a URL: what follows the first `://`, up to the next `/`
/// or `:`; `None` when the URL has no `://`.
pub open spec fn url_host(u: Seq<char>) -> Option<Seq<char>> {
    match find_from(u, scheme_sep(), 0) {
        Some(k) => Some(host_part(u.subrange(k + 3, u.len() as int))),
        None => None,
    }
}

/// The URL names the local machine by `localhost` or `127.0.0.1`.
pub open spec fn names_loopback(u: Seq<char>) -> bool {
    url_host(u) == Some("localhost"@) || url_host(u) == Some("127.0.0.1"@)
}

/// `s` with every occurrence of `pat` (scanning left to right, without
/// overlap) replaced by `with`.
pub open spec fn replace_all(s: Seq<char>, pat: Seq<char>, with: Seq<char>) -> Seq<char>
    recommends
        pat.len() > 0,
    decreases s.len(),
{
    if s.len() == 0 || pat.len() == 0 {
        s
    } else if pat.len() <= s.len() && s.subrange(0, pat.len() as int) == pat {
        with + replace_all(s.subrange(pat.len() as int, s.len() as int), pat, with)
    } else {
        seq![s[0]] + replace_all(s.drop_first(), pat, with)
    }
}

/// Whether `pat` occurs at position `at` of `s`.
fn occurs_at(s: &Vec<char>, pat: &Vec<char>, at: usize) -> (r: bool)
    ensures
        r == (at + pat.len() <= s.len() && s@.subrange(at as int, at + pat.len()) == pat@),
{
    if pat.len() > s.len() || at > s.len() - pat.len() {
        return false;
    }
    let mut j: usize = 0;
    while j < pat.len()
        invariant
            j <= pat.len(),
            at + pat.len() <= s.len(),
            forall|k: int| 0 <= k < j ==> s@[at + k] == pat@[k],
        decreases pat.len() - j,
    {
        if s[at + j] != pat[j] {
            assert(s@.subrange(at as int, at + pat.len())[j as int] != pat@[j as int]);
            return false;
        }
        j += 1;
    }
    assert(s@.subrange(at as int, at + pat.len()) == pat@);
    true
}

/// The host name of a URL, as `url_host` describes it.
pub fn host_of(url: &str) -> (r: Option<String>)
    ensures
        match r {
            Some(h) => url_host(url@) == Some(h@),
            None => url_host(url@) is None,
        },
{
    let cs = chars_of(url);
    let sep: Vec<char> = vec![':', '/', '/'];
    assert(sep@ == scheme_sep());
    let mut i: usize = 0;
    while i < cs.len()
        invariant
            cs@ == url@,
            sep@ == scheme_sep(),
            i <= cs.len(),
            find_from(cs@, scheme_sep(), 0) == find_from(cs@, scheme_sep(), i as int),
        decreases cs.len() - i,
    {
        if occurs_at(&cs, &sep, i) {
            let mut host: Vec<char> = Vec::new();
            let mut j: usize = i + 3;
            while j < cs.len() && cs[j] != '/' && cs[j] != ':'
                invariant
                    i + 3 <= j <= cs.len(),
                    host@ + host_part(cs@.subrange(j as int, cs@.len() as int)) == host_part(
                        cs@.subrange(i + 3, cs@.len() as int),
                    ),
                decreases cs.len() - j,
            {
                let ghost rest = cs@.subrange(j as int, cs@.len() as int);
                assert(rest.drop_first() == cs@.subrange(j + 1, cs@.len() as int));
                host.push(cs[j]);
                j += 1;
            }
            assert(host_part(cs@.subrange(j as int, cs@.len() as int)) == Seq::<char>::empty());
            assert(host@ + Seq::<char>::empty() == host@);
            return Some(string_of(&host));
        }
        i += 1;
    }
    None
}

/// The leading characters of `s` up to the first `/`.
pub open spec fn up_to_slash(s: Seq<char>) -> Seq<char>
    decreases s.len(),
{
    if s.len() == 0 || s[0] == '/' {
        Seq::empty()
    } else {
        seq![s[0]] + up_to_slash(s.drop_first())
    }
}

/// The `host:port` of a URL: what follows the first `://`, up to the next
/// `/`; `None` when the URL has no `://`.
pub open spec fn url_authority(u: Seq<char>) -> Option<Seq<char>> {
    match find_from(u, scheme_sep(), 0) {
        Some(k) => Some(up_to_slash(u.subrange(k + 3, u.len() as int))),
        None => None,
    }
}

/// Extract `host:port` from a URL such as `ws://127.0.0.1:9222/devtools/browser/..`.
pub fn parse_host_port(url: &str) -> (r: Option<String>)
    ensures
        match r {
            Some(h) => url_authority(url@) == Some(h@),
            None => url_authority(url@) is None,
        },
{
    let cs = chars_of(url);
    let sep: Vec<char> = vec![':', '/', '/'];
    assert(sep@ == scheme_sep());
    let mut i: usize = 0;
    while i < cs.len()
        invariant
            cs@ == url@,
            sep@ == scheme_sep(),
            i <= cs.len(),
            find_from(cs@, scheme_sep(), 0) == find_from(cs@, scheme_sep(), i as int),
        decreases cs.len() - i,
    {
        if occurs_at(&cs, &sep, i) {
            let mut part: Vec<char> = Vec::new();
            let mut j: usize = i + 3;
            while j < cs.len() && cs[j] != '/'
                invariant
                    i + 3 <= j <= cs.len(),
                    part@ + up_to_slash(cs@.subrange(j as int, cs@.len() as int)) == up_to_slash(
                        cs@.subrange(i + 3, cs@.len() as int),
                    ),
                decreases cs.len() - j,
            {
                let ghost rest = cs@.subrange(j as int, cs@.len() as int);
                assert(rest.drop_first() == cs@.subrange(j + 1, cs@.len() as int));
                part.push(cs[j]);
                j += 1;
            }
            assert(up_to_slash(cs@.subrange(j as int, cs@.len() as int)) == Seq::<char>::empty());
            assert(part@ + Seq::<char>::empty() == part@);
            return Some(string_of(&part));
        }
        i += 1;
    }
    None
}

/// Whether the URL's host is `localhost` or `127.0.0.1`.
pub fn is_localhost_url(url: &str) -> (r: bool)
    ensures
        r == names_loopback(url@),
{
    match host_of(url) {
        Some(h) => {
            let a = String::from_str("localhost");
            let b = String::from_str("127.0.0.1");
            h == a || h == b
        },
        None => false,
    }
}

/// Replace every occurrence of `pat` in `s` by `with`.
pub fn replace_str(s: &str, pat: &str, with: &str) -> (r: String)
    requires
        pat@.len() > 0,
    ensures
        r@ == replace_all(s@, pat@, with@),
{
    let cs = chars_of(s);
    let ps = chars_of(pat);
    let ws = chars_of(with);
    let mut out: Vec<char> = Vec::new();
    let mut i: usize = 0;
    assert(cs@.subrange(0, cs@.len() as int) == s@);
    assert(out@ + replace_all(s@, pat@, with@) == replace_all(s@, pat@, with@));
    while i < cs.len()
        invariant
            cs@ == s@,
            ps@ == pat@,
            ws@ == with@,
            ps@.len() > 0,
            i <= cs.len(),
            out@ + replace_all(cs@.subrange(i as int, cs@.len() as int), pat@, with@) == replace_all(
                s@,
                pat@,
                with@,
            ),
        decreases cs.len() - i,
    {
        let ghost rest = cs@.subrange(i as int, cs@.len() as int);
        if occurs_at(&cs, &ps, i) {
            assert(rest.subrange(0, ps@.len() as int) == ps@);
            assert(rest.subrange(ps@.len() as int, rest.len() as int) == cs@.subrange(
                i + ps@.len(),
                cs@.len() as int,
            ));
            let ghost base = out@;
            let mut k: usize = 0;
            while k < ws.len()
                invariant
                    k <= ws.len(),
                    out@ == base + ws@.take(k as int),
                decreases ws.len() - k,
            {
                out.push(ws[k]);
                assert(ws@.take(k + 1) == ws@.take(k as int).push(ws@[k as int]));
                k += 1;
            }
            assert(ws@.take(ws.len() as int) == with@);
            assert(out@ + replace_all(cs@.subrange(i + ps@.len(), cs@.len() as int), pat@, with@)
                == base + replace_all(rest, pat@, with@));
            i += ps.len();
        } else {
            assert(rest.drop_first() == cs@.subrange(i + 1, cs@.len() as int));
            assert(ps@.len() <= rest.len() ==> rest.subrange(0, ps@.len() as int) == cs@.subrange(
                i as int,
                i + ps@.len(),
            ));
            assert(replace_all(rest, pat@, with@) == seq![rest[0]] + replace_all(
                rest.drop_first(),
                pat@,
                with@,
            ));
            let ghost base = out@;
            out.push(cs[i]);
            assert(out@ == base + seq![rest[0]]);
            assert(out@ + replace_all(rest.drop_first(), pat@, with@) == base + replace_all(
                rest,
                pat@,
                with@,
            ));
            i += 1;
        }
    }
    assert(cs@.subrange(cs.len() as int, cs@.len() as int).len() == 0);
    string_of(&out)
}

/// Why a catalog could not be set up.
#[derive(Debug, Clone, Copy, PartialEq, Eq, Structural)]
pub enum CatalogError {
    /// The URL names the local machine, the browser is remote, and the
    /// host's own address is not known.
    NoHostAddress,
}

/// The base URL with a loopback host (`://localhost` or `://127.0.0.1`)
/// replaced by the host's address `ip`.
pub open spec fn with_host_address(url: Seq<char>, ip: Seq<char>) -> Seq<char> {
    replace_all(
        replace_all(url, "://localhost"@, "://"@ + ip),
        "://127.0.0.1"@,
        "://"@ + ip,
    )
}

/// What the base URL becomes: unchanged for a local browser or a
/// non-loopback URL; otherwise the loopback host is replaced by the host's
/// address, which must be known.
pub open spec fn resolved_base(url: Seq<char>, local: bool, ip: Option<Seq<char>>) -> Option<Seq<char>> {
    if local || !names_loopback(url) {
        Some(url)
    } else {
        match ip {
            Some(a) => Some(with_host_address(url, a)),
            None => None,
        }
    }
}

/// Replace a loopback host by the host's LAN address `ip`, so that a browser
/// in a container can reach a catalog served on the host. `None` when the
/// URL is a loopback one and `ip` is unknown.
pub fn rewrite_localhost(url: &str, ip: Option<&str>) -> (r: Option<String>)
    ensures
        match r {
            Some(u) => resolved_base(url@, false, match ip {
                Some(a) => Some(a@),
                None => None,
            }) == Some(u@),
            None => resolved_base(url@, false, match ip {
                Some(a) => Some(a@),
                None => None,
            }) is None,
        },
{
    if !is_localhost_url(url) {
        return Some(String::from_str(url));
    }
    match ip {
        None => None,
        Some(a) => {
            let mut target = String::from_str("://");
            target.append(a);
            proof {
                reveal_strlit("://localhost");
                reveal_strlit("://127.0.0.1");
            }
            let first = replace_str(url, "://localhost", target.as_str());
            Some(replace_str(first.as_str(), "://127.0.0.1", target.as_str()))
        },
    }
}

/// `s` without trailing slashes.
pub fn trim_trailing_slashes(s: &str) -> (r: String)
    ensures
        r@ == trim_slashes(s@),
{
    let cs = chars_of(s);
    let mut n: usize = cs.len();
    assert(cs@.take(n as int) == s@);
    while n > 0 && cs[n - 1] == '/'
        invariant
            n <= cs.len(),
            cs@ == s@,
            trim_slashes(cs@.take(n as int)) == trim_slashes(s@),
        decreases n,
    {
        assert(cs@.take(n as int).drop_last() == cs@.take(n - 1));
        n -= 1;
    }
    let mut head: Vec<char> = Vec::new();
    let mut i: usize = 0;
    while i < n
        invariant
            n <= cs.len(),
            i <= n,
            head@ == cs@.take(i as int),
        decreases n - i,
    {
        head.push(cs[i]);
        assert(cs@.take(i + 1) == cs@.take(i as int).push(cs@[i as int]));
        i += 1;
    }
    string_of(&head)
}

/// A catalog instance at a known base URL (without trailing slash).
pub struct Storybook {
    base_url: String,
}

impl Storybook {
    /// The base URL.
    pub closed spec fn base(&self) -> Seq<char> {
        self.base_url@
    }

    /// A catalog at `base_url`. For a remote browser (`local` false), a
    /// loopback host is replaced by the host's address `host_ip`, and its
    /// absence is an error. Trailing slashes are dropped.
    pub fn new(base_url: &str, local: bool, host_ip: Option<&str>) -> (r: Result<Storybook, CatalogError>)
        ensures
            match resolved_base(base_url@, local, match host_ip {
                Some(a) => Some(a@),
                None => None,
            }) {
                Some(u) => r matches Ok(sb) && sb.base() == trim_slashes(u),
                None => r == Err::<Storybook, CatalogError>(CatalogError::NoHostAddress),
            },
    {
        let url = if local {
            String::from_str(base_url)
        } else {
            match rewrite_localhost(base_url, host_ip) {
                Some(u) => u,
                None => return Err(CatalogError::NoHostAddress),
            }
        };
        Ok(Storybook { base_url: trim_trailing_slashes(url.as_str()) })
    }

    /// The base URL.
    pub fn url(&self) -> (r: &str)
        ensures
            r@ == self.base(),
    {
        self.base_url.as_str()
    }

    /// The iframe URL of a story: `<base>/iframe.html?id=<id>`.
    pub fn story_url(&self, story: &Story) -> (r: String)
        ensures
            r@ == self.base() + "/iframe.html?id="@ + story.id@,
    {
        let mut out = self.base_url.clone();
        out.append("/iframe.html?id=");
        out.append(story.id.as_str());
        out
    }
}

} // verus!
