//! Repository locators as byte strings: classification into SSH form
//! (`git@host:path`) and HTTPS form (`scheme://host/path`), derivation of the
//! default directory name, and conversion between the two forms.

use vstd::prelude::*;

verus! {

// ---------------------------------------------------------------------------
// The byte values the locator rules read: punctuation and the letters of the
// markers `git@`, `http` and `.git`, and of the default editor `code`.
// ---------------------------------------------------------------------------

pub const B_DOT: u8 = 46;

pub const B_SLASH: u8 = 47;

pub const B_COLON: u8 = 58;

pub const B_AT: u8 = 64;

pub const B_C: u8 = 99;

pub const B_D: u8 = 100;

pub const B_E: u8 = 101;

pub const B_G: u8 = 103;

pub const B_H: u8 = 104;

pub const B_I: u8 = 105;

pub const B_O: u8 = 111;

pub const B_P: u8 = 112;

pub const B_S: u8 = 115;

pub const B_T: u8 = 116;

// ---------------------------------------------------------------------------
// Basic shape predicates over locator text
// ---------------------------------------------------------------------------

/// The text begins with `git@`, the marker of an SSH-form locator.
pub open spec fn is_ssh_form(s: Seq<u8>) -> bool {
    s.len() >= 4 && s[0] == B_G && s[1] == B_I && s[2] == B_T && s[3] == B_AT
}

/// The text begins with `http`, the marker of an HTTPS-form locator.
pub open spec fn is_http_form(s: Seq<u8>) -> bool {
    s.len() >= 4 && s[0] == B_H && s[1] == B_T && s[2] == B_T && s[3] == B_P
}

/// The text ends with the version-control suffix `.git`.
pub open spec fn ends_with_dot_git(s: Seq<u8>) -> bool {
    s.len() >= 4 && s[s.len() - 4] == B_DOT && s[s.len() - 3] == B_G && s[s.len() - 2] == B_I
        && s[s.len() - 1] == B_T
}

/// The text with one trailing `.git` suffix removed, if it carries one.
pub open spec fn strip_vcs_suffix(s: Seq<u8>) -> Seq<u8> {
    if ends_with_dot_git(s) {
        s.take(s.len() - 4)
    } else {
        s
    }
}

/// The classification of a locator, decided by its leading bytes.
#[derive(Clone, Copy, Debug, PartialEq, Eq)]
pub enum UrlForm {
    Ssh,
    Https,
    Unsupported,
}

/// Which form a locator takes: the SSH marker wins, then the HTTP scheme,
/// and anything else is unsupported.
pub open spec fn spec_classify(s: Seq<u8>) -> UrlForm {
    if is_ssh_form(s) {
        UrlForm::Ssh
    } else if is_http_form(s) {
        UrlForm::Https
    } else {
        UrlForm::Unsupported
    }
}

/// Decide the form of a locator.
pub fn classify(url: &Vec<u8>) -> (r: UrlForm)
    ensures
        r == spec_classify(url@),
{
    if url.len() >= 4 {
        if url[0] == B_G && url[1] == B_I && url[2] == B_T && url[3] == B_AT {
            return UrlForm::Ssh;
        }
        if url[0] == B_H && url[1] == B_T && url[2] == B_T && url[3] == B_P {
            return UrlForm::Https;
        }
    }
    UrlForm::Unsupported
}

// ---------------------------------------------------------------------------
// Byte-vector helpers
// ---------------------------------------------------------------------------

/// Copy the bytes of `s` between `from` (inclusive) and `to` (exclusive).
pub fn subvec(s: &Vec<u8>, from: usize, to: usize) -> (r: Vec<u8>)
    requires
        from <= to <= s@.len(),
    ensures
        r@ == s@.subrange(from as int, to as int),
{
    let mut r: Vec<u8> = Vec::new();
    let mut j: usize = from;
    while j < to
        invariant
            from <= j <= to <= s@.len(),
            r@ == s@.subrange(from as int, j as int),
        decreases to - j,
    {
        r.push(s[j]);
        j = j + 1;
        assert(s@.subrange(from as int, j as int) =~= s@.subrange(from as int, j - 1).push(
            s@[j - 1],
        ));
    }
    r
}

/// Copy a byte string.
pub fn clone_bytes(s: &Vec<u8>) -> (r: Vec<u8>)
    ensures
        r@ == s@,
{
    let r = subvec(s, 0, s.len());
    assert(s@.subrange(0, s@.len() as int) =~= s@);
    r
}

/// Append all bytes of `src` to `dst`.
pub fn append_bytes(dst: &mut Vec<u8>, src: &Vec<u8>)
    ensures
        final(dst)@ == old(dst)@ + src@,
{
    let mut j: usize = 0;
    while j < src.len()
        invariant
            j <= src@.len(),
            dst@ == old(dst)@ + src@.take(j as int),
        decreases src@.len() - j,
    {
        dst.push(src[j]);
        j = j + 1;
        assert(old(dst)@ + src@.take(j as int) =~= (old(dst)@ + src@.take(j - 1)).push(
            src@[j - 1],
        ));
    }
    assert(src@.take(src@.len() as int) =~= src@);
}

// ---------------------------------------------------------------------------
// Default directory name: the final `/`-separated segment of the locator,
// with a trailing `.git` suffix stripped
// ---------------------------------------------------------------------------

/// The index of the first byte after the last `/` of `s` (0 when `s` has no
/// `/` at all; `s.len()` when `s` ends with one).
pub open spec fn seg_start(s: Seq<u8>) -> int
    decreases s.len(),
{
    if s.len() == 0 {
        0
    } else if s[s.len() - 1] == B_SLASH {
        s.len() as int
    } else {
        seg_start(s.drop_last())
    }
}

pub proof fn lemma_seg_start_bounds(s: Seq<u8>)
    ensures
        0 <= seg_start(s) <= s.len(),
    decreases s.len(),
{
    if s.len() > 0 && s[s.len() - 1] != B_SLASH {
        lemma_seg_start_bounds(s.drop_last());
    }
}

/// The final `/`-separated segment of the locator text.
pub open spec fn last_segment(s: Seq<u8>) -> Seq<u8> {
    s.subrange(seg_start(s), s.len() as int)
}

/// The default directory name a locator yields: its final segment with a
/// trailing `.git` suffix stripped.
pub open spec fn spec_derived_name(s: Seq<u8>) -> Seq<u8> {
    strip_vcs_suffix(last_segment(s))
}

/// A locator from which no usable directory name can be derived.
#[derive(Clone, Copy, Debug, PartialEq, Eq)]
pub struct NameError;

/// Derive the default directory name from a locator: the final segment with
/// a trailing `.git` stripped; an empty result is a hard error.
pub fn derive_repo_name(url: &Vec<u8>) -> (r: Result<Vec<u8>, NameError>)
    ensures
        r matches Ok(name) ==> name@ == spec_derived_name(url@) && name@.len() > 0,
        r is Err <==> spec_derived_name(url@).len() == 0,
{
    let len = url.len();
    let mut i: usize = len;
    proof {
        assert(url@.take(len as int) =~= url@);
    }
    while i > 0 && url[i - 1] != B_SLASH
        invariant
            0 <= i <= len == url@.len(),
            seg_start(url@) == seg_start(url@.take(i as int)),
        decreases i,
    {
        i = i - 1;
        proof {
            assert(url@.take(i + 1).drop_last() =~= url@.take(i as int));
            assert(url@.take(i + 1)[i as int] == url@[i as int]);
        }
    }
    proof {
        if i == 0 {
            assert(seg_start(url@) == 0);
        } else {
            assert(url@.take(i as int)[i - 1] == B_SLASH);
            assert(seg_start(url@) == i);
        }
    }
    // The segment is url[i..len]; decide whether it carries a `.git` suffix.
    let seg_len = len - i;
    let end: usize = if seg_len >= 4 && url[len - 4] == B_DOT && url[len - 3] == B_G && url[len
        - 2] == B_I && url[len - 1] == B_T {
        len - 4
    } else {
        len
    };
    proof {
        let seg = last_segment(url@);
        assert(seg =~= url@.subrange(i as int, len as int));
        if ends_with_dot_git(seg) {
            assert(seg.take(seg.len() - 4) =~= url@.subrange(i as int, len - 4));
        }
        assert(spec_derived_name(url@) =~= url@.subrange(i as int, end as int));
    }
    let name = subvec(url, i, end);
    if name.len() == 0 {
        Err(NameError)
    } else {
        Ok(name)
    }
}

// ---------------------------------------------------------------------------
// Conversion between the SSH and HTTPS locator forms
// ---------------------------------------------------------------------------

/// Why no alternative locator form could be derived.
#[derive(Clone, Copy, Debug, PartialEq, Eq)]
pub enum ConvertError {
    /// An SSH-form locator that does not split on `:` into exactly two parts.
    InvalidSshFormat,
    /// An HTTPS-form locator that does not parse as a URL with a host.
    InvalidHttpUrl,
    /// A locator with neither the SSH marker nor an HTTP scheme.
    UnsupportedFormat,
}

/// `i` is the position of the one and only `:` in `s`.
pub open spec fn is_the_only_colon(s: Seq<u8>, i: int) -> bool {
    &&& 0 <= i < s.len()
    &&& s[i] == B_COLON
    &&& forall|j: int| 0 <= j < s.len() && j != i ==> s[j] != B_COLON
}

/// The locator splits on `:` into exactly two parts: it has exactly one `:`.
pub open spec fn ssh_parts_valid(s: Seq<u8>) -> bool {
    exists|i: int| is_the_only_colon(s, i)
}

/// The position of the one `:` of a locator with exactly one.
pub open spec fn the_colon(s: Seq<u8>) -> int {
    choose|i: int| is_the_only_colon(s, i)
}

pub proof fn lemma_only_colon_unique(s: Seq<u8>, i: int)
    requires
        is_the_only_colon(s, i),
    ensures
        ssh_parts_valid(s),
        the_colon(s) == i,
{
    assert(ssh_parts_valid(s));
    let c = the_colon(s);
    assert(is_the_only_colon(s, c));
    if c != i {
        assert(s[c] != B_COLON);
        assert(false);
    }
}

/// The text with every leading `/` removed.
pub open spec fn strip_leading_slashes(s: Seq<u8>) -> Seq<u8>
    decreases s.len(),
{
    if s.len() > 0 && s[0] == B_SLASH {
        strip_leading_slashes(s.subrange(1, s.len() as int))
    } else {
        s
    }
}

pub proof fn lemma_strip_leading_slashes_at(s: Seq<u8>, i: int)
    requires
        0 <= i <= s.len(),
        forall|k: int| 0 <= k < i ==> s[k] == B_SLASH,
        i == s.len() || s[i] != B_SLASH,
    ensures
        strip_leading_slashes(s) == s.subrange(i, s.len() as int),
    decreases i,
{
    if i == 0 {
        assert(s.subrange(0, s.len() as int) =~= s);
    } else {
        let s1 = s.subrange(1, s.len() as int);
        lemma_strip_leading_slashes_at(s1, i - 1);
        assert(s1.subrange(i - 1, s1.len() as int) =~= s.subrange(i, s.len() as int));
    }
}

/// The scheme prefix of an HTTPS-form result, `https://`.
pub open spec fn https_prefix() -> Seq<u8> {
    seq![B_H, B_T, B_T, B_P, B_S, B_COLON, B_SLASH, B_SLASH]
}

/// The user prefix of an SSH-form result, `git@`.
pub open spec fn git_at() -> Seq<u8> {
    seq![B_G, B_I, B_T, B_AT]
}

/// The version-control suffix, `.git`.
pub open spec fn dot_git() -> Seq<u8> {
    seq![B_DOT, B_G, B_I, B_T]
}

/// The HTTPS form of an SSH-form locator with exactly one `:`. The part
/// between `git@` and the `:` becomes the host, the part after the `:`, with
/// a trailing `.git` stripped, becomes the path, and the suffix is put back:
/// `https://<host>/<path>.git`.
pub open spec fn spec_ssh_to_https(s: Seq<u8>) -> Seq<u8> {
    https_prefix() + s.subrange(4, the_colon(s)) + seq![B_SLASH] + strip_vcs_suffix(
        s.subrange(the_colon(s) + 1, s.len() as int),
    ) + dot_git()
}

/// The SSH form built from a parsed host and path: the path loses its leading
/// `/`s and a trailing `.git`, and the result is `git@<host>:<path>.git`.
pub open spec fn spec_ssh_from_parts(host: Seq<u8>, path: Seq<u8>) -> Seq<u8> {
    git_at() + host + seq![B_COLON] + strip_vcs_suffix(strip_leading_slashes(path)) + dot_git()
}

/// Convert an SSH-form locator to its HTTPS form. The locator must split on
/// `:` into exactly two parts; otherwise it is rejected.
fn ssh_to_https(url: &Vec<u8>) -> (r: Result<Vec<u8>, ConvertError>)
    requires
        is_ssh_form(url@),
    ensures
        r is Ok <==> ssh_parts_valid(url@),
        r matches Ok(v) ==> v@ == spec_ssh_to_https(url@),
        r matches Err(e) ==> e == ConvertError::InvalidSshFormat,
{
    let len = url.len();
    let mut found = false;
    let mut multi = false;
    let mut first: usize = 0;
    let mut j: usize = 0;
    while j < len
        invariant
            j <= len == url@.len(),
            !found ==> !multi && (forall|k: int| 0 <= k < j ==> url@[k] != B_COLON),
            found ==> first < j && url@[first as int] == B_COLON,
            found && !multi ==> (forall|k: int|
                0 <= k < j && k != first ==> url@[k] != B_COLON),
            found && multi ==> (exists|k: int| 0 <= k < j && k != first && url@[k] == B_COLON),
        decreases len - j,
    {
        if url[j] == B_COLON {
            if !found {
                found = true;
                first = j;
            } else {
                multi = true;
            }
        }
        j = j + 1;
    }
    if !found || multi {
        proof {
            if ssh_parts_valid(url@) {
                let i = choose|i: int| is_the_only_colon(url@, i);
                if !found {
                    assert(url@[i] != B_COLON);
                } else {
                    let k = choose|k: int|
                        0 <= k < len && k != first && url@[k] == B_COLON;
                    if i != first {
                        assert(url@[first as int] != B_COLON);
                    } else {
                        assert(url@[k] != B_COLON);
                    }
                }
            }
        }
        return Err(ConvertError::InvalidSshFormat);
    }
    proof {
        lemma_only_colon_unique(url@, first as int);
        assert(first >= 4);
    }
    let mut out: Vec<u8> = Vec::new();
    out.push(B_H);
    out.push(B_T);
    out.push(B_T);
    out.push(B_P);
    out.push(B_S);
    out.push(B_COLON);
    out.push(B_SLASH);
    out.push(B_SLASH);
    proof {
        assert(out@ =~= https_prefix());
    }
    let host = subvec(url, 4, first);
    append_bytes(&mut out, &host);
    out.push(B_SLASH);
    let tail_len = len - (first + 1);
    let path_end: usize = if tail_len >= 4 && url[len - 4] == B_DOT && url[len - 3] == B_G && url[
        len - 2] == B_I && url[len - 1] == B_T {
        len - 4
    } else {
        len
    };
    let path = subvec(url, first + 1, path_end);
    append_bytes(&mut out, &path);
    out.push(B_DOT);
    out.push(B_G);
    out.push(B_I);
    out.push(B_T);
    proof {
        let tail = url@.subrange(first + 1, len as int);
        if ends_with_dot_git(tail) {
            assert(tail.take(tail.len() - 4) =~= url@.subrange(first + 1, len - 4));
        }
        assert(path@ == strip_vcs_suffix(tail));
        assert(out@ =~= spec_ssh_to_https(url@));
    }
    Ok(out)
}

// ---------------------------------------------------------------------------
// The HTTPS branch leans on the url crate for parsing; what the parser
// returns for a given text is named, never restated.
// ---------------------------------------------------------------------------

/// Whether the text parses as an absolute URL that has a host.
pub uninterp spec fn http_url_has_host(s: Seq<u8>) -> bool;

/// The host of the parsed URL, as text.
pub uninterp spec fn http_host_of(s: Seq<u8>) -> Seq<u8>;

/// The percent-encoded path of the parsed URL.
pub uninterp spec fn http_path_of(s: Seq<u8>) -> Seq<u8>;

/// Relies on url::Url::parse, Url::host_str and Url::path. Parsing is the
/// WHATWG algorithm, a pure function of the input text; host_str returns the
/// parsed host exactly when the URL has one, and path the percent-encoded
/// path. Text that is not UTF-8 is no URL, so it has no host.
#[verifier::external_body]
fn parse_http_host_and_path(url: &Vec<u8>) -> (r: Option<(Vec<u8>, Vec<u8>)>)
    ensures
        r is Some <==> http_url_has_host(url@),
        r matches Some(hp) ==> hp.0@ == http_host_of(url@) && hp.1@ == http_path_of(url@),
{
    let text = match core::str::from_utf8(url) {
        Ok(t) => t,
        Err(_) => return None,
    };
    let parsed = match url::Url::parse(text) {
        Ok(u) => u,
        Err(_) => return None,
    };
    let host = match parsed.host_str() {
        Some(h) => h.as_bytes().to_vec(),
        None => return None,
    };
    Some((host, parsed.path().as_bytes().to_vec()))
}

/// The SSH form of an HTTPS-form locator: built from the parsed host and path.
pub open spec fn spec_http_to_ssh(s: Seq<u8>) -> Seq<u8> {
    spec_ssh_from_parts(http_host_of(s), http_path_of(s))
}

/// Convert an HTTPS-form locator to its SSH form. The locator must parse as
/// a URL with a host; otherwise it is rejected.
fn http_to_ssh(url: &Vec<u8>) -> (r: Result<Vec<u8>, ConvertError>)
    ensures
        r is Ok <==> http_url_has_host(url@),
        r matches Ok(v) ==> v@ == spec_http_to_ssh(url@),
        r matches Err(e) ==> e == ConvertError::InvalidHttpUrl,
{
    let parts = match parse_http_host_and_path(url) {
        Some(hp) => hp,
        None => {
            return Err(ConvertError::InvalidHttpUrl);
        },
    };
    let host = parts.0;
    let path = parts.1;
    let plen = path.len();
    let mut i: usize = 0;
    while i < plen && path[i] == B_SLASH
        invariant
            i <= plen == path@.len(),
            forall|k: int| 0 <= k < i ==> path@[k] == B_SLASH,
        decreases plen - i,
    {
        i = i + 1;
    }
    proof {
        lemma_strip_leading_slashes_at(path@, i as int);
    }
    let tail_len = plen - i;
    let path_end: usize = if tail_len >= 4 && path[plen - 4] == B_DOT && path[plen - 3] == B_G
        && path[plen - 2] == B_I && path[plen - 1] == B_T {
        plen - 4
    } else {
        plen
    };
    let stripped = subvec(&path, i, path_end);
    proof {
        let tail = path@.subrange(i as int, plen as int);
        if ends_with_dot_git(tail) {
            assert(tail.take(tail.len() - 4) =~= path@.subrange(i as int, plen - 4));
        }
        assert(stripped@ == strip_vcs_suffix(strip_leading_slashes(path@)));
    }
    let mut out: Vec<u8> = Vec::new();
    out.push(B_G);
    out.push(B_I);
    out.push(B_T);
    out.push(B_AT);
    proof {
        assert(out@ =~= git_at());
    }
    append_bytes(&mut out, &host);
    out.push(B_COLON);
    append_bytes(&mut out, &stripped);
    out.push(B_DOT);
    out.push(B_G);
    out.push(B_I);
    out.push(B_T);
    proof {
        assert(out@ =~= spec_http_to_ssh(url@));
    }
    Ok(out)
}

/// What the alternative form of a locator is, by its classification: the
/// HTTPS form of an SSH-form locator, the SSH form of an HTTPS-form locator,
/// and an error naming the reason otherwise.
pub open spec fn spec_alternative_url(s: Seq<u8>) -> Result<Seq<u8>, ConvertError> {
    if is_ssh_form(s) {
        if ssh_parts_valid(s) {
            Ok(spec_ssh_to_https(s))
        } else {
            Err(ConvertError::InvalidSshFormat)
        }
    } else if is_http_form(s) {
        if http_url_has_host(s) {
            Ok(spec_http_to_ssh(s))
        } else {
            Err(ConvertError::InvalidHttpUrl)
        }
    } else {
        Err(ConvertError::UnsupportedFormat)
    }
}

/// Derive the alternative locator form used for the one clone retry:
/// SSH becomes HTTPS, HTTPS becomes SSH, anything else is rejected.
pub fn get_alternative_url(url: &Vec<u8>) -> (r: Result<Vec<u8>, ConvertError>)
    ensures
        r is Ok <==> spec_alternative_url(url@) is Ok,
        r matches Ok(v) ==> spec_alternative_url(url@) matches Ok(sv) && v@ == sv,
        r matches Err(e) ==> spec_alternative_url(url@) matches Err(se) && e == se,
{
    match classify(url) {
        UrlForm::Ssh => ssh_to_https(url),
        UrlForm::Https => http_to_ssh(url),
        UrlForm::Unsupported => Err(ConvertError::UnsupportedFormat),
    }
}

// ---------------------------------------------------------------------------
// Laws of the derived directory name
// ---------------------------------------------------------------------------

/// Appending slash-free text to a locator does not move the start of its
/// final segment.
proof fn lemma_seg_start_append_no_slash(x: Seq<u8>, t: Seq<u8>)
    requires
        forall|k: int| 0 <= k < t.len() ==> t[k] != B_SLASH,
    ensures
        seg_start(x + t) == seg_start(x),
    decreases t.len(),
{
    if t.len() == 0 {
        assert(x + t =~= x);
    } else {
        assert((x + t).drop_last() =~= x + t.drop_last());
        lemma_seg_start_append_no_slash(x, t.drop_last());
    }
}

/// Law: a locator whose final segment is `<name>.git` yields `name`, the
/// segment with the suffix stripped, as the derived directory name.
pub proof fn lemma_derived_name_strips_suffix(prefix: Seq<u8>, name: Seq<u8>)
    requires
        !name.contains(B_SLASH),
    ensures
        spec_derived_name(prefix + seq![B_SLASH] + name + dot_git()) == name,
{
    let url = prefix + seq![B_SLASH] + name + dot_git();
    let head = prefix + seq![B_SLASH];
    let t = name + dot_git();
    assert(forall|k: int| 0 <= k < t.len() ==> t[k] != B_SLASH) by {
        assert(forall|k: int| 0 <= k < name.len() ==> name[k] != B_SLASH);
    }
    assert(url =~= head + t);
    lemma_seg_start_append_no_slash(head, t);
    assert(seg_start(head) == head.len());
    assert(last_segment(url) =~= t);
    assert(ends_with_dot_git(t));
    assert(strip_vcs_suffix(t) =~= name);
}

/// Law: a locator that does not end in `.git` yields its final segment
/// unchanged as the derived directory name.
pub proof fn lemma_derived_name_plain(url: Seq<u8>)
    requires
        !ends_with_dot_git(url),
    ensures
        spec_derived_name(url) == last_segment(url),
{
    lemma_seg_start_bounds(url);
    let seg = last_segment(url);
    if ends_with_dot_git(seg) {
        assert(seg[seg.len() - 4] == url[url.len() - 4]);
        assert(seg[seg.len() - 3] == url[url.len() - 3]);
        assert(seg[seg.len() - 2] == url[url.len() - 2]);
        assert(seg[seg.len() - 1] == url[url.len() - 1]);
        assert(false);
    }
}

} // verus!
