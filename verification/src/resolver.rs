//! The page heuristic: find the image tags of a page, read the address and
//! the declared size of each, and keep the widest. It is no parser: a tag
//! that the patterns miss is not a candidate.

use vstd::prelude::*;
use crate::error::BoardError;
use crate::reference::{is_direct_image, is_http, is_raster};
use crate::text::{chars_of, texts};

verus! {

/// The pattern of an image tag.
pub const TAG_PATTERN: &'static str = "<img[^>]*>";

/// The pattern of a quoted `src` attribute; its first group is the value.
pub const SRC_PATTERN: &'static str = "\\ssrc\\s*=\\s*[\"']([^\"']*)[\"']";

/// The pattern of a `width` attribute; its first group holds the digits.
pub const WIDTH_PATTERN: &'static str = "\\swidth\\s*=\\s*[\"']?([0-9]+)";

/// The pattern of a `height` attribute; its first group holds the digits.
pub const HEIGHT_PATTERN: &'static str = "\\sheight\\s*=\\s*[\"']?([0-9]+)";

/// The texts of the successive matches of `pattern` in `haystack` that do not
/// overlap, from left to right; `None` where `pattern` is no valid pattern.
pub uninterp spec fn regex_find_all(pattern: Seq<char>, haystack: Seq<char>) -> Option<
    Seq<Seq<char>>,
>;

/// The text of group `group` in the leftmost match of `pattern` in
/// `haystack`; `None` where `pattern` is no valid pattern, where nothing
/// matches and where the group took no part in the match.
pub uninterp spec fn regex_capture(pattern: Seq<char>, haystack: Seq<char>, group: int) -> Option<
    Seq<char>,
>;

/// The mathematical value of a text that may be absent.
pub open spec fn text(s: Option<String>) -> Option<Seq<char>> {
    match s {
        Some(s) => Some(s@),
        None => None,
    }
}

/// Compiles `pattern` with `regex::Regex::new` and collects the matches that
/// `regex::Regex::find_iter` yields in `haystack`, each as the text that
/// `regex::Match::as_str` gives. The contract only names that list; a pattern
/// that does not compile gives `None`.
#[verifier::external_body]
fn find_all(pattern: &str, haystack: &str) -> (r: Option<Vec<String>>)
    ensures
        regex_find_all(pattern@, haystack@) == (match r {
            Some(v) => Some(texts(v@)),
            None => None,
        }),
{
    match regex::Regex::new(pattern) {
        Ok(re) => Some(re.find_iter(haystack).map(|m| m.as_str().to_owned()).collect()),
        Err(_) => None,
    }
}

/// Compiles `pattern` with `regex::Regex::new`, searches `haystack` with
/// `regex::Regex::captures` and takes group `group` of the match with
/// `regex::Captures::get`. The contract only names that text; a pattern that
/// does not compile, a search without a match and a group that took no part
/// all give `None`.
#[verifier::external_body]
fn capture(pattern: &str, haystack: &str, group: usize) -> (r: Option<String>)
    ensures
        text(r) == regex_capture(pattern@, haystack@, group as int),
{
    match regex::Regex::new(pattern) {
        Ok(re) => re.captures(haystack).and_then(|c| c.get(group)).map(|m| m.as_str().to_owned()),
        Err(_) => None,
    }
}

/// An image that a page offers.
#[derive(Debug, PartialEq, Eq)]
pub struct Candidate {
    /// The address of the image.
    pub url: String,
    /// The declared width, 0 where none is declared.
    pub width: u64,
    /// The declared height, 0 where none is declared.
    pub height: u64,
}

/// The mathematical value of a [`Candidate`].
pub struct CandidateView {
    pub url: Seq<char>,
    pub width: u64,
    pub height: u64,
}

impl View for Candidate {
    type V = CandidateView;

    open spec fn view(&self) -> CandidateView {
        CandidateView { url: self.url@, width: self.width, height: self.height }
    }
}

/// The mathematical value of a list of candidates.
pub open spec fn views(v: Seq<Candidate>) -> Seq<CandidateView> {
    v.map_values(|c: Candidate| c@)
}

/// The character is a decimal digit.
pub open spec fn is_digit(c: char) -> bool {
    '0' <= c <= '9'
}

/// The number that a run of decimal digits writes.
pub open spec fn decimal(s: Seq<char>) -> nat
    decreases s.len(),
{
    if s.len() == 0 {
        0
    } else {
        decimal(s.drop_last()) * 10 + (s.last() as nat - '0' as nat) as nat
    }
}

/// The size that an attribute declares: the number that its digits write,
/// and 0 where the text is empty, holds anything but digits, or writes a
/// number that does not fit.
pub open spec fn dimension(s: Seq<char>) -> u64 {
    if s.len() > 0 && (forall|i: int| 0 <= i < s.len() ==> is_digit(s[i])) && decimal(s)
        <= u64::MAX {
        decimal(s) as u64
    } else {
        0
    }
}

/// The size that an attribute declares, 0 where the tag has none.
pub open spec fn declared(s: Option<Seq<char>>) -> u64 {
    match s {
        Some(s) => dimension(s),
        None => 0,
    }
}

/// What a tag offers, given what the patterns found in it: a candidate where
/// the `src` value is the address of an image, nothing otherwise.
pub open spec fn offered(
    src: Option<Seq<char>>,
    width: Option<Seq<char>>,
    height: Option<Seq<char>>,
) -> Option<CandidateView> {
    match src {
        Some(url) => if is_http(url) && is_raster(url) {
            Some(CandidateView { url, width: declared(width), height: declared(height) })
        } else {
            None
        },
        None => None,
    }
}

/// What a tag offers.
pub open spec fn offered_by(tag: Seq<char>) -> Option<CandidateView> {
    offered(
        regex_capture(SRC_PATTERN@, tag, 1),
        regex_capture(WIDTH_PATTERN@, tag, 1),
        regex_capture(HEIGHT_PATTERN@, tag, 1),
    )
}

/// What a list of tags offers, in the order of the tags.
pub open spec fn offered_by_all(tags: Seq<Seq<char>>) -> Seq<CandidateView>
    decreases tags.len(),
{
    if tags.len() == 0 {
        Seq::empty()
    } else {
        match offered_by(tags.last()) {
            Some(c) => offered_by_all(tags.drop_last()).push(c),
            None => offered_by_all(tags.drop_last()),
        }
    }
}

/// What a page offers, in the order of its tags.
pub open spec fn candidates_of(body: Seq<char>) -> Seq<CandidateView> {
    match regex_find_all(TAG_PATTERN@, body) {
        Some(tags) => offered_by_all(tags),
        None => Seq::empty(),
    }
}

/// `a` ranks above `b`: it is wider, or as wide and higher. The area plays
/// no part.
pub open spec fn outranks(a: CandidateView, b: CandidateView) -> bool {
    a.width > b.width || (a.width == b.width && a.height > b.height)
}

/// The candidate at `i` is the one to keep: none ranks above it, and it
/// comes before every other of its rank.
pub open spec fn is_best(candidates: Seq<CandidateView>, i: int) -> bool {
    &&& 0 <= i < candidates.len()
    &&& forall|j: int| 0 <= j < i ==> outranks(candidates[i], #[trigger] candidates[j])
    &&& forall|j: int| i < j < candidates.len() ==> !outranks(#[trigger] candidates[j], candidates[i])
}

/// The address of the image to take from a page, or the failure to find one.
pub open spec fn is_resolved(
    candidates: Seq<CandidateView>,
    r: Result<Seq<char>, BoardError>,
) -> bool {
    match r {
        Ok(url) => exists|i: int| is_best(candidates, i) && candidates[i].url == url,
        Err(e) => e == BoardError::NoImageFound && candidates.len() == 0,
    }
}

/// Reads the size that an attribute declares.
pub fn parse_dimension(s: &str) -> (n: u64)
    ensures
        n == dimension(s@),
{
    let digits = chars_of(s);
    if digits.len() == 0 {
        return 0;
    }
    let mut n: u64 = 0;
    let mut i: usize = 0;
    while i < digits.len()
        invariant
            i <= digits.len(),
            digits@ == s@,
            forall|j: int| 0 <= j < i ==> is_digit(digits@[j]),
            n == decimal(digits@.take(i as int)),
        decreases digits.len() - i,
    {
        let c = digits[i];
        proof {
            assert(digits@.take(i + 1).drop_last() =~= digits@.take(i as int));
            lemma_decimal_grows(digits@, i + 1);
        }
        if c < '0' || c > '9' {
            return 0;
        }
        let d: u64 = (c as u32 - '0' as u32) as u64;
        if n > (u64::MAX - d) / 10 {
            return 0;
        }
        n = n * 10 + d;
        i += 1;
    }
    proof {
        assert(digits@.take(i as int) =~= digits@);
    }
    n
}

/// What a tag offers, given what the patterns found in it.
pub fn candidate(src: Option<String>, width: Option<String>, height: Option<String>) -> (r:
    Option<Candidate>)
    ensures
        r is Some == offered(text(src), text(width), text(height)) is Some,
        r matches Some(c) ==> offered(text(src), text(width), text(height)) == Some(c@),
{
    match src {
        Some(url) => {
            if is_direct_image(url.as_str()) {
                let width = match width {
                    Some(w) => parse_dimension(w.as_str()),
                    None => 0,
                };
                let height = match height {
                    Some(h) => parse_dimension(h.as_str()),
                    None => 0,
                };
                Some(Candidate { url, width, height })
            } else {
                None
            }
        },
        None => None,
    }
}

/// The index of the candidate to keep: the widest, among the widest the
/// highest, and among those the first. `None` only where there is none.
pub fn best_candidate(candidates: &Vec<Candidate>) -> (r: Option<usize>)
    ensures
        match r {
            Some(i) => is_best(views(candidates@), i as int),
            None => candidates@.len() == 0,
        },
{
    if candidates.len() == 0 {
        return None;
    }
    let ghost all = views(candidates@);
    let mut best: usize = 0;
    let mut i: usize = 1;
    while i < candidates.len()
        invariant
            1 <= i <= candidates.len(),
            best < i,
            all == views(candidates@),
            forall|j: int| 0 <= j < best ==> outranks(all[best as int], #[trigger] all[j]),
            forall|j: int| best < j < i ==> !outranks(#[trigger] all[j], all[best as int]),
        decreases candidates.len() - i,
    {
        let c = &candidates[i];
        let b = &candidates[best];
        if c.width > b.width || (c.width == b.width && c.height > b.height) {
            best = i;
        }
        i += 1;
    }
    Some(best)
}

/// What a page offers, in the order of its tags.
pub fn scan(body: &str) -> (r: Vec<Candidate>)
    ensures
        views(r@) == candidates_of(body@),
{
    let mut found: Vec<Candidate> = Vec::new();
    let tags = match find_all(TAG_PATTERN, body) {
        Some(tags) => tags,
        None => {
            assert(views(found@) =~= Seq::empty());
            return found;
        },
    };
    let ghost all = texts(tags@);
    let mut i: usize = 0;
    assert(views(found@) =~= Seq::empty());
    while i < tags.len()
        invariant
            i <= tags.len(),
            all == texts(tags@),
            views(found@) == offered_by_all(all.take(i as int)),
        decreases tags.len() - i,
    {
        let tag = tags[i].as_str();
        let ghost before = found@;
        proof {
            assert(all.take(i + 1).drop_last() =~= all.take(i as int));
            assert(all.take(i + 1).last() == tag@);
        }
        let src = capture(SRC_PATTERN, tag, 1);
        let width = capture(WIDTH_PATTERN, tag, 1);
        let height = capture(HEIGHT_PATTERN, tag, 1);
        match candidate(src, width, height) {
            Some(c) => {
                found.push(c);
                assert(views(found@) =~= views(before).push(c@));
            },
            None => {},
        }
        i += 1;
    }
    proof {
        assert(all.take(i as int) =~= all);
    }
    found
}

/// The address of the image to take from a page: that of the best candidate.
/// A page that offers none gives `NoImageFound`.
pub fn resolve(body: &str) -> (r: Result<String, BoardError>)
    ensures
        is_resolved(
            candidates_of(body@),
            match r {
                Ok(url) => Ok(url@),
                Err(e) => Err(e),
            },
        ),
{
    let mut found = scan(body);
    match best_candidate(&found) {
        Some(i) => {
            let ghost all = views(found@);
            let c = found.swap_remove(i);
            assert(c@ == all[i as int]);
            Ok(c.url)
        },
        None => {
            assert(views(found@) =~= Seq::empty());
            Err(BoardError::NoImageFound)
        },
    }
}

/// A longer run of digits writes no smaller number.
proof fn lemma_decimal_grows(s: Seq<char>, n: int)
    requires
        0 <= n <= s.len(),
    ensures
        decimal(s.take(n)) <= decimal(s),
    decreases s.len() - n,
{
    if n == s.len() {
        assert(s.take(n) =~= s);
    } else {
        lemma_decimal_grows(s, n + 1);
        assert(s.take(n + 1).drop_last() =~= s.take(n));
    }
}

/// At most one candidate is the one to keep.
pub proof fn lemma_best_unique(candidates: Seq<CandidateView>, i: int, j: int)
    requires
        is_best(candidates, i),
        is_best(candidates, j),
    ensures
        i == j,
{
    if i < j {
        assert(outranks(candidates[j], candidates[i]));
    } else if j < i {
        assert(outranks(candidates[i], candidates[j]));
    }
}

} // verus!
