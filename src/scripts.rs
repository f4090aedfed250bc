//! Discovery of the campaign identifier from the event page's scripts: the
//! page's script references, in document order, are fetched one by one, and
//! each is searched for the variable that the sign-in address is built with,
//! then for that variable's literal value.
use vstd::prelude::*;
use crate::act_id::ActIdError;
use crate::search::{first_match, lemma_first_match, lemma_no_match};

verus! {

/// The event's landing page.
pub const LANDING_PAGE: &'static str = "https://webstatic-sea.mihoyo.com/ys/event/signin-sea/index.html";

/// The origin that references rooted at `/` are resolved against.
pub const ORIGIN: &'static str = "https://webstatic-sea.mihoyo.com";

/// A script element that loads a `.js` file; the reference is captured.
pub const SCRIPT_SRC_PATTERN: &'static str = "<script[^>]*\\ssrc=\"([^\"]+\\.js)\"";

/// The concatenation that appends a variable to the `act_id` query
/// parameter; the variable's name is captured.
pub const MARKER_PATTERN: &'static str = "act_id=[\"']\\s*\\+\\s*([A-Za-z_$][A-Za-z0-9_$]*)";

/// What follows the variable's name in its assignment; the value is captured.
pub const ASSIGNMENT_SUFFIX: &'static str = "\\s*=\\s*[\"']([^\"']+)[\"']";

/// The first group of each successive non-overlapping match of `pattern` in
/// `text`, in order (`None` where the group took no part in the match);
/// empty where the pattern does not compile.
pub uninterp spec fn regex_all_captures(pattern: Seq<char>, text: Seq<char>) -> Seq<Option<Seq<char>>>;

/// `s` with every regular-expression meta character escaped.
pub uninterp spec fn regex_escaped(s: Seq<char>) -> Seq<char>;

/// The absolute URL that `reference` denotes relative to `base`, if both parse.
pub uninterp spec fn url_joined(base: Seq<char>, reference: Seq<char>) -> Option<Seq<char>>;

pub open spec fn strings_view(v: Seq<String>) -> Seq<Seq<char>> {
    v.map_values(|s: String| s@)
}

pub open spec fn options_view(v: Seq<Option<String>>) -> Seq<Option<Seq<char>>> {
    v.map_values(|o: Option<String>| match o {
        Some(s) => Some(s@),
        None => None,
    })
}

/// Relies on `regex::Regex::new` and `Regex::captures_iter`: the text of the
/// first group of every match, in order.
#[verifier::external_body]
fn all_captures(pattern: &str, text: &str) -> (r: Vec<Option<String>>)
    ensures
        options_view(r@) == regex_all_captures(pattern@, text@),
{
    match regex::Regex::new(pattern) {
        Ok(re) => re.captures_iter(text).map(|c| c.get(1).map(|m| m.as_str().to_string())).collect(),
        Err(_) => Vec::new(),
    }
}

/// What the leftmost match of `pattern` in `text` captures in its first
/// group, if there is a match and the group took part in it.
pub open spec fn regex_first_capture(pattern: Seq<char>, text: Seq<char>) -> Option<Seq<char>> {
    let all = regex_all_captures(pattern, text);
    if all.len() > 0 {
        all[0]
    } else {
        None
    }
}

/// The first group of the leftmost match of `pattern` in `text`.
pub fn first_capture(pattern: &str, text: &str) -> (r: Option<String>)
    ensures
        match regex_first_capture(pattern@, text@) {
            Some(c) => r matches Some(s) && s@ == c,
            None => r is None,
        },
{
    let all = all_captures(pattern, text);
    if all.len() > 0 {
        assert(regex_first_capture(pattern@, text@) == options_view(all@)[0]);
        match &all[0] {
            Some(c) => Some(c.clone()),
            None => None,
        }
    } else {
        None
    }
}

/// Relies on `regex::escape`, which backslash-escapes meta characters.
#[verifier::external_body]
fn escape(s: &str) -> (r: String)
    ensures
        r@ == regex_escaped(s@),
{
    regex::escape(s)
}

/// Relies on `reqwest::Url::parse` of the base and `Url::join`, which
/// resolves a reference as a browser does.
#[verifier::external_body]
fn join_url(base: &str, reference: &str) -> (r: Option<String>)
    ensures
        match r {
            Some(u) => url_joined(base@, reference@) == Some(u@),
            None => url_joined(base@, reference@) is None,
        },
{
    reqwest::Url::parse(base).and_then(|b| b.join(reference)).ok().map(|u| u.to_string())
}

pub open spec fn is_alpha(c: char) -> bool {
    ('a' <= c <= 'z') || ('A' <= c <= 'Z')
}

pub open spec fn is_scheme_char(c: char) -> bool {
    is_alpha(c) || ('0' <= c <= '9') || c == '+' || c == '-' || c == '.'
}

/// The reference starts with a scheme: a letter, then letters, digits, `+`,
/// `-` or `.`, then `:`.
pub open spec fn has_scheme(r: Seq<char>) -> bool {
    exists|k: int|
        #![trigger r[k]]
        0 < k < r.len() && r[k] == ':' && is_alpha(r[0]) && forall|j: int|
            0 < j < k ==> is_scheme_char(#[trigger] r[j])
}

/// Whether the reference starts with a scheme.
pub fn starts_with_scheme(r: &str) -> (b: bool)
    ensures
        b == has_scheme(r@),
{
    let n = r.unicode_len();
    if n == 0 || !is_alpha_char(r.get_char(0)) {
        return false;
    }
    let mut i: usize = 1;
    while i < n
        invariant
            1 <= i <= n,
            n == r@.len(),
            is_alpha(r@[0]),
            forall|j: int| 0 < j < i ==> is_scheme_char(#[trigger] r@[j]),
        decreases n - i,
    {
        let c = r.get_char(i);
        if c == ':' {
            assert(0 < i < r@.len() && r@[i as int] == ':');
            return true;
        }
        if !is_scheme_char_exec(c) {
            assert forall|k: int| 0 < k < r@.len() && #[trigger] r@[k] == ':' && is_alpha(r@[0]) implies !(
            forall|j: int| 0 < j < k ==> is_scheme_char(#[trigger] r@[j])) by {
                if k > i {
                    assert(!is_scheme_char(r@[i as int]));
                } else if k < i {
                    assert(is_scheme_char(r@[k]));
                }
            }
            return false;
        }
        i += 1;
    }
    assert forall|k: int| 0 < k < r@.len() implies r@[k] != ':' by {
        assert(is_scheme_char(r@[k]));
    }
    false
}

fn is_alpha_char(c: char) -> (b: bool)
    ensures
        b == is_alpha(c),
{
    ('a' <= c && c <= 'z') || ('A' <= c && c <= 'Z')
}

fn is_scheme_char_exec(c: char) -> (b: bool)
    ensures
        b == is_scheme_char(c),
{
    is_alpha_char(c) || ('0' <= c && c <= '9') || c == '+' || c == '-' || c == '.'
}

/// The absolute address of a script reference: rooted at the origin where it
/// starts with `/`, unchanged where it has a scheme, otherwise relative to the
/// landing page.
pub open spec fn normalized(reference: Seq<char>) -> Option<Seq<char>> {
    if reference.len() > 0 && reference[0] == '/' {
        Some(ORIGIN@ + reference)
    } else if has_scheme(reference) {
        Some(reference)
    } else {
        url_joined(LANDING_PAGE@, reference)
    }
}

/// Makes a script reference absolute.
pub fn normalize_script_url(reference: &str) -> (r: Option<String>)
    ensures
        match normalized(reference@) {
            Some(u) => r matches Some(s) && s@ == u,
            None => r is None,
        },
{
    if reference.unicode_len() > 0 && reference.get_char(0) == '/' {
        let mut url = String::from_str(ORIGIN);
        url.append(reference);
        Some(url)
    } else if starts_with_scheme(reference) {
        Some(String::from_str(reference))
    } else {
        join_url(LANDING_PAGE, reference)
    }
}

/// The absolute addresses of the references that are present and can be
/// made absolute, in order.
pub open spec fn normalized_all(refs: Seq<Option<Seq<char>>>) -> Seq<Seq<char>>
    decreases refs.len(),
{
    if refs.len() == 0 {
        seq![]
    } else {
        let rest = normalized_all(refs.drop_last());
        match refs.last() {
            Some(r) => match normalized(r) {
                Some(u) => rest.push(u),
                None => rest,
            },
            None => rest,
        }
    }
}

/// The scripts that the landing page loads, as absolute addresses in document order.
pub open spec fn script_urls(page: Seq<char>) -> Seq<Seq<char>> {
    normalized_all(regex_all_captures(SCRIPT_SRC_PATTERN@, page))
}

/// Lists the scripts that the landing page loads.
pub fn script_sources(page: &str) -> (r: Vec<String>)
    ensures
        strings_view(r@) == script_urls(page@),
{
    let refs = all_captures(SCRIPT_SRC_PATTERN, page);
    let ghost rv = options_view(refs@);
    let mut out: Vec<String> = Vec::new();
    let mut i: usize = 0;
    while i < refs.len()
        invariant
            i <= refs.len(),
            rv == options_view(refs@),
            rv == regex_all_captures(SCRIPT_SRC_PATTERN@, page@),
            strings_view(out@) == normalized_all(rv.take(i as int)),
        decreases refs.len() - i,
    {
        assert(rv.take(i as int + 1).drop_last() == rv.take(i as int));
        match &refs[i] {
            Some(reference) => {
                assert(rv[i as int] == Some(reference@));
                match normalize_script_url(reference.as_str()) {
                    Some(u) => {
                        out.push(u);
                        assert(strings_view(out@) == normalized_all(rv.take(i as int)).push(u@));
                    },
                    None => {},
                }
            },
            None => {},
        }
        i += 1;
    }
    assert(rv.take(refs.len() as int) == rv);
    out
}

/// The identifier that one script yields: the variable that the marker
/// names, then the literal assigned to it, both searched in the whole script.
pub open spec fn script_act_id(body: Seq<char>) -> Option<Seq<char>> {
    match regex_first_capture(MARKER_PATTERN@, body) {
        None => None,
        Some(name) => regex_first_capture(regex_escaped(name) + ASSIGNMENT_SUFFIX@, body),
    }
}

/// Searches one script for the identifier.
pub fn act_id_from_script(body: &str) -> (r: Option<String>)
    ensures
        match script_act_id(body@) {
            Some(v) => r matches Some(s) && s@ == v,
            None => r is None,
        },
{
    let name = match first_capture(MARKER_PATTERN, body) {
        Some(n) => n,
        None => return None,
    };
    let mut pattern = escape(name.as_str());
    pattern.append(ASSIGNMENT_SUFFIX);
    first_capture(pattern.as_str(), body)
}

/// A script that yields an identifier.
pub open spec fn yields_act_id() -> spec_fn(Seq<char>) -> bool {
    |b: Seq<char>| script_act_id(b) is Some
}

/// What a scan of these script bodies, taken in order, finds: the identifier
/// of the first one that yields one.
pub open spec fn scan_result(bodies: Seq<Seq<char>>) -> Option<Seq<char>> {
    match first_match(bodies, yields_act_id()) {
        Some(k) => script_act_id(bodies[k]),
        None => None,
    }
}

/// What the caller hands back after fetching a script.
#[derive(Debug)]
pub enum ScanEvent {
    /// The script's text.
    Script(String),
    /// The script could not be fetched.
    Failed(reqwest::Error),
}

/// What the caller is to do next.
#[derive(Debug)]
pub enum ScanAction {
    /// Fetch the script at this address and hand back its text.
    Fetch(String),
    /// The scan is over, with this outcome.
    Finish(Result<String, ActIdError>),
}

/// A scan of the landing page's scripts, one at a time in document order.
pub struct ScriptScan {
    urls: Vec<String>,
    next: usize,
    done: bool,
    seen: Ghost<Seq<Seq<char>>>,
}

impl ScriptScan {
    /// The addresses of the scripts to scan, in order.
    pub closed spec fn urls(self) -> Seq<Seq<char>> {
        strings_view(self.urls@)
    }

    /// The script bodies handed back so far, in order.
    pub closed spec fn seen(self) -> Seq<Seq<char>> {
        self.seen@
    }

    /// Whether the scan is over.
    pub closed spec fn is_done(self) -> bool {
        self.done
    }

    /// The scan awaits the script after those seen, and none seen so far
    /// yielded an identifier.
    pub closed spec fn wf(self) -> bool {
        &&& self.seen@.len() == self.next
        &&& self.next <= self.urls@.len()
        &&& !self.done ==> self.next < self.urls@.len()
        &&& !self.done ==> scan_result(self.seen@) is None
        &&& !self.done ==> forall|j: int| 0 <= j < self.next ==> !(#[trigger] yields_act_id()(self.seen@[j]))
    }

    /// Starts a scan of the scripts that the landing page `page` loads: the
    /// first script is fetched, or, where there is none, nothing is found.
    pub fn from_page(page: &str) -> (r: (ScriptScan, ScanAction))
        ensures
            r.0.wf(),
            r.0.urls() == script_urls(page@),
            r.0.seen() == Seq::<Seq<char>>::empty(),
            script_urls(page@).len() == 0 ==> r.0.is_done() && (r.1 matches ScanAction::Finish(Err(ActIdError::NotFound))),
            script_urls(page@).len() > 0 ==> !r.0.is_done() && (r.1 matches ScanAction::Fetch(u) && u@ == script_urls(page@)[0]),
    {
        let urls = script_sources(page);
        let ghost none: Seq<Seq<char>> = Seq::empty();
        proof {
            lemma_no_match(none, yields_act_id());
        }
        if urls.len() == 0 {
            (ScriptScan { urls, next: 0, done: true, seen: Ghost(none) }, ScanAction::Finish(Err(ActIdError::NotFound)))
        } else {
            let first = urls[0].clone();
            (ScriptScan { urls, next: 0, done: false, seen: Ghost(none) }, ScanAction::Fetch(first))
        }
    }

    /// Takes the text of the awaited script, or the failure to fetch it. A
    /// failure ends the scan at once; a script without the marker or without
    /// the assignment moves the scan on to the next one; the first script
    /// that yields an identifier ends it with that identifier.
    pub fn step(&mut self, event: ScanEvent) -> (action: ScanAction)
        requires
            old(self).wf(),
            !old(self).is_done(),
        ensures
            final(self).wf(),
            final(self).urls() == old(self).urls(),
            match event {
                ScanEvent::Failed(e) => {
                    &&& final(self).is_done()
                    &&& final(self).seen() == old(self).seen()
                    &&& action == ScanAction::Finish(Err(ActIdError::ReqwestError(e)))
                },
                ScanEvent::Script(body) => {
                    let seen = old(self).seen().push(body@);
                    let k = old(self).seen().len() as int;
                    &&& final(self).seen() == seen
                    &&& (script_act_id(body@) matches Some(v) ==> {
                        &&& final(self).is_done()
                        &&& first_match(seen, yields_act_id()) == Some(k)
                        &&& scan_result(seen) == Some(v)
                        &&& action matches ScanAction::Finish(Ok(s)) && s@ == v
                    })
                    &&& (script_act_id(body@) is None && k + 1 < old(self).urls().len() ==> {
                        &&& !final(self).is_done()
                        &&& action matches ScanAction::Fetch(u) && u@ == old(self).urls()[k + 1]
                    })
                    &&& (script_act_id(body@) is None && k + 1 == old(self).urls().len() ==> {
                        &&& final(self).is_done()
                        &&& scan_result(seen) is None
                        &&& action matches ScanAction::Finish(Err(ActIdError::NotFound))
                    })
                },
            },
    {
        match event {
            ScanEvent::Failed(e) => {
                self.done = true;
                ScanAction::Finish(Err(ActIdError::ReqwestError(e)))
            },
            ScanEvent::Script(body) => {
                let count = self.urls.len();
                assert(self.next < count);
                let ghost seen = self.seen@.push(body@);
                let ghost k = self.next as int;
                assert(seen.take(k) =~= self.seen@);
                self.seen = Ghost(seen);
                match act_id_from_script(body.as_str()) {
                    Some(v) => {
                        proof {
                            lemma_first_match(seen, yields_act_id(), k);
                        }
                        self.next = self.next + 1;
                        self.done = true;
                        ScanAction::Finish(Ok(v))
                    },
                    None => {
                        assert forall|j: int| 0 <= j < k + 1 implies !(#[trigger] yields_act_id()(seen[j])) by {
                            if j < k {
                                assert(seen[j] == old(self).seen@[j]);
                            }
                        }
                        proof {
                            lemma_no_match(seen, yields_act_id());
                        }
                        self.next = self.next + 1;
                        if self.next < self.urls.len() {
                            ScanAction::Fetch(self.urls[self.next].clone())
                        } else {
                            self.done = true;
                            ScanAction::Finish(Err(ActIdError::NotFound))
                        }
                    },
                }
            },
        }
    }
}

/// A scan is repeatable: the same landing page lists the same scripts, and
/// the same script bodies give the same identifier, or none both times.
pub proof fn lemma_scan_repeatable(
    page1: Seq<char>,
    page2: Seq<char>,
    bodies1: Seq<Seq<char>>,
    bodies2: Seq<Seq<char>>,
)
    requires
        page1 == page2,
        bodies1 == bodies2,
    ensures
        script_urls(page1) == script_urls(page2),
        scan_result(bodies1) == scan_result(bodies2),
{
}

/// Where the `k`-th script is the first to yield an identifier, a scan reads
/// exactly the scripts up to and including it and finds that script's value;
/// the scripts after it do not matter.
pub proof fn lemma_scan_stops_at_first_hit(bodies: Seq<Seq<char>>, k: int)
    requires
        0 <= k < bodies.len(),
        script_act_id(bodies[k]) is Some,
        forall|j: int| 0 <= j < k ==> script_act_id(#[trigger] bodies[j]) is None,
    ensures
        scan_result(bodies.take(k + 1)) == script_act_id(bodies[k]),
        scan_result(bodies) == script_act_id(bodies[k]),
        forall|j: int| 0 <= j < k ==> scan_result(#[trigger] bodies.take(j + 1)) is None,
{
    lemma_first_match(bodies, yields_act_id(), k);
    lemma_first_match(bodies.take(k + 1), yields_act_id(), k);
    assert forall|j: int| 0 <= j < k implies scan_result(#[trigger] bodies.take(j + 1)) is None by {
        let t = bodies.take(j + 1);
        assert forall|i: int| 0 <= i < t.len() implies !(#[trigger] yields_act_id()(t[i])) by {
            assert(t[i] == bodies[i]);
        }
        lemma_no_match(t, yields_act_id());
    }
}

} // verus!
