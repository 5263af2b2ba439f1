//! Windows on the desktop, and the search for them by title.
use crate::error::HResult;
use crate::types::picked_is_among_all;
use vstd::prelude::*;

verus! {

/// The handle of a window.
#[derive(Debug, Clone, Copy, PartialEq, Eq, Hash, Structural)]
pub struct WindowHandle {
    /// The number that the system knows the window by.
    pub raw: isize,
}

impl WindowHandle {
    /// The handle with the given number.
    pub fn new(raw: isize) -> (r: Self)
        ensures
            r.raw == raw,
    {
        WindowHandle { raw }
    }

    /// The number that the system knows the window by.
    pub fn as_raw(&self) -> (r: isize)
        ensures
            r == self.raw,
    {
        self.raw
    }

    /// Whether the window is valid and visible, from what the system says of
    /// this handle.
    pub fn is_valid_and_visible(&self, exists: bool, visible: bool) -> (r: bool)
        ensures
            r == (exists && visible),
    {
        is_window_valid(exists, visible)
    }

    /// The title of the window, from the system's two replies for this handle.
    pub fn get_title(&self, query: TextLength, buffer: Vec<u16>, reply: TextLength) -> (r: Result<
        String,
        HResult,
    >)
        requires
            query.length >= 0,
            reply.length >= 0,
        ensures
            is_title(query, buffer@, reply, r),
    {
        get_window_title(query, buffer, reply)
    }
}

/// Whether a window is valid and visible.
pub fn is_window_valid(exists: bool, visible: bool) -> (r: bool)
    ensures
        r == (exists && visible),
{
    exists && visible
}

/// What the system says when it is asked for a window's text.
#[derive(Debug, Clone, Copy)]
pub struct TextLength {
    /// The number of characters, which is 0 where there are none or the call
    /// failed.
    pub length: i32,
    /// The code of the failure, or 0 where there was none.
    pub error: HResult,
}

impl TextLength {
    /// Whether the call failed.
    pub open spec fn failed(self) -> bool {
        self.length == 0 && self.error != 0
    }
}

/// The size of the buffer that a window's text is read into: one more than the
/// text is long. There is none where the window has no text.
pub fn title_buffer_size(query: TextLength) -> (r: Result<Option<usize>, HResult>)
    requires
        query.length >= 0,
    ensures
        query.failed() ==> r == Err::<Option<usize>, HResult>(query.error),
        !query.failed() && query.length == 0 ==> r == Ok::<Option<usize>, HResult>(None),
        query.length > 0 ==> (r matches Ok(Some(n)) && n == query.length + 1),
{
    if query.length == 0 {
        if query.error != 0 {
            return Err(query.error);
        }
        return Ok(None);
    }
    Ok(Some(query.length as usize + 1))
}

/// Whether `r` is the title that the system's replies come to: none where the
/// query found no text, else the characters that were read.
pub open spec fn is_title(
    query: TextLength,
    buffer: Seq<u16>,
    reply: TextLength,
    r: Result<String, HResult>,
) -> bool {
    if query.failed() {
        r matches Err(code) && code == query.error
    } else if query.length == 0 {
        r matches Ok(title) && title@ == Seq::<char>::empty()
    } else if reply.failed() {
        r matches Err(code) && code == reply.error
    } else if reply.length < buffer.len() {
        r matches Ok(title) && title@ == utf16_text(buffer.take(reply.length as int))
    } else {
        r matches Ok(title) && title@ == utf16_text(buffer)
    }
}

/// The title of a window: `query` is the reply to the question for its length,
/// `reply` that to reading the text into `buffer`.
pub fn get_window_title(query: TextLength, buffer: Vec<u16>, reply: TextLength) -> (r: Result<
    String,
    HResult,
>)
    requires
        query.length >= 0,
        reply.length >= 0,
    ensures
        is_title(query, buffer@, reply, r),
{
    match title_buffer_size(query) {
        Err(code) => {
            return Err(code);
        },
        Ok(None) => {
            return Ok(String::new());
        },
        Ok(Some(_)) => {},
    }
    if reply.length == 0 && reply.error != 0 {
        return Err(reply.error);
    }
    let mut text = buffer;
    text.truncate(reply.length as usize);
    assert(reply.length <= buffer@.len() ==> text@ =~= buffer@.take(reply.length as int));
    assert(reply.length >= buffer@.len() ==> text@ =~= buffer@);
    Ok(decode_utf16(text.as_slice()))
}

/// What `String::from_utf16_lossy` makes of a run of 16-bit units.
pub uninterp spec fn utf16_text(units: Seq<u16>) -> Seq<char>;

/// The text that 16-bit units stand for: `String::from_utf16_lossy`, which is
/// documented to decode UTF-16 and to put U+FFFD in the place of invalid data.
#[verifier::external_body]
fn decode_utf16(units: &[u16]) -> (r: String)
    ensures
        r@ == utf16_text(units@),
{
    String::from_utf16_lossy(units)
}

/// What `str::to_lowercase` makes of a text.
pub uninterp spec fn lowercase(text: Seq<char>) -> Seq<char>;

/// A text in lower case: `str::to_lowercase`, which is documented to follow
/// the derived core property `Lowercase` of Unicode.
#[verifier::external_body]
fn to_lower(text: &str) -> (r: String)
    ensures
        r@ == lowercase(text@),
{
    text.to_lowercase()
}

/// Whether one text stands somewhere in another.
pub open spec fn is_substring(needle: Seq<char>, text: Seq<char>) -> bool {
    exists|i: int|
        0 <= i <= text.len() - needle.len() && #[trigger] text.subrange(i, i + needle.len())
            == needle
}

/// Whether `needle` stands somewhere in `text`: `str::contains` with a string
/// slice, which is documented to tell whether the pattern matches a sub-slice.
#[verifier::external_body]
pub(crate) fn contains_text(text: &str, needle: &str) -> (r: bool)
    ensures
        r == is_substring(needle@, text@),
{
    text.contains(needle)
}

/// How to search for windows.
#[derive(Debug, Clone, Copy, PartialEq, Eq, Structural)]
pub struct WindowSearchOptions {
    /// Whether upper and lower case differ.
    pub case_sensitive: bool,
    /// The maximum number of results, or `None` for no limit.
    pub max_results: Option<usize>,
    /// Whether the whole title must match.
    pub exact_match: bool,
}

impl Default for WindowSearchOptions {
    /// The first window whose title holds the text, in any case.
    fn default() -> (r: Self)
        ensures
            r == (WindowSearchOptions {
                case_sensitive: false,
                max_results: Some(1),
                exact_match: false,
            }),
    {
        WindowSearchOptions { case_sensitive: false, max_results: Some(1), exact_match: false }
    }
}

/// A window that a search comes across.
#[derive(Debug)]
pub struct WindowCandidate {
    /// The window.
    pub handle: WindowHandle,
    /// Whether it is visible.
    pub visible: bool,
    /// Its title, or the code with which asking for it failed.
    pub title: Result<String, HResult>,
}

/// A text as it is compared: in lower case, unless case matters.
pub open spec fn comparable(text: Seq<char>, case_sensitive: bool) -> Seq<char> {
    if case_sensitive {
        text
    } else {
        lowercase(text)
    }
}

/// Whether a title is what a search looks for.
pub open spec fn title_matches(
    title: Seq<char>,
    search_text: Seq<char>,
    options: WindowSearchOptions,
) -> bool {
    let a = comparable(title, options.case_sensitive);
    let b = comparable(search_text, options.case_sensitive);
    if options.exact_match {
        a == b
    } else {
        is_substring(b, a)
    }
}

/// The handle of a window that is what a search looks for: it is visible, its
/// title can be read and matches.
pub open spec fn hit(
    candidate: WindowCandidate,
    search_text: Seq<char>,
    options: WindowSearchOptions,
) -> Option<WindowHandle> {
    match candidate.title {
        Ok(title) => if candidate.visible && title_matches(title@, search_text, options) {
            Some(candidate.handle)
        } else {
            None
        },
        Err(_) => None,
    }
}

/// All windows that are what a search looks for, in the order of the
/// candidates.
pub open spec fn all_hits(
    candidates: Seq<WindowCandidate>,
    search_text: Seq<char>,
    options: WindowSearchOptions,
) -> Seq<WindowHandle> {
    candidates.filter_map(|c: WindowCandidate| hit(c, search_text, options))
}

/// The first `max` items of a sequence, or all where there is no limit.
pub open spec fn at_most<T>(s: Seq<T>, max: Option<usize>) -> Seq<T> {
    match max {
        Some(n) => if s.len() > n {
            s.take(n as int)
        } else {
            s
        },
        None => s,
    }
}

/// What a search finds.
pub open spec fn search_results(
    candidates: Seq<WindowCandidate>,
    search_text: Seq<char>,
    options: WindowSearchOptions,
) -> Seq<WindowHandle> {
    at_most(all_hits(candidates, search_text, options), options.max_results)
}

/// Computes `comparable`.
fn to_comparable(text: &str, case_sensitive: bool) -> (r: String)
    ensures
        r@ == comparable(text@, case_sensitive),
{
    if case_sensitive {
        text.to_owned()
    } else {
        to_lower(text)
    }
}

/// A search that is going on.
pub struct SearchContext {
    /// The text to look for, as it is compared.
    pub search_text: String,
    /// The windows found so far.
    pub results: Vec<WindowHandle>,
    /// How to search.
    pub options: WindowSearchOptions,
}

impl SearchContext {
    /// Whether this is the search for a text after some candidates.
    pub open spec fn has_seen(
        self,
        search_text: Seq<char>,
        options: WindowSearchOptions,
        candidates: Seq<WindowCandidate>,
    ) -> bool {
        &&& self.options == options
        &&& self.search_text@ == comparable(search_text, options.case_sensitive)
        &&& self.results@ == search_results(candidates, search_text, options)
    }

    /// A search that has not come across any window yet.
    pub fn new(search_text: &str, options: WindowSearchOptions) -> (r: Self)
        ensures
            r.has_seen(search_text@, options, Seq::empty()),
    {
        let context = SearchContext {
            search_text: to_comparable(search_text, options.case_sensitive),
            results: Vec::new(),
            options,
        };
        proof {
            reveal(Seq::filter_map);
            assert(all_hits(Seq::empty(), search_text@, options) =~= Seq::<WindowHandle>::empty());
        }
        context
    }

    /// Whether the search has found as many windows as it may.
    pub open spec fn is_full(self) -> bool {
        self.options.max_results matches Some(max) && self.results@.len() >= max
    }

    /// Whether the search has found as many windows as it may.
    pub fn should_stop(&self) -> (r: bool)
        ensures
            r == self.is_full(),
    {
        match self.options.max_results {
            Some(max) => self.results.len() >= max,
            None => false,
        }
    }

    /// Whether a window is what the search looks for.
    fn is_hit(&self, candidate: &WindowCandidate) -> (r: bool)
        ensures
            forall|text: Seq<char>|
                self.search_text@ == #[trigger] comparable(text, self.options.case_sensitive)
                    ==> r == (hit(*candidate, text, self.options) is Some),
    {
        if !candidate.visible {
            return false;
        }
        match &candidate.title {
            Ok(title) => {
                let text = to_comparable(title.as_str(), self.options.case_sensitive);
                if self.options.exact_match {
                    text == self.search_text
                } else {
                    contains_text(text.as_str(), self.search_text.as_str())
                }
            },
            Err(_) => false,
        }
    }

    /// Looks at one more window, and tells whether to go on.
    ///
    /// The window joins the results where it is what the search looks for and
    /// there is room for it.
    pub fn visit(&mut self, candidate: &WindowCandidate) -> (r: bool)
        ensures
            r == !final(self).is_full(),
            forall|text: Seq<char>, options: WindowSearchOptions, seen: Seq<WindowCandidate>|
                #![trigger old(self).has_seen(text, options, seen)]
                old(self).has_seen(text, options, seen) ==> final(self).has_seen(
                    text,
                    options,
                    seen.push(*candidate),
                ),
    {
        let wanted = self.is_hit(candidate);
        let full = self.should_stop();
        if wanted && !full {
            self.results.push(candidate.handle);
        }
        proof {
            assert forall|text: Seq<char>, options: WindowSearchOptions, seen: Seq<WindowCandidate>|
                #![trigger old(self).has_seen(text, options, seen)]
                old(self).has_seen(text, options, seen) implies self.has_seen(
                text,
                options,
                seen.push(*candidate),
            ) by {
                let f = |c: WindowCandidate| hit(c, text, options);
                let longer = seen.push(*candidate);
                let _ = comparable(text, self.options.case_sensitive);
                longer.lemma_filter_map_take_succ(f, seen.len() as int);
                assert(longer.take(seen.len() as int) =~= seen);
                assert(longer.take(seen.len() as int + 1) =~= longer);
                let hits = all_hits(seen, text, options);
                assert(all_hits(longer, text, options) =~= match hit(*candidate, text, options) {
                    Some(handle) => hits.push(handle),
                    None => hits,
                });
                assert(self.results@ =~= search_results(longer, text, options));
            }
        }
        !self.should_stop()
    }
}

/// Finds the windows whose title holds a text, among the windows on the
/// desktop.
pub fn find_windows_by_text(
    search_text: &str,
    options: WindowSearchOptions,
    candidates: &Vec<WindowCandidate>,
) -> (r: Vec<WindowHandle>)
    ensures
        r@ == search_results(candidates@, search_text@, options),
{
    let mut context = SearchContext::new(search_text, options);
    assert(candidates@.take(0) =~= Seq::<WindowCandidate>::empty());
    for i in 0..candidates.len()
        invariant
            context.has_seen(search_text@, options, candidates@.take(i as int)),
    {
        let _ = context.visit(&candidates[i]);
        assert(candidates@.take(i as int).push(candidates@[i as int]) =~= candidates@.take(i + 1));
    }
    assert(candidates@.take(candidates@.len() as int) =~= candidates@);
    context.results
}

/// The first item of a sequence, if there is one.
pub open spec fn first_of<T>(s: Seq<T>) -> Option<T> {
    if s.len() > 0 {
        Some(s[0])
    } else {
        None
    }
}

/// The first window that a search finds.
fn find_first(
    search_text: &str,
    options: WindowSearchOptions,
    candidates: &Vec<WindowCandidate>,
) -> (r: Option<WindowHandle>)
    requires
        options.max_results == Some(1usize),
    ensures
        r == first_of(all_hits(candidates@, search_text@, options)),
{
    let found = find_windows_by_text(search_text, options, candidates);
    if found.len() > 0 {
        Some(found[0])
    } else {
        None
    }
}

/// The first window whose title holds a text, in any case.
pub fn get_window_by_text(search_text: &str, candidates: &Vec<WindowCandidate>) -> (r: Option<
    WindowHandle,
>)
    ensures
        r == first_of(
            all_hits(
                candidates@,
                search_text@,
                (WindowSearchOptions {
                    case_sensitive: false,
                    max_results: Some(1),
                    exact_match: false,
                }),
            ),
        ),
{
    find_first(search_text, WindowSearchOptions::default(), candidates)
}

/// The first window whose title holds a text, in any case.
pub fn get_window_by_string(search_text: &str, candidates: &Vec<WindowCandidate>) -> (r: Option<
    WindowHandle,
>)
    ensures
        r == first_of(
            all_hits(
                candidates@,
                search_text@,
                (WindowSearchOptions {
                    case_sensitive: false,
                    max_results: Some(1),
                    exact_match: false,
                }),
            ),
        ),
{
    get_window_by_text(search_text, candidates)
}

/// The first window whose title is a text, letter for letter.
pub fn get_window_by_exact_string(
    search_text: &str,
    candidates: &Vec<WindowCandidate>,
) -> (r: Option<WindowHandle>)
    ensures
        r == first_of(
            all_hits(
                candidates@,
                search_text@,
                (WindowSearchOptions {
                    case_sensitive: true,
                    max_results: Some(1),
                    exact_match: true,
                }),
            ),
        ),
{
    find_first(
        search_text,
        WindowSearchOptions { case_sensitive: true, max_results: Some(1), exact_match: true },
        candidates,
    )
}

/// How a recorder searches for its window: for a title that holds a name, in
/// any case, or for one that is the name, letter for letter.
pub open spec fn recorder_options(exact: bool) -> WindowSearchOptions {
    WindowSearchOptions { case_sensitive: exact, max_results: Some(1), exact_match: exact }
}

/// The first window that goes by a name.
pub open spec fn window_named(
    candidates: Seq<WindowCandidate>,
    name: Seq<char>,
    exact: bool,
) -> Option<WindowHandle> {
    first_of(all_hits(candidates, name, recorder_options(exact)))
}

/// Finds the first window that goes by a name.
pub fn find_window(name: &str, exact: bool, candidates: &Vec<WindowCandidate>) -> (r: Option<
    WindowHandle,
>)
    ensures
        r == window_named(candidates@, name@, exact),
{
    if exact {
        get_window_by_exact_string(name, candidates)
    } else {
        get_window_by_string(name, candidates)
    }
}

/// Whether some visible window among the candidates has this title.
pub open spec fn is_visible_title(candidates: Seq<WindowCandidate>, title: Seq<char>) -> bool {
    exists|i: int|
        #![trigger candidates[i]]
        0 <= i < candidates.len() && candidates[i].visible && (candidates[i].title matches Ok(t)
            && t@ == title)
}

/// Whether a title is in a list.
pub open spec fn lists(titles: Seq<String>, title: Seq<char>) -> bool {
    exists|i: int| 0 <= i < titles.len() && (#[trigger] titles[i])@ == title
}

/// Computes `lists`.
fn has_title(titles: &Vec<String>, title: &String) -> (r: bool)
    ensures
        r == lists(titles@, title@),
{
    for i in 0..titles.len()
        invariant
            forall|k: int| 0 <= k < i ==> (#[trigger] titles@[k])@ != title@,
    {
        if titles[i] == *title {
            return true;
        }
    }
    false
}

/// The titles of all visible windows that have one, each of them once.
pub fn list_all_visible_windows(candidates: &Vec<WindowCandidate>) -> (r: Vec<String>)
    ensures
        forall|title: Seq<char>| #[trigger]
            lists(r@, title) <==> title.len() > 0 && is_visible_title(candidates@, title),
        forall|i: int, j: int| 0 <= i < j < r@.len() ==> (#[trigger] r@[i])@ != (#[trigger] r@[j])@,
{
    let mut titles: Vec<String> = Vec::new();
    for n in 0..candidates.len()
        invariant
            forall|title: Seq<char>| #[trigger]
                lists(titles@, title) <==> title.len() > 0 && is_visible_title(
                    candidates@.take(n as int),
                    title,
                ),
            forall|i: int, j: int|
                0 <= i < j < titles@.len() ==> (#[trigger] titles@[i])@ != (#[trigger] titles@[j])@,
    {
        let ghost before = titles@;
        let ghost seen = candidates@.take(n as int);
        let ghost seen_next = candidates@.take(n + 1);
        let candidate = &candidates[n];
        proof {
            assert forall|title: Seq<char>| #[trigger] is_visible_title(seen_next, title) == (
            is_visible_title(seen, title) || (candidate.visible && (candidate.title matches Ok(t)
                && t@ == title))) by {
                assert(seen_next[n as int] == *candidate);
                assert forall|i: int| 0 <= i < n implies seen_next[i] == seen[i] by {}
            }
        }
        if candidate.visible {
            match &candidate.title {
                Ok(title) => {
                    if !title.as_str().is_empty() && !has_title(&titles, title) {
                        let copy = title.clone();
                        titles.push(copy);
                        proof {
                            assert forall|text: Seq<char>| #[trigger] lists(titles@, text) == (lists(
                                before,
                                text,
                            ) || text == title@) by {
                                assert(titles@[before.len() as int]@ == title@);
                                assert forall|i: int| 0 <= i < before.len() implies titles@[i]
                                    == before[i] by {}
                            }
                        }
                    }
                },
                Err(_) => {},
            }
        }
    }
    assert(candidates@.take(candidates@.len() as int) =~= candidates@);
    titles
}

/// Every window that a search finds is visible, and its title matches.
pub proof fn results_match(
    candidates: Seq<WindowCandidate>,
    search_text: Seq<char>,
    options: WindowSearchOptions,
    handle: WindowHandle,
)
    requires
        search_results(candidates, search_text, options).contains(handle),
    ensures
        exists|i: int|
            #![trigger candidates[i]]
            0 <= i < candidates.len() && candidates[i].handle == handle && candidates[i].visible && (
            candidates[i].title matches Ok(title) && title_matches(title@, search_text, options)),
{
    let f = |c: WindowCandidate| hit(c, search_text, options);
    let hits = all_hits(candidates, search_text, options);
    let results = search_results(candidates, search_text, options);
    let k = choose|k: int| 0 <= k < results.len() && results[k] == handle;
    assert(hits[k] == handle);
    assert(hits.contains(handle));
    candidates.lemma_filter_map_contains(f, handle);
    let c = choose|c: WindowCandidate| candidates.contains(c) && f(c) == Some(handle);
    let i = choose|i: int| 0 <= i < candidates.len() && candidates[i] == c;
    assert(candidates[i].handle == handle);
}

/// A search never finds more windows than it may.
pub proof fn results_are_limited(
    candidates: Seq<WindowCandidate>,
    search_text: Seq<char>,
    options: WindowSearchOptions,
)
    ensures
        options.max_results matches Some(max) ==> search_results(
            candidates,
            search_text,
            options,
        ).len() <= max,
{
}

/// A title that is the text, letter for letter, also holds the text.
pub proof fn exact_match_is_a_substring_match(
    title: Seq<char>,
    search_text: Seq<char>,
    options: WindowSearchOptions,
)
    requires
        options.exact_match,
        title_matches(title, search_text, options),
    ensures
        title_matches(title, search_text, (WindowSearchOptions { exact_match: false, ..options })),
{
    let a = comparable(title, options.case_sensitive);
    assert(a.subrange(0, 0int + a.len()) =~= a);
}

/// Whether a text is made of another one, with something before it and after it.
pub open spec fn is_around(text: Seq<char>, inner: Seq<char>) -> bool {
    exists|u: Seq<char>, v: Seq<char>| text == #[trigger] (u + inner + v)
}

/// Whether a window is visible, and its title can be read and holds a text, or is
/// that text where the whole title counts. Both are taken in lower case unless
/// case matters.
pub open spec fn is_wanted(
    candidate: WindowCandidate,
    text: Seq<char>,
    options: WindowSearchOptions,
) -> bool {
    candidate.visible && match candidate.title {
        Ok(title) => {
            let a = if options.case_sensitive {
                title@
            } else {
                lowercase(title@)
            };
            let b = if options.case_sensitive {
                text
            } else {
                lowercase(text)
            };
            if options.exact_match {
                a == b
            } else {
                is_around(a, b)
            }
        },
        Err(_) => false,
    }
}

/// A text stands in another exactly where the other is made of it, with something
/// before it and after it.
pub proof fn substring_is_in_the_middle(needle: Seq<char>, text: Seq<char>)
    ensures
        is_substring(needle, text) <==> is_around(text, needle),
{
    if is_substring(needle, text) {
        let i = choose|i: int|
            0 <= i <= text.len() - needle.len() && #[trigger] text.subrange(i, i + needle.len())
                == needle;
        let u = text.subrange(0, i);
        let v = text.subrange(i + needle.len(), text.len() as int);
        assert(text =~= u + text.subrange(i, i + needle.len()) + v);
        assert(text == u + needle + v);
    }
    if is_around(text, needle) {
        let (u, v) = choose|u: Seq<char>, v: Seq<char>| text == #[trigger] (u + needle + v);
        let i = u.len() as int;
        assert(text.subrange(i, i + needle.len()) =~= needle);
    }
}

/// A window is a hit exactly where it is wanted.
proof fn hits_are_wanted(
    candidate: WindowCandidate,
    text: Seq<char>,
    options: WindowSearchOptions,
)
    ensures
        hit(candidate, text, options) == if is_wanted(candidate, text, options) {
            Some(candidate.handle)
        } else {
            None
        },
{
    match candidate.title {
        Ok(title) => {
            substring_is_in_the_middle(
                comparable(text, options.case_sensitive),
                comparable(title@, options.case_sensitive),
            );
        },
        Err(_) => {},
    }
}

/// A search without a limit finds every window that is wanted.
pub proof fn search_finds_every_wanted_window(
    candidates: Seq<WindowCandidate>,
    text: Seq<char>,
    options: WindowSearchOptions,
    i: int,
)
    requires
        0 <= i < candidates.len(),
        is_wanted(candidates[i], text, options),
        options.max_results is None,
    ensures
        search_results(candidates, text, options).contains(candidates[i].handle),
{
    hits_are_wanted(candidates[i], text, options);
    let f = |c: WindowCandidate| hit(c, text, options);
    picked_is_among_all(candidates, f, i, candidates[i].handle);
}

/// A search that does not ask for the whole title finds, without a limit, every
/// visible window whose title has the text anywhere in it.
pub proof fn text_anywhere_in_the_title_is_found(
    candidates: Seq<WindowCandidate>,
    text: Seq<char>,
    options: WindowSearchOptions,
    i: int,
    title: String,
    u: Seq<char>,
    v: Seq<char>,
)
    requires
        0 <= i < candidates.len(),
        candidates[i].visible,
        candidates[i].title == Ok::<String, HResult>(title),
        !options.exact_match,
        options.max_results is None,
        options.case_sensitive ==> title@ == u + text + v,
        !options.case_sensitive ==> lowercase(title@) == u + lowercase(text) + v,
    ensures
        search_results(candidates, text, options).contains(candidates[i].handle),
{
    if options.case_sensitive {
        assert(is_around(title@, text));
    } else {
        assert(is_around(lowercase(title@), lowercase(text)));
    }
    search_finds_every_wanted_window(candidates, text, options, i);
}

/// A search finds no window that is not wanted.
pub proof fn search_finds_wanted_windows_only(
    candidates: Seq<WindowCandidate>,
    text: Seq<char>,
    options: WindowSearchOptions,
    handle: WindowHandle,
)
    requires
        search_results(candidates, text, options).contains(handle),
    ensures
        exists|i: int|
            0 <= i < candidates.len() && (#[trigger] candidates[i]).handle == handle && is_wanted(
                candidates[i],
                text,
                options,
            ),
{
    results_match(candidates, text, options, handle);
    let i = choose|i: int|
        #![trigger candidates[i]]
        0 <= i < candidates.len() && candidates[i].handle == handle && candidates[i].visible && (
        candidates[i].title matches Ok(title) && title_matches(title@, text, options));
    hits_are_wanted(candidates[i], text, options);
}

/// With a limit a search finds the first ones of what it finds without.
pub proof fn limit_keeps_the_first_windows(
    candidates: Seq<WindowCandidate>,
    text: Seq<char>,
    options: WindowSearchOptions,
    max: usize,
)
    requires
        options.max_results == Some(max),
    ensures
        ({
            let all = search_results(
                candidates,
                text,
                (WindowSearchOptions { max_results: None, ..options }),
            );
            let some = search_results(candidates, text, options);
            &&& some.len() <= max
            &&& some.len() < max ==> some.len() == all.len()
            &&& some.len() <= all.len()
            &&& forall|i: int| 0 <= i < some.len() ==> #[trigger] some[i] == all[i]
        }),
{
    let wide = WindowSearchOptions { max_results: None, ..options };
    let f = |c: WindowCandidate| hit(c, text, options);
    let g = |c: WindowCandidate| hit(c, text, wide);
    assert forall|c: WindowCandidate| #[trigger] f(c) == g(c) by {
        hits_are_wanted(c, text, options);
        hits_are_wanted(c, text, wide);
    }
    assert(f =~= g);
}

/// What comes first among the windows that are found is the first window that is
/// wanted, and nothing is found only where no window is wanted.
pub proof fn first_wanted_window_comes_first(
    candidates: Seq<WindowCandidate>,
    text: Seq<char>,
    options: WindowSearchOptions,
)
    ensures
        match first_of(all_hits(candidates, text, options)) {
            Some(handle) => exists|i: int|
                {
                    &&& 0 <= i < candidates.len()
                    &&& (#[trigger] candidates[i]).handle == handle
                    &&& is_wanted(candidates[i], text, options)
                    &&& forall|k: int|
                        0 <= k < i ==> !is_wanted(#[trigger] candidates[k], text, options)
                },
            None => forall|k: int|
                0 <= k < candidates.len() ==> !is_wanted(#[trigger] candidates[k], text, options),
        },
    decreases candidates.len(),
{
    let f = |c: WindowCandidate| hit(c, text, options);
    let all = all_hits(candidates, text, options);
    if candidates.len() > 0 {
        let n = candidates.len() - 1;
        let front = candidates.drop_last();
        first_wanted_window_comes_first(front, text, options);
        candidates.lemma_filter_map_take_succ(f, n);
        assert(candidates.take(n) =~= front);
        assert(candidates.take(n + 1) =~= candidates);
        hits_are_wanted(candidates[n], text, options);
        let before = all_hits(front, text, options);
        if before.len() > 0 {
            assert(all[0] == before[0]);
            let i = choose|i: int|
                {
                    &&& 0 <= i < front.len()
                    &&& (#[trigger] front[i]).handle == before[0]
                    &&& is_wanted(front[i], text, options)
                    &&& forall|k: int| 0 <= k < i ==> !is_wanted(#[trigger] front[k], text, options)
                };
            assert(candidates[i] == front[i]);
            assert forall|k: int| 0 <= k < i implies !is_wanted(
                #[trigger] candidates[k],
                text,
                options,
            ) by {
                assert(front[k] == candidates[k]);
            }
        } else {
            assert forall|k: int| 0 <= k < n implies !is_wanted(
                #[trigger] candidates[k],
                text,
                options,
            ) by {
                assert(front[k] == candidates[k]);
            }
            if is_wanted(candidates[n], text, options) {
                assert(all =~= seq![candidates[n].handle]);
            } else {
                assert(all =~= Seq::<WindowHandle>::empty());
            }
        }
    } else {
        reveal(Seq::filter_map);
        assert(all =~= Seq::<WindowHandle>::empty());
    }
}

/// Whether a window is visible and goes by a name: its title is the name, letter
/// for letter, or else has it anywhere in it, in any case.
pub open spec fn goes_by(candidate: WindowCandidate, name: Seq<char>, exact: bool) -> bool {
    candidate.visible && match candidate.title {
        Ok(title) => if exact {
            title@ == name
        } else {
            is_around(lowercase(title@), lowercase(name))
        },
        Err(_) => false,
    }
}

/// The window that is recorded is the first one that goes by the name, and there
/// is none only where no window does.
pub proof fn recorded_window_goes_by_the_name(
    candidates: Seq<WindowCandidate>,
    name: Seq<char>,
    exact: bool,
)
    ensures
        match window_named(candidates, name, exact) {
            Some(handle) => exists|i: int|
                {
                    &&& 0 <= i < candidates.len()
                    &&& (#[trigger] candidates[i]).handle == handle
                    &&& goes_by(candidates[i], name, exact)
                    &&& forall|k: int|
                        0 <= k < i ==> !goes_by(#[trigger] candidates[k], name, exact)
                },
            None => forall|k: int|
                0 <= k < candidates.len() ==> !goes_by(#[trigger] candidates[k], name, exact),
        },
{
    let options = recorder_options(exact);
    first_wanted_window_comes_first(candidates, name, options);
    assert forall|c: WindowCandidate| #[trigger] goes_by(c, name, exact) == is_wanted(
        c,
        name,
        options,
    ) by {}
    match window_named(candidates, name, exact) {
        Some(handle) => {
            let i = choose|i: int|
                {
                    &&& 0 <= i < candidates.len()
                    &&& (#[trigger] candidates[i]).handle == handle
                    &&& is_wanted(candidates[i], name, options)
                    &&& forall|k: int|
                        0 <= k < i ==> !is_wanted(#[trigger] candidates[k], name, options)
                };
            assert(goes_by(candidates[i], name, exact));
        },
        None => {},
    }
}

/// The title of a window that has text is made of exactly as many units as were
/// read, from the start of the buffer.
pub proof fn title_is_what_was_read(
    query: TextLength,
    buffer: Seq<u16>,
    reply: TextLength,
    r: Result<String, HResult>,
    units: Seq<u16>,
)
    requires
        is_title(query, buffer, reply, r),
        query.length > 0,
        reply.length > 0,
        units.len() == reply.length,
        units.is_prefix_of(buffer),
    ensures
        r matches Ok(title) && title@ == utf16_text(units),
{
    assert(units =~= buffer.take(reply.length as int));
    if reply.length == buffer.len() {
        assert(units =~= buffer);
    }
}

/// A window whose text could not be asked for has no title but the code of the
/// failure, and one without text has an empty title.
pub proof fn title_is_missing_or_empty(
    query: TextLength,
    buffer: Seq<u16>,
    reply: TextLength,
    r: Result<String, HResult>,
)
    requires
        is_title(query, buffer, reply, r),
    ensures
        query.length == 0 && query.error != 0 ==> (r matches Err(code) && code == query.error),
        query.length == 0 && query.error == 0 ==> (r matches Ok(title) && title@.len() == 0),
        query.length > 0 && reply.length == 0 && reply.error != 0 ==> (r matches Err(code) && code
            == reply.error),
{
}

} // verus!
