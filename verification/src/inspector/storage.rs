//! Storage entries and the filters that select which of them are shown.

use crate::error::DebuggerError;
use crate::text::texts;
use crate::ui::formatter::{spec_storage_entry, Formatter};
use vstd::prelude::*;
use vstd::string::*;

verus! {

/// `regex::Regex`, a compiled pattern. Verus sees nothing inside it.
#[verifier::external_type_specification]
#[verifier::external_body]
pub struct ExRegex(regex::Regex);

/// `regex::Error`, what a pattern that does not compile is refused with.
#[verifier::external_type_specification]
#[verifier::external_body]
pub struct ExRegexError(regex::Error);

/// The pattern text that a compiled regex was built from.
pub uninterp spec fn regex_source(re: regex::Regex) -> Seq<char>;

/// Whether a compiled regex finds a match anywhere in `haystack`.
pub uninterp spec fn regex_matches(re: regex::Regex, haystack: Seq<char>) -> bool;

/// `Regex::new` compiles the pattern or refuses it. Nothing is claimed of
/// which patterns compile; a regex that comes back keeps the text it was
/// built from.
pub assume_specification[ regex::Regex::new ](re: &str) -> (r: Result<regex::Regex, regex::Error>)
    ensures
        r matches Ok(compiled) ==> regex_source(compiled) == re@,
;

/// `Regex::as_str` returns the original string of the regex.
pub assume_specification[ regex::Regex::as_str ](re: &regex::Regex) -> (s: &str)
    ensures
        s@ == regex_source(*re),
;

/// `Regex::is_match` says whether there is a match anywhere in the
/// haystack; the answer is decided by the regex and the haystack alone.
pub assume_specification[ regex::Regex::is_match ](re: &regex::Regex, haystack: &str) -> (r: bool)
    ensures
        r == regex_matches(*re, haystack@),
;

/// A key/value pair read from a session's storage.
#[derive(Debug, Clone, PartialEq, Eq)]
pub struct StorageEntry {
    pub key: String,
    pub value: String,
}

/// A filter on storage keys, compiled once from its pattern.
#[derive(Debug)]
pub enum StorageFilter {
    /// Keys that start with the text.
    Prefix(String),
    /// Keys in which the regex finds a match.
    Regex(regex::Regex),
    /// The key that is the text.
    Exact(String),
}

/// What a pattern asks for.
pub enum PatternKind {
    /// A prefix filter on the text.
    Prefix(Seq<char>),
    /// A regex filter compiled from the text.
    Regex(Seq<char>),
    /// An exact filter on the text.
    Exact(Seq<char>),
}

/// The marker that ends a prefix pattern.
pub const PREFIX_MARKER: char = '*';

/// The text `re:` that starts a regex pattern.
pub open spec fn regex_marker() -> Seq<char> {
    seq!['r', 'e', ':']
}

/// What a pattern asks for: a pattern ending in `*` asks for a prefix filter
/// on what precedes the `*`; otherwise a pattern starting with `re:` asks
/// for a regex filter compiled from what follows; otherwise the pattern
/// asks for an exact filter on itself.
pub open spec fn classify(pattern: Seq<char>) -> PatternKind {
    if pattern.len() > 0 && pattern.last() == PREFIX_MARKER {
        PatternKind::Prefix(pattern.drop_last())
    } else if regex_marker().is_prefix_of(pattern) {
        PatternKind::Regex(pattern.skip(3))
    } else {
        PatternKind::Exact(pattern)
    }
}

/// Whether a list of filters lets `key` through: an empty list lets
/// everything through, any other list what at least one filter matches.
pub open spec fn any_matches(filters: Seq<StorageFilter>, key: Seq<char>) -> bool {
    filters.len() == 0 || exists|i: int|
        0 <= i < filters.len() && (#[trigger] filters[i]).spec_matches(key)
}

/// The entries of `entries` that `filters` let through, each as
/// `key = value`, in order.
pub open spec fn shown(entries: Seq<StorageEntry>, filters: Seq<StorageFilter>) -> Seq<Seq<char>> {
    entries.filter(|e: StorageEntry| any_matches(filters, e.key@)).map_values(
        |e: StorageEntry| spec_storage_entry(e.key@, e.value@),
    )
}

impl StorageFilter {
    /// The text the filter works with: the prefix, the source of the regex
    /// or the exact key.
    pub open spec fn spec_text(&self) -> Seq<char> {
        match self {
            StorageFilter::Prefix(p) => p@,
            StorageFilter::Regex(re) => regex_source(*re),
            StorageFilter::Exact(k) => k@,
        }
    }

    /// Whether the filter lets `key` through.
    pub open spec fn spec_matches(&self, key: Seq<char>) -> bool {
        match self {
            StorageFilter::Prefix(p) => p@.is_prefix_of(key),
            StorageFilter::Regex(re) => regex_matches(*re, key),
            StorageFilter::Exact(k) => key == k@,
        }
    }

    /// The filter is what `kind` asks for.
    pub open spec fn answers(&self, kind: PatternKind) -> bool {
        match kind {
            PatternKind::Prefix(p) => *self matches StorageFilter::Prefix(s) && s@ == p,
            PatternKind::Regex(source) => *self matches StorageFilter::Regex(re) && regex_source(
                re,
            ) == source,
            PatternKind::Exact(k) => *self matches StorageFilter::Exact(s) && s@ == k,
        }
    }

    /// Builds the filter that `pattern` asks for. A prefix or an exact
    /// pattern always gives its filter. A regex pattern gives the filter
    /// with the regex compiled from its text, or, where that text does not
    /// compile, is refused at once with `InvalidPattern`, carrying the
    /// whole pattern.
    pub fn new(pattern: &str) -> (r: Result<StorageFilter, DebuggerError>)
        ensures
            r matches Ok(f) ==> f.answers(classify(pattern@)),
            r matches Err(e) ==> classify(pattern@) is Regex && (e matches DebuggerError::InvalidPattern(
                p,
            ) && p@ == pattern@),
    {
        let n = pattern.unicode_len();
        if n > 0 && pattern.get_char(n - 1) == PREFIX_MARKER {
            return Ok(StorageFilter::Prefix(pattern.substring_char(0, n - 1).to_owned()));
        }
        if n >= 3 && pattern.get_char(0) == 'r' && pattern.get_char(1) == 'e' && pattern.get_char(2)
            == ':' {
            return StorageFilter::from_compiled(
                regex::Regex::new(pattern.substring_char(3, n)),
                pattern,
            );
        }
        Ok(StorageFilter::Exact(pattern.to_owned()))
    }

    /// Turns the outcome of compiling the regex part of `pattern` into the
    /// filter or the error: a compiled regex becomes a regex filter, a
    /// refusal becomes `InvalidPattern` carrying the whole pattern.
    pub fn from_compiled(compiled: Result<regex::Regex, regex::Error>, pattern: &str) -> (r: Result<
        StorageFilter,
        DebuggerError,
    >)
        ensures
            compiled matches Ok(re) ==> r == Ok::<StorageFilter, DebuggerError>(
                StorageFilter::Regex(re),
            ),
            compiled is Err ==> (r matches Err(DebuggerError::InvalidPattern(p)) && p@
                == pattern@),
    {
        match compiled {
            Ok(re) => Ok(StorageFilter::Regex(re)),
            Err(_) => Err(DebuggerError::InvalidPattern(pattern.to_owned())),
        }
    }

    /// The text the filter works with: the prefix, the source of the regex
    /// or the exact key.
    pub fn text(&self) -> (r: String)
        ensures
            r@ == self.spec_text(),
    {
        match self {
            StorageFilter::Prefix(p) => p.clone(),
            StorageFilter::Regex(re) => re.as_str().to_owned(),
            StorageFilter::Exact(k) => k.clone(),
        }
    }

    /// Whether the filter lets `key` through.
    pub fn matches(&self, key: &str) -> (r: bool)
        ensures
            r == self.spec_matches(key@),
    {
        match self {
            StorageFilter::Prefix(p) => {
                let n = p.as_str().unicode_len();
                if key.unicode_len() < n {
                    false
                } else {
                    key.substring_char(0, n).to_owned() == *p
                }
            },
            StorageFilter::Regex(re) => re.is_match(key),
            StorageFilter::Exact(k) => key.to_owned() == *k,
        }
    }
}

/// Reads a session's storage through a list of filters.
pub struct StorageInspector;

impl StorageInspector {
    /// Whether `filters` let `key` through: an empty list lets every key
    /// through, any other list the keys that at least one filter matches.
    pub fn matches_any(filters: &Vec<StorageFilter>, key: &str) -> (r: bool)
        ensures
            r == any_matches(filters@, key@),
            filters@.len() == 0 ==> r,
    {
        if filters.len() == 0 {
            return true;
        }
        let mut i: usize = 0;
        while i < filters.len()
            invariant
                i <= filters@.len(),
                forall|j: int| 0 <= j < i ==> !(#[trigger] filters@[j]).spec_matches(key@),
            decreases filters@.len() - i,
        {
            if filters[i].matches(key) {
                return true;
            }
            i = i + 1;
        }
        false
    }

    /// The entries that `filters` let through, each formatted as
    /// `key = value`, in the order of `entries`.
    pub fn filter_entries(entries: &Vec<StorageEntry>, filters: &Vec<StorageFilter>) -> (out: Vec<
        String,
    >)
        ensures
            texts(out@) == shown(entries@, filters@),
    {
        let mut out: Vec<String> = Vec::new();
        let ghost keep = |e: StorageEntry| any_matches(filters@, e.key@);
        let ghost line = |e: StorageEntry| spec_storage_entry(e.key@, e.value@);
        let mut i: usize = 0;
        while i < entries.len()
            invariant
                i <= entries@.len(),
                keep == |e: StorageEntry| any_matches(filters@, e.key@),
                line == |e: StorageEntry| spec_storage_entry(e.key@, e.value@),
                texts(out@) == entries@.take(i as int).filter(keep).map_values(line),
            decreases entries@.len() - i,
        {
            let entry = &entries[i];
            proof {
                reveal(Seq::filter);
                assert(entries@.take(i + 1).drop_last() =~= entries@.take(i as int));
            }
            let ghost before = out@;
            if StorageInspector::matches_any(filters, entry.key.as_str()) {
                let shown_line = Formatter::format_storage_entry(
                    entry.key.as_str(),
                    entry.value.as_str(),
                );
                out.push(shown_line);
                assert(texts(out@) =~= texts(before).push(line(*entry)));
            }
            i = i + 1;
        }
        proof {
            assert(entries@.take(entries@.len() as int) =~= entries@);
        }
        out
    }
}

} // verus!
