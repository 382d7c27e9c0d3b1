//! A searchbar's state and its text-matching rules.
//!
//! The widget's host draws the input field and the search-type picker;
//! this module owns what can be stated exactly: the query state, and
//! what each search type deems a match. The selected search type is
//! tracked by index into the host's list of types, so selection needs no
//! aliased pointers.

use vstd::prelude::*;

verus! {

/// True when `tgt` occurs as a contiguous run of characters of `src`.
pub open spec fn contains_seq(src: Seq<char>, tgt: Seq<char>) -> bool {
    exists|i: int|
        0 <= i && i + tgt.len() <= src.len() && #[trigger] src.subrange(i, i + tgt.len()) == tgt
}

/// Relies on str::contains with a string pattern: true exactly when the
/// pattern occurs as a contiguous substring of the haystack.
#[verifier::external_body]
fn str_contains(src: &str, tgt: &str) -> (r: bool)
    ensures
        r == contains_seq(src@, tgt@),
{
    src.contains(tgt)
}

/// Relies on str's equality: true exactly when the two strings hold the
/// same characters.
#[verifier::external_body]
fn str_equal(src: &str, tgt: &str) -> (r: bool)
    ensures
        r == (src@ == tgt@),
{
    src == tgt
}

/// One way of matching a candidate string against the query. The host
/// offers a list of these and lets the user pick one.
pub trait SearchType {
    /// What this search deems a match.
    spec fn matches_spec(&self, src: Seq<char>, tgt: Seq<char>) -> bool;

    /// The name the picker shows for this search.
    spec fn name_spec(&self) -> Seq<char>;

    fn get_name(&self) -> (r: &str)
        ensures
            r@ == self.name_spec(),
    ;

    fn search_matches(&self, src: &str, tgt: &str) -> (r: bool)
        ensures
            r == self.matches_spec(src@, tgt@),
    ;

    /// Feed the latest query text to searches that precompute state.
    fn update(&mut self, new: &str);
}

/// Matches when the candidate contains the query as a substring.
#[derive(Debug)]
pub struct SearchContaining;

impl SearchType for SearchContaining {
    open spec fn matches_spec(&self, src: Seq<char>, tgt: Seq<char>) -> bool {
        contains_seq(src, tgt)
    }

    open spec fn name_spec(&self) -> Seq<char> {
        "Contains"@
    }

    fn get_name(&self) -> (r: &str) {
        "Contains"
    }

    fn search_matches(&self, src: &str, tgt: &str) -> (r: bool) {
        str_contains(src, tgt)
    }

    fn update(&mut self, new: &str) {
    }
}

impl SearchContaining {
    pub fn new() -> (s: Self) {
        Self
    }
}

/// Matches only when the candidate equals the query exactly.
#[derive(Debug)]
pub struct SearchWholeWord;

impl SearchType for SearchWholeWord {
    open spec fn matches_spec(&self, src: Seq<char>, tgt: Seq<char>) -> bool {
        src == tgt
    }

    open spec fn name_spec(&self) -> Seq<char> {
        "Whole Word"@
    }

    fn get_name(&self) -> (r: &str) {
        "Whole Word"
    }

    fn search_matches(&self, src: &str, tgt: &str) -> (r: bool) {
        str_equal(src, tgt)
    }

    fn update(&mut self, new: &str) {
    }
}

impl SearchWholeWord {
    pub fn new() -> (s: Self) {
        Self
    }
}

/// The searchbar widget's state: the query buffer, the label beside the
/// field, and which of the host's search types is selected.
#[derive(Debug)]
pub struct Searchbar {
    pub buf: String,
    pub label: String,
    pub show_label: bool,
    pub type_selected: usize,
}

impl Searchbar {
    /// A searchbar with an empty query and the first search type
    /// selected.
    pub fn new(label: String, show_label: bool) -> (s: Self)
        ensures
            s.buf@ == Seq::<char>::empty(),
            s.label == label,
            s.show_label == show_label,
            s.type_selected == 0,
    {
        Self { buf: String::new(), label, show_label, type_selected: 0 }
    }

    /// Select the search type at `index` in the host's list.
    pub fn select_type(&mut self, index: usize)
        ensures
            final(self).type_selected == index,
            final(self).buf == old(self).buf,
            final(self).label == old(self).label,
            final(self).show_label == old(self).show_label,
    {
        self.type_selected = index;
    }

    /// Replace the query buffer with the text the host read back.
    pub fn set_query(&mut self, buf: String)
        ensures
            final(self).buf == buf,
            final(self).label == old(self).label,
            final(self).show_label == old(self).show_label,
            final(self).type_selected == old(self).type_selected,
    {
        self.buf = buf;
    }

    /// The current query text.
    pub fn get_query(&self) -> (r: &String)
        ensures
            r == self.buf,
    {
        &self.buf
    }
}

} // verus!
