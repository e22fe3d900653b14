//! Hierarchical identifiers of the form `SECTOR-SYSTEM-WAYPOINT`.
//!
//! An identifier is written as up to three segments joined by dashes. The
//! segments after the first are optional, and a waypoint segment is only
//! present together with a system segment.

use vstd::prelude::*;
use vstd::string::*;

verus! {

/// The character that joins the segments of a written identifier.
pub const SEPARATOR: char = '-';

/// The segments of an identifier as mathematical sequences.
pub struct SymbolView {
    pub sector: Seq<char>,
    pub system: Option<Seq<char>>,
    pub waypoint: Option<Seq<char>>,
}

/// No character of `s` is the separator.
pub open spec fn dash_free(s: Seq<char>) -> bool {
    !s.contains(SEPARATOR)
}

/// The part of `text` before its first separator; all of it when it has none.
pub open spec fn head(text: Seq<char>) -> Seq<char> {
    match text.index_of_first(SEPARATOR) {
        Some(i) => text.take(i),
        None => text,
    }
}

/// The part of `text` after its first separator, if it has one.
pub open spec fn rest(text: Seq<char>) -> Option<Seq<char>> {
    match text.index_of_first(SEPARATOR) {
        Some(i) => Some(text.skip(i + 1)),
        None => None,
    }
}

/// The identifier that a written text stands for: its first three
/// dash-separated parts. Anything after a third separator is ignored.
pub open spec fn parse_spec(text: Seq<char>) -> SymbolView {
    SymbolView {
        sector: head(text),
        system: match rest(text) {
            Some(after_sector) => Some(head(after_sector)),
            None => None,
        },
        waypoint: match rest(text) {
            Some(after_sector) => match rest(after_sector) {
                Some(after_system) => Some(head(after_system)),
                None => None,
            },
            None => None,
        },
    }
}

impl SymbolView {
    /// Segments hold no separator, and a waypoint comes only with a system.
    pub open spec fn well_formed(self) -> bool {
        &&& dash_free(self.sector)
        &&& self.system matches Some(s) ==> dash_free(s)
        &&& self.waypoint matches Some(w) ==> dash_free(w)
        &&& self.waypoint is Some ==> self.system is Some
    }

    /// The written form: the segments that are present, joined by separators.
    pub open spec fn text(self) -> Seq<char> {
        self.sector + match self.system {
            Some(s) => seq![SEPARATOR] + s,
            None => Seq::empty(),
        } + match self.waypoint {
            Some(w) => seq![SEPARATOR] + w,
            None => Seq::empty(),
        }
    }
}

/// A separator at `i` with none before it is the first separator.
pub proof fn lemma_first_separator(text: Seq<char>, i: int)
    requires
        0 <= i < text.len(),
        text[i] == SEPARATOR,
        dash_free(text.take(i)),
    ensures
        text.index_of_first(SEPARATOR) == Some(i),
        head(text) == text.take(i),
        rest(text) == Some(text.skip(i + 1)),
{
    text.index_of_first_ensures(SEPARATOR);
    assert(text.contains(SEPARATOR));
    let j = text.index_of_first(SEPARATOR).unwrap();
    if j < i {
        assert(text.take(i)[j] == SEPARATOR);
    }
}

/// A text without separator is its own head and has no rest.
pub proof fn lemma_no_separator(text: Seq<char>)
    requires
        dash_free(text),
    ensures
        text.index_of_first(SEPARATOR) is None,
        head(text) == text,
        rest(text) is None,
{
    text.index_of_first_ensures(SEPARATOR);
}

/// The head of any text holds no separator.
pub proof fn lemma_head_dash_free(text: Seq<char>)
    ensures
        dash_free(head(text)),
{
    text.index_of_first_ensures(SEPARATOR);
    match text.index_of_first(SEPARATOR) {
        Some(i) => {
            let h = text.take(i);
            if h.contains(SEPARATOR) {
                let j = choose|j: int| 0 <= j < h.len() && h[j] == SEPARATOR;
                assert(text[j] == SEPARATOR);
            }
        },
        None => {},
    }
}

/// Whatever is read from a text is a well-formed identifier.
pub proof fn lemma_parse_well_formed(text: Seq<char>)
    ensures
        parse_spec(text).well_formed(),
{
    lemma_head_dash_free(text);
    if let Some(after_sector) = rest(text) {
        lemma_head_dash_free(after_sector);
        if let Some(after_system) = rest(after_sector) {
            lemma_head_dash_free(after_system);
        }
    }
}

/// Writing a well-formed identifier and reading the text back gives the
/// identifier again, segment for segment.
pub proof fn law_written_identifier_reads_back(id: SymbolView)
    requires
        id.well_formed(),
    ensures
        parse_spec(id.text()) == id,
{
    let text = id.text();
    match id.system {
        None => {
            assert(text =~= id.sector);
            lemma_no_separator(text);
        },
        Some(s) => {
            let n = id.sector.len() as int;
            let after_sector = text.skip(n + 1);
            assert(text.take(n) =~= id.sector);
            lemma_first_separator(text, n);
            match id.waypoint {
                None => {
                    assert(after_sector =~= s);
                    lemma_no_separator(after_sector);
                },
                Some(w) => {
                    let m = s.len() as int;
                    assert(after_sector =~= s + seq![SEPARATOR] + w);
                    assert(after_sector.take(m) =~= s);
                    lemma_first_separator(after_sector, m);
                    assert(after_sector.skip(m + 1) =~= w);
                    lemma_no_separator(w);
                },
            }
        },
    }
}

/// Reading a text with at most two separators and writing the identifier
/// gives the text again.
pub proof fn law_read_text_writes_back(text: Seq<char>)
    requires
        match rest(text) {
            Some(after_sector) => match rest(after_sector) {
                Some(after_system) => dash_free(after_system),
                None => true,
            },
            None => true,
        },
    ensures
        parse_spec(text).text() == text,
{
    text.index_of_first_ensures(SEPARATOR);
    match rest(text) {
        None => {
            assert(parse_spec(text).text() =~= text);
        },
        Some(after_sector) => {
            let i = text.index_of_first(SEPARATOR).unwrap();
            after_sector.index_of_first_ensures(SEPARATOR);
            assert(text =~= text.take(i) + seq![SEPARATOR] + after_sector);
            match rest(after_sector) {
                None => {
                    assert(parse_spec(text).text() =~= text);
                },
                Some(after_system) => {
                    let j = after_sector.index_of_first(SEPARATOR).unwrap();
                    lemma_no_separator(after_system);
                    assert(after_sector =~= after_sector.take(j) + seq![SEPARATOR] + after_system);
                    assert(parse_spec(text).text() =~= text);
                },
            }
        },
    }
}

/// A composite identifier: a sector, optionally a system within it, and
/// optionally a waypoint within that system.
#[derive(Debug)]
pub struct Symbol {
    sector: String,
    system: Option<String>,
    waypoint: Option<String>,
}

impl View for Symbol {
    type V = SymbolView;

    closed spec fn view(&self) -> SymbolView {
        SymbolView {
            sector: self.sector@,
            system: match self.system {
                Some(s) => Some(s@),
                None => None,
            },
            waypoint: match self.waypoint {
                Some(w) => Some(w@),
                None => None,
            },
        }
    }
}

/// Splits a text at its first separator.
fn split_first<'a>(text: &'a str) -> (parts: (&'a str, Option<&'a str>))
    ensures
        parts.0@ == head(text@),
        match parts.1 {
            Some(r) => rest(text@) == Some(r@),
            None => rest(text@) is None,
        },
{
    let len: usize = text.unicode_len();
    let mut cut: Option<usize> = None;
    let mut i: usize = 0;
    for c in it: text.chars()
        invariant
            it.seq() == text@,
            i == it.index(),
            len == text@.len(),
            match cut {
                Some(k) => k < i && text@[k as int] == SEPARATOR && dash_free(text@.take(k as int)),
                None => dash_free(text@.take(i as int)),
            },
    {
        if cut.is_none() && c == SEPARATOR {
            cut = Some(i);
        } else if cut.is_none() {
            proof {
                let before = text@.take(i as int);
                let upto = text@.take(i + 1);
                if upto.contains(SEPARATOR) {
                    let j = choose|j: int| 0 <= j < upto.len() && upto[j] == SEPARATOR;
                    if j < i {
                        assert(before[j] == SEPARATOR);
                    }
                }
            }
        }
        i = i + 1;
    }
    match cut {
        Some(k) => {
            proof {
                lemma_first_separator(text@, k as int);
            }
            (text.substring_char(0, k), Some(text.substring_char(k + 1, len)))
        },
        None => {
            proof {
                assert(text@.take(i as int) =~= text@);
                lemma_no_separator(text@);
            }
            (text, None)
        },
    }
}

impl Symbol {
    /// The invariant of every identifier value.
    #[verifier::type_invariant]
    spec fn inv(&self) -> bool {
        self@.well_formed()
    }

    /// Reads an identifier from its written form. Every text is accepted:
    /// the parts before the first three separators become the segments.
    pub fn parse(text: &str) -> (symbol: Symbol)
        ensures
            symbol@ == parse_spec(text@),
            symbol@.well_formed(),
    {
        proof {
            lemma_parse_well_formed(text@);
        }
        let (sector, after_sector) = split_first(text);
        match after_sector {
            None => Symbol { sector: String::from_str(sector), system: None, waypoint: None },
            Some(after_sector) => {
                let (system, after_system) = split_first(after_sector);
                match after_system {
                    None => Symbol {
                        sector: String::from_str(sector),
                        system: Some(String::from_str(system)),
                        waypoint: None,
                    },
                    Some(after_system) => {
                        let (waypoint, _) = split_first(after_system);
                        Symbol {
                            sector: String::from_str(sector),
                            system: Some(String::from_str(system)),
                            waypoint: Some(String::from_str(waypoint)),
                        }
                    },
                }
            },
        }
    }

    /// The written form of the identifier. Reading it back gives an equal
    /// identifier.
    pub fn to_string(&self) -> (text: String)
        ensures
            text@ == self@.text(),
            self@.well_formed(),
            parse_spec(text@) == self@,
    {
        proof {
            use_type_invariant(self);
            law_written_identifier_reads_back(self@);
        }
        let mut text = String::from_str(self.sector.as_str());
        if let Some(system) = &self.system {
            text.append("-");
            text.append(system.as_str());
        }
        if let Some(waypoint) = &self.waypoint {
            text.append("-");
            text.append(waypoint.as_str());
        }
        proof {
            reveal_strlit("-");
            assert("-"@ =~= seq![SEPARATOR]);
            assert(text@ =~= self@.text());
        }
        text
    }
}

/// Compares two optional segments.
fn same_segment(a: &Option<String>, b: &Option<String>) -> (same: bool)
    ensures
        same == match (*a, *b) {
            (Some(x), Some(y)) => x@ == y@,
            (None, None) => true,
            _ => false,
        },
{
    match (a, b) {
        (Some(x), Some(y)) => *x == *y,
        (None, None) => true,
        _ => false,
    }
}

impl PartialEq for Symbol {
    /// Two identifiers are equal when their segments are.
    fn eq(&self, other: &Symbol) -> (equal: bool) {
        self.sector == other.sector && same_segment(&self.system, &other.system) && same_segment(
            &self.waypoint,
            &other.waypoint,
        )
    }
}

impl vstd::std_specs::cmp::PartialEqSpecImpl for Symbol {
    open spec fn obeys_eq_spec() -> bool {
        true
    }

    open spec fn eq_spec(&self, other: &Symbol) -> bool {
        self@ == other@
    }
}

} // verus!
