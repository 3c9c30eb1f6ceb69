//! Annotations that a field carries in its documentation, one to a line, in
//! the form `#[key(value)]`.

use vstd::prelude::*;
use vstd::string::*;
use crate::error::{GenError, GenErrorView};
use crate::names::same_text;

verus! {

/// Whether a field method hands out a reference or a value.
#[derive(Debug, PartialEq, Eq, Structural, Clone, Copy)]
pub enum Ownership {
    Borrowed,
    Owned,
}

/// One annotation.
#[derive(Debug, PartialEq, Eq, Structural, Clone, Copy)]
pub enum Attribute {
    Ownership(Ownership),
}

/// The annotations of one field, in the order of their lines.
#[derive(Debug, PartialEq, Eq)]
pub struct Attributes {
    pub list: Vec<Attribute>,
}

impl View for Attributes {
    type V = Seq<Attribute>;

    open spec fn view(&self) -> Seq<Attribute> {
        self.list@
    }
}

/// The ownership that a list of annotations asks for: that of the first,
/// borrowed where there is none.
pub open spec fn ownership_of(attributes: Seq<Attribute>) -> Ownership {
    if attributes.len() == 0 {
        Ownership::Borrowed
    } else {
        match attributes[0] {
            Attribute::Ownership(ownership) => ownership,
        }
    }
}

impl Default for Attributes {
    fn default() -> (attributes: Attributes)
        ensures
            attributes@ == Seq::<Attribute>::empty(),
    {
        Attributes { list: Vec::new() }
    }
}

impl Attributes {
    /// The ownership asked for, borrowed unless an annotation says otherwise.
    pub fn ownership(&self) -> (ownership: Ownership)
        ensures
            ownership == ownership_of(self@),
    {
        if self.list.len() == 0 {
            Ownership::Borrowed
        } else {
            match self.list[0] {
                Attribute::Ownership(ownership) => ownership,
            }
        }
    }
}

/// What a search for a pattern in a text found.
#[derive(Debug, PartialEq, Eq)]
pub enum PatternMatch {
    /// The pattern is no regular expression.
    Invalid,
    /// The pattern occurs nowhere in the text.
    NoMatch,
    /// The groups of the leftmost occurrence, the whole occurrence first; a
    /// group that took no part in it is `None`.
    Groups(Vec<Option<String>>),
}

/// The mathematical model of a [`PatternMatch`].
pub ghost enum PatternMatchView {
    Invalid,
    NoMatch,
    Groups(Seq<Option<Seq<char>>>),
}

impl DeepView for PatternMatch {
    type V = PatternMatchView;

    open spec fn deep_view(&self) -> PatternMatchView {
        match *self {
            PatternMatch::Invalid => PatternMatchView::Invalid,
            PatternMatch::NoMatch => PatternMatchView::NoMatch,
            PatternMatch::Groups(groups) => PatternMatchView::Groups(groups.deep_view()),
        }
    }
}

/// What the `regex` crate finds when it searches a text for a pattern.
pub uninterp spec fn regex_captures(pattern: Seq<char>, text: Seq<char>) -> PatternMatchView;

/// The lines of a text, as `str::lines` splits it.
pub uninterp spec fn text_lines(text: Seq<char>) -> Seq<Seq<char>>;

/// Compiles the pattern with `regex::Regex::new` and searches the text with
/// `Regex::captures`. The outcome depends on the pattern and the text alone;
/// nothing more is claimed of it.
#[verifier::external_body]
fn captures(pattern: &str, text: &str) -> (found: PatternMatch)
    ensures
        found.deep_view() == regex_captures(pattern@, text@),
{
    match regex::Regex::new(pattern) {
        Err(_) => PatternMatch::Invalid,
        Ok(re) => match re.captures(text) {
            None => PatternMatch::NoMatch,
            Some(caps) => PatternMatch::Groups(
                caps.iter().map(|group| group.map(|m| m.as_str().to_string())).collect(),
            ),
        },
    }
}

/// Splits a text with `str::lines`. The lines depend on the text alone;
/// nothing more is claimed of them.
#[verifier::external_body]
fn lines(text: &str) -> (split: Vec<String>)
    ensures
        split.deep_view() == text_lines(text@),
{
    text.lines().map(|line| line.to_string()).collect()
}

/// The pattern of an annotation: after any white space, `#[`, a key of word
/// characters, and in round brackets a value of word characters, then `]`.
pub const ATTRIBUTE_PATTERN: &'static str = "\\s*#\\[(?P<key>\\w+)\\((?P<value>\\w+)\\)\\]";

/// The annotation that a key and a value stand for.
pub open spec fn attribute_of(key: Seq<char>, value: Seq<char>) -> Result<
    Attribute,
    GenErrorView,
> {
    if key == "ownership"@ {
        if value == "borrowed"@ {
            Ok(Attribute::Ownership(Ownership::Borrowed))
        } else if value == "owned"@ {
            Ok(Attribute::Ownership(Ownership::Owned))
        } else {
            Err(GenErrorView::UnsupportedAttributeValue { key, value })
        }
    } else {
        Err(GenErrorView::UnsupportedAttributeKey(key))
    }
}

/// The annotation that a search result stands for: none where the pattern
/// does not occur or a group is missing, else that of the first group as key
/// and the second as value.
pub open spec fn attribute_of_match(found: PatternMatchView) -> Result<
    Option<Attribute>,
    GenErrorView,
> {
    match found {
        PatternMatchView::Invalid => Err(GenErrorView::AttributePattern),
        PatternMatchView::NoMatch => Ok(None),
        PatternMatchView::Groups(groups) => if groups.len() >= 3 && groups[1] is Some
            && groups[2] is Some {
            match attribute_of(groups[1]->0, groups[2]->0) {
                Ok(attribute) => Ok(Some(attribute)),
                Err(error) => Err(error),
            }
        } else {
            Ok(None)
        },
    }
}

/// The annotation on one line.
pub open spec fn line_attribute(line: Seq<char>) -> Result<Option<Attribute>, GenErrorView> {
    attribute_of_match(regex_captures(ATTRIBUTE_PATTERN@, line))
}

/// The annotations on a sequence of lines, in order; the error of the first
/// line whose annotation is not known.
pub open spec fn lines_attributes(lines: Seq<Seq<char>>) -> Result<Seq<Attribute>, GenErrorView>
    decreases lines.len(),
{
    if lines.len() == 0 {
        Ok(Seq::empty())
    } else {
        match lines_attributes(lines.drop_last()) {
            Err(error) => Err(error),
            Ok(attributes) => match line_attribute(lines.last()) {
                Err(error) => Err(error),
                Ok(None) => Ok(attributes),
                Ok(Some(attribute)) => Ok(attributes.push(attribute)),
            },
        }
    }
}

/// The annotations in a documentation text.
pub open spec fn text_attributes(text: Seq<char>) -> Result<Seq<Attribute>, GenErrorView> {
    lines_attributes(text_lines(text))
}

/// The model of a result that holds annotations.
pub open spec fn attributes_view(r: Result<Attributes, GenError>) -> Result<
    Seq<Attribute>,
    GenErrorView,
> {
    match r {
        Ok(attributes) => Ok(attributes@),
        Err(error) => Err(error.deep_view()),
    }
}

/// The model of a result that may hold one annotation.
pub open spec fn attribute_view(r: Result<Option<Attribute>, GenError>) -> Result<
    Option<Attribute>,
    GenErrorView,
> {
    match r {
        Ok(attribute) => Ok(attribute),
        Err(error) => Err(error.deep_view()),
    }
}

/// Reads the annotation that a key and a value stand for.
pub fn attribute_from_key_value(key: &str, value: &str) -> (r: Result<Attribute, GenError>)
    ensures
        match r {
            Ok(attribute) => attribute_of(key@, value@) == Ok::<_, GenErrorView>(attribute),
            Err(error) => attribute_of(key@, value@) == Err::<Attribute, _>(error.deep_view()),
        },
{
    if same_text(key, "ownership") {
        if same_text(value, "borrowed") {
            Ok(Attribute::Ownership(Ownership::Borrowed))
        } else if same_text(value, "owned") {
            Ok(Attribute::Ownership(Ownership::Owned))
        } else {
            Err(
                GenError::UnsupportedAttributeValue {
                    key: String::from_str(key),
                    value: String::from_str(value),
                },
            )
        }
    } else {
        Err(GenError::UnsupportedAttributeKey(String::from_str(key)))
    }
}

/// Reads the annotation that the result of a search stands for.
pub fn attribute_from_match(found: &PatternMatch) -> (r: Result<Option<Attribute>, GenError>)
    ensures
        attribute_view(r) == attribute_of_match(found.deep_view()),
{
    match found {
        PatternMatch::Invalid => Err(GenError::AttributePattern),
        PatternMatch::NoMatch => Ok(None),
        PatternMatch::Groups(groups) => {
            if groups.len() < 3 {
                return Ok(None);
            }
            match (&groups[1], &groups[2]) {
                (Some(key), Some(value)) => {
                    match attribute_from_key_value(key.as_str(), value.as_str()) {
                        Ok(attribute) => Ok(Some(attribute)),
                        Err(error) => Err(error),
                    }
                },
                _ => Ok(None),
            }
        },
    }
}

/// Reads the annotation on one line, if the line holds one.
pub fn parse_attributes_line(line: &str) -> (r: Result<Option<Attribute>, GenError>)
    ensures
        attribute_view(r) == line_attribute(line@),
{
    let found = captures(ATTRIBUTE_PATTERN, line);
    attribute_from_match(&found)
}

/// Reads the annotations on the given lines.
pub fn parse_attribute_lines(lines: &Vec<String>) -> (r: Result<Attributes, GenError>)
    ensures
        attributes_view(r) == lines_attributes(lines.deep_view()),
{
    let mut list: Vec<Attribute> = Vec::new();
    let ghost all = lines.deep_view();
    let mut i: usize = 0;
    assert(all.take(0).len() == 0);
    while i < lines.len()
        invariant
            i <= lines.len(),
            all == lines.deep_view(),
            lines_attributes(all.take(i as int)) == Ok::<_, GenErrorView>(list@),
        decreases lines.len() - i,
    {
        let parsed = parse_attributes_line(lines[i].as_str());
        proof {
            assert(all.take(i as int + 1).drop_last() == all.take(i as int));
            assert(all.take(i as int + 1).last() == lines@[i as int]@);
        }
        match parsed {
            Err(error) => {
                proof {
                    lemma_lines_attributes_error(all, i as int + 1);
                }
                return Err(error);
            },
            Ok(None) => {},
            Ok(Some(attribute)) => {
                list.push(attribute);
            },
        }
        i += 1;
    }
    assert(all.take(i as int) == all);
    Ok(Attributes { list })
}

/// Reads the annotations in the documentation of a field.
pub fn parse_attributes(desc: &str) -> (r: Result<Attributes, GenError>)
    ensures
        attributes_view(r) == text_attributes(desc@),
{
    let split = lines(desc);
    parse_attribute_lines(&split)
}

/// An unknown annotation among the first `n` lines fails the whole text, with
/// the same error.
pub proof fn lemma_lines_attributes_error(lines: Seq<Seq<char>>, n: int)
    requires
        0 <= n <= lines.len(),
        lines_attributes(lines.take(n)) is Err,
    ensures
        lines_attributes(lines) == lines_attributes(lines.take(n)),
    decreases lines.len() - n,
{
    if n < lines.len() {
        assert(lines.take(n + 1).drop_last() == lines.take(n));
        lemma_lines_attributes_error(lines, n + 1);
    } else {
        assert(lines.take(n) == lines);
    }
}

/// A text in which no line holds an annotation has no annotations, and so
/// asks for a borrowed value.
pub proof fn law_no_annotation_is_borrowed(lines: Seq<Seq<char>>)
    requires
        forall|i: int|
            0 <= i < lines.len() ==> line_attribute(#[trigger] lines[i]) == Ok::<_, GenErrorView>(
                None::<Attribute>,
            ),
    ensures
        lines_attributes(lines) == Ok::<_, GenErrorView>(Seq::<Attribute>::empty()),
        ownership_of(lines_attributes(lines)->Ok_0) == Ownership::Borrowed,
    decreases lines.len(),
{
    if lines.len() > 0 {
        assert forall|i: int| 0 <= i < lines.drop_last().len() implies line_attribute(
            #[trigger] lines.drop_last()[i],
        ) == Ok::<_, GenErrorView>(None::<Attribute>) by {
            assert(lines.drop_last()[i] == lines[i]);
        }
        law_no_annotation_is_borrowed(lines.drop_last());
        assert(lines.last() == lines[lines.len() - 1]);
    }
}

/// An annotation on one line is the annotation of the text, whatever lines
/// without annotations stand before and after it. So a line that asks for an
/// owned value makes the field owned, among any prose.
pub proof fn law_annotation_among_prose(lines: Seq<Seq<char>>, at: int, attribute: Attribute)
    requires
        0 <= at < lines.len(),
        line_attribute(lines[at]) == Ok::<_, GenErrorView>(Some(attribute)),
        forall|i: int|
            0 <= i < lines.len() && i != at ==> line_attribute(#[trigger] lines[i]) == Ok::<
                _,
                GenErrorView,
            >(None::<Attribute>),
    ensures
        lines_attributes(lines) == Ok::<_, GenErrorView>(seq![attribute]),
        ownership_of(lines_attributes(lines)->Ok_0) == attribute->Ownership_0,
    decreases lines.len(),
{
    let before = lines.drop_last();
    assert forall|i: int| 0 <= i < before.len() implies before[i] == lines[i] by {}
    if at == lines.len() - 1 {
        assert forall|i: int| 0 <= i < before.len() implies line_attribute(#[trigger] before[i])
            == Ok::<_, GenErrorView>(None::<Attribute>) by {
            assert(before[i] == lines[i]);
        }
        law_no_annotation_is_borrowed(before);
        assert(lines.last() == lines[at]);
        assert(Seq::<Attribute>::empty().push(attribute) =~= seq![attribute]);
    } else {
        assert(before[at] == lines[at]);
        assert forall|i: int| 0 <= i < before.len() && i != at implies line_attribute(
            #[trigger] before[i],
        ) == Ok::<_, GenErrorView>(None::<Attribute>) by {
            assert(before[i] == lines[i]);
        }
        law_annotation_among_prose(before, at, attribute);
        assert(lines.last() == lines[lines.len() - 1]);
    }
}

/// A line whose annotation is not known fails the text, whatever the other
/// lines hold.
pub proof fn law_unknown_annotation_fails(lines: Seq<Seq<char>>, at: int)
    requires
        0 <= at < lines.len(),
        line_attribute(lines[at]) is Err,
    ensures
        lines_attributes(lines) is Err,
    decreases lines.len(),
{
    if at == lines.len() - 1 {
        assert(lines.last() == lines[at]);
    } else {
        assert(lines.drop_last()[at] == lines[at]);
        law_unknown_annotation_fails(lines.drop_last(), at);
    }
}

/// What the key `ownership` stands for: with the value `owned` an owned
/// value, with `borrowed` a borrowed one, and with any other value nothing:
/// that value is refused, as is any other key.
pub proof fn law_ownership_values(key: Seq<char>, value: Seq<char>)
    ensures
        attribute_of("ownership"@, "owned"@) == Ok::<_, GenErrorView>(
            Attribute::Ownership(Ownership::Owned),
        ),
        attribute_of("ownership"@, "borrowed"@) == Ok::<_, GenErrorView>(
            Attribute::Ownership(Ownership::Borrowed),
        ),
        value != "owned"@ && value != "borrowed"@ ==> attribute_of("ownership"@, value) == Err::<
            Attribute,
            _,
        >(GenErrorView::UnsupportedAttributeValue { key: "ownership"@, value }),
        key != "ownership"@ ==> attribute_of(key, value) == Err::<Attribute, _>(
            GenErrorView::UnsupportedAttributeKey(key),
        ),
{
    reveal_strlit("owned");
    reveal_strlit("borrowed");
    assert("owned"@.len() == 5);
    assert("borrowed"@.len() == 8);
}

} // verus!
