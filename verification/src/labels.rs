//! Labels as callers write them: `key` or `key=value`, one per argument or
//! several in one text with commas between them.

use vstd::prelude::*;
use vstd::string::StringExecFns;
use vstd::string::StrSliceExecFns;
use crate::errors::{ErrorView, ReporterError};
use crate::models::{Label, LabelView};
use crate::text::{chars_of, find_from, first_index, join, lemma_first_index, lemma_first_index_is};

verus! {

/// The label that a text stands for: the key is what comes before the first
/// `=`, the value what comes after it. A text without `=` is a key alone.
pub open spec fn label_of(text: Seq<char>) -> LabelView {
    let at = first_index(text, '=');
    if at < text.len() {
        LabelView { key: text.take(at), value: Some(text.skip(at + 1)) }
    } else {
        LabelView { key: text, value: None }
    }
}

/// What is wrong with the `i`-th of the label texts, if anything: its key is
/// empty, or an earlier label has the same key. The result is the message of
/// the error.
pub open spec fn label_fault(texts: Seq<Seq<char>>, i: int) -> Option<Seq<char>> {
    let key = label_of(texts[i]).key;
    if key.len() == 0 {
        Some("Label key cannot be empty"@)
    } else if exists|j: int| 0 <= j < i && #[trigger] label_of(texts[j]).key == key {
        Some("Duplicate label key: "@ + key)
    } else {
        None
    }
}

/// The labels of a list are valid where no key is empty and no key occurs
/// twice.
pub open spec fn labels_valid(labels: Seq<LabelView>) -> bool {
    &&& forall|i: int| 0 <= i < labels.len() ==> (#[trigger] labels[i]).key.len() > 0
    &&& forall|i: int, j: int|
        0 <= i < j < labels.len() ==> (#[trigger] labels[i]).key != (#[trigger] labels[j]).key
}

/// The texts of a list of strings.
pub open spec fn texts_of(strings: Seq<String>) -> Seq<Seq<char>> {
    Seq::new(strings.len(), |i: int| strings[i]@)
}

/// The views of a list of labels.
pub open spec fn label_views(labels: Seq<Label>) -> Seq<LabelView> {
    Seq::new(labels.len(), |i: int| labels[i]@)
}

/// Whether `r` is what reading the label texts gives.
///
/// No texts give no labels. Texts without a fault give one label each, in
/// their order. Else the first text with a fault decides the error, which is
/// an invalid argument with the fault's message.
pub open spec fn labels_parsed(
    texts: Seq<Seq<char>>,
    r: Result<Option<Vec<Label>>, ReporterError>,
) -> bool {
    match r {
        Ok(None) => texts.len() == 0,
        Ok(Some(labels)) => {
            &&& texts.len() > 0
            &&& labels@.len() == texts.len()
            &&& forall|i: int|
                0 <= i < labels@.len() ==> (#[trigger] labels@[i])@ == label_of(texts[i])
            &&& forall|i: int| 0 <= i < texts.len() ==> label_fault(texts, i) is None
            &&& labels_valid(label_views(labels@))
        },
        Err(e) => exists|i: int|
            {
                &&& 0 <= i < texts.len()
                &&& forall|j: int| 0 <= j < i ==> label_fault(texts, j) is None
                &&& #[trigger] label_fault(texts, i) is Some
                &&& e@ == ErrorView::InvalidArgument(label_fault(texts, i)->0)
            },
    }
}

/// The pieces of `text` between the separators `sep` that are not empty, in
/// their order.
pub open spec fn tokens(text: Seq<char>, sep: char) -> Seq<Seq<char>>
    decreases text.len(),
    via tokens_decreases
{
    let at = first_index(text, sep);
    let head = if at == 0 {
        Seq::empty()
    } else {
        seq![text.take(at)]
    };
    if at >= text.len() {
        head
    } else {
        head + tokens(text.skip(at + 1), sep)
    }
}

#[via_fn]
proof fn tokens_decreases(text: Seq<char>, sep: char) {
    lemma_first_index(text, sep);
}

/// Cuts a text at the separators and keeps the pieces that are not empty.
pub fn split_tokens(text: &str, sep: char) -> (pieces: Vec<String>)
    ensures
        texts_of(pieces@) == tokens(text@, sep),
{
    let chars = chars_of(text);
    let n = chars.len();
    let mut pieces: Vec<String> = Vec::new();
    let mut start: usize = 0;
    let mut done = false;
    proof {
        assert(text@.skip(0) =~= text@);
        assert(texts_of(pieces@) + tokens(text@, sep) =~= tokens(text@, sep));
    }
    while !done
        invariant
            chars@ == text@,
            n == chars.len(),
            start <= n,
            !done ==> tokens(text@, sep) == texts_of(pieces@) + tokens(
                text@.skip(start as int),
                sep,
            ),
            done ==> tokens(text@, sep) == texts_of(pieces@),
        decreases n - start + (if done { 0int } else { 1int }),
    {
        let at = find_from(&chars, start, sep);
        let ghost rest = text@.skip(start as int);
        let ghost before = texts_of(pieces@);
        proof {
            lemma_first_index(rest, sep);
        }
        if at > start {
            let piece = text.substring_char(start, at);
            pieces.push(piece.to_owned());
            proof {
                assert(text@.subrange(start as int, at as int) =~= rest.take(at - start));
                assert(texts_of(pieces@) =~= before + seq![rest.take(at - start)]);
            }
        }
        if at >= n {
            done = true;
            proof {
                assert(texts_of(pieces@) =~= before + tokens(rest, sep));
            }
        } else {
            proof {
                assert(rest.skip(at - start + 1) =~= text@.skip(at + 1));
                assert(texts_of(pieces@) + tokens(text@.skip(at + 1), sep) =~= before + tokens(
                    rest,
                    sep,
                ));
            }
            start = at + 1;
        }
    }
    pieces
}

/// Reads one label from its text.
pub fn parse_label(text: &str) -> (label: Label)
    ensures
        label@ == label_of(text@),
{
    let chars = chars_of(text);
    let at = find_from(&chars, 0, '=');
    proof {
        assert(chars@.skip(0) =~= text@);
    }
    if at < chars.len() {
        let key = text.substring_char(0, at);
        let value = text.substring_char(at + 1, chars.len());
        proof {
            assert(text@.subrange(0, at as int) =~= text@.take(at as int));
            assert(text@.subrange(at + 1, text@.len() as int) =~= text@.skip(at + 1));
        }
        Label { key: key.to_owned(), value: Some(value.to_owned()) }
    } else {
        Label { key: text.to_owned(), value: None }
    }
}

/// Whether one of the labels has the given key.
fn has_key(labels: &Vec<Label>, key: &String) -> (found: bool)
    ensures
        found == exists|j: int| 0 <= j < labels.len() && (#[trigger] labels@[j]).key@ == key@,
{
    let mut j: usize = 0;
    while j < labels.len()
        invariant
            j <= labels.len(),
            forall|k: int| 0 <= k < j ==> (#[trigger] labels@[k]).key@ != key@,
        decreases labels.len() - j,
    {
        if labels[j].key == *key {
            return true;
        }
        j += 1;
    }
    false
}

/// Reads the labels of a session from their texts, one label per text.
///
/// No texts give no labels. A label with an empty key, and a label whose key
/// an earlier label has, is an invalid argument: the first such label decides
/// the error.
pub fn parse_labels(label_strings: Vec<String>) -> (r: Result<Option<Vec<Label>>, ReporterError>)
    ensures
        labels_parsed(texts_of(label_strings@), r),
{
    if label_strings.len() == 0 {
        return Ok(None);
    }
    let ghost texts = texts_of(label_strings@);
    let mut labels: Vec<Label> = Vec::new();
    let mut i: usize = 0;
    while i < label_strings.len()
        invariant
            i <= label_strings.len(),
            texts == texts_of(label_strings@),
            labels@.len() == i,
            forall|k: int| 0 <= k < i ==> (#[trigger] labels@[k])@ == label_of(label_strings@[k]@),
            forall|k: int| 0 <= k < i ==> label_fault(texts, k) is None,
        decreases label_strings.len() - i,
    {
        let label = parse_label(label_strings[i].as_str());
        proof {
            assert(texts[i as int] == label_strings@[i as int]@);
        }
        if label.key.as_str().is_empty() {
            proof {
                assert(label_fault(texts, i as int) == Some("Label key cannot be empty"@));
            }
            return Err(
                ReporterError::InvalidArgument(String::from_str("Label key cannot be empty")),
            );
        }
        let duplicate = has_key(&labels, &label.key);
        proof {
            let key = label_of(texts[i as int]).key;
            if duplicate {
                let j = choose|j: int| 0 <= j < labels.len() && (#[trigger] labels@[j]).key@ == key;
                assert(labels@[j]@ == label_of(label_strings@[j]@));
                assert(texts[j] == label_strings@[j]@);
                assert(label_of(texts[j]).key == key);
            } else {
                assert forall|j: int| 0 <= j < i implies #[trigger] label_of(texts[j]).key
                    != key by {
                    assert(labels@[j]@ == label_of(label_strings@[j]@));
                    assert(texts[j] == label_strings@[j]@);
                }
            }
        }
        if duplicate {
            return Err(
                ReporterError::InvalidArgument(join("Duplicate label key: ", label.key.as_str())),
            );
        }
        labels.push(label);
        i += 1;
    }
    proof {
        let views = label_views(labels@);
        assert forall|a: int| 0 <= a < views.len() implies (#[trigger] views[a]).key.len() > 0 by {
            assert(label_fault(texts, a) is None);
            assert(labels@[a]@ == label_of(label_strings@[a]@));
            assert(texts[a] == label_strings@[a]@);
        }
        assert forall|a: int, b: int| 0 <= a < b < views.len() implies (#[trigger] views[a]).key
            != (#[trigger] views[b]).key by {
            assert(label_fault(texts, b) is None);
            assert(labels@[a]@ == label_of(label_strings@[a]@));
            assert(labels@[b]@ == label_of(label_strings@[b]@));
            assert(texts[a] == label_strings@[a]@);
            assert(texts[b] == label_strings@[b]@);
            assert(label_of(texts[a]).key == views[a].key);
        }
    }
    Ok(Some(labels))
}

/// A label as a text: `key`, or `key=value`.
pub open spec fn label_text(label: LabelView) -> Seq<char> {
    match label.value {
        Some(value) => label.key + seq!['='] + value,
        None => label.key,
    }
}

/// The labels as one text, with a comma between one label and the next.
pub open spec fn labels_text(labels: Seq<LabelView>) -> Seq<char>
    decreases labels.len(),
{
    if labels.len() == 0 {
        Seq::empty()
    } else if labels.len() == 1 {
        label_text(labels[0])
    } else {
        labels_text(labels.drop_last()) + seq![','] + label_text(labels.last())
    }
}

/// Writes labels as one text, with a comma between one label and the next.
pub fn format_labels(labels: &Vec<Label>) -> (text: String)
    ensures
        text@ == labels_text(label_views(labels@)),
{
    let mut text = String::new();
    let mut i: usize = 0;
    proof {
        reveal_strlit("=");
        reveal_strlit(",");
        assert("="@ =~= seq!['=']);
        assert(","@ =~= seq![',']);
        assert(label_views(labels@).take(0) =~= Seq::<LabelView>::empty());
    }
    while i < labels.len()
        invariant
            i <= labels.len(),
            "="@ == seq!['='],
            ","@ == seq![','],
            text@ == labels_text(label_views(labels@).take(i as int)),
        decreases labels.len() - i,
    {
        let ghost so_far = label_views(labels@).take(i as int);
        let ghost next = label_views(labels@).take(i + 1);
        proof {
            assert(next.drop_last() =~= so_far);
            assert(next.last() == labels@[i as int]@);
        }
        if i > 0 {
            text.append(",");
        }
        text.append(labels[i].key.as_str());
        match &labels[i].value {
            Some(value) => {
                text.append("=");
                text.append(value.as_str());
            },
            None => {},
        }
        proof {
            if i == 0 {
                assert(text@ =~= label_text(labels@[i as int]@));
            } else {
                assert(text@ =~= labels_text(so_far) + seq![','] + label_text(labels@[i as int]@));
            }
        }
        i += 1;
    }
    proof {
        assert(label_views(labels@).take(labels@.len() as int) =~= label_views(labels@));
    }
    text
}

/// Labels can be written as one text and read again where no key holds a
/// comma or an equals sign and no value holds a comma.
pub open spec fn labels_writable(labels: Seq<LabelView>) -> bool {
    forall|i: int|
        0 <= i < labels.len() ==> {
            &&& !(#[trigger] labels[i]).key.contains(',')
            &&& !labels[i].key.contains('=')
            &&& labels[i].value matches Some(value) ==> !value.contains(',')
        }
}

/// The texts of the labels, one for each.
pub open spec fn label_texts(labels: Seq<LabelView>) -> Seq<Seq<char>> {
    Seq::new(labels.len(), |i: int| label_text(labels[i]))
}

/// The text of a label whose key holds no equals sign is read as that label.
pub proof fn lemma_label_round_trip(label: LabelView)
    requires
        !label.key.contains('='),
    ensures
        label_of(label_text(label)) == label,
{
    let text = label_text(label);
    assert forall|j: int| 0 <= j < label.key.len() implies text[j] != '=' by {
        assert(label.key.contains(text[j]));
    }
    lemma_first_index_is(text, '=', label.key.len() as int);
    match label.value {
        Some(value) => {
            assert(text.take(label.key.len() as int) =~= label.key);
            assert(text.skip(label.key.len() as int + 1) =~= value);
        },
        None => {},
    }
}

/// Labels written one after the other: the text of the first, a comma, and
/// the text of the rest.
proof fn lemma_labels_text_first(first: LabelView, rest: Seq<LabelView>)
    requires
        rest.len() > 0,
    ensures
        labels_text(seq![first] + rest) == label_text(first) + seq![','] + labels_text(rest),
    decreases rest.len(),
{
    let all = seq![first] + rest;
    assert(all.drop_last() =~= seq![first] + rest.drop_last());
    assert(all.last() == rest.last());
    if rest.len() == 1 {
        assert(all.drop_last() =~= seq![first]);
        assert(labels_text(all.drop_last()) == label_text(first));
        assert(labels_text(rest) == label_text(rest[0]));
    } else {
        lemma_labels_text_first(first, rest.drop_last());
        assert(labels_text(all) =~= label_text(first) + seq![','] + (labels_text(rest.drop_last())
            + seq![','] + label_text(rest.last())));
    }
}

/// A piece without a separator that stands before the first separator is the
/// first token, and the tokens of the rest follow it.
proof fn lemma_tokens_first(head: Seq<char>, sep: char, rest: Seq<char>)
    requires
        head.len() > 0,
        !head.contains(sep),
    ensures
        tokens(head, sep) == seq![head],
        tokens(head + seq![sep] + rest, sep) == seq![head] + tokens(rest, sep),
{
    assert forall|j: int| 0 <= j < head.len() implies head[j] != sep by {
        assert(head.contains(head[j]));
    }
    lemma_first_index_is(head, sep, head.len() as int);
    assert(head.take(head.len() as int) =~= head);
    let text = head + seq![sep] + rest;
    lemma_first_index_is(text, sep, head.len() as int);
    assert(text.take(head.len() as int) =~= head);
    assert(text.skip(head.len() as int + 1) =~= rest);
}

/// The text of writable labels with keys falls into the texts of the labels
/// again.
proof fn lemma_tokens_of_labels_text(labels: Seq<LabelView>)
    requires
        labels_writable(labels),
        forall|i: int| 0 <= i < labels.len() ==> (#[trigger] labels[i]).key.len() > 0,
    ensures
        tokens(labels_text(labels), ',') == label_texts(labels),
    decreases labels.len(),
{
    if labels.len() == 0 {
        assert(tokens(labels_text(labels), ',') =~= label_texts(labels));
    } else {
        let first = labels[0];
        let rest = labels.drop_first();
        let head = label_text(first);
        assert forall|c: char| head.contains(c) implies c != ',' by {
            let j = choose|j: int| 0 <= j < head.len() && head[j] == c;
            if j < first.key.len() {
                assert(first.key.contains(head[j]));
            } else {
                match first.value {
                    Some(value) => {
                        if j > first.key.len() {
                            assert(value.contains(head[j]));
                        }
                    },
                    None => {},
                }
            }
        }
        assert(labels =~= seq![first] + rest);
        if rest.len() == 0 {
            lemma_tokens_first(head, ',', Seq::empty());
            assert(labels_text(labels) == head);
            assert(label_texts(labels) =~= seq![head]);
        } else {
            assert forall|i: int| 0 <= i < rest.len() implies (#[trigger] rest[i]).key.len()
                > 0 by {
                assert(rest[i] == labels[i + 1]);
            }
            assert(labels_writable(rest)) by {
                assert forall|i: int| 0 <= i < rest.len() implies {
                    &&& !(#[trigger] rest[i]).key.contains(',')
                    &&& !rest[i].key.contains('=')
                    &&& rest[i].value matches Some(value) ==> !value.contains(',')
                } by {
                    assert(rest[i] == labels[i + 1]);
                }
            }
            lemma_tokens_of_labels_text(rest);
            lemma_labels_text_first(first, rest);
            lemma_tokens_first(head, ',', labels_text(rest));
            assert(label_texts(labels) =~= seq![head] + label_texts(rest));
        }
    }
}

/// Valid labels that are written as one text and read again are the same
/// labels, in the same order; no labels are read as none.
pub proof fn lemma_labels_round_trip(
    labels: Seq<LabelView>,
    r: Result<Option<Vec<Label>>, ReporterError>,
)
    requires
        labels_valid(labels),
        labels_writable(labels),
        labels_parsed(tokens(labels_text(labels), ','), r),
    ensures
        match r {
            Ok(None) => labels.len() == 0,
            Ok(Some(read)) => label_views(read@) == labels,
            Err(_) => false,
        },
{
    lemma_tokens_of_labels_text(labels);
    let texts = label_texts(labels);
    assert forall|i: int| 0 <= i < labels.len() implies label_of(#[trigger] texts[i])
        == labels[i] by {
        lemma_label_round_trip(labels[i]);
    }
    assert forall|i: int| 0 <= i < texts.len() implies label_fault(texts, i) is None by {
        assert(label_of(texts[i]) == labels[i]);
        assert forall|j: int| 0 <= j < i implies #[trigger] label_of(texts[j]).key != label_of(
            texts[i],
        ).key by {
            assert(label_of(texts[j]) == labels[j]);
        }
    }
    match r {
        Ok(Some(read)) => {
            assert(label_views(read@) =~= labels);
        },
        _ => {},
    }
}

/// Reads the labels of a session from one text in which commas stand between
/// the labels. Empty pieces between commas are passed over; the rest is read
/// as `parse_labels` reads its texts.
pub fn parse_label_list(text: &str) -> (r: Result<Option<Vec<Label>>, ReporterError>)
    ensures
        labels_parsed(tokens(text@, ','), r),
{
    parse_labels(split_tokens(text, ','))
}

} // verus!
