//! Template instantiation: substitution of `#name` placeholders in a text.
//!
//! A placeholder is the character `#` followed by the longest run of word
//! characters (ASCII letters, digits and `_`). Where that run is the name of
//! a binding, the placeholder stands for the bound value; any other `#` and
//! the run that follows it are text like the rest.

use vstd::prelude::*;

verus! {

/// Whether `c` may stand in a placeholder's name.
pub open spec fn is_word(c: char) -> bool {
    ('a' <= c && c <= 'z') || ('A' <= c && c <= 'Z') || ('0' <= c && c <= '9') || c == '_'
}

/// The end of the run of word characters that starts at `from`.
pub open spec fn word_end(text: Seq<char>, from: int) -> int
    decreases text.len() - from,
{
    if 0 <= from < text.len() && is_word(text[from]) {
        word_end(text, from + 1)
    } else {
        from
    }
}

/// The value of the first binding at or after position `k` that is named `name`.
pub open spec fn bound_from(bindings: Seq<(Seq<char>, Seq<char>)>, name: Seq<char>, k: int) -> Option<
    Seq<char>,
>
    decreases bindings.len() - k,
{
    if 0 <= k < bindings.len() {
        if bindings[k].0 == name {
            Some(bindings[k].1)
        } else {
            bound_from(bindings, name, k + 1)
        }
    } else {
        None
    }
}

/// The value bound to `name`: that of the first binding so named.
pub open spec fn bound(bindings: Seq<(Seq<char>, Seq<char>)>, name: Seq<char>) -> Option<
    Seq<char>,
> {
    bound_from(bindings, name, 0)
}

/// The instantiation of the part of `text` that starts at `from`.
pub open spec fn instantiation_from(
    text: Seq<char>,
    bindings: Seq<(Seq<char>, Seq<char>)>,
    from: int,
) -> Seq<char>
    decreases text.len() - from,
{
    if 0 <= from < text.len() {
        if text[from] == '#' {
            let end = word_end(text, from + 1);
            proof {
                lemma_word_end(text, from + 1);
            }
            let rest = instantiation_from(text, bindings, end);
            match bound(bindings, text.subrange(from + 1, end)) {
                Some(value) => value + rest,
                None => text.subrange(from, end) + rest,
            }
        } else {
            seq![text[from]] + instantiation_from(text, bindings, from + 1)
        }
    } else {
        Seq::empty()
    }
}

/// The text that `text` stands for under `bindings`: every placeholder whose
/// name is bound is replaced by the bound value, and all else is kept.
pub open spec fn instantiation(text: Seq<char>, bindings: Seq<(Seq<char>, Seq<char>)>) -> Seq<
    char,
> {
    instantiation_from(text, bindings, 0)
}

/// The names and values of `bindings` as sequences of characters.
pub open spec fn bindings_view(bindings: Seq<(&str, &str)>) -> Seq<(Seq<char>, Seq<char>)> {
    bindings.map_values(|b: (&str, &str)| (b.0@, b.1@))
}

/// A run of word characters ends within the text, at or after its start.
pub proof fn lemma_word_end(text: Seq<char>, from: int)
    requires
        0 <= from <= text.len(),
    ensures
        from <= word_end(text, from) <= text.len(),
        forall|i: int| from <= i < word_end(text, from) ==> is_word(#[trigger] text[i]),
        word_end(text, from) < text.len() ==> !is_word(text[word_end(text, from)]),
    decreases text.len() - from,
{
    if from < text.len() && is_word(text[from]) {
        lemma_word_end(text, from + 1);
    }
}

/// Whether every `#` of `text` from `from` on starts a placeholder that
/// `bindings` binds.
pub open spec fn closed_from(text: Seq<char>, bindings: Seq<(Seq<char>, Seq<char>)>, from: int) -> bool
    decreases text.len() - from,
{
    if 0 <= from < text.len() {
        if text[from] == '#' {
            let end = word_end(text, from + 1);
            proof {
                lemma_word_end(text, from + 1);
            }
            bound(bindings, text.subrange(from + 1, end)).is_some() && closed_from(
                text,
                bindings,
                end,
            )
        } else {
            closed_from(text, bindings, from + 1)
        }
    } else {
        true
    }
}

/// Whether no character of `text` is `#`.
pub open spec fn plain_text(text: Seq<char>) -> bool {
    forall|i: int| 0 <= i < text.len() ==> #[trigger] text[i] != '#'
}

/// Whether no bound value holds a `#`.
pub open spec fn plain_values(bindings: Seq<(Seq<char>, Seq<char>)>) -> bool {
    forall|k: int| 0 <= k < bindings.len() ==> plain_text((#[trigger] bindings[k]).1)
}

/// A bound value is the value of one of the bindings.
proof fn lemma_bound_is_a_value(bindings: Seq<(Seq<char>, Seq<char>)>, name: Seq<char>, k: int)
    requires
        0 <= k,
        bound_from(bindings, name, k).is_some(),
    ensures
        exists|j: int|
            k <= j < bindings.len() && (#[trigger] bindings[j]).0 == name && bindings[j].1
                == bound_from(bindings, name, k)->0,
    decreases bindings.len() - k,
{
    if bindings[k].0 != name {
        lemma_bound_is_a_value(bindings, name, k + 1);
    }
}

proof fn lemma_plain_from(text: Seq<char>, bindings: Seq<(Seq<char>, Seq<char>)>, from: int)
    requires
        0 <= from,
        plain_text(text),
    ensures
        instantiation_from(text, bindings, from) == if from <= text.len() {
            text.subrange(from, text.len() as int)
        } else {
            Seq::empty()
        },
    decreases text.len() - from,
{
    if from < text.len() {
        lemma_plain_from(text, bindings, from + 1);
        assert(text[from] != '#');
        assert(seq![text[from]] + text.subrange(from + 1, text.len() as int) =~= text.subrange(
            from,
            text.len() as int,
        ));
    } else if from == text.len() {
        assert(text.subrange(from, text.len() as int) =~= Seq::<char>::empty());
    }
}

/// A text without `#` stands for itself, whatever the bindings.
pub proof fn lemma_plain_text_is_kept(text: Seq<char>, bindings: Seq<(Seq<char>, Seq<char>)>)
    requires
        plain_text(text),
    ensures
        instantiation(text, bindings) == text,
{
    lemma_plain_from(text, bindings, 0);
    assert(text.subrange(0, text.len() as int) =~= text);
}

proof fn lemma_closed_from(text: Seq<char>, bindings: Seq<(Seq<char>, Seq<char>)>, from: int)
    requires
        0 <= from,
        closed_from(text, bindings, from),
        plain_values(bindings),
    ensures
        plain_text(instantiation_from(text, bindings, from)),
    decreases text.len() - from,
{
    if from < text.len() {
        if text[from] == '#' {
            let end = word_end(text, from + 1);
            lemma_word_end(text, from + 1);
            lemma_closed_from(text, bindings, end);
            let name = text.subrange(from + 1, end);
            lemma_bound_is_a_value(bindings, name, 0);
            let j = choose|j: int|
                0 <= j < bindings.len() && (#[trigger] bindings[j]).0 == name && bindings[j].1
                    == bound(bindings, name)->0;
            assert(plain_text(bindings[j].1));
        } else {
            lemma_closed_from(text, bindings, from + 1);
        }
    }
}

/// Where every `#` of a text starts a placeholder that is bound, and no
/// bound value holds a `#`, every placeholder is replaced: no `#` is left in
/// the instantiation.
pub proof fn lemma_every_placeholder_is_replaced(
    text: Seq<char>,
    bindings: Seq<(Seq<char>, Seq<char>)>,
)
    requires
        closed_from(text, bindings, 0),
        plain_values(bindings),
    ensures
        plain_text(instantiation(text, bindings)),
{
    lemma_closed_from(text, bindings, 0);
}

/// The characters of `text`, in order.
pub fn characters(text: &str) -> (r: Vec<char>)
    ensures
        r@ == text@,
{
    let mut out: Vec<char> = Vec::new();
    for c in it: text.chars()
        invariant
            it.seq() == text@,
            out@ == it.seq().take(it.index()),
    {
        out.push(c);
    }
    out
}

/// Whether `c` may stand in a placeholder's name.
pub fn word_char(c: char) -> (r: bool)
    ensures
        r == is_word(c),
{
    ('a' <= c && c <= 'z') || ('A' <= c && c <= 'Z') || ('0' <= c && c <= '9') || c == '_'
}

/// Whether the characters of `text` from `from` up to `to` spell `word`.
fn spells(text: &Vec<char>, from: usize, to: usize, word: &Vec<char>) -> (r: bool)
    requires
        from <= to <= text@.len(),
    ensures
        r == (text@.subrange(from as int, to as int) == word@),
{
    let ghost part = text@.subrange(from as int, to as int);
    if to - from != word.len() {
        return false;
    }
    let mut i: usize = 0;
    while i < word.len()
        invariant
            from <= to <= text@.len(),
            to - from == word@.len(),
            i <= word@.len(),
            part == text@.subrange(from as int, to as int),
            forall|j: int| 0 <= j < i ==> part[j] == word@[j],
        decreases word@.len() - i,
    {
        if text[from + i] != word[i] {
            assert(part[i as int] != word@[i as int]);
            return false;
        }
        i += 1;
    }
    assert(part =~= word@);
    true
}

/// The value of the first binding whose name the characters of `text` from
/// `from` up to `to` spell.
fn find_bound<'a>(
    text: &Vec<char>,
    from: usize,
    to: usize,
    bindings: &[(&str, &'a str)],
) -> (r: Option<&'a str>)
    requires
        from <= to <= text@.len(),
    ensures
        match r {
            Some(value) => bound(
                bindings_view(bindings@),
                text@.subrange(from as int, to as int),
            ) == Some(value@),
            None => bound(bindings_view(bindings@), text@.subrange(from as int, to as int))
                .is_none(),
        },
{
    let ghost view = bindings_view(bindings@);
    let ghost name = text@.subrange(from as int, to as int);
    let mut k: usize = 0;
    while k < bindings.len()
        invariant
            from <= to <= text@.len(),
            k <= bindings@.len(),
            view == bindings_view(bindings@),
            name == text@.subrange(from as int, to as int),
            bound(view, name) == bound_from(view, name, k as int),
        decreases bindings@.len() - k,
    {
        let candidate = characters(bindings[k].0);
        assert(view[k as int] == (bindings@[k as int].0@, bindings@[k as int].1@));
        if spells(text, from, to, &candidate) {
            return Some(bindings[k].1);
        }
        k += 1;
    }
    None
}

/// Instantiates `template` under `bindings`: every `#name` whose name is
/// bound is replaced by the value of the first binding so named, and all
/// other text is copied as it stands.
pub fn instantiate(template: &str, bindings: &[(&str, &str)]) -> (r: String)
    ensures
        r@ == instantiation(template@, bindings_view(bindings@)),
{
    let text = characters(template);
    let ghost view = bindings_view(bindings@);
    let n: usize = text.len();
    let mut out = String::new();
    // Text from `copied` up to `at` has been read and not yet written.
    let mut copied: usize = 0;
    let mut at: usize = 0;
    assert(out@ + text@.subrange(0, 0) + instantiation_from(text@, view, 0) =~= instantiation(
        text@,
        view,
    ));
    while at < n
        invariant
            text@ == template@,
            n == text@.len(),
            view == bindings_view(bindings@),
            copied <= at <= n,
            out@ + text@.subrange(copied as int, at as int) + instantiation_from(
                text@,
                view,
                at as int,
            ) == instantiation(text@, view),
        decreases n - at,
    {
        if text[at] == '#' {
            let mut end: usize = at + 1;
            while end < n && word_char(text[end])
                invariant
                    n == text@.len(),
                    at < end <= n,
                    word_end(text@, at + 1) == word_end(text@, end as int),
                decreases n - end,
            {
                end += 1;
            }
            let ghost rest = instantiation_from(text@, view, end as int);
            let ghost pending = text@.subrange(copied as int, at as int);
            let ghost before = out@;
            out.append(template.substring_char(copied, at));
            match find_bound(&text, at + 1, end, bindings) {
                Some(value) => {
                    out.append(value);
                    assert(out@ + text@.subrange(end as int, end as int) + rest =~= before
                        + pending + (value@ + rest)) by {
                        assert(out@ =~= before + pending + value@);
                    }
                    copied = end;
                },
                None => {
                    assert(before + pending + (text@.subrange(at as int, end as int) + rest)
                        =~= out@ + text@.subrange(at as int, end as int) + rest);
                    copied = at;
                },
            }
            at = end;
        } else {
            assert(text@.subrange(copied as int, at as int) + (seq![text@[at as int]]
                + instantiation_from(text@, view, at + 1)) =~= text@.subrange(
                copied as int,
                at + 1,
            ) + instantiation_from(text@, view, at + 1));
            at += 1;
        }
    }
    out.append(template.substring_char(copied, at));
    assert(out@ =~= instantiation(text@, view));
    out
}

} // verus!
