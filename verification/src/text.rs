//! Small operations on text.

use vstd::prelude::*;
use vstd::string::StringExecFns;

verus! {

/// What a list of strings says.
pub open spec fn texts(list: Seq<String>) -> Seq<Seq<char>> {
    list.map_values(|s: String| s@)
}

/// What an optional string says.
pub open spec fn optional_text(s: Option<String>) -> Option<Seq<char>> {
    match s {
        Some(t) => Some(t@),
        None => None,
    }
}

/// The texts one after the other, with `separator` between any two neighbours.
pub open spec fn joined(parts: Seq<Seq<char>>, separator: Seq<char>) -> Seq<char>
    decreases parts.len(),
{
    if parts.len() == 0 {
        Seq::empty()
    } else if parts.len() == 1 {
        parts[0]
    } else {
        joined(parts.drop_last(), separator) + (separator + parts.last())
    }
}

/// Joins texts with a separator.
pub fn join(parts: &Vec<String>, separator: &str) -> (r: String)
    ensures
        r@ == joined(texts(parts@), separator@),
{
    let mut r = String::new();
    let mut i: usize = 0;
    while i < parts.len()
        invariant
            i <= parts@.len(),
            r@ == joined(texts(parts@).take(i as int), separator@),
        decreases parts@.len() - i,
    {
        let ghost upto = texts(parts@).take(i as int + 1);
        assert(upto.drop_last() =~= texts(parts@).take(i as int));
        assert(upto.last() == parts@[i as int]@);
        if i > 0 {
            r.append(separator);
        }
        r.append(parts[i].as_str());
        assert(r@ =~= joined(upto, separator@));
        i = i + 1;
    }
    assert(texts(parts@).take(i as int) =~= texts(parts@));
    r
}

/// Three texts one after the other.
pub fn concat3(first: &str, second: &str, third: &str) -> (r: String)
    ensures
        r@ == first@ + second@ + third@,
{
    let mut r = first.to_owned();
    r.append(second);
    r.append(third);
    r
}

/// Whether two texts say the same.
pub fn same_text(a: &str, b: &str) -> (r: bool)
    ensures
        r == (a@ == b@),
{
    a.to_owned() == b.to_owned()
}

/// The value, or a text in its place.
pub fn text_or(value: Option<String>, default: &str) -> (r: String)
    ensures
        r@ == match value {
            Some(t) => t@,
            None => default@,
        },
{
    match value {
        Some(t) => t,
        None => default.to_owned(),
    }
}

/// What a list of strings says is what each of them says, in the same order.
pub proof fn law_texts(list: Seq<String>)
    ensures
        texts(list).len() == list.len(),
        forall|i: int| 0 <= i < list.len() ==> #[trigger] texts(list)[i] == list[i]@,
{
}

/// An optional string says what the string says if there is one, and nothing if there is none.
pub proof fn law_optional_text(s: String)
    ensures
        optional_text(Some(s)) == Some(s@),
        optional_text(None) == None::<Seq<char>>,
{
}

/// Joining no texts gives nothing, and joining one gives that text, whatever the separator.
pub proof fn law_join_of_few(part: Seq<char>, separator: Seq<char>)
    ensures
        joined(Seq::empty(), separator) == Seq::<char>::empty(),
        joined(seq![part], separator) == part,
{
}

/// Joining two lists that follow one another gives what joining each of them gives, with one
/// separator between.
pub proof fn law_join_of_two_lists(
    first: Seq<Seq<char>>,
    second: Seq<Seq<char>>,
    separator: Seq<char>,
)
    requires
        first.len() > 0,
        second.len() > 0,
    ensures
        joined(first + second, separator) == joined(first, separator) + separator + joined(
            second,
            separator,
        ),
    decreases second.len(),
{
    let both = first + second;
    assert(both.last() == second.last());
    assert(both.drop_last() =~= first + second.drop_last());
    if second.len() == 1 {
        assert(second.drop_last() =~= Seq::empty());
        assert(both.drop_last() =~= first);
        assert(joined(second, separator) == second.last());
    } else {
        law_join_of_two_lists(first, second.drop_last(), separator);
    }
    assert(joined(both, separator) =~= joined(first, separator) + separator + joined(
        second,
        separator,
    ));
}

/// The pieces of a text between the separators in it: one more than there are separators.
pub open spec fn pieces(text: Seq<char>, separator: char) -> Seq<Seq<char>>
    decreases text.len(),
{
    if text.len() == 0 {
        seq![Seq::empty()]
    } else {
        let front = pieces(text.drop_last(), separator);
        if text.last() == separator {
            front.push(Seq::empty())
        } else {
            front.drop_last().push(front.last().push(text.last()))
        }
    }
}

/// A text without separators behind another one makes the last piece longer.
proof fn lemma_pieces_of_longer_text(text: Seq<char>, more: Seq<char>, separator: char)
    requires
        !more.contains(separator),
    ensures
        pieces(text, separator).len() > 0,
        pieces(text + more, separator) == pieces(text, separator).drop_last().push(
            pieces(text, separator).last() + more,
        ),
    decreases text.len() + more.len(),
{
    if more.len() == 0 {
        if text.len() > 0 {
            lemma_pieces_of_longer_text(text.drop_last(), Seq::empty(), separator);
        }
        assert(text + more =~= text);
        assert(pieces(text, separator).last() + more =~= pieces(text, separator).last());
        assert(pieces(text, separator).drop_last().push(pieces(text, separator).last())
            =~= pieces(text, separator));
    } else {
        let front = more.drop_last();
        assert(!front.contains(separator)) by {
            if front.contains(separator) {
                let i = choose|i: int| 0 <= i < front.len() && front[i] == separator;
                assert(more[i] == separator);
            }
        }
        lemma_pieces_of_longer_text(text, front, separator);
        assert((text + more).drop_last() =~= text + front);
        assert(more[more.len() - 1] != separator);
        let before = pieces(text, separator).drop_last();
        let last = pieces(text, separator).last();
        assert(before.push(last + front).drop_last() =~= before);
        assert((last + front).push(more.last()) =~= last + more);
    }
}

/// Joining loses nothing: cut at the separators, a joined text gives the texts that were joined,
/// each once and in order, if none of them holds the separator.
pub proof fn law_joined_texts_come_apart(parts: Seq<Seq<char>>, separator: char)
    requires
        parts.len() > 0,
        forall|i: int| 0 <= i < parts.len() ==> !(#[trigger] parts[i]).contains(separator),
    ensures
        pieces(joined(parts, seq![separator]), separator) == parts,
    decreases parts.len(),
{
    let last = parts.last();
    assert(last == parts[parts.len() - 1]);
    if parts.len() == 1 {
        lemma_pieces_of_longer_text(Seq::empty(), last, separator);
        assert(Seq::<char>::empty() + last =~= last);
        assert(pieces(last, separator) =~= parts);
    } else {
        let front = parts.drop_last();
        assert forall|i: int| 0 <= i < front.len() implies !(#[trigger] front[i]).contains(
            separator,
        ) by {
            assert(front[i] == parts[i]);
        }
        law_joined_texts_come_apart(front, separator);
        let text = joined(front, seq![separator]);
        assert(text.push(separator).drop_last() =~= text);
        assert(pieces(text.push(separator), separator) == front.push(Seq::empty()));
        lemma_pieces_of_longer_text(text.push(separator), last, separator);
        assert(joined(parts, seq![separator]) =~= text.push(separator) + last);
        assert(front.push(Seq::<char>::empty()).drop_last() =~= front);
        assert(Seq::<char>::empty() + last =~= last);
        assert(front.push(last) =~= parts);
    }
}

} // verus!
